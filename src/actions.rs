use std::collections::BTreeMap;
use vstd::prelude::*;

use crate::battle::{
    attributes_update, initial_shields, initial_weapons, move_transition, registration,
    registration_request, reservation, restart, wake_up_transition, Battle, BattleModel, GAS_AMOUNT, MAX_ENERGY, MAX_POWER, MAX_STEPS_FOR_ROUND, MIN_ENERGY,
    MIN_POWER, RPG_ID, RPG_POWER, SHIELD, SHIELD_ID, SHOTGUN_ID, SHOTGUN_POWER, SWORD_ID,
    SWORD_TMG, SWORD_TMG_WOOD, SWORD_WOOD_ID, TIME_FOR_UPDATE,
};
use crate::types::{
    ActorId, AttributeId, AttributesPerRound, BattleError, BattleEvent, BattleState,
    DirectionOfMovement, Entropy, Funding, Notification, Outcome, PendingRegistration, Player,
    PowerTmg, ProtectionTmg, ReservationId, TamagotchiId, WakeUp,
};

verus! {

impl Battle {
    /// Whether the aggregate satisfies its invariant, which every handler
    /// requires; a battle built by `new` and changed only by the handlers
    /// always does.
    pub fn is_well_formed(&self) -> (r: bool)
        ensures
            r == self.wf(),
    {
        let n = self.players.len();
        if n > 2 || self.steps > MAX_STEPS_FOR_ROUND {
            return false;
        }
        let phase_ok = match self.state {
            BattleState::Registration => n < 2 && self.steps == 0,
            BattleState::Moves => n == 2 && self.current_turn < 2,
            BattleState::Waiting => n == 2 && self.current_turn < 2 && self.steps == 0,
            BattleState::GameIsOver => n == 0 && self.steps == 0,
        };
        if !phase_ok {
            return false;
        }
        let mut i: usize = 0;
        while i < n
            invariant
                n == self.players.len(),
                i <= n,
                self.steps <= MAX_STEPS_FOR_ROUND,
                forall|j: int|
                    0 <= j < i ==> #[trigger] self.players@[j].energy > 0
                        && self.players@[j].actual_attribute <= 1 + self.steps,
            decreases n - i,
        {
            let p = &self.players[i];
            if p.energy == 0 || p.actual_attribute as u16 > 1 + self.steps as u16 {
                return false;
            }
            i = i + 1;
        }
        true
    }

    /// A battle in registration, with no players, the weapon and shield
    /// tables loaded and an empty reservation pool.
    pub fn new(tmg_store_id: ActorId) -> (r: Battle)
        ensures
            r.wf(),
            r@.players.len() == 0,
            r@.state == BattleState::Registration,
            r@.current_turn == 0,
            r@.steps == 0,
            r@.tmg_store_id == tmg_store_id,
            forall|i: int| 0 <= i < 32 ==> #[trigger] r@.winner.0[i] == 0u8,
            r@.weapons == initial_weapons(),
            r@.shields == initial_shields(),
            r@.reservations.len() == 0,
    {
        let mut weapons_data: BTreeMap<AttributeId, PowerTmg> = BTreeMap::new();
        weapons_data.insert(SWORD_ID, SWORD_TMG);
        weapons_data.insert(SWORD_WOOD_ID, SWORD_TMG_WOOD);
        weapons_data.insert(SHOTGUN_ID, SHOTGUN_POWER);
        weapons_data.insert(RPG_ID, RPG_POWER);
        let mut shields_data: BTreeMap<AttributeId, ProtectionTmg> = BTreeMap::new();
        shields_data.insert(SHIELD_ID, SHIELD);
        assert(weapons_data@ =~= initial_weapons());
        assert(shields_data@ =~= initial_shields());
        Battle {
            players: Vec::new(),
            state: BattleState::Registration,
            current_turn: 0,
            tmg_store_id,
            winner: ActorId::zero(),
            steps: 0,
            weapons_data,
            shields_data,
            reservations: Vec::new(),
        }
    }

    /// The first phase of `Register`: checks the phase and returns what the
    /// owner query for `tmg_id` must carry to resume.
    pub fn initiate_registration(&self, tmg_id: &TamagotchiId, attributes: AttributesPerRound) -> (r:
        Result<PendingRegistration, BattleError>)
        ensures
            r == registration_request(self@, *tmg_id, attributes),
    {
        if self.state != BattleState::Registration {
            return Err(BattleError::InvalidState);
        }
        Ok(PendingRegistration { tmg_id: *tmg_id, attributes })
    }

    /// The second phase of `Register`, with the owner that the piece contract
    /// named and the execution's entropy.
    pub fn complete_registration(
        &mut self,
        pending: PendingRegistration,
        owner: ActorId,
        entropy: &Entropy,
    ) -> (r: Result<BattleEvent, BattleError>)
        requires
            old(self).wf(),
        ensures
            final(self).wf(),
            match r {
                Ok(event) => registration(old(self)@, pending, owner, *entropy) == Ok::<
                    (BattleModel, BattleEvent),
                    BattleError,
                >((final(self)@, event)),
                Err(e) => registration(old(self)@, pending, owner, *entropy) == Err::<
                    (BattleModel, BattleEvent),
                    BattleError,
                >(e) && final(self)@ == old(self)@,
            },
    {
        if self.state != BattleState::Registration {
            return Err(BattleError::InvalidState);
        }
        let power = Self::generate_random_number_field(entropy, MIN_POWER, MAX_POWER);
        let power = MAX_POWER - power;
        let energy = Self::generate_random_number_field(entropy, MIN_ENERGY, MAX_ENERGY);
        let energy = MAX_ENERGY - energy;
        let random_position = Self::determine_turn(entropy);
        let actual_side = if random_position == 0 {
            DirectionOfMovement::Left
        } else {
            DirectionOfMovement::Right
        };
        let player = Player {
            owner,
            tmg_id: pending.tmg_id,
            energy,
            power,
            attributes: pending.attributes,
            actual_attribute: 1,
            actual_side,
        };
        self.players.push(player);
        if self.players.len() == 2 {
            self.current_turn = Self::determine_turn(entropy);
            self.state = BattleState::Moves;
        }
        Ok(BattleEvent::Registered { tmg_id: pending.tmg_id })
    }

    /// `Move` by `caller` towards `direction`.
    pub fn execute_move(&mut self, caller: ActorId, direction: DirectionOfMovement) -> (r: Result<
        Outcome,
        BattleError,
    >)
        requires
            old(self).wf(),
        ensures
            final(self).wf(),
            match r {
                Ok(out) => move_transition(old(self)@, caller, direction) == Ok::<
                    (BattleModel, crate::types::OutcomeModel),
                    BattleError,
                >((final(self)@, out@)),
                Err(e) => move_transition(old(self)@, caller, direction) == Err::<
                    (BattleModel, crate::types::OutcomeModel),
                    BattleError,
                >(e) && final(self)@ == old(self)@,
            },
    {
        if self.state != BattleState::Moves {
            return Err(BattleError::InvalidState);
        }
        let turn = self.current_turn as usize;
        let next_turn: usize = if turn == 0 {
            1
        } else {
            0
        };
        let mut player = self.players[turn];
        if player.owner != caller {
            return Err(BattleError::Unauthorized);
        }
        let opponent = self.players[next_turn];
        player.actual_attribute = player.actual_attribute + 1;
        player.actual_side = direction;
        let (hit, dodged) = self.resolve_step(&player, &opponent);
        let mut notifications: Vec<Notification> = Vec::new();
        if dodged {
            notifications.push(
                Notification { to: player.owner, event: BattleEvent::OpponentDodgedTheAttack },
            );
        }
        if hit.energy == 0 {
            self.players = Vec::new();
            self.state = BattleState::GameIsOver;
            self.winner = player.tmg_id;
            self.steps = 0;
            notifications.push(Notification { to: opponent.owner, event: BattleEvent::GameIsOver });
            return Ok(
                Outcome { reply: Some(BattleEvent::GameIsOver), notifications, wake_up: None },
            );
        }
        if self.steps < MAX_STEPS_FOR_ROUND {
            self.players.set(turn, player);
            self.players.set(next_turn, hit);
            self.steps = self.steps + 1;
            self.current_turn = next_turn as u8;
            return Ok(Outcome { reply: Some(BattleEvent::MoveMade), notifications, wake_up: None });
        }
        self.players.set(turn, Player { actual_attribute: 1, ..player });
        self.players.set(next_turn, Player { actual_attribute: 1, ..hit });
        self.steps = 0;
        self.state = BattleState::Waiting;
        let funding = match self.reservations.pop() {
            Some(reservation_id) => Funding::Reservation(reservation_id),
            None => Funding::Gas(GAS_AMOUNT),
        };
        notifications.push(Notification { to: opponent.owner, event: BattleEvent::GoToWaitingState });
        Ok(
            Outcome {
                reply: Some(BattleEvent::GoToWaitingState),
                notifications,
                wake_up: Some(WakeUp { funding, delay: TIME_FOR_UPDATE }),
            },
        )
    }

    /// `SendNewAttributesToNextRound` by `caller`.
    pub fn update_tamagotchi_attributes(
        &mut self,
        caller: ActorId,
        new_attributes: AttributesPerRound,
    ) -> (r: Result<BattleEvent, BattleError>)
        requires
            old(self).wf(),
        ensures
            final(self).wf(),
            match r {
                Ok(event) => event == BattleEvent::AttributesUpdated && attributes_update(
                    old(self)@,
                    caller,
                    new_attributes,
                ) == Ok::<BattleModel, BattleError>(final(self)@),
                Err(e) => attributes_update(old(self)@, caller, new_attributes) == Err::<
                    BattleModel,
                    BattleError,
                >(e) && final(self)@ == old(self)@,
            },
    {
        if self.state != BattleState::Waiting {
            return Err(BattleError::InvalidState);
        }
        if self.players[0].owner == caller {
            let player = Player { attributes: new_attributes, ..self.players[0] };
            self.players.set(0, player);
        } else if self.players[1].owner == caller {
            let player = Player { attributes: new_attributes, ..self.players[1] };
            self.players.set(1, player);
        } else {
            return Err(BattleError::Unauthorized);
        }
        Ok(BattleEvent::AttributesUpdated)
    }

    /// `UpdateInfo`, delivered by `caller` to the engine whose own identity is
    /// `program_id`.
    pub fn update_game_info(&mut self, caller: ActorId, program_id: ActorId, entropy: &Entropy) -> (r:
        Result<Outcome, BattleError>)
        requires
            old(self).wf(),
        ensures
            final(self).wf(),
            match r {
                Ok(out) => wake_up_transition(old(self)@, caller, program_id, *entropy) == Ok::<
                    (BattleModel, crate::types::OutcomeModel),
                    BattleError,
                >((final(self)@, out@)),
                Err(e) => wake_up_transition(old(self)@, caller, program_id, *entropy) == Err::<
                    (BattleModel, crate::types::OutcomeModel),
                    BattleError,
                >(e) && final(self)@ == old(self)@,
            },
    {
        if caller != program_id {
            return Err(BattleError::Unauthorized);
        }
        if self.state != BattleState::Waiting {
            return Err(BattleError::InvalidState);
        }
        self.state = BattleState::Moves;
        self.current_turn = Self::determine_turn(entropy);
        let mut notifications: Vec<Notification> = Vec::new();
        notifications.push(Notification { to: self.players[0].owner, event: BattleEvent::InfoUpdated });
        notifications.push(Notification { to: self.players[1].owner, event: BattleEvent::InfoUpdated });
        let out = Outcome { reply: None, notifications, wake_up: None };
        assert(out@.notifications =~= seq![
            Notification { to: old(self)@.players[0].owner, event: BattleEvent::InfoUpdated },
            Notification { to: old(self)@.players[1].owner, event: BattleEvent::InfoUpdated },
        ]);
        Ok(out)
    }

    /// `ReserveGas`, once the host has made the reservation `reservation_id`:
    /// the voucher goes on top of the pool, in any phase.
    pub fn initiate_reservation(&mut self, reservation_id: ReservationId) -> (r: BattleEvent)
        requires
            old(self).wf(),
        ensures
            final(self).wf(),
            final(self)@ == reservation(old(self)@, reservation_id),
            r == BattleEvent::GasReserved,
    {
        self.reservations.push(reservation_id);
        BattleEvent::GasReserved
    }

    /// `StartNewGame`.
    pub fn reset_game(&mut self) -> (r: Result<BattleEvent, BattleError>)
        requires
            old(self).wf(),
        ensures
            final(self).wf(),
            match r {
                Ok(event) => event == BattleEvent::ContractReinstated && restart(old(self)@) == Ok::<
                    BattleModel,
                    BattleError,
                >(final(self)@),
                Err(e) => restart(old(self)@) == Err::<BattleModel, BattleError>(e) && final(self)@
                    == old(self)@,
            },
    {
        if self.state != BattleState::GameIsOver {
            return Err(BattleError::InvalidState);
        }
        self.state = BattleState::Registration;
        self.players = Vec::new();
        Ok(BattleEvent::ContractReinstated)
    }
}

} // verus!
