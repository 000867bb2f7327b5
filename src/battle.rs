use std::collections::BTreeMap;
use vstd::prelude::*;

use crate::attack::struck;
use crate::random::{bounded, coinflip};
use crate::types::{
    ActorId, AttributeId, AttributesPerRound, BattleError, BattleEvent, BattleState,
    DirectionOfMovement, Entropy, Funding, Notification, OutcomeModel, PendingRegistration,
    Player, PowerTmg, ProtectionTmg, ReservationId, TamagotchiId, WakeUp,
};

verus! {

/// Upper end of the power draw.
pub const MAX_POWER: u16 = 5_000;

/// Lower end of the power draw.
pub const MIN_POWER: u16 = 3_000;

/// Upper end of the energy draw.
pub const MAX_ENERGY: u16 = 10_000;

/// Lower end of the energy draw.
pub const MIN_ENERGY: u16 = 20_000;

/// Gas granted to the wake-up message when no voucher is left.
pub const GAS_AMOUNT: u64 = 10_000_000_000;

/// Blocks between the end of a round and the wake-up that starts the next one.
pub const TIME_FOR_UPDATE: u32 = 10;

/// A round ends with the move that takes `steps` past this limit.
pub const MAX_STEPS_FOR_ROUND: u8 = 4;

pub const SWORD_TMG: PowerTmg = 2;

pub const SWORD_ID: AttributeId = 1;

pub const SWORD_TMG_WOOD: PowerTmg = 1;

pub const SWORD_WOOD_ID: AttributeId = 2;

pub const SHOTGUN_POWER: PowerTmg = 6;

pub const SHOTGUN_ID: AttributeId = 3;

pub const RPG_POWER: PowerTmg = 10;

pub const RPG_ID: AttributeId = 4;

pub const SHIELD: ProtectionTmg = 3_500;

pub const SHIELD_ID: AttributeId = 5;

/// The battle aggregate: the two players, the phase, the attribute tables and
/// the pool of prepaid vouchers.
///
/// `players` holds the players in turn order, `current_turn` indexes the one
/// to move, `steps` counts the moves of the current round, `winner` is the
/// piece that won the last game.
#[derive(Clone, Debug, Default)]
pub struct Battle {
    pub players: Vec<Player>,
    pub state: BattleState,
    pub current_turn: u8,
    pub tmg_store_id: ActorId,
    pub winner: TamagotchiId,
    pub steps: u8,
    pub weapons_data: BTreeMap<AttributeId, PowerTmg>,
    pub shields_data: BTreeMap<AttributeId, ProtectionTmg>,
    pub reservations: Vec<ReservationId>,
}

/// The mathematical content of a [`Battle`].
pub struct BattleModel {
    pub players: Seq<Player>,
    pub state: BattleState,
    pub current_turn: u8,
    pub tmg_store_id: ActorId,
    pub winner: TamagotchiId,
    pub steps: u8,
    pub weapons: Map<AttributeId, PowerTmg>,
    pub shields: Map<AttributeId, ProtectionTmg>,
    pub reservations: Seq<ReservationId>,
}

impl View for Battle {
    type V = BattleModel;

    open spec fn view(&self) -> BattleModel {
        BattleModel {
            players: self.players@,
            state: self.state,
            current_turn: self.current_turn,
            tmg_store_id: self.tmg_store_id,
            winner: self.winner,
            steps: self.steps,
            weapons: self.weapons_data@,
            shields: self.shields_data@,
            reservations: self.reservations@,
        }
    }
}

impl BattleModel {
    /// The invariant of the aggregate.
    ///
    /// At most two players; fewer than two while registering, exactly two
    /// while moving or waiting, none once the game is over. The step counter
    /// stays within the round limit and is zero outside `Moves`. Every
    /// registered player has energy left, and no slot has moved past one
    /// more than the steps taken in the round.
    pub open spec fn wf(self) -> bool {
        &&& self.players.len() <= 2
        &&& self.steps <= MAX_STEPS_FOR_ROUND
        &&& self.state == BattleState::Registration ==> self.players.len() < 2 && self.steps == 0
        &&& (self.state == BattleState::Moves || self.state == BattleState::Waiting)
            ==> self.players.len() == 2 && self.current_turn < 2
        &&& self.state == BattleState::Waiting ==> self.steps == 0
        &&& self.state == BattleState::GameIsOver ==> self.players.len() == 0 && self.steps == 0
        &&& forall|i: int|
            0 <= i < self.players.len() ==> #[trigger] self.players[i].energy > 0
                && self.players[i].actual_attribute <= 1 + self.steps
    }
}

impl Battle {
    pub open spec fn wf(&self) -> bool {
        self@.wf()
    }
}

/// The weapon table the engine starts with.
pub open spec fn initial_weapons() -> Map<AttributeId, PowerTmg> {
    map![
        SWORD_ID => SWORD_TMG,
        SWORD_WOOD_ID => SWORD_TMG_WOOD,
        SHOTGUN_ID => SHOTGUN_POWER,
        RPG_ID => RPG_POWER,
    ]
}

/// The shield table the engine starts with.
pub open spec fn initial_shields() -> Map<AttributeId, ProtectionTmg> {
    map![SHIELD_ID => SHIELD]
}

/// The index of the player who is not `turn`.
pub open spec fn other(turn: u8) -> u8 {
    if turn == 0 {
        1
    } else {
        0
    }
}

/// The first phase of `Register`: allowed only while registering; it asks
/// the piece contract for the owner of `tmg_id`.
pub open spec fn registration_request(
    s: BattleModel,
    tmg_id: TamagotchiId,
    attributes: AttributesPerRound,
) -> Result<PendingRegistration, BattleError> {
    if s.state != BattleState::Registration {
        Err(BattleError::InvalidState)
    } else {
        Ok(PendingRegistration { tmg_id, attributes })
    }
}

/// The player that a registration admits: power `MAX_POWER` less a draw in
/// `MIN_POWER..MAX_POWER`, energy `MAX_ENERGY` less a draw in
/// `MIN_ENERGY..MAX_ENERGY`, facing left on an even coin flip and right on an
/// odd one, at slot 1.
pub open spec fn admitted_player(pending: PendingRegistration, owner: ActorId, e: Entropy) -> Player {
    Player {
        owner,
        tmg_id: pending.tmg_id,
        energy: (MAX_ENERGY - bounded(e, MIN_ENERGY, MAX_ENERGY)) as u16,
        power: (MAX_POWER - bounded(e, MIN_POWER, MAX_POWER)) as u16,
        attributes: pending.attributes,
        actual_attribute: 1,
        actual_side: if coinflip(e) == 0 {
            DirectionOfMovement::Left
        } else {
            DirectionOfMovement::Right
        },
    }
}

/// The second phase of `Register`, once the owner is known: the player is
/// appended; with the second player the turn is drawn and the moves begin.
pub open spec fn registration(
    s: BattleModel,
    pending: PendingRegistration,
    owner: ActorId,
    e: Entropy,
) -> Result<(BattleModel, BattleEvent), BattleError> {
    if s.state != BattleState::Registration {
        Err(BattleError::InvalidState)
    } else {
        let players = s.players.push(admitted_player(pending, owner, e));
        let reply = BattleEvent::Registered { tmg_id: pending.tmg_id };
        if players.len() == 2 {
            Ok(
                (
                    BattleModel {
                        players,
                        current_turn: coinflip(e),
                        state: BattleState::Moves,
                        ..s
                    },
                    reply,
                ),
            )
        } else {
            Ok((BattleModel { players, ..s }, reply))
        }
    }
}

/// The mover of a `Move` by the player at `turn`: one slot further, facing
/// `direction`.
pub open spec fn advanced(p: Player, direction: DirectionOfMovement) -> Player {
    Player { actual_attribute: (p.actual_attribute + 1) as u8, actual_side: direction, ..p }
}

/// `p` back at slot 1.
pub open spec fn rewound(p: Player) -> Player {
    Player { actual_attribute: 1, ..p }
}

/// `Move`: allowed only in `Moves` and only to the owner of the player whose
/// turn it is. The mover advances its slot and turns to `direction`, then
/// strikes the other player. A dodge notifies the mover's owner. A defender
/// left without energy ends the game at once; otherwise the step is counted,
/// and the turn passes while the round lasts. The move that takes the round
/// past its limit rewinds both slots, enters `Waiting`, and schedules the
/// wake-up, paid from the newest voucher or, with none left, by a gas grant.
pub open spec fn move_transition(
    s: BattleModel,
    caller: ActorId,
    direction: DirectionOfMovement,
) -> Result<(BattleModel, OutcomeModel), BattleError> {
    if s.state != BattleState::Moves {
        Err(BattleError::InvalidState)
    } else if s.players[s.current_turn as int].owner != caller {
        Err(BattleError::Unauthorized)
    } else {
        let turn = s.current_turn;
        let next = other(turn);
        let mover = advanced(s.players[turn as int], direction);
        let defender = s.players[next as int];
        let hit = struck(s.weapons, s.shields, mover, defender);
        let dodges = if mover.actual_side != defender.actual_side {
            seq![Notification { to: mover.owner, event: BattleEvent::OpponentDodgedTheAttack }]
        } else {
            Seq::<Notification>::empty()
        };
        if hit.energy == 0 {
            Ok(
                (
                    BattleModel {
                        players: Seq::<Player>::empty(),
                        state: BattleState::GameIsOver,
                        winner: mover.tmg_id,
                        steps: 0,
                        ..s
                    },
                    OutcomeModel {
                        reply: Some(BattleEvent::GameIsOver),
                        notifications: dodges.push(
                            Notification { to: defender.owner, event: BattleEvent::GameIsOver },
                        ),
                        wake_up: None,
                    },
                ),
            )
        } else if s.steps < MAX_STEPS_FOR_ROUND {
            Ok(
                (
                    BattleModel {
                        players: s.players.update(turn as int, mover).update(next as int, hit),
                        steps: (s.steps + 1) as u8,
                        current_turn: next,
                        ..s
                    },
                    OutcomeModel {
                        reply: Some(BattleEvent::MoveMade),
                        notifications: dodges,
                        wake_up: None,
                    },
                ),
            )
        } else {
            let funding = if s.reservations.len() > 0 {
                Funding::Reservation(s.reservations.last())
            } else {
                Funding::Gas(GAS_AMOUNT)
            };
            let reservations = if s.reservations.len() > 0 {
                s.reservations.drop_last()
            } else {
                s.reservations
            };
            Ok(
                (
                    BattleModel {
                        players: s.players.update(turn as int, rewound(mover)).update(
                            next as int,
                            rewound(hit),
                        ),
                        steps: 0,
                        state: BattleState::Waiting,
                        reservations,
                        ..s
                    },
                    OutcomeModel {
                        reply: Some(BattleEvent::GoToWaitingState),
                        notifications: dodges.push(
                            Notification {
                                to: defender.owner,
                                event: BattleEvent::GoToWaitingState,
                            },
                        ),
                        wake_up: Some(WakeUp { funding, delay: TIME_FOR_UPDATE }),
                    },
                ),
            )
        }
    }
}

/// `SendNewAttributesToNextRound`: allowed only in `Waiting`; the caller's
/// player (the first one the caller owns) takes the new attributes.
pub open spec fn attributes_update(
    s: BattleModel,
    caller: ActorId,
    new_attributes: AttributesPerRound,
) -> Result<BattleModel, BattleError> {
    if s.state != BattleState::Waiting {
        Err(BattleError::InvalidState)
    } else if s.players[0].owner == caller {
        Ok(
            BattleModel {
                players: s.players.update(0, Player { attributes: new_attributes, ..s.players[0] }),
                ..s
            },
        )
    } else if s.players[1].owner == caller {
        Ok(
            BattleModel {
                players: s.players.update(1, Player { attributes: new_attributes, ..s.players[1] }),
                ..s
            },
        )
    } else {
        Err(BattleError::Unauthorized)
    }
}

/// `UpdateInfo`: allowed only to the engine itself, and only in `Waiting`;
/// the moves resume with a newly drawn turn and both owners are told.
pub open spec fn wake_up_transition(
    s: BattleModel,
    caller: ActorId,
    program_id: ActorId,
    e: Entropy,
) -> Result<(BattleModel, OutcomeModel), BattleError> {
    if caller != program_id {
        Err(BattleError::Unauthorized)
    } else if s.state != BattleState::Waiting {
        Err(BattleError::InvalidState)
    } else {
        Ok(
            (
                BattleModel { state: BattleState::Moves, current_turn: coinflip(e), ..s },
                OutcomeModel {
                    reply: None,
                    notifications: seq![
                        Notification { to: s.players[0].owner, event: BattleEvent::InfoUpdated },
                        Notification { to: s.players[1].owner, event: BattleEvent::InfoUpdated },
                    ],
                    wake_up: None,
                },
            ),
        )
    }
}

/// `ReserveGas`: the new voucher goes on top of the pool.
pub open spec fn reservation(s: BattleModel, id: ReservationId) -> BattleModel {
    BattleModel { reservations: s.reservations.push(id), ..s }
}

/// `StartNewGame`: allowed only once the game is over; registration starts
/// again with no players, and the tables and the pool are kept.
pub open spec fn restart(s: BattleModel) -> Result<BattleModel, BattleError> {
    if s.state != BattleState::GameIsOver {
        Err(BattleError::InvalidState)
    } else {
        Ok(BattleModel { state: BattleState::Registration, players: Seq::<Player>::empty(), ..s })
    }
}

} // verus!
