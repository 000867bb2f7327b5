use vstd::prelude::*;

verus! {

/// The identity of an actor (a player's account, a piece, or the engine itself).
#[derive(Clone, Copy, Debug, Default)]
pub struct ActorId(pub [u8; 32]);

impl ActorId {
    pub fn new(bytes: [u8; 32]) -> (r: ActorId)
        ensures
            r.0 == bytes,
    {
        ActorId(bytes)
    }

    pub fn zero() -> (r: ActorId)
        ensures
            forall|i: int| 0 <= i < 32 ==> #[trigger] r.0[i] == 0u8,
    {
        ActorId([0u8; 32])
    }
}

impl PartialEq for ActorId {
    fn eq(&self, other: &ActorId) -> (r: bool) {
        let mut i: usize = 0;
        while i < 32
            invariant
                0 <= i <= 32,
                forall|j: int| 0 <= j < i ==> self.0[j] == other.0[j],
            decreases 32 - i,
        {
            if self.0[i] != other.0[i] {
                return false;
            }
            i = i + 1;
        }
        assert(self.0 =~= other.0);
        true
    }
}

impl vstd::std_specs::cmp::PartialEqSpecImpl for ActorId {
    open spec fn obeys_eq_spec() -> bool {
        true
    }

    open spec fn eq_spec(&self, other: &ActorId) -> bool {
        *self == *other
    }
}

impl Eq for ActorId {
}


/// The identity of a piece taking part in a battle.
pub type TamagotchiId = ActorId;

/// The identifier of an attribute (a weapon or a shield).
pub type AttributeId = u32;

/// A weapon's power multiplier.
pub type PowerTmg = u16;

/// A shield's flat damage reduction.
pub type ProtectionTmg = u16;

/// The prepaid voucher that a host reservation hands out.
#[derive(Clone, Copy, Debug, PartialEq, Eq)]
pub struct ReservationId(pub [u8; 32]);

/// The attribute a piece equips in each of the three slots of a round.
#[derive(Clone, Copy, Debug, Default, PartialEq, Eq, Structural)]
pub struct AttributesPerRound {
    pub round_1: Option<AttributeId>,
    pub round_2: Option<AttributeId>,
    pub round_3: Option<AttributeId>,
}

/// The side a piece faces; an attack connects only when both face the same side.
#[derive(Clone, Copy, Debug, Default, PartialEq, Eq, Structural)]
pub enum DirectionOfMovement {
    #[default]
    Right,
    Left,
}

/// The phase of a battle.
#[derive(Clone, Copy, Debug, Default, PartialEq, Eq, Structural)]
pub enum BattleState {
    #[default]
    Registration,
    Moves,
    Waiting,
    GameIsOver,
}

/// A registered participant.
///
/// `tmg_id` is the piece, `owner` the account that moves it, `actual_attribute`
/// the slot (1 to 3) of `attributes` in use, `actual_side` the side it faces.
#[derive(Clone, Copy, Debug, Default)]
pub struct Player {
    pub owner: ActorId,
    pub tmg_id: TamagotchiId,
    pub energy: u16,
    pub power: u16,
    pub attributes: AttributesPerRound,
    pub actual_attribute: u8,
    pub actual_side: DirectionOfMovement,
}

/// The inbound actions of the engine.
#[derive(Clone, Copy, Debug)]
pub enum BattleAction {
    Register { tamagotchi_id: TamagotchiId, attributes: AttributesPerRound },
    Move(DirectionOfMovement),
    UpdateInfo,
    StartNewGame,
    SendNewAttributesToNextRound { new_attributes: AttributesPerRound },
    ReserveGas { reservation_amount: u64, duration: u32 },
}

/// Replies and notifications.
#[derive(Clone, Copy, Debug, Default, PartialEq, Eq)]
pub enum BattleEvent {
    #[default]
    InfoUpdated,
    MoveMade,
    GoToWaitingState,
    GameIsOver,
    Registered { tmg_id: TamagotchiId },
    AttributesUpdated,
    ContractReinstated,
    GasReserved,
    OpponentDodgedTheAttack,
}

/// Why an action was refused; a refused action changes nothing.
#[derive(Clone, Copy, Debug, PartialEq, Eq, Structural)]
pub enum BattleError {
    /// The action is not allowed in the current phase.
    InvalidState,
    /// The caller is not the party entitled to the action.
    Unauthorized,
}

/// The configuration the engine is created with.
#[derive(Clone, Copy, Debug, Default)]
pub struct BattleInit {
    pub tmg_store_id: ActorId,
}

/// A message sent to a participant besides the reply to the caller.
#[derive(Clone, Copy, Debug, PartialEq, Eq)]
pub struct Notification {
    pub to: ActorId,
    pub event: BattleEvent,
}

/// How the delayed wake-up message is paid for.
#[derive(Clone, Copy, Debug, PartialEq, Eq)]
pub enum Funding {
    /// From a voucher taken off the reservation pool.
    Reservation(ReservationId),
    /// From an ad-hoc grant of this much gas.
    Gas(u64),
}

/// A request to the host to deliver `UpdateInfo` to the engine itself after
/// `delay` blocks.
#[derive(Clone, Copy, Debug, PartialEq, Eq)]
pub struct WakeUp {
    pub funding: Funding,
    pub delay: u32,
}

/// What the host has to do once an action has been handled: the reply to the
/// caller, the notifications in the order they are sent, and the wake-up to
/// schedule.
#[derive(Clone, Debug)]
pub struct Outcome {
    pub reply: Option<BattleEvent>,
    pub notifications: Vec<Notification>,
    pub wake_up: Option<WakeUp>,
}

/// The mathematical content of an [`Outcome`].
pub struct OutcomeModel {
    pub reply: Option<BattleEvent>,
    pub notifications: Seq<Notification>,
    pub wake_up: Option<WakeUp>,
}

impl View for Outcome {
    type V = OutcomeModel;

    open spec fn view(&self) -> OutcomeModel {
        OutcomeModel {
            reply: self.reply,
            notifications: self.notifications@,
            wake_up: self.wake_up,
        }
    }
}

/// A registration waiting for the piece contract to name the piece's owner.
#[derive(Clone, Copy, Debug)]
pub struct PendingRegistration {
    pub tmg_id: TamagotchiId,
    pub attributes: AttributesPerRound,
}

/// The host's random output for the current execution.
#[derive(Clone, Copy, Debug)]
pub struct Entropy(pub [u8; 32]);

} // verus!
