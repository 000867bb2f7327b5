use vstd::prelude::*;

use crate::attack::{drained, step_damage, struck};
use crate::battle::{
    advanced, move_transition, other, registration, restart, BattleModel, MAX_STEPS_FOR_ROUND,
};
use crate::types::{
    ActorId, BattleEvent, BattleState, DirectionOfMovement, Entropy, Notification,
    PendingRegistration,
};

verus! {

/// The state after a run of moves, each given as its caller and direction;
/// `None` where one of them is refused or ends the game.
pub open spec fn play(s: BattleModel, moves: Seq<(ActorId, DirectionOfMovement)>) -> Option<
    BattleModel,
>
    decreases moves.len(),
{
    if moves.len() == 0 {
        Some(s)
    } else {
        match move_transition(s, moves[0].0, moves[0].1) {
            Ok((t, _)) => if t.state == BattleState::GameIsOver {
                None
            } else {
                play(t, moves.drop_first())
            },
            Err(_) => None,
        }
    }
}

/// A move keeps the aggregate well formed.
pub proof fn lemma_move_keeps_wf(s: BattleModel, caller: ActorId, direction: DirectionOfMovement)
    requires
        s.wf(),
        move_transition(s, caller, direction) is Ok,
    ensures
        move_transition(s, caller, direction)->Ok_0.0.wf(),
{
}

/// Two registrations that both succeed leave two players, in `Moves`, with
/// the turn at index 0 or 1.
pub proof fn lemma_two_registrations_start_the_moves(
    s: BattleModel,
    first: PendingRegistration,
    first_owner: ActorId,
    first_entropy: Entropy,
    second: PendingRegistration,
    second_owner: ActorId,
    second_entropy: Entropy,
)
    requires
        s.wf(),
        registration(s, first, first_owner, first_entropy) is Ok,
        registration(
            registration(s, first, first_owner, first_entropy)->Ok_0.0,
            second,
            second_owner,
            second_entropy,
        ) is Ok,
    ensures
        ({
            let t = registration(
                registration(s, first, first_owner, first_entropy)->Ok_0.0,
                second,
                second_owner,
                second_entropy,
            )->Ok_0.0;
            &&& t.players.len() == 2
            &&& t.state == BattleState::Moves
            &&& t.current_turn == 0 || t.current_turn == 1
        }),
{
}

/// After a move the defender's energy is `max(0, before - damage)`, where the
/// damage is that of the step; the game is over exactly when that is 0, and
/// otherwise the defender keeps that energy.
pub proof fn lemma_move_drains_defender(
    s: BattleModel,
    caller: ActorId,
    direction: DirectionOfMovement,
)
    requires
        s.wf(),
        move_transition(s, caller, direction) is Ok,
    ensures
        ({
            let t = move_transition(s, caller, direction)->Ok_0.0;
            let mover = advanced(s.players[s.current_turn as int], direction);
            let defender = s.players[other(s.current_turn) as int];
            let damage = step_damage(s.weapons, s.shields, mover, defender);
            let left = drained(defender.energy, damage);
            &&& damage >= 0
            &&& left as int == if defender.energy as int - damage > 0 {
                defender.energy as int - damage
            } else {
                0
            }
            &&& (t.state == BattleState::GameIsOver <==> left == 0)
            &&& t.state != BattleState::GameIsOver ==> t.players[other(s.current_turn) as int].energy
                == left
        }),
{
}

/// Where the mover turns away from the side the defender faces, the defender
/// keeps its energy, the game goes on, and the mover's owner is told of the
/// dodge.
pub proof fn lemma_dodge_spares_defender(
    s: BattleModel,
    caller: ActorId,
    direction: DirectionOfMovement,
)
    requires
        s.wf(),
        move_transition(s, caller, direction) is Ok,
        direction != s.players[other(s.current_turn) as int].actual_side,
    ensures
        ({
            let (t, out) = move_transition(s, caller, direction)->Ok_0;
            &&& t.state != BattleState::GameIsOver
            &&& t.players[other(s.current_turn) as int].energy == s.players[other(
                s.current_turn,
            ) as int].energy
            &&& out.notifications.contains(
                Notification {
                    to: s.players[s.current_turn as int].owner,
                    event: BattleEvent::OpponentDodgedTheAttack,
                },
            )
        }),
{
    let out = move_transition(s, caller, direction)->Ok_0.1;
    assert(out.notifications[0] == Notification {
        to: s.players[s.current_turn as int].owner,
        event: BattleEvent::OpponentDodgedTheAttack,
    });
}

/// A move that leaves the defender without energy ends the game at once,
/// whatever the step count: no players are left, the mover's piece is the
/// winner, the step counter is reset and both sides hear `GameIsOver`.
pub proof fn lemma_knockout_ends_game(s: BattleModel, caller: ActorId, direction: DirectionOfMovement)
    requires
        s.wf(),
        move_transition(s, caller, direction) is Ok,
        struck(
            s.weapons,
            s.shields,
            advanced(s.players[s.current_turn as int], direction),
            s.players[other(s.current_turn) as int],
        ).energy == 0,
    ensures
        ({
            let (t, out) = move_transition(s, caller, direction)->Ok_0;
            &&& t.state == BattleState::GameIsOver
            &&& t.players.len() == 0
            &&& t.winner == s.players[s.current_turn as int].tmg_id
            &&& t.steps == 0
            &&& out.reply == Some(BattleEvent::GameIsOver)
            &&& out.notifications.last() == Notification {
                to: s.players[other(s.current_turn) as int].owner,
                event: BattleEvent::GameIsOver,
            }
        }),
{
}

/// Within a round, each move that neither fails nor ends the game counts one
/// step and keeps the moves going.
proof fn lemma_round_counts_steps(s: BattleModel, moves: Seq<(ActorId, DirectionOfMovement)>)
    requires
        s.wf(),
        s.state == BattleState::Moves,
        s.steps + moves.len() <= MAX_STEPS_FOR_ROUND,
        play(s, moves) is Some,
    ensures
        play(s, moves)->Some_0.wf(),
        play(s, moves)->Some_0.state == BattleState::Moves,
        play(s, moves)->Some_0.steps == s.steps + moves.len(),
    decreases moves.len(),
{
    if moves.len() > 0 {
        lemma_move_keeps_wf(s, moves[0].0, moves[0].1);
        let t = move_transition(s, moves[0].0, moves[0].1)->Ok_0.0;
        lemma_round_counts_steps(t, moves.drop_first());
    }
}

/// Starting a round, `MAX_STEPS_FOR_ROUND + 1` moves that neither fail nor
/// end the game lead to `Waiting`, with the step counter at 0 and both
/// players back at slot 1.
pub proof fn lemma_full_round_goes_waiting(s: BattleModel, moves: Seq<(ActorId, DirectionOfMovement)>)
    requires
        s.wf(),
        s.state == BattleState::Moves,
        s.steps == 0,
        moves.len() == MAX_STEPS_FOR_ROUND + 1,
        play(s, moves) is Some,
    ensures
        ({
            let t = play(s, moves)->Some_0;
            &&& t.state == BattleState::Waiting
            &&& t.steps == 0
            &&& t.players.len() == 2
            &&& t.players[0].actual_attribute == 1
            &&& t.players[1].actual_attribute == 1
        }),
{
    let head = moves.take(MAX_STEPS_FOR_ROUND as int);
    let rest = moves.skip(MAX_STEPS_FOR_ROUND as int);
    lemma_play_split(s, moves, MAX_STEPS_FOR_ROUND as int);
    lemma_round_counts_steps(s, head);
    let u = play(s, head)->Some_0;
    assert(rest.drop_first() =~= Seq::<(ActorId, DirectionOfMovement)>::empty());
    let w = move_transition(u, rest[0].0, rest[0].1)->Ok_0.0;
    assert(play(w, rest.drop_first()) == Some(w));
}

/// Playing a run of moves is playing its first `k` moves, then the rest.
proof fn lemma_play_split(s: BattleModel, moves: Seq<(ActorId, DirectionOfMovement)>, k: int)
    requires
        0 <= k <= moves.len(),
    ensures
        play(s, moves) == match play(s, moves.take(k)) {
            Some(u) => play(u, moves.skip(k)),
            None => None,
        },
    decreases k,
{
    if k > 0 {
        assert(moves.take(k)[0] == moves[0]);
        assert(moves.take(k).drop_first() =~= moves.drop_first().take(k - 1));
        assert(moves.skip(k) =~= moves.drop_first().skip(k - 1));
        match move_transition(s, moves[0].0, moves[0].1) {
            Ok((t, _)) => {
                if t.state != BattleState::GameIsOver {
                    lemma_play_split(t, moves.drop_first(), k - 1);
                }
            },
            Err(_) => {},
        }
    } else {
        assert(moves.take(0) =~= Seq::<(ActorId, DirectionOfMovement)>::empty());
        assert(moves.skip(0) =~= moves);
    }
}

/// `StartNewGame` succeeds exactly once the game is over, and then leaves
/// registration open with no players.
pub proof fn lemma_restart_only_after_game_over(s: BattleModel)
    ensures
        restart(s) is Ok <==> s.state == BattleState::GameIsOver,
        restart(s) is Ok ==> restart(s)->Ok_0.state == BattleState::Registration
            && restart(s)->Ok_0.players.len() == 0,
{
}

} // verus!
