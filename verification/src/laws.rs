//! What holds of the character whatever it does: theorems about the
//! mathematical model that the contracts of this crate are stated over.

use vstd::prelude::*;
use crate::model::{
    cell_index, covers_every_state, indexed_cell_name, Event, Kinematics, Machine, StateKind, FLOOR,
    GRAVITY, JUMPING_FRAMES, JUMP_SPEED, RUNNING_SPEED, SLIDING_FRAMES,
};

verus! {

/// After a tick the frame counter is within the ceiling and the position is
/// not below the floor, wherever the tick started.
pub proof fn lemma_update_bounds(start: Kinematics, frame_count: nat)
    ensures
        start.update(frame_count).frame <= frame_count,
        start.update(frame_count).position.y <= FLOOR,
{
}

/// Gravity is strictly positive: every tick makes the vertical velocity
/// larger by one. The horizontal velocity stays.
pub proof fn lemma_gravity_accelerates(start: Kinematics, frame_count: nat)
    ensures
        start.update(frame_count).velocity.y == start.velocity.y + GRAVITY,
        start.update(frame_count).velocity.y > start.velocity.y,
        start.update(frame_count).velocity.x == start.velocity.x,
{
}

/// The horizontal velocity never changes in a tick, and it moves the
/// character by the same amount every tick: after `n` ticks the character
/// is `n` times its horizontal velocity further to the right.
pub proof fn lemma_steady_pace(start: Kinematics, frame_count: nat, n: nat)
    ensures
        start.updates(frame_count, n).velocity.x == start.velocity.x,
        start.updates(frame_count, n).position.x == start.position.x + n * start.velocity.x,
    decreases n,
{
    if n > 0 {
        lemma_steady_pace(start, frame_count, (n - 1) as nat);
        assert((n - 1) * start.velocity.x + start.velocity.x == n * start.velocity.x)
            by (nonlinear_arith);
    }
}

/// `a + b` ticks are `a` ticks and then `b` ticks.
pub proof fn lemma_updates_add(start: Kinematics, frame_count: nat, a: nat, b: nat)
    ensures
        start.updates(frame_count, a + b) == start.updates(frame_count, a).updates(frame_count, b),
    decreases b,
{
    if b > 0 {
        lemma_updates_add(start, frame_count, a, (b - 1) as nat);
        assert((a + b - 1) as nat == a + (b - 1) as nat);
    }
}

/// Below the ceiling the frame counter counts the ticks.
pub proof fn lemma_frame_counts_up(start: Kinematics, frame_count: nat, n: nat)
    requires
        start.frame + n <= frame_count,
    ensures
        start.updates(frame_count, n).frame == start.frame + n,
    decreases n,
{
    if n > 0 {
        lemma_frame_counts_up(start, frame_count, (n - 1) as nat);
    }
}

/// The frame counter wraps around: with a ceiling of `frame_count`, one tick
/// more than the ceiling brings a counter that was within the ceiling back
/// to where it was. In particular a counter at 0 is at 0 again.
pub proof fn lemma_frame_wraps(start: Kinematics, frame_count: nat)
    requires
        start.frame <= frame_count,
    ensures
        start.updates(frame_count, frame_count + 1).frame == start.frame,
{
    let up = (frame_count - start.frame) as nat;
    let at_ceiling = start.updates(frame_count, up);
    lemma_frame_counts_up(start, frame_count, up);
    let wrapped = start.updates(frame_count, up + 1);
    assert(wrapped == at_ceiling.update(frame_count));
    assert(wrapped.frame == 0);
    lemma_frame_counts_up(wrapped, frame_count, start.frame);
    lemma_updates_add(start, frame_count, up + 1, start.frame);
    assert(up + 1 + start.frame == frame_count + 1);
}

/// A character that is not rising does not rise: once the vertical velocity
/// is about to be zero or more, no later tick makes `position.y` smaller.
pub proof fn lemma_falling_is_monotone(start: Kinematics, frame_count: nat, n: nat)
    requires
        start.velocity.y + GRAVITY >= 0,
        start.position.y <= FLOOR,
    ensures
        start.updates(frame_count, n).position.y <= start.updates(
            frame_count,
            n + 1,
        ).position.y,
        start.updates(frame_count, n).velocity.y == start.velocity.y + n * GRAVITY,
        start.updates(frame_count, n).position.y <= FLOOR,
    decreases n,
{
    if n > 0 {
        lemma_falling_is_monotone(start, frame_count, (n - 1) as nat);
    }
    assert(start.updates(frame_count, n + 1) == start.updates(frame_count, n).update(frame_count));
}

/// The state every character starts in is well formed.
pub proof fn lemma_initial_is_well_formed()
    ensures
        Machine::initial().well_formed(),
{
}

/// No event leads out of the well-formed states.
pub proof fn lemma_transition_preserves_well_formed(machine: Machine, event: Event)
    requires
        machine.well_formed(),
    ensures
        machine.transition(event).well_formed(),
{
}

/// No tick of the game leads out of the well-formed states, whatever keys
/// are held down.
pub proof fn lemma_tick_preserves_well_formed(machine: Machine, keys: Set<Seq<char>>)
    requires
        machine.well_formed(),
    ensures
        machine.tick(keys).well_formed(),
{
}

/// A sprite sheet without gaps shows every state that a character gets
/// into: it holds the cell that a well-formed state is drawn with.
pub proof fn lemma_complete_sheet_shows_every_state(machine: Machine, names: Set<Seq<char>>)
    requires
        machine.well_formed(),
        covers_every_state(names),
    ensures
        names.contains(machine.cell_name()),
{
    let index = cell_index(machine.context.frame);
    assert(1 <= index <= machine.kind.cell_count());
    assert(names.contains(indexed_cell_name(machine.kind.frame_name(), index)));
}

/// An event that the state does not accept changes nothing: the machine
/// after it is the machine before it, kind and context.
pub proof fn lemma_unaccepted_event_is_ignored(machine: Machine, event: Event)
    requires
        !machine.kind.accepts(event),
    ensures
        machine.transition(event) == machine,
{
}

/// From rest a run starts at the first frame, and the running speed is
/// added to the horizontal velocity; a well-formed character then moves at
/// exactly the running speed.
pub proof fn lemma_run_from_rest(machine: Machine)
    requires
        machine.kind == StateKind::Idle,
    ensures
        machine.transition(Event::Run).kind == StateKind::Running,
        machine.transition(Event::Run).context.frame == 0,
        machine.transition(Event::Run).context.velocity.x == machine.context.velocity.x
            + RUNNING_SPEED,
        machine.well_formed() ==> machine.transition(Event::Run).context.velocity.x == 3,
        machine.transition(Event::Run).context.position == machine.context.position,
        machine.transition(Event::Run).context.velocity.y == machine.context.velocity.y,
{
}

/// From a run a jump starts at the first frame with the jump speed as its
/// vertical velocity; position and horizontal velocity stay.
pub proof fn lemma_jump_from_run(machine: Machine)
    requires
        machine.kind == StateKind::Running,
    ensures
        machine.transition(Event::Jump).kind == StateKind::Jumping,
        machine.transition(Event::Jump).context.frame == 0,
        machine.transition(Event::Jump).context.velocity.y == -25,
        machine.transition(Event::Jump).context.velocity.x == machine.context.velocity.x,
        machine.transition(Event::Jump).context.position == machine.context.position,
{
}

/// `n + 1` ticks are one tick and then `n` ticks.
pub proof fn lemma_updates_shift(machine: Machine, n: nat)
    ensures
        machine.updates(n + 1) == machine.update().updates(n),
    decreases n,
{
    assert(machine.updates(n + 1) == machine.updates(n).update());
    if n > 0 {
        lemma_updates_shift(machine, (n - 1) as nat);
        assert(machine.update().updates(n) == machine.update().updates((n - 1) as nat).update());
    } else {
        assert(machine.updates(0) == machine);
        assert(machine.update().updates(0) == machine.update());
    }
}

/// While idle and while running the machine keeps its kind, and `n` ticks
/// of the machine are `n` ticks of its context.
pub proof fn lemma_looping_state_updates(machine: Machine, n: nat)
    requires
        machine.kind == StateKind::Idle || machine.kind == StateKind::Running,
    ensures
        machine.updates(n).kind == machine.kind,
        machine.updates(n).context == machine.context.updates(machine.kind.frame_count(), n),
    decreases n,
{
    if n > 0 {
        lemma_looping_state_updates(machine, (n - 1) as nat);
    }
}

/// The animations of the idle and of the running state loop: one tick more
/// than the ceiling of the state brings the frame counter back to where it
/// was, in the same kind of state. After 30 ticks an idle character at
/// frame 0 is at frame 0, and a running one after 24.
pub proof fn lemma_looping_state_frame_wraps(machine: Machine)
    requires
        machine.kind == StateKind::Idle || machine.kind == StateKind::Running,
        machine.context.frame <= machine.kind.frame_count(),
    ensures
        machine.updates(machine.kind.frame_count() + 1).kind == machine.kind,
        machine.updates(machine.kind.frame_count() + 1).context.frame == machine.context.frame,
{
    lemma_looping_state_updates(machine, machine.kind.frame_count() + 1);
    lemma_frame_wraps(machine.context, machine.kind.frame_count());
}

/// A character that is in the air after `n` ticks has been in the air all
/// the time, and its context has gone through `n` ticks.
pub proof fn lemma_in_the_air_all_along(machine: Machine, n: nat)
    requires
        machine.kind == StateKind::Jumping,
        machine.updates(n).kind == StateKind::Jumping,
    ensures
        forall|j: nat|
            j <= n ==> #[trigger] machine.updates(j) == Machine::jumping(
                machine.context.updates(JUMPING_FRAMES as nat, j),
            ),
    decreases n,
{
    if n > 0 {
        let before = machine.updates((n - 1) as nat);
        assert(machine.updates(n) == before.update());
        assert(before.kind == StateKind::Jumping);
        lemma_in_the_air_all_along(machine, (n - 1) as nat);
    }
}

/// The animation of a jump loops as long as the jump lasts: if the
/// character is still in the air after 36 ticks, its frame counter is back
/// where it was.
pub proof fn lemma_jumping_frame_wraps_in_the_air(machine: Machine)
    requires
        machine.kind == StateKind::Jumping,
        machine.context.frame <= JUMPING_FRAMES,
        machine.updates(JUMPING_FRAMES as nat + 1).kind == StateKind::Jumping,
    ensures
        machine.updates(JUMPING_FRAMES as nat + 1).context.frame == machine.context.frame,
{
    lemma_in_the_air_all_along(machine, JUMPING_FRAMES as nat + 1);
    assert(machine.updates(JUMPING_FRAMES as nat + 1) == Machine::jumping(
        machine.context.updates(JUMPING_FRAMES as nat, JUMPING_FRAMES as nat + 1),
    ));
    lemma_frame_wraps(machine.context, JUMPING_FRAMES as nat);
}

/// A slide that starts at frame 0 lasts 14 ticks: after each of the first
/// 13 the character still slides, with the frame counter at the number of
/// ticks, and the 14th stands it up into a run at frame 0.
pub proof fn lemma_slide_completes_on_the_fourteenth_tick(machine: Machine)
    requires
        machine.kind == StateKind::Sliding,
        machine.context.frame == 0,
    ensures
        forall|n: nat|
            n < SLIDING_FRAMES ==> #[trigger] machine.updates(n) == Machine::sliding(
                machine.context.updates(SLIDING_FRAMES as nat, n),
            ) && machine.updates(n).context.frame == n,
        machine.updates(SLIDING_FRAMES as nat) == Machine::running(
            machine.context.updates(SLIDING_FRAMES as nat, SLIDING_FRAMES as nat).reset_frame(),
        ),
{
    assert forall|n: nat| n < SLIDING_FRAMES implies #[trigger] machine.updates(n)
        == Machine::sliding(machine.context.updates(SLIDING_FRAMES as nat, n))
        && machine.updates(n).context.frame == n by {
        lemma_sliding(machine, n);
    }
    lemma_sliding(machine, 13);
    lemma_frame_counts_up(machine.context, SLIDING_FRAMES as nat, 14);
    assert(machine.updates(14) == machine.updates(13).update());
}

/// Fewer than 14 ticks into a slide from frame 0 the character slides, and
/// its context has gone through as many ticks.
proof fn lemma_sliding(machine: Machine, n: nat)
    requires
        machine.kind == StateKind::Sliding,
        machine.context.frame == 0,
        n < SLIDING_FRAMES,
    ensures
        machine.updates(n) == Machine::sliding(machine.context.updates(SLIDING_FRAMES as nat, n)),
        machine.updates(n).context.frame == n,
    decreases n,
{
    lemma_frame_counts_up(machine.context, SLIDING_FRAMES as nat, n);
    if n > 0 {
        lemma_sliding(machine, (n - 1) as nat);
    }
}

/// What goes up comes down: every jump ends. From a state in the air there
/// is a tick, the `n`th, that lands the character into a run at frame 0;
/// after each tick before it the character is still in the air.
pub proof fn lemma_jump_lands(machine: Machine) -> (n: nat)
    requires
        machine.kind == StateKind::Jumping,
    ensures
        n >= 1,
        machine.updates(n).kind == StateKind::Running,
        machine.updates(n).context.frame == 0,
        machine.updates(n).context.position.y == FLOOR,
        forall|j: nat| j < n ==> (#[trigger] machine.updates(j)).kind == StateKind::Jumping,
    decreases
        (if machine.context.velocity.y < 0 {
            -machine.context.velocity.y
        } else {
            0
        }),
        (if machine.context.position.y < FLOOR {
            FLOOR - machine.context.position.y
        } else {
            0
        }),
{
    let next = machine.update();
    assert(machine.updates(1) == machine.updates(0).update());
    if next.kind == StateKind::Running {
        assert forall|j: nat| j < 1 implies (#[trigger] machine.updates(j)).kind
            == StateKind::Jumping by {
            assert(j == 0);
        }
        1
    } else {
        let rest = lemma_jump_lands(next);
        lemma_updates_shift(machine, rest);
        assert forall|j: nat| j < rest + 1 implies (#[trigger] machine.updates(j)).kind
            == StateKind::Jumping by {
            if j > 0 {
                lemma_updates_shift(machine, (j - 1) as nat);
                assert(machine.updates(j) == next.updates((j - 1) as nat));
            }
        }
        rest + 1
    }
}

/// The height of a jump from the floor after `n` ticks, as long as it
/// lasts: the jump speed has acted `n` times, and gravity on each tick
/// since the first.
pub open spec fn jump_height(n: nat) -> int {
    FLOOR + n * JUMP_SPEED + n * (n + 1) / 2 * GRAVITY
}

/// A jump from the floor follows its parabola: `n` ticks into it, for `n`
/// up to 48, the character is in the air at the height of the parabola,
/// with gravity having acted `n` times on the jump speed.
pub proof fn lemma_jump_follows_its_parabola(machine: Machine, n: nat)
    requires
        machine.kind == StateKind::Jumping,
        machine.context.position.y == FLOOR,
        machine.context.velocity.y == JUMP_SPEED,
        n <= 48,
    ensures
        machine.updates(n).kind == StateKind::Jumping,
        machine.updates(n).context.position.y == jump_height(n),
        machine.updates(n).context.velocity.y == JUMP_SPEED + n * GRAVITY,
        n >= 1 ==> jump_height(n) < FLOOR,
    decreases n,
{
    if n > 0 {
        lemma_jump_follows_its_parabola(machine, (n - 1) as nat);
        assert(n * (n + 1) / 2 == (n - 1) * n / 2 + n) by (nonlinear_arith);
        assert(n * (n + 1) / 2 < 25 * n) by (nonlinear_arith)
            requires
                1 <= n <= 48,
        ;
    }
}

/// A jump lasts 49 ticks. A well-formed running character that jumps is in
/// the air after each of the next 48 ticks, and the 49th lands it into a
/// run, at frame 0 and on the floor.
pub proof fn lemma_jump_lasts_forty_nine_ticks(machine: Machine)
    requires
        machine.well_formed(),
        machine.kind == StateKind::Running,
    ensures
        forall|n: nat|
            n <= 48 ==> (#[trigger] machine.transition(Event::Jump).updates(n)).kind
                == StateKind::Jumping,
        machine.transition(Event::Jump).updates(49).kind == StateKind::Running,
        machine.transition(Event::Jump).updates(49).context.frame == 0,
        machine.transition(Event::Jump).updates(49).context.position.y == FLOOR,
{
    let jumping = machine.transition(Event::Jump);
    assert forall|n: nat| n <= 48 implies (#[trigger] jumping.updates(n)).kind
        == StateKind::Jumping by {
        lemma_jump_follows_its_parabola(jumping, n);
    }
    lemma_jump_follows_its_parabola(jumping, 48);
    assert(jump_height(48) == FLOOR - 24) by (nonlinear_arith);
    assert(jumping.updates(49) == jumping.updates(48).update());
}

} // verus!
