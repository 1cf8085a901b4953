//! What holds of the game state over several calls: the count of fixed
//! updates, repeated presses and releases, and the edge-triggered toggles.

use vstd::prelude::*;

use crate::game::{
    elapsed, initial_model, pressed, released, stepped, toggled, GameModel, Scancode,
    SCANCODE_DOWN, SCANCODE_LEFT, SCANCODE_RIGHT, STEP_RATE_IN_MILLISECONDS,
};

verus! {

/// The model after `step` has been called with each tick of `ticks` in turn.
pub open spec fn run_steps(m: GameModel, ticks: Seq<nat>) -> GameModel
    decreases ticks.len(),
{
    if ticks.len() == 0 {
        m
    } else {
        run_steps(stepped(m, ticks[0]), ticks.drop_first())
    }
}

/// Each tick is at least as large as every tick before it.
pub open spec fn non_decreasing(ticks: Seq<nat>) -> bool {
    forall|i: int, j: int| 0 <= i <= j < ticks.len() ==> ticks[i] <= ticks[j]
}

/// The keys that flip a render toggle: left, down and right.
pub open spec fn is_toggle_key(k: Scancode) -> bool {
    k == Scancode(SCANCODE_LEFT) || k == Scancode(SCANCODE_DOWN) || k == Scancode(SCANCODE_RIGHT)
}

/// The toggle that the toggle key `k` flips.
pub open spec fn toggle_of(m: GameModel, k: Scancode) -> bool {
    if k == Scancode(SCANCODE_LEFT) {
        m.wire_frame
    } else if k == Scancode(SCANCODE_DOWN) {
        m.small_viewport
    } else {
        m.scissor_rect
    }
}

/// A step keeps the model well formed.
pub proof fn lemma_stepped_wf(m: GameModel, ticks: nat)
    requires
        m.wf(),
    ensures
        stepped(m, ticks).wf(),
{
    let total = m.accumulated + elapsed(m, ticks);
    let d = STEP_RATE_IN_MILLISECONDS as int;
    vstd::arithmetic::div_mod::lemma_fundamental_div_mod(total as int, d);
    assert(Set::<Scancode>::empty().subset_of(m.held));
}

/// Steps keep the model well formed and never move its clock back: the last
/// tick seen is the largest of the ticks given and the one it started from.
proof fn lemma_run_steps_clock(m: GameModel, ticks: Seq<nat>)
    requires
        m.wf(),
        non_decreasing(ticks),
    ensures
        run_steps(m, ticks).wf(),
        ticks.len() == 0 ==> run_steps(m, ticks).last_tick == m.last_tick,
        ticks.len() > 0 && m.last_tick <= ticks[0] ==> run_steps(m, ticks).last_tick
            == ticks.last(),
    decreases ticks.len(),
{
    if ticks.len() > 0 {
        let next = stepped(m, ticks[0]);
        lemma_stepped_wf(m, ticks[0]);
        let rest = ticks.drop_first();
        assert forall|i: int, j: int| 0 <= i <= j < rest.len() implies rest[i] <= rest[j] by {
            assert(rest[i] == ticks[i + 1] && rest[j] == ticks[j + 1]);
        }
        lemma_run_steps_clock(next, rest);
        if rest.len() > 0 {
            assert(rest[0] == ticks[1]);
            assert(ticks[0] <= ticks[1]);
            assert(rest.last() == ticks.last());
        }
    }
}

/// From a fresh game, over any run of `step` calls whose ticks never
/// decrease, the fixed updates applied number exactly the whole steps in the
/// elapsed time, and the time left over is less than one step.
pub proof fn lemma_updates_count_whole_steps(ticks: Seq<nat>)
    requires
        non_decreasing(ticks),
    ensures
        ({
            let m = run_steps(initial_model(), ticks);
            let total: nat = if ticks.len() == 0 {
                0
            } else {
                ticks.last()
            };
            &&& m.updates == total / (STEP_RATE_IN_MILLISECONDS as nat)
            &&& m.accumulated == total % (STEP_RATE_IN_MILLISECONDS as nat)
            &&& m.accumulated < STEP_RATE_IN_MILLISECONDS
        }),
{
    let m = run_steps(initial_model(), ticks);
    lemma_run_steps_clock(initial_model(), ticks);
    vstd::arithmetic::div_mod::lemma_fundamental_div_mod_converse(
        m.last_tick as int,
        STEP_RATE_IN_MILLISECONDS as int,
        m.updates as int,
        m.accumulated as int,
    );
}

/// Pressing a key twice before it is released leaves the game as pressing it
/// once does.
pub proof fn lemma_press_idempotent(m: GameModel, k: Scancode)
    ensures
        pressed(pressed(m, k), k) == pressed(m, k),
{
}

/// Releasing a key that is not held leaves the held keys unchanged, and in a
/// well-formed game changes nothing at all.
pub proof fn lemma_release_unheld(m: GameModel, k: Scancode)
    requires
        !m.held.contains(k),
    ensures
        released(m, k).held == m.held,
        m.wf() ==> released(m, k) == m,
{
    assert(released(m, k).held =~= m.held);
    if m.wf() {
        assert(released(m, k).just_pressed =~= m.just_pressed);
    }
}

/// While `k` is held: either no fixed update has happened since it went down,
/// it is still just pressed and its toggle is as it was; or one has, it is no
/// longer just pressed and its toggle is flipped.
spec fn held_toggle(x: GameModel, m: GameModel, k: Scancode) -> bool {
    &&& x.held.contains(k)
    &&& x.updates >= m.updates
    &&& x.updates == m.updates ==> x.just_pressed.contains(k) && toggle_of(x, k) == toggle_of(m, k)
    &&& x.updates > m.updates ==> !x.just_pressed.contains(k) && toggle_of(x, k) != toggle_of(m, k)
}

proof fn lemma_held_toggle_steps(x: GameModel, m: GameModel, k: Scancode, ticks: Seq<nat>)
    requires
        is_toggle_key(k),
        held_toggle(x, m, k),
    ensures
        held_toggle(run_steps(x, ticks), m, k),
    decreases ticks.len(),
{
    if ticks.len() > 0 {
        let next = stepped(x, ticks[0]);
        assert(toggle_of(toggled(x), k) == (toggle_of(x, k) != x.just_pressed.contains(k)));
        assert(held_toggle(next, m, k));
        lemma_held_toggle_steps(next, m, k, ticks.drop_first());
    }
}

/// A toggle key pressed, held while any run of `step` calls goes by, and
/// released flips its toggle exactly once if at least one fixed update
/// happened while it was down, however many did, and not at all otherwise.
pub proof fn lemma_toggle_flips_once_per_press(m: GameModel, k: Scancode, ticks: Seq<nat>)
    requires
        is_toggle_key(k),
        !m.held.contains(k),
    ensures
        ({
            let held = run_steps(pressed(m, k), ticks);
            &&& held.held.contains(k)
            &&& toggle_of(released(held, k), k) == (toggle_of(m, k) != (held.updates > m.updates))
        }),
{
    lemma_held_toggle_steps(pressed(m, k), m, k, ticks);
}

} // verus!
