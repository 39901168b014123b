//! What holds of the controller over any number of frames.
//!
//! A frame hands the controller at most one event and, where that event
//! starts a reload, the outcome of the compilation. The functions here fold
//! a sequence of frames over a controller and follow the materials that
//! were installed and retired on the way.

use vstd::prelude::*;
use crate::event::WatchEventView;
use crate::reload::{after_event, after_outcome, qualifies, ControllerView};

verus! {

/// What one frame hands to the controller. The outcome counts only where
/// the event starts a reload.
pub struct Tick<H> {
    pub event: Option<WatchEventView>,
    pub is_regular_file: bool,
    pub extension: Option<Seq<char>>,
    pub outcome: Result<H, Seq<char>>,
}

/// Whether the frame's event starts a reload.
pub open spec fn starts_reload<H>(c: ControllerView<H>, t: Tick<H>) -> bool {
    qualifies(c.wanted, t.event, t.is_regular_file, t.extension)
}

/// Whether the frame replaces the active material.
pub open spec fn swaps<H>(c: ControllerView<H>, t: Tick<H>) -> bool {
    starts_reload(c, t) && t.outcome is Ok
}

/// The controller after one frame.
pub open spec fn after_tick<H>(c: ControllerView<H>, t: Tick<H>) -> ControllerView<H> {
    if starts_reload(c, t) {
        after_outcome(after_event(c, t.event, t.is_regular_file, t.extension), t.outcome)
    } else {
        c
    }
}

/// The controller after a sequence of frames.
pub open spec fn after_ticks<H>(c: ControllerView<H>, ticks: Seq<Tick<H>>) -> ControllerView<H>
    decreases ticks.len(),
{
    if ticks.len() == 0 {
        c
    } else {
        after_tick(after_ticks(c, ticks.drop_last()), ticks.last())
    }
}

/// The materials that the host was asked to release during a sequence of
/// frames, in that order.
pub open spec fn retired_over<H>(c: ControllerView<H>, ticks: Seq<Tick<H>>) -> Seq<H>
    decreases ticks.len(),
{
    if ticks.len() == 0 {
        Seq::empty()
    } else {
        let before = after_ticks(c, ticks.drop_last());
        if swaps(before, ticks.last()) {
            retired_over(c, ticks.drop_last()).push(before.active)
        } else {
            retired_over(c, ticks.drop_last())
        }
    }
}

/// The materials that became active during a sequence of frames, in that
/// order.
pub open spec fn installed_over<H>(c: ControllerView<H>, ticks: Seq<Tick<H>>) -> Seq<H>
    decreases ticks.len(),
{
    if ticks.len() == 0 {
        Seq::empty()
    } else {
        let before = after_ticks(c, ticks.drop_last());
        if swaps(before, ticks.last()) {
            installed_over(c, ticks.drop_last()).push(ticks.last().outcome->Ok_0)
        } else {
            installed_over(c, ticks.drop_last())
        }
    }
}

/// Frames leave an idle controller idle and never change the extension it
/// reloads.
pub proof fn lemma_frames_end_idle<H>(c: ControllerView<H>, ticks: Seq<Tick<H>>)
    requires
        c.state is Idle,
    ensures
        after_ticks(c, ticks).state is Idle,
        after_ticks(c, ticks).wanted == c.wanted,
    decreases ticks.len(),
{
    if ticks.len() > 0 {
        lemma_frames_end_idle(c, ticks.drop_last());
    }
}

/// Frames of which none starts a reload leave the controller, and with it
/// the active material, as it was, and nothing is retired.
pub proof fn lemma_unmatched_frames_change_nothing<H>(c: ControllerView<H>, ticks: Seq<Tick<H>>)
    requires
        forall|k: int| 0 <= k < ticks.len() ==> !starts_reload(c, #[trigger] ticks[k]),
    ensures
        after_ticks(c, ticks) == c,
        retired_over(c, ticks) == Seq::<H>::empty(),
        installed_over(c, ticks) == Seq::<H>::empty(),
    decreases ticks.len(),
{
    if ticks.len() > 0 {
        lemma_unmatched_frames_change_nothing(c, ticks.drop_last());
    }
}

/// Every material is accounted for: the retired ones, followed by the
/// active one, are the first material followed by the installed ones. So
/// each material that was ever active is either still active or was handed
/// out for release, once, when the next one took its place.
pub proof fn lemma_retired_then_active_is_history<H>(c: ControllerView<H>, ticks: Seq<Tick<H>>)
    ensures
        retired_over(c, ticks).push(after_ticks(c, ticks).active) == seq![c.active] + installed_over(
            c,
            ticks,
        ),
        retired_over(c, ticks).len() == installed_over(c, ticks).len(),
    decreases ticks.len(),
{
    if ticks.len() > 0 {
        lemma_retired_then_active_is_history(c, ticks.drop_last());
        let before = after_ticks(c, ticks.drop_last());
        let older = retired_over(c, ticks.drop_last());
        let earlier = installed_over(c, ticks.drop_last());
        if swaps(before, ticks.last()) {
            let fresh = ticks.last().outcome->Ok_0;
            assert(older.push(before.active).push(fresh) =~= (seq![c.active] + earlier).push(fresh));
            assert((seq![c.active] + earlier).push(fresh) =~= seq![c.active] + earlier.push(fresh));
        }
    } else {
        assert(Seq::<H>::empty().push(c.active) =~= seq![c.active] + Seq::<H>::empty());
    }
}

/// A frame is never drawn with a released material: where the engine hands
/// out each material once, the active material is none of the retired
/// ones, and no material is retired twice.
pub proof fn lemma_active_is_never_retired<H>(c: ControllerView<H>, ticks: Seq<Tick<H>>)
    requires
        (seq![c.active] + installed_over(c, ticks)).no_duplicates(),
    ensures
        !retired_over(c, ticks).contains(after_ticks(c, ticks).active),
        retired_over(c, ticks).no_duplicates(),
{
    lemma_retired_then_active_is_history(c, ticks);
    let retired = retired_over(c, ticks);
    let active = after_ticks(c, ticks).active;
    let all = retired.push(active);
    assert forall|i: int, j: int| 0 <= i < retired.len() && 0 <= j < retired.len() && i != j implies retired[i]
        != retired[j] by {
        assert(all[i] == retired[i] && all[j] == retired[j]);
    }
    if retired.contains(active) {
        let i = choose|i: int| 0 <= i < retired.len() && retired[i] == active;
        assert(all[i] == retired[i]);
        assert(all[retired.len() as int] == active);
    }
}

} // verus!
