//! The shader reload controller: a two-state machine that turns file-system
//! events and compile outcomes into changes of the active material.

use vstd::prelude::*;
use crate::event::{candidate_of, event_view, WatchEvent, WatchEventView};
use crate::path::{extension_of, extension_read, extension_reading, text_of};

verus! {

/// Where the controller stands.
#[derive(Debug, PartialEq, Eq)]
pub enum ReloadState {
    /// No reload is under way.
    Idle,
    /// A qualifying event was seen; the file at this path is being compiled.
    Reloading(String),
}

/// The model of a `ReloadState`.
pub enum ReloadStateView {
    Idle,
    Reloading(Seq<char>),
}

impl View for ReloadState {
    type V = ReloadStateView;

    open spec fn view(&self) -> ReloadStateView {
        match self {
            ReloadState::Idle => ReloadStateView::Idle,
            ReloadState::Reloading(p) => ReloadStateView::Reloading(p@),
        }
    }
}

/// What the host does after an event was handed in.
#[derive(Debug, PartialEq, Eq)]
pub enum ReloadAction {
    /// Nothing: go on with the frame.
    Skip,
    /// Read the file at this path, compile it, make a material of it, and
    /// report the outcome.
    Compile(String),
}

/// The model of a `ReloadAction`.
pub enum ReloadActionView {
    Skip,
    Compile(Seq<char>),
}

impl View for ReloadAction {
    type V = ReloadActionView;

    open spec fn view(&self) -> ReloadActionView {
        match self {
            ReloadAction::Skip => ReloadActionView::Skip,
            ReloadAction::Compile(p) => ReloadActionView::Compile(p@),
        }
    }
}

/// What the host does after a compile outcome was handed in.
#[derive(Debug, PartialEq, Eq)]
pub enum ReloadEffect<H> {
    /// The new material is active. The host releases `retired`, the material
    /// that was active before, and may announce that `path` was loaded.
    Swapped { retired: H, path: String },
    /// The active material is as before. The host reports `diagnostic`.
    Rejected { diagnostic: String },
}

/// The model of a `ReloadEffect`.
pub enum ReloadEffectView<H> {
    Swapped { retired: H, path: Seq<char> },
    Rejected { diagnostic: Seq<char> },
}

impl<H> View for ReloadEffect<H> {
    type V = ReloadEffectView<H>;

    open spec fn view(&self) -> ReloadEffectView<H> {
        match self {
            ReloadEffect::Swapped { retired, path } => ReloadEffectView::Swapped {
                retired: *retired,
                path: path@,
            },
            ReloadEffect::Rejected { diagnostic } => ReloadEffectView::Rejected {
                diagnostic: diagnostic@,
            },
        }
    }
}

/// The model of a controller: the extension it reloads, the material that is
/// active, and its state.
pub struct ControllerView<H> {
    pub wanted: Option<Seq<char>>,
    pub active: H,
    pub state: ReloadStateView,
}

/// The model of a compile outcome: a material, or the compiler's words.
pub open spec fn outcome_view<H>(outcome: Result<H, String>) -> Result<H, Seq<char>> {
    match outcome {
        Ok(h) => Ok(h),
        Err(d) => Err(d@),
    }
}

/// An event starts a reload when it reports a creation or a modification,
/// its path is a regular file, and the path's extension is the wanted one.
/// A path without an extension matches nothing.
pub open spec fn qualifies(
    wanted: Option<Seq<char>>,
    event: Option<WatchEventView>,
    is_regular_file: bool,
    extension: Option<Seq<char>>,
) -> bool {
    &&& candidate_of(event) is Some
    &&& is_regular_file
    &&& extension is Some
    &&& extension == wanted
}

/// What may be read as the extension of an event's path: for an event with
/// a candidate path, nothing or a dot-free piece of the path that follows a
/// dot; for any other event, nothing.
pub open spec fn read_from_event(event: Option<WatchEventView>, extension: Option<Seq<char>>) -> bool {
    match candidate_of(event) {
        Some(path) => extension_reading(path, extension),
        None => extension is None,
    }
}

/// The extension that the platform reads from an event's candidate path;
/// none for an event without one.
pub open spec fn reading_of(event: Option<WatchEventView>) -> Option<Seq<char>> {
    match candidate_of(event) {
        Some(path) => extension_read(path),
        None => None,
    }
}

/// The controller after an event.
pub open spec fn after_event<H>(
    c: ControllerView<H>,
    event: Option<WatchEventView>,
    is_regular_file: bool,
    extension: Option<Seq<char>>,
) -> ControllerView<H> {
    if qualifies(c.wanted, event, is_regular_file, extension) {
        ControllerView { state: ReloadStateView::Reloading(candidate_of(event)->Some_0), ..c }
    } else {
        c
    }
}

/// What the host is asked to do after an event.
pub open spec fn action_for<H>(
    c: ControllerView<H>,
    event: Option<WatchEventView>,
    is_regular_file: bool,
    extension: Option<Seq<char>>,
) -> ReloadActionView {
    if qualifies(c.wanted, event, is_regular_file, extension) {
        ReloadActionView::Compile(candidate_of(event)->Some_0)
    } else {
        ReloadActionView::Skip
    }
}

/// The controller after a compile outcome: idle again, with the new material
/// if there is one.
pub open spec fn after_outcome<H>(c: ControllerView<H>, outcome: Result<H, Seq<char>>) -> ControllerView<H> {
    match outcome {
        Ok(h) => ControllerView { active: h, state: ReloadStateView::Idle, ..c },
        Err(_) => ControllerView { state: ReloadStateView::Idle, ..c },
    }
}

/// What the host is asked to do after the outcome of compiling `path`.
pub open spec fn effect_of<H>(
    c: ControllerView<H>,
    path: Seq<char>,
    outcome: Result<H, Seq<char>>,
) -> ReloadEffectView<H> {
    match outcome {
        Ok(_) => ReloadEffectView::Swapped { retired: c.active, path },
        Err(d) => ReloadEffectView::Rejected { diagnostic: d },
    }
}

/// An event that does not qualify changes nothing: the controller, and with
/// it the active material, stays as it was, and the host is asked for
/// nothing. This holds in particular of every event for a path whose
/// extension is not the wanted one, of every removal, and of a tick without
/// an event.
pub proof fn lemma_unmatched_event_changes_nothing<H>(
    c: ControllerView<H>,
    event: Option<WatchEventView>,
    is_regular_file: bool,
    extension: Option<Seq<char>>,
)
    requires
        extension != c.wanted || extension is None || !is_regular_file || !(event matches Some(e)
            && (e is Created || e is Modified)),
    ensures
        after_event(c, event, is_regular_file, extension) == c,
        action_for(c, event, is_regular_file, extension) == ReloadActionView::Skip,
{
}

/// A qualifying event for a source that compiles makes the new material the
/// active one and hands the old one to the host for release, once; the
/// controller is idle again.
pub proof fn lemma_valid_source_swaps_material<H>(
    c: ControllerView<H>,
    event: Option<WatchEventView>,
    is_regular_file: bool,
    extension: Option<Seq<char>>,
    material: H,
)
    requires
        c.state is Idle,
        qualifies(c.wanted, event, is_regular_file, extension),
    ensures
        ({
            let path = candidate_of(event)->Some_0;
            let waiting = after_event(c, event, is_regular_file, extension);
            let done = after_outcome(waiting, Ok(material));
            &&& action_for(c, event, is_regular_file, extension) == ReloadActionView::Compile(path)
            &&& waiting.state == ReloadStateView::Reloading(path)
            &&& waiting.active == c.active
            &&& done.active == material
            &&& done.state is Idle
            &&& done.wanted == c.wanted
            &&& effect_of(waiting, path, Ok(material)) == (ReloadEffectView::Swapped {
                retired: c.active,
                path,
            })
        }),
{
}

/// A qualifying event for a source that does not compile leaves the active
/// material as it was and hands the diagnostic to the host; the controller
/// is idle again.
pub proof fn lemma_invalid_source_keeps_material<H>(
    c: ControllerView<H>,
    event: Option<WatchEventView>,
    is_regular_file: bool,
    extension: Option<Seq<char>>,
    diagnostic: Seq<char>,
)
    requires
        c.state is Idle,
        qualifies(c.wanted, event, is_regular_file, extension),
    ensures
        ({
            let path = candidate_of(event)->Some_0;
            let waiting = after_event(c, event, is_regular_file, extension);
            let done = after_outcome(waiting, Err(diagnostic));
            &&& done == c
            &&& effect_of(waiting, path, Err(diagnostic)) == (ReloadEffectView::<H>::Rejected {
                diagnostic,
            })
        }),
{
}

/// Owns the active material and decides when it is replaced.
pub struct ShaderReloadController<H> {
    wanted: Option<String>,
    active: H,
    state: ReloadState,
}

impl<H> View for ShaderReloadController<H> {
    type V = ControllerView<H>;

    closed spec fn view(&self) -> ControllerView<H> {
        ControllerView { wanted: text_of(self.wanted), active: self.active, state: self.state@ }
    }
}

impl<H> ShaderReloadController<H> {
    /// An idle controller with `active` as its material, which reloads on
    /// changes to files whose extension is `wanted`.
    pub fn new(active: H, wanted: Option<String>) -> (c: Self)
        ensures
            c@ == (ControllerView { wanted: text_of(wanted), active, state: ReloadStateView::Idle }),
    {
        ShaderReloadController { wanted, active, state: ReloadState::Idle }
    }

    /// The material that frames are drawn with.
    pub fn active(&self) -> (h: &H)
        ensures
            *h == self@.active,
    {
        &self.active
    }

    /// The extension whose files are reloaded, if any.
    pub fn wanted_extension(&self) -> (t: &Option<String>)
        ensures
            text_of(*t) == self@.wanted,
    {
        &self.wanted
    }

    /// Where the controller stands.
    pub fn state(&self) -> (s: &ReloadState)
        ensures
            s@ == self@.state,
    {
        &self.state
    }

    /// Whether no reload is under way.
    pub fn is_idle(&self) -> (b: bool)
        ensures
            b <==> self@.state is Idle,
    {
        match &self.state {
            ReloadState::Idle => true,
            ReloadState::Reloading(_) => false,
        }
    }

    /// Whether a compile outcome is awaited.
    pub fn is_reloading(&self) -> (b: bool)
        ensures
            b <==> self@.state is Reloading,
    {
        match &self.state {
            ReloadState::Idle => false,
            ReloadState::Reloading(_) => true,
        }
    }

    /// Takes at most one event, with what the file system said of its path
    /// and the extension that was read from that path.
    pub fn on_classified_event(
        &mut self,
        event: Option<WatchEvent>,
        is_regular_file: bool,
        extension: Option<String>,
    ) -> (action: ReloadAction)
        requires
            old(self)@.state is Idle,
        ensures
            final(self)@ == after_event(old(self)@, event_view(event), is_regular_file, text_of(extension)),
            action@ == action_for(old(self)@, event_view(event), is_regular_file, text_of(extension)),
    {
        let candidate = match event {
            Some(e) => e.into_candidate(),
            None => None,
        };
        let matching = match &extension {
            Some(e) => match &self.wanted {
                Some(t) => *e == *t,
                None => false,
            },
            None => false,
        };
        match candidate {
            Some(path) => {
                if is_regular_file && matching {
                    let for_host = path.clone();
                    self.state = ReloadState::Reloading(path);
                    ReloadAction::Compile(for_host)
                } else {
                    ReloadAction::Skip
                }
            },
            None => ReloadAction::Skip,
        }
    }

    /// Takes at most one event and what the file system said of its path:
    /// whether it is a regular file (of no account where the event has no
    /// candidate path). The extension is read from the path here, as the
    /// platform reads it; the step is the one that `on_classified_event`
    /// makes with that reading.
    pub fn on_event(&mut self, event: Option<WatchEvent>, is_regular_file: bool) -> (action: ReloadAction)
        requires
            old(self)@.state is Idle,
        ensures
            read_from_event(event_view(event), reading_of(event_view(event))),
            final(self)@ == after_event(
                old(self)@,
                event_view(event),
                is_regular_file,
                reading_of(event_view(event)),
            ),
            action@ == action_for(
                old(self)@,
                event_view(event),
                is_regular_file,
                reading_of(event_view(event)),
            ),
    {
        let extension = match &event {
            Some(e) => match e.candidate_path() {
                Some(p) => extension_of(p.as_str()),
                None => None,
            },
            None => None,
        };
        self.on_classified_event(event, is_regular_file, extension)
    }

    /// Takes the outcome of the compilation that `on_event` asked for: the
    /// new material, or the words of whatever failed.
    pub fn on_compiled(&mut self, outcome: Result<H, String>) -> (effect: ReloadEffect<H>)
        requires
            old(self)@.state is Reloading,
        ensures
            final(self)@ == after_outcome(old(self)@, outcome_view(outcome)),
            effect@ == effect_of(old(self)@, old(self)@.state->Reloading_0, outcome_view(outcome)),
    {
        let mut state = ReloadState::Idle;
        core::mem::swap(&mut self.state, &mut state);
        match outcome {
            Ok(material) => {
                let mut retired = material;
                core::mem::swap(&mut self.active, &mut retired);
                let path = match state {
                    ReloadState::Reloading(p) => p,
                    ReloadState::Idle => unreached(),
                };
                ReloadEffect::Swapped { retired, path }
            },
            Err(diagnostic) => ReloadEffect::Rejected { diagnostic },
        }
    }
}

} // verus!
