//! What the file watcher is asked to do for a shader path.

use vstd::prelude::*;
use vstd::string::*;
use crate::event::{candidate_of, WatchEventView};
use crate::reload::{action_for, after_event, reading_of, ControllerView, ReloadActionView, ReloadStateView};
use crate::path::{
    extension_of, extension_read, extension_reading, parent_of, parent_read, parent_reading, text_of,
};

verus! {

/// The time without changes, in milliseconds, after which the watcher
/// reports a change.
pub const DEBOUNCE_MILLIS: u64 = 250;

/// How the watcher is set up: the directory it watches, whether it goes
/// into subdirectories, the quiet time before it reports, and the extension
/// of the files whose changes lead to a reload.
#[derive(Debug)]
pub struct WatchPlan {
    pub directory: String,
    pub recursive: bool,
    pub debounce_millis: u64,
    pub extension: Option<String>,
}

/// The model of a `WatchPlan`.
pub struct WatchPlanView {
    pub directory: Seq<char>,
    pub recursive: bool,
    pub debounce_millis: u64,
    pub extension: Option<Seq<char>>,
}

impl View for WatchPlan {
    type V = WatchPlanView;

    open spec fn view(&self) -> WatchPlanView {
        WatchPlanView {
            directory: self.directory@,
            recursive: self.recursive,
            debounce_millis: self.debounce_millis,
            extension: text_of(self.extension),
        }
    }
}

/// Why no watcher can be set up.
#[derive(Clone, Copy, Debug, PartialEq, Eq, Structural)]
pub enum WatchError {
    /// The shader path names nothing that lies in a directory.
    NoParentDirectory,
}

/// The model of a plan or the error in its place.
pub open spec fn planned_view(p: Result<WatchPlan, WatchError>) -> Result<WatchPlanView, WatchError> {
    match p {
        Ok(plan) => Ok(plan@),
        Err(e) => Err(e),
    }
}

/// The plan for a shader whose path has `parent` as its directory and
/// `extension` as its extension: that directory alone is watched, with the
/// fixed quiet time, for files of that extension.
pub open spec fn plan_from(parent: Option<Seq<char>>, extension: Option<Seq<char>>) -> Result<
    WatchPlanView,
    WatchError,
> {
    match parent {
        Some(directory) => Ok(
            WatchPlanView { directory, recursive: false, debounce_millis: DEBOUNCE_MILLIS, extension },
        ),
        None => Err(WatchError::NoParentDirectory),
    }
}

/// Makes the plan from what was read from the shader path: its parent
/// directory and its extension.
pub fn plan_from_readings(parent: Option<String>, extension: Option<String>) -> (planned: Result<
    WatchPlan,
    WatchError,
>)
    ensures
        planned_view(planned) == plan_from(text_of(parent), text_of(extension)),
{
    match parent {
        Some(directory) => Ok(
            WatchPlan { directory, recursive: false, debounce_millis: DEBOUNCE_MILLIS, extension },
        ),
        None => Err(WatchError::NoParentDirectory),
    }
}

/// Makes the plan for the shader at `shader_path`. The parent directory and
/// the extension are read from the path here, as the platform reads them;
/// the plan is the one that `plan_from_readings` makes of those readings.
pub fn plan_for(shader_path: &str) -> (planned: Result<WatchPlan, WatchError>)
    ensures
        parent_reading(shader_path@, parent_read(shader_path@)),
        extension_reading(shader_path@, extension_read(shader_path@)),
        planned_view(planned) == plan_from(parent_read(shader_path@), extension_read(shader_path@)),
{
    let parent = parent_of(shader_path);
    let extension = extension_of(shader_path);
    plan_from_readings(parent, extension)
}

/// Whether `c` is a controller set up for the shader at `shader_path`: a
/// plan can be made for the path, the path has an extension, and the
/// controller reloads the plan's extension.
pub open spec fn set_up_for<H>(c: ControllerView<H>, shader_path: Seq<char>) -> bool {
    &&& plan_from(parent_read(shader_path), extension_read(shader_path)) matches Ok(plan)
        && c.wanted == plan.extension
    &&& extension_read(shader_path) is Some
}

/// A change to the configured shader itself starts a reload: a controller
/// set up for a shader path takes every creation or modification of that
/// path, once found to be a regular file, as the start of a reload of it.
pub proof fn lemma_configured_shader_reloads<H>(
    c: ControllerView<H>,
    shader_path: Seq<char>,
    event: Option<WatchEventView>,
)
    ensures
        set_up_for(c, shader_path) && candidate_of(event) == Some(shader_path) ==> {
            &&& action_for(c, event, true, reading_of(event)) == ReloadActionView::Compile(
                shader_path,
            )
            &&& after_event(c, event, true, reading_of(event)).state == ReloadStateView::Reloading(
                shader_path,
            )
            &&& after_event(c, event, true, reading_of(event)).active == c.active
        },
{
}

impl WatchError {
    /// The error in words.
    pub fn message(&self) -> (words: String)
        ensures
            words@ == "Shader has no parent dir?"@,
    {
        match self {
            WatchError::NoParentDirectory => String::from_str("Shader has no parent dir?"),
        }
    }
}

} // verus!
