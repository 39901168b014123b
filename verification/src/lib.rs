//! Control logic of a live-editable shader viewer.
//!
//! The crate holds the decisions that surround a render loop and none of its
//! input or output: which file-system events lead to a shader reload, what a
//! reload does to the active material, what is handed to the shader compiler,
//! what the file watcher is asked to watch, which input device is bound, and
//! the mesh that the shader is drawn on. A host program performs the actions
//! that these functions return and reports back what happened.

pub mod compiler;
pub mod event;
pub mod history;
pub mod input;
pub mod path;
pub mod quad;
pub mod reload;
pub mod watch;
