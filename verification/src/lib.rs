//! Planning core of an APK decompilation pipeline.
//!
//! The crate decides what has to happen to turn a packaged application into
//! readable sources: which stage runs next, where each archive member is
//! extracted to, how the conversion tools are invoked and what is cleaned up
//! afterwards. It touches neither the file system nor any process; callers
//! perform the planned operations and report back how they went.

pub mod archive;
pub mod decompiler;
pub mod error;
pub mod extract;
pub mod operation;
pub mod paths;
pub mod pipeline;
