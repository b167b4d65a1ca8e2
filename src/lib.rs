//! Verified core of a desktop report runner: it decides how the report
//! script is invoked and what each outcome of that invocation means, while
//! the host program spawns the process and moves the bytes.

mod args;
mod outcome;
mod stream;
mod text;

pub use args::{interpreter, script_args};
pub use outcome::{blocking_outcome, RunError, ScriptOutput};
pub use stream::{Action, Event, Phase, StreamRun};
pub use text::is_blank;
