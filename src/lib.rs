//! Turning a panic into an ordinary value: the data recorded for a caught panic, the
//! per-thread stack of capture frames that the process-wide panic hook fills in, and the
//! decisions that the hook and each catch boundary make on that stack.

pub mod boundary;
pub mod catch_stack;
pub mod panic_data;

pub use boundary::{finish_catch, install_step, InstallStep, StackEvent};
pub use catch_stack::{CaptureBacktrace, CatchStack, CatchStackFrame, HookOutcome};
pub use panic_data::{PanicData, PanicLocation, Payload};
