//! A guarded wrapper for values that are released by hand.
//!
//! A value that is released manually must be released once and must not be
//! touched afterwards. The wrappers of this crate keep a lifecycle state next
//! to the value, check it on every operation, and hand every misuse to a
//! trigger, which decides whether the caller may go on. They report a
//! misuse and do not prevent it: whenever the caller may go on, the
//! operation is carried out or owed as if it were valid.

pub mod beh;
pub mod flags;
pub mod state;
pub mod trig;

pub use crate::beh::auto::AutoSafeManuallyDrop;
pub use crate::beh::safe::SafeManuallyDrop as AlwaysSafeManuallyDrop;
pub use crate::beh::unchecked::UnsafeManuallyDrop as AlwaysUnsafeManuallyDrop;
pub use crate::trig::abort::AlwaysSafeAbortManuallyDrop;
pub use crate::trig::abort::AutoSafeAbortManuallyDrop;
pub use crate::trig::counter::AlwaysSafeCounterManuallyDrop;
pub use crate::trig::counter::AutoSafeCounterManuallyDrop;
pub use crate::trig::empty_loop::AlwaysSafeEmptyLoopManuallyDrop;
pub use crate::trig::empty_loop::AutoSafeEmptyLoopManuallyDrop;
pub use crate::trig::hook::AlwaysSafeHookManuallyDrop;
pub use crate::trig::hook::AutoSafeHookManuallyDrop;
pub use crate::trig::panic_trig::AlwaysSafePanicManuallyDrop;
pub use crate::trig::panic_trig::AutoSafePanicManuallyDrop;
pub use std::mem::ManuallyDrop as UnsafeStdManuallyDrop;
