//! Client-side error reporting for Bugsnag.
//!
//! A [`Bugsnag`] client hands out a [`NotifyBuilder`] for each error. The
//! builder captures the stack, classifies each frame as part of the project or
//! not, and hands out the JSON payload for the transport exactly once. A
//! [`GlobalInstance`] registry lets code that does not own a client reach one.

pub mod appinfo;
pub mod bugsnag;
pub mod deviceinfo;
pub mod error;
pub mod event;
pub mod exception;
pub mod globalinstance;
pub mod json;
pub mod notification;
pub mod panic;
pub mod stacktrace;
pub mod text;

pub use crate::appinfo::AppInfo;
pub use crate::bugsnag::{Bugsnag, NotifyBuilder};
pub use crate::deviceinfo::DeviceInfo;
pub use crate::error::{Error, Severity};
pub use crate::globalinstance::{GlobalInstance, SharedClient, Wrapper};
pub use crate::stacktrace::{create_stacktrace, Classifier, Frame, ResolvedSymbol};
