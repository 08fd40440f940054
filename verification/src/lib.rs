//! User-side view of the kernel/user exchange zone: the fixed area through
//! which a task and the kernel hand each other typed objects, with the
//! encodings of those objects and the copy rules between them and the area.

pub mod area;
pub mod exchange;
pub mod laws;
pub mod layout;
pub mod le;
pub mod systypes;

pub use crate::exchange::{copy_from_kernel, copy_to_kernel, SentryExchangeable};
pub mod byte_laws;
