//! Chains of error values: build them, inspect them, print them.
//!
//! An error value pairs a message with the failure that caused it, if any.
//! [`new`], [`wrap`] and [`opaque`] build such values; the functions of
//! [`iter`] walk the chain of causes; [`fmt`] and [`ErrorValue::render`] print
//! a chain under the [`Flags`] that the caller picks; [`Main`] always prints
//! the whole chain.
//!
//! An opaque node ends the chain for [`iter`], so that code cannot react to
//! what lies behind it, and is printed through, so that a reader still sees
//! all of it.

pub mod fmt;
pub mod iter;
pub mod laws;
pub mod model;
pub mod new;

pub use self::fmt::{fmt, Flags, JoinerStyle, Main, WrapperRef};
pub use self::iter::{find, is};
pub use self::model::{ErrorModel, MessageModel, TypeTag};
pub use self::new::{new, opaque, wrap, ErrorValue, Message};
