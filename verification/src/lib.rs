//! The decision logic of a messaging session on top of the Solace C client.
//!
//! A session is driven in steps.  An operation such as [`session::Session::subscribe_queue`]
//! opens with a [`step::Step`]: either the operation is over, or one call into the C client has
//! to be made and its reply handed to [`session::Session::resume`].  Nothing here performs the
//! calls.  The crate decides which call comes next, with which arguments, and what the replies
//! add up to; [`run`] says what that makes of whole operations, for all replies.
pub mod call;
pub mod config;
pub mod ctext;
pub mod decimal;
pub mod disconnect;
pub mod error;
pub mod guarantees;
pub mod properties;
pub mod return_code;
pub mod run;
pub mod session;
pub mod step;
