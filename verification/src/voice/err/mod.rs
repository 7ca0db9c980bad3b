//! Errors of building announcement messages, and the Discord client's error type.
use vstd::prelude::*;

pub mod message_error;
pub use message_error::MessageError;

verus! {

/// The Discord client's error type (`serenity::Error`), carried through unexamined.
#[verifier::external_type_specification]
#[verifier::external_body]
pub struct ExSerenityError(poise::serenity_prelude::Error);

} // verus!
