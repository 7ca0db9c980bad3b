//! The error of building an announcement.
use vstd::prelude::*;
use crate::text::{decimal, push_decimal};

verus! {

/// Why an announcement could not be built.
#[derive(Debug)]
pub enum MessageError {
    /// The role to mention is not in the guild.
    RoleNotFound(u64),
}

impl MessageError {
    /// The error's text.
    pub open spec fn text(&self) -> Seq<char> {
        match self {
            MessageError::RoleNotFound(id) => "role with id `"@ + decimal(*id as nat) + "` was not found"@,
        }
    }

    /// The error's text, as its display writes it.
    pub fn to_string(&self) -> (s: String)
        ensures
            s@ == self.text(),
    {
        match self {
            MessageError::RoleNotFound(id) => {
                let mut s = String::from_str("role with id `");
                push_decimal(&mut s, *id);
                s.append("` was not found");
                s
            },
        }
    }
}

} // verus!
