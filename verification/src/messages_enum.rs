//! Fixed user-facing messages.
use vstd::prelude::*;

use crate::text::{concat, owned};

verus! {

/// A message of the application.
pub enum MessageEnum {
    AppTitle,
    ErrorNotFound,
    ErrorInvalidInput(String),
}

impl MessageEnum {
    /// The text of a message.
    pub open spec fn text(&self) -> Seq<char> {
        match self {
            MessageEnum::AppTitle => "Vocofo File Manager"@,
            MessageEnum::ErrorNotFound => "Item not found"@,
            MessageEnum::ErrorInvalidInput(details) => "Invalid input: "@ + details@,
        }
    }

    pub fn as_str(&self) -> (r: String)
        ensures
            r@ == self.text(),
    {
        match self {
            MessageEnum::AppTitle => owned("Vocofo File Manager"),
            MessageEnum::ErrorNotFound => owned("Item not found"),
            MessageEnum::ErrorInvalidInput(details) => concat("Invalid input: ", details.as_str()),
        }
    }
}

} // verus!
