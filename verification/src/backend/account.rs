//! What an account backend receives.

use vstd::prelude::*;
use crate::text::{opt_str, opt_text};

verus! {

/// The options of a request for the user's information.
#[derive(Debug)]
pub struct UserInformationOptions {
    reason: Option<String>,
}

/// The model of a [`UserInformationOptions`].
pub struct UserInformationOptionsView {
    pub reason: Option<Seq<char>>,
}

impl View for UserInformationOptions {
    type V = UserInformationOptionsView;

    closed spec fn view(&self) -> UserInformationOptionsView {
        UserInformationOptionsView {
            reason: opt_text(self.reason),
        }
    }
}

impl UserInformationOptions {
    /// The options as received.
    pub fn new(reason: Option<String>) -> (o: UserInformationOptions)
        ensures
            o@.reason == opt_text(reason),
    {
        UserInformationOptions { reason }
    }

    /// The user-visible reason for the request.
    pub fn reason(&self) -> (s: Option<&str>)
        ensures
            opt_str(s) == self@.reason,
    {
        match &self.reason {
            Some(v) => Some(v.as_str()),
            None => None,
        }
    }
}

} // verus!
