//! Notices of the shared results page: a message shown instead of result
//! rows, with an optional secondary line and follow-up link.
use vstd::prelude::*;

use crate::text::owned;

verus! {

/// A centered notice shown instead of result rows.
#[derive(Debug)]
pub struct Notice {
    pub message: String,
    pub detail: Option<String>,
    pub action: Option<(String, String)>,
}

impl Notice {
    /// A notice with a plain-text message.
    pub fn new(message: &str) -> (n: Self)
        ensures
            n.message@ == message@,
            n.detail is None,
            n.action is None,
    {
        Notice { message: owned(message), detail: None, action: None }
    }

    /// Add a secondary plain-text line, such as an error description.
    pub fn detail(self, detail: &str) -> (n: Self)
        ensures
            n.message == self.message,
            n.detail matches Some(d) && d@ == detail@,
            n.action == self.action,
    {
        Notice { message: self.message, detail: Some(owned(detail)), action: self.action }
    }

    /// Add a follow-up link; `href` is escaped when rendered.
    pub fn action(self, label: &str, href: &str) -> (n: Self)
        ensures
            n.message == self.message,
            n.detail == self.detail,
            n.action matches Some((l, h)) && l@ == label@ && h@ == href@,
    {
        Notice { message: self.message, detail: self.detail, action: Some((owned(label), owned(href))) }
    }
}

} // verus!
