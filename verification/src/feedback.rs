//! The feedback form's backing data.

use crate::product::Product;
use vstd::prelude::*;

verus! {

/// Whether the feedback report was handed off for sending yet.
#[derive(PartialEq, Eq, Structural, Copy, Clone, Debug)]
pub enum SendIssueStatus {
    NotSent,
    Sending,
    Finished,
}

/// A feedback report being edited: which product it concerns, a title,
/// and a description.
pub struct Feedback {
    pub product: Product,
    pub title: String,
    pub description: String,
    pub send_status: SendIssueStatus,
}

impl Feedback {
    /// A fresh report with placeholder text, not yet sent.
    pub fn empty() -> (r: Feedback)
        ensures
            r.product == Product::TwelveKnightsVigil,
            r.title@ == "Untitled"@,
            r.description@ == "Enter a description"@,
            r.send_status == SendIssueStatus::NotSent,
    {
        Feedback {
            product: Product::TwelveKnightsVigil,
            title: "Untitled".to_owned(),
            description: "Enter a description".to_owned(),
            send_status: SendIssueStatus::NotSent,
        }
    }
}

} // verus!
