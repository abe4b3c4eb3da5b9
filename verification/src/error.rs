//! What can go wrong while the browser reconfigures itself.

use vstd::prelude::*;

verus! {

/// Why an activation could not replace the visible widgets.
#[derive(Debug, PartialEq, Eq)]
pub enum Failure {
    /// The reader could not open or parse what the path names; the text is
    /// the reader's own message.
    Data(String),
    /// The widget set has been replaced as often as generations can be told
    /// apart.
    Exhausted,
}

/// A failure with its texts as sequences of characters.
pub enum FailureView {
    Data(Seq<char>),
    Exhausted,
}

impl View for Failure {
    type V = FailureView;

    open spec fn view(&self) -> FailureView {
        match self {
            Failure::Data(message) => FailureView::Data(message@),
            Failure::Exhausted => FailureView::Exhausted,
        }
    }
}

impl Failure {
    /// A line of text for this failure.
    pub fn message(&self) -> (text: String)
        ensures
            text@ == match self@ {
                FailureView::Data(message) => message,
                FailureView::Exhausted => "Too many reconfigurations"@,
            },
    {
        match self {
            Failure::Data(message) => message.clone(),
            Failure::Exhausted => "Too many reconfigurations".to_owned(),
        }
    }
}

} // verus!
