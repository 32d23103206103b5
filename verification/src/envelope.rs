//! The envelope that TorBox wraps its answers in.

use crate::text::text_of;
use vstd::prelude::*;

verus! {

/// An answer of TorBox.
#[derive(Debug)]
pub struct TorboxEnvelope<T> {
    pub success: bool,
    pub error: Option<String>,
    pub detail: Option<String>,
    pub data: Option<T>,
}

/// The content of a [`TorboxEnvelope`].
pub struct EnvelopeModel<T> {
    pub success: bool,
    pub error: Option<Seq<char>>,
    pub detail: Option<Seq<char>>,
    pub data: Option<T>,
}

impl<T> View for TorboxEnvelope<T> {
    type V = EnvelopeModel<T>;

    open spec fn view(&self) -> EnvelopeModel<T> {
        EnvelopeModel {
            success: self.success,
            error: text_of(self.error),
            detail: text_of(self.detail),
            data: self.data,
        }
    }
}

/// What to tell the user of a refusal: the detail if there is one, else the error
/// if there is one, else the fallback.
pub open spec fn refusal<T>(envelope: EnvelopeModel<T>, fallback: Seq<char>) -> Seq<char> {
    match (envelope.detail, envelope.error) {
        (Some(detail), _) => detail,
        (None, Some(error)) => error,
        (None, None) => fallback,
    }
}

/// The message of an answer that reports a failure.
pub fn torbox_error_message<T>(envelope: TorboxEnvelope<T>, fallback: &str) -> (message: String)
    ensures
        message@ == refusal(envelope@, fallback@),
{
    match (envelope.detail, envelope.error) {
        (Some(detail), _) => detail,
        (None, Some(error)) => error,
        (None, None) => fallback.to_owned(),
    }
}

/// The detail of a refusal is told as it is, even an empty one; the error takes its
/// place where there is no detail, and the fallback where there is neither.
pub proof fn law_detail_goes_before_error<T>(
    envelope: EnvelopeModel<T>,
    fallback: Seq<char>,
    text: Seq<char>,
)
    ensures
        envelope.detail == Some(text) ==> refusal(envelope, fallback) == text,
        envelope.detail is None && envelope.error == Some(text) ==> refusal(envelope, fallback)
            == text,
        envelope.detail is None && envelope.error is None ==> refusal(envelope, fallback)
            == fallback,
{
}

/// An answer is seen as it is.
pub proof fn law_envelope_is_seen_as_it_is<T>(envelope: TorboxEnvelope<T>)
    ensures
        envelope@.success == envelope.success,
        envelope@.data == envelope.data,
        match envelope.error {
            Some(error) => envelope@.error == Some(error@),
            None => envelope@.error is None,
        },
        match envelope.detail {
            Some(detail) => envelope@.detail == Some(detail@),
            None => envelope@.detail is None,
        },
{
}

} // verus!
