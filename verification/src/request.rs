//! The inbound trial request and the outbound response.

use vstd::prelude::*;

verus! {

/// Where a trial request without an email address came from.
#[derive(Clone, Copy, Debug, PartialEq, Eq, Structural)]
pub enum TrialSource {
    Mobile,
    Site,
}

/// The label under which a source is reported to the provisioning API.
pub open spec fn source_label(source: TrialSource) -> Seq<char> {
    match source {
        TrialSource::Mobile => "trial-mobile"@,
        TrialSource::Site => "trial-site"@,
    }
}

impl TrialSource {
    /// The label of this source: `trial-mobile` or `trial-site`.
    pub fn label(&self) -> (text: String)
        ensures
            text@ == source_label(*self),
    {
        match self {
            TrialSource::Mobile => "trial-mobile".to_string(),
            TrialSource::Site => "trial-site".to_string(),
        }
    }
}

/// The characters of an optional text.
pub open spec fn text_of(text: Option<String>) -> Option<Seq<char>> {
    match text {
        Some(t) => Some(t@),
        None => None,
    }
}

/// A request for a trial, as decoded from the body of `POST /trial`.
#[derive(Debug)]
pub struct TrialRequest {
    pub email: Option<String>,
    pub telegram: Option<String>,
    pub source: Option<TrialSource>,
    pub env: Option<String>,
}

/// A request with its texts as sequences of characters.
pub struct TrialRequestView {
    pub email: Option<Seq<char>>,
    pub telegram: Option<Seq<char>>,
    pub source: Option<TrialSource>,
    pub env: Option<Seq<char>>,
}

impl View for TrialRequest {
    type V = TrialRequestView;

    open spec fn view(&self) -> TrialRequestView {
        TrialRequestView {
            email: text_of(self.email),
            telegram: text_of(self.telegram),
            source: self.source,
            env: text_of(self.env),
        }
    }
}

impl TrialRequestView {
    /// Exactly one of `email` and `source` is present.
    pub open spec fn is_valid(&self) -> bool {
        self.email.is_some() != self.source.is_some()
    }
}

impl TrialRequest {
    /// A request is valid when exactly one of `email` and `source` is present.
    pub open spec fn is_valid(&self) -> bool {
        self@.is_valid()
    }

    /// Whether exactly one of `email` and `source` is present.
    pub fn validate(&self) -> (valid: bool)
        ensures
            valid == self.is_valid(),
            valid <==> (self.email is Some && self.source is None) || (self.email is None
                && self.source is Some),
    {
        if self.email.is_none() && self.source.is_none() {
            false
        } else if self.email.is_some() && self.source.is_some() {
            false
        } else {
            true
        }
    }
}

/// The answer to a trial request. It always travels with HTTP status 200:
/// failures are told in `status`.
#[derive(Debug)]
pub struct TrialResponse {
    /// `ok` or `error`.
    pub status: String,
    /// A sentence for the reader.
    pub message: String,
    /// The subscription identifier, where a trial was activated.
    pub sub_id: Option<String>,
}

/// A response with its texts as sequences of characters.
pub struct TrialResponseView {
    pub status: Seq<char>,
    pub message: Seq<char>,
    pub sub_id: Option<Seq<char>>,
}

impl View for TrialResponse {
    type V = TrialResponseView;

    open spec fn view(&self) -> TrialResponseView {
        TrialResponseView {
            status: self.status@,
            message: self.message@,
            sub_id: text_of(self.sub_id),
        }
    }
}

/// The response that reports a failure.
pub open spec fn error_response(message: Seq<char>) -> TrialResponseView {
    TrialResponseView { status: "error"@, message, sub_id: None }
}

/// The response that reports an activated trial.
pub open spec fn ok_response(message: Seq<char>, sub_id: Seq<char>) -> TrialResponseView {
    TrialResponseView { status: "ok"@, message, sub_id: Some(sub_id) }
}

impl TrialResponse {
    /// The response that reports a failure, with the given message.
    pub fn error(message: &str) -> (response: TrialResponse)
        ensures
            response@ == error_response(message@),
    {
        TrialResponse { status: "error".to_string(), message: message.to_string(), sub_id: None }
    }

    /// The response that reports an activated trial, with the given message
    /// and subscription identifier.
    pub fn ok(message: &str, sub_id: String) -> (response: TrialResponse)
        ensures
            response@ == ok_response(message@, sub_id@),
    {
        TrialResponse { status: "ok".to_string(), message: message.to_string(), sub_id: Some(sub_id) }
    }

    /// Whether this response reports an activated trial.
    pub fn is_ok(&self) -> (ok: bool)
        ensures
            ok == (self@.status == "ok"@),
    {
        let expected = "ok".to_string();
        self.status == expected
    }
}

} // verus!
