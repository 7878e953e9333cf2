//! The two ways a call to the query service can fail.

use vstd::prelude::*;
use vstd::std_specs::cmp::PartialEqSpecImpl;
use vstd::std_specs::convert::FromSpecImpl;
use vstd::string::StringExecFns;

verus! {

/// Failure payload that the service sends in place of a result,
/// for instance for an invalid API key or an unknown query.
#[derive(Debug)]
pub struct DuneError {
    /// Human-readable message of the service.
    pub error: String,
}

/// Every failure of a request: either the service answered and rejected
/// the request, or no valid answer was obtained at all.
#[derive(Debug)]
pub enum DuneRequestError {
    /// The service rejected the request; carries its message verbatim.
    Dune(String),
    /// The request failed in transport or its answer could not be decoded.
    Request(String),
}

/// Mathematical content of a [`DuneRequestError`]: its kind and message.
pub enum ErrorView {
    /// Rejected by the service, with the service's message.
    Service(Seq<char>),
    /// Failed in transport, with a description of the failure.
    Transport(Seq<char>),
}

impl View for DuneRequestError {
    type V = ErrorView;

    open spec fn view(&self) -> ErrorView {
        match self {
            DuneRequestError::Dune(message) => ErrorView::Service(message@),
            DuneRequestError::Request(message) => ErrorView::Transport(message@),
        }
    }
}

impl ErrorView {
    /// The text shown to a reader: a prefix naming the kind, then the message.
    pub open spec fn display(self) -> Seq<char> {
        match self {
            ErrorView::Service(message) => "Dune API error: "@ + message,
            ErrorView::Transport(message) => "request error: "@ + message,
        }
    }
}

impl PartialEq for DuneRequestError {
    fn eq(&self, other: &DuneRequestError) -> (same: bool) {
        match (self, other) {
            (DuneRequestError::Dune(a), DuneRequestError::Dune(b)) => *a == *b,
            (DuneRequestError::Request(a), DuneRequestError::Request(b)) => *a == *b,
            _ => false,
        }
    }
}

impl PartialEqSpecImpl for DuneRequestError {
    open spec fn obeys_eq_spec() -> bool {
        true
    }

    open spec fn eq_spec(&self, other: &DuneRequestError) -> bool {
        self@ == other@
    }
}

impl DuneRequestError {
    /// Renders the failure for a reader.
    pub fn to_string(&self) -> (text: String)
        ensures
            text@ == self@.display(),
    {
        match self {
            DuneRequestError::Dune(message) => "Dune API error: ".to_owned().concat(
                message.as_str(),
            ),
            DuneRequestError::Request(message) => "request error: ".to_owned().concat(
                message.as_str(),
            ),
        }
    }
}

impl From<DuneError> for DuneRequestError {
    fn from(value: DuneError) -> (failure: DuneRequestError) {
        DuneRequestError::Dune(value.error)
    }
}

impl FromSpecImpl<DuneError> for DuneRequestError {
    open spec fn obeys_from_spec() -> bool {
        true
    }

    open spec fn from_spec(value: DuneError) -> DuneRequestError {
        DuneRequestError::Dune(value.error)
    }
}

/// Failure value of the HTTP client. It is carried through untouched;
/// only its description is ever read.
#[verifier::external_type_specification]
#[verifier::external_body]
pub struct ExTransportFailure(reqwest::Error);

/// The description that the HTTP client gives of one of its failures.
pub uninterp spec fn transport_description(failure: reqwest::Error) -> Seq<char>;

/// Calls `Display` of `reqwest::Error` through `to_string`. Nothing is
/// claimed of the description but that it is a function of the failure.
#[verifier::external_body]
fn describe_transport(failure: &reqwest::Error) -> (text: String)
    ensures
        text@ == transport_description(*failure),
{
    failure.to_string()
}

impl From<reqwest::Error> for DuneRequestError {
    fn from(value: reqwest::Error) -> (failure: DuneRequestError)
        ensures
            failure@ == ErrorView::Transport(transport_description(value)),
    {
        DuneRequestError::Request(describe_transport(&value))
    }
}

// Two strings with the same characters need not be the same value, so this
// conversion is pinned down by its view, in the `ensures` of `from` above.
impl FromSpecImpl<reqwest::Error> for DuneRequestError {
    open spec fn obeys_from_spec() -> bool {
        false
    }

    open spec fn from_spec(value: reqwest::Error) -> DuneRequestError {
        choose|failure: DuneRequestError|
            failure@ == ErrorView::Transport(transport_description(value))
    }
}

/// A rejection by the service and a failure of transport are never the
/// same failure, whatever their messages. `==` compares views, so it
/// tells them apart.
pub proof fn lemma_service_differs_from_transport(
    rejected: DuneRequestError,
    broken: DuneRequestError,
)
    requires
        rejected is Dune,
        broken is Request,
    ensures
        rejected@ != broken@,
{
}

} // verus!
