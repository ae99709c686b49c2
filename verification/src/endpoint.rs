//! The contract that every operation of the API is described by.
//!
//! An [`Endpoint`] names the shape of a request and of a response, says
//! how a request is rendered as path and query, how the body of a
//! response is read, and which status codes stand for which outcome.
//! [`Endpoint::evaluate`] is the one pipeline that all operations share:
//! it turns a status and a body into a typed result.
use crate::error::ShapeError;
use crate::json::Json;
use crate::json::JsonValue;
use crate::json::json_text;
use vstd::prelude::*;
use vstd::slice::slice_to_vec;

verus! {

/// The category that a response falls in, judged by its status code.
#[derive(Copy, Clone, Debug, PartialEq, Eq)]
pub enum Outcome<K> {
    /// The request was carried out; the body holds the output.
    Success,
    /// The request failed in a way that the endpoint has a name for.
    Failure(K),
    /// The endpoint makes no statement about the status.
    Unexpected,
}

/// One line of an endpoint's status table.
#[derive(Copy, Clone, Debug, PartialEq, Eq)]
pub struct StatusEntry<K> {
    /// The status code that the line is about.
    pub status: u16,
    /// The category of a response with that status.
    pub outcome: Outcome<K>,
}

/// No status code has two lines in the table.
pub open spec fn distinct_statuses<K>(table: Seq<StatusEntry<K>>) -> bool {
    forall|i: int, j: int| 0 <= i < j < table.len() ==> table[i].status != table[j].status
}

/// The category that `table` gives to `status`: that of the first line
/// about it, and [`Outcome::Unexpected`] where there is none.
pub open spec fn lookup<K>(table: Seq<StatusEntry<K>>, status: u16) -> Outcome<K>
    decreases table.len(),
{
    if table.len() == 0 {
        Outcome::Unexpected
    } else if table[0].status == status {
        table[0].outcome
    } else {
        lookup(table.skip(1), status)
    }
}

/// Looks `status` up in `table`.
pub fn classify<K: Copy>(table: &[StatusEntry<K>], status: u16) -> (outcome: Outcome<K>)
    ensures
        outcome == lookup(table@, status),
{
    let mut i: usize = 0;
    assert(table@.skip(0) == table@);
    while i < table.len()
        invariant
            i <= table@.len(),
            lookup(table@, status) == lookup(table@.skip(i as int), status),
        decreases table.len() - i,
    {
        proof {
            assert(table@.skip(i as int)[0] == table@[i as int]);
            assert(table@.skip(i as int).skip(1) == table@.skip(i as int + 1));
        }
        if table[i].status == status {
            return table[i].outcome;
        }
        i += 1;
    }
    Outcome::Unexpected
}

/// Every status code falls in exactly one category, whatever the
/// table: it is a success, or a failure with a name, or unexpected.
pub proof fn lemma_one_outcome<K>(table: Seq<StatusEntry<K>>, status: u16)
    ensures
        lookup(table, status) is Success || lookup(table, status) is Failure || lookup(
            table,
            status,
        ) is Unexpected,
        !(lookup(table, status) is Success && lookup(table, status) is Failure),
        !(lookup(table, status) is Success && lookup(table, status) is Unexpected),
        !(lookup(table, status) is Failure && lookup(table, status) is Unexpected),
{
}

/// A status code that the table has a line about falls in the category
/// that the line names, where no status code has two lines.
pub proof fn lemma_lookup_listed<K>(table: Seq<StatusEntry<K>>, i: int)
    requires
        distinct_statuses(table),
        0 <= i < table.len(),
    ensures
        lookup(table, table[i].status) == table[i].outcome,
    decreases i,
{
    if i > 0 {
        let rest = table.skip(1);
        assert(rest[i - 1] == table[i]);
        assert forall|a: int, b: int| 0 <= a < b < rest.len() implies rest[a].status
            != rest[b].status by {
            assert(rest[a] == table[a + 1] && rest[b] == table[b + 1]);
        }
        lemma_lookup_listed(rest, i - 1);
    }
}

/// A status code that the table has no line about is unexpected.
pub proof fn lemma_lookup_unlisted<K>(table: Seq<StatusEntry<K>>, status: u16)
    requires
        forall|i: int| 0 <= i < table.len() ==> (#[trigger] table[i]).status != status,
    ensures
        lookup(table, status) is Unexpected,
    decreases table.len(),
{
    if table.len() > 0 {
        let rest = table.skip(1);
        assert forall|i: int| 0 <= i < rest.len() implies (#[trigger] rest[i]).status
            != status by {
            assert(rest[i] == table[i + 1]);
        }
        lemma_lookup_unlisted(rest, status);
    }
}

/// A structured description of a failure, as the service reports it
/// in the body of a response.
#[derive(Clone, Debug, PartialEq, Eq)]
pub struct ApiError {
    /// The code by which the service knows the failure.
    pub code: u64,
    /// What the service has to say about it.
    pub message: String,
}

/// The mathematical value of an [`ApiError`].
pub struct ApiErrorView {
    pub code: u64,
    pub message: Seq<char>,
}

impl View for ApiError {
    type V = ApiErrorView;

    open spec fn view(&self) -> ApiErrorView {
        ApiErrorView { code: self.code, message: self.message@ }
    }
}

/// The error that a document describes: an object with an unsigned
/// `code` and a `message` string.
pub open spec fn api_error_of(json: JsonValue) -> Result<ApiErrorView, ShapeError> {
    match json.unsigned_at("code"@) {
        Err(e) => Err(e),
        Ok(code) => match json.string_at("message"@) {
            Err(e) => Err(e),
            Ok(message) => Ok(ApiErrorView { code, message }),
        },
    }
}

/// What decoding the body of a failed request yields.
///
/// Where the body is a JSON document that describes an error, that
/// error; in every other case the bytes of the body, unchanged.
pub open spec fn api_error_parsed(body: Seq<u8>, r: Result<ApiError, Vec<u8>>) -> bool {
    match json_text(body) {
        Some(json) if api_error_of(json) is Ok => r matches Ok(error) && error@ == api_error_of(
            json,
        )->Ok_0,
        _ => r matches Err(raw) && raw@ == body,
    }
}

impl ApiError {
    /// Reads an error from the document that describes it.
    pub fn from_json(json: &Json) -> (r: Result<ApiError, ShapeError>)
        ensures
            r matches Ok(error) ==> api_error_of(json@) == Ok::<_, ShapeError>(error@),
            r matches Err(e) ==> api_error_of(json@) == Err::<ApiErrorView, _>(e),
    {
        let code = json.unsigned_at("code")?;
        let message = json.string_at("message")?;
        Ok(ApiError { code, message })
    }

    /// Reads an error from the body of a response, and hands the body
    /// back where it holds none.
    pub fn from_slice(body: &[u8]) -> (r: Result<ApiError, Vec<u8>>)
        ensures
            api_error_parsed(body@, r),
    {
        match Json::from_slice(body) {
            Ok(json) => match ApiError::from_json(&json) {
                Ok(error) => Ok(error),
                Err(_) => Err(slice_to_vec(body)),
            },
            Err(_) => Err(slice_to_vec(body)),
        }
    }
}

/// The failure of a request.
#[derive(Debug)]
pub enum EndpointError<K, A, C> {
    /// The status promised an output, and the body does not hold one.
    Conversion(C),
    /// The service reported a failure that the endpoint has a name
    /// for. The body is decoded where it can be, and raw where not.
    Failure(K, Result<A, Vec<u8>>),
    /// The service answered with a status that the endpoint makes no
    /// statement about.
    UnexpectedStatus(u16, Result<A, Vec<u8>>),
}

/// The description of one operation of the API.
pub trait Endpoint {
    /// What a request is made from.
    type Input;

    /// What a successful request yields.
    type Output;

    /// The failures that the operation has a name for.
    type Failure: Copy;

    /// The structured description of a failure in the body of a response.
    type ApiError;

    /// The local failure to encode a request or decode a response.
    type ConversionError;

    /// The status table of the operation.
    spec fn statuses() -> Seq<StatusEntry<Self::Failure>>;

    /// What [`Endpoint::parse`] yields for a body.
    spec fn parsed(body: Seq<u8>, r: Result<Self::Output, Self::ConversionError>) -> bool;

    /// What [`Endpoint::parse_err`] yields for a body.
    spec fn parsed_err(body: Seq<u8>, r: Result<Self::ApiError, Vec<u8>>) -> bool;

    /// No status code has two lines in the status table.
    proof fn lemma_statuses()
        ensures
            distinct_statuses(Self::statuses()),
    ;

    /// The status table of the operation.
    fn status_table() -> (table: Vec<StatusEntry<Self::Failure>>)
        ensures
            table@ == Self::statuses(),
    ;

    /// The host to send the request to, where it is not the default one.
    fn base_url() -> Option<String>;

    /// The path of the request.
    fn path(input: &Self::Input) -> String;

    /// The query of the request, percent-encoded.
    fn query(input: &Self::Input) -> Result<Option<String>, Self::ConversionError>;

    /// Reads the output from the body of a successful response.
    fn parse(body: &[u8]) -> (r: Result<Self::Output, Self::ConversionError>)
        ensures
            Self::parsed(body@, r),
    ;

    /// Reads the description of a failure from the body of a response,
    /// and hands the body back unchanged where it holds none.
    fn parse_err(body: &[u8]) -> (r: Result<Self::ApiError, Vec<u8>>)
        ensures
            Self::parsed_err(body@, r),
            r matches Err(raw) ==> raw@ == body@,
    ;

    /// Turns the status and the body of a response into a result.
    ///
    /// A status that the table lists as a success has the body read as
    /// output. Every other status has the body read as the description
    /// of a failure, which is filed under the name that the table gives
    /// the status, or as unexpected, together with the status, where
    /// the table does not list it.
    fn evaluate(status: u16, body: &[u8]) -> (r: Result<
        Self::Output,
        EndpointError<Self::Failure, Self::ApiError, Self::ConversionError>,
    >)
        ensures
            match lookup(Self::statuses(), status) {
                Outcome::Success => match r {
                    Ok(output) => Self::parsed(body@, Ok(output)),
                    Err(EndpointError::Conversion(e)) => Self::parsed(body@, Err(e)),
                    Err(_) => false,
                },
                Outcome::Failure(kind) => r matches Err(EndpointError::Failure(k, details)) && k
                    == kind && Self::parsed_err(body@, details) && (details matches Err(raw)
                    ==> raw@ == body@),
                Outcome::Unexpected => r matches Err(EndpointError::UnexpectedStatus(s, details))
                    && s == status && Self::parsed_err(body@, details) && (details matches Err(
                    raw,
                ) ==> raw@ == body@),
            },
    {
        let table = Self::status_table();
        match classify(table.as_slice(), status) {
            Outcome::Success => match Self::parse(body) {
                Ok(output) => Ok(output),
                Err(e) => Err(EndpointError::Conversion(e)),
            },
            Outcome::Failure(kind) => Err(EndpointError::Failure(kind, Self::parse_err(body))),
            Outcome::Unexpected => Err(
                EndpointError::UnexpectedStatus(status, Self::parse_err(body)),
            ),
        }
    }
}

} // verus!
