//! The ways in which a conversion between values and text fails.
use vstd::prelude::*;

verus! {

/// The way in which a document fails to have the shape of the value
/// that was to be read from it.
#[derive(Copy, Clone, Debug, PartialEq, Eq, Structural)]
pub enum ShapeError {
    /// An object was asked for and something else was found.
    ExpectedObject,
    /// A string was asked for and something else was found.
    ExpectedString,
    /// A number was asked for and something else was found.
    ExpectedNumber,
    /// A non-negative integer was asked for and something else was found.
    ExpectedUnsigned,
    /// An object lacks a member that it has to have.
    Missing,
}

/// A failure to turn a request into text, or the text of a response
/// into a value. Such a failure is local: the service has no part in it.
#[derive(Debug)]
pub enum ConversionError {
    /// The body of a response is no JSON document.
    Json(serde_json::Error),
    /// The body of a response is a JSON document of another shape than
    /// the output has.
    Shape(ShapeError),
    /// A request could not be rendered as a query.
    UrlEncode(serde_urlencoded::ser::Error),
}

} // verus!
