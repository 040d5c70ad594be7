//! The ways a lookup can fail.

use vstd::prelude::*;

verus! {

/// `ureq::Error`, the report of a request that failed, carried as it is. This
/// crate makes no request and never produces one.
#[verifier::external_type_specification]
#[verifier::external_body]
pub struct ExTransportError(ureq::Error);

/// Why a lookup produced no result.
#[derive(Debug)]
pub enum OmdbError {
    /// The HTTP request itself failed.
    UreqError(ureq::Error),
    /// The body is not JSON, or it is JSON but not a movie record.
    SerdeJsonError(serde_json::Error),
    /// A failure to read something, reported as a text by a caller. The
    /// library itself reports none.
    SerdeParseError(String),
    /// The API knows no such title; carries the title that was asked for.
    TitleNotFound(String),
    /// The API knows no such IMDb id; carries the id that was asked for.
    ImdbIdNotFound(String),
    /// The API refused the request for another reason, such as a bad key;
    /// carries the API's message.
    KeyError(String),
    /// The configured result and response formats do not go together.
    OtherError(String),
    /// The requested option is recognised but not supported.
    NotImplemented,
}

/// An `OmdbError` with each text taken by its characters.
pub enum OmdbErrorView {
    UreqError(ureq::Error),
    SerdeJsonError(serde_json::Error),
    SerdeParseError(Seq<char>),
    TitleNotFound(Seq<char>),
    ImdbIdNotFound(Seq<char>),
    KeyError(Seq<char>),
    OtherError(Seq<char>),
    NotImplemented,
}

impl View for OmdbError {
    type V = OmdbErrorView;

    open spec fn view(&self) -> OmdbErrorView {
        match *self {
            OmdbError::UreqError(e) => OmdbErrorView::UreqError(e),
            OmdbError::SerdeJsonError(e) => OmdbErrorView::SerdeJsonError(e),
            OmdbError::SerdeParseError(s) => OmdbErrorView::SerdeParseError(s@),
            OmdbError::TitleNotFound(s) => OmdbErrorView::TitleNotFound(s@),
            OmdbError::ImdbIdNotFound(s) => OmdbErrorView::ImdbIdNotFound(s@),
            OmdbError::KeyError(s) => OmdbErrorView::KeyError(s@),
            OmdbError::OtherError(s) => OmdbErrorView::OtherError(s@),
            OmdbError::NotImplemented => OmdbErrorView::NotImplemented,
        }
    }
}

impl From<ureq::Error> for OmdbError {
    fn from(err: ureq::Error) -> (e: OmdbError) {
        OmdbError::UreqError(err)
    }
}

impl vstd::std_specs::convert::FromSpecImpl<ureq::Error> for OmdbError {
    open spec fn obeys_from_spec() -> bool {
        true
    }

    open spec fn from_spec(err: ureq::Error) -> OmdbError {
        OmdbError::UreqError(err)
    }
}

impl From<serde_json::Error> for OmdbError {
    fn from(err: serde_json::Error) -> (e: OmdbError) {
        OmdbError::SerdeJsonError(err)
    }
}

impl vstd::std_specs::convert::FromSpecImpl<serde_json::Error> for OmdbError {
    open spec fn obeys_from_spec() -> bool {
        true
    }

    open spec fn from_spec(err: serde_json::Error) -> OmdbError {
        OmdbError::SerdeJsonError(err)
    }
}

impl From<String> for OmdbError {
    fn from(err: String) -> (e: OmdbError) {
        OmdbError::SerdeParseError(err)
    }
}

impl vstd::std_specs::convert::FromSpecImpl<String> for OmdbError {
    open spec fn obeys_from_spec() -> bool {
        true
    }

    open spec fn from_spec(err: String) -> OmdbError {
        OmdbError::SerdeParseError(err)
    }
}

} // verus!
