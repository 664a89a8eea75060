//! The kinds of failure, and what a user is told of one.

use crate::json::{Json, JsonValue, NumberValue};
use vstd::prelude::*;

verus! {

/// Why a call, or a chain of calls, failed.
#[derive(Debug)]
pub enum FbapiError {
    /// The transport failed: no reply came back.
    Reqwest(String),
    /// The platform answered with an `error` object; the reply is kept whole.
    Facebook(Json),
    /// A text that should be a JSON document is none.
    Json(serde_json::Error),
    /// Reading the payload failed.
    IO(String),
    /// The reply is a document of another shape than expected; it is kept whole.
    UnExpected(Json),
    /// The platform reports that processing a video failed.
    VideoError,
    /// The checks were used up while the video was still being processed.
    VideoTimeout,
    /// The platform reports that processing a media container failed; the
    /// status reply is kept whole.
    IgVideoError(Json),
    /// The copyright check found a match.
    CopyRight,
    /// The video is delayed; to try again later is recommended.
    VideoDelayed,
    /// The platform reports that a phase of its work on a reel failed; the
    /// phase's name and the status document are kept together.
    PhaseError(Json),
}

/// The mathematical value of an [`FbapiError`]. The error that the JSON
/// reader reported has no part in it.
pub enum ErrorView {
    Reqwest(Seq<char>),
    Facebook(JsonValue),
    Json,
    IO(Seq<char>),
    UnExpected(JsonValue),
    VideoError,
    VideoTimeout,
    IgVideoError(JsonValue),
    CopyRight,
    VideoDelayed,
    PhaseError(JsonValue),
}

impl View for FbapiError {
    type V = ErrorView;

    open spec fn view(&self) -> ErrorView {
        match self {
            FbapiError::Reqwest(m) => ErrorView::Reqwest(m@),
            FbapiError::Facebook(d) => ErrorView::Facebook(d@),
            FbapiError::Json(_) => ErrorView::Json,
            FbapiError::IO(m) => ErrorView::IO(m@),
            FbapiError::UnExpected(d) => ErrorView::UnExpected(d@),
            FbapiError::VideoError => ErrorView::VideoError,
            FbapiError::VideoTimeout => ErrorView::VideoTimeout,
            FbapiError::IgVideoError(d) => ErrorView::IgVideoError(d@),
            FbapiError::CopyRight => ErrorView::CopyRight,
            FbapiError::VideoDelayed => ErrorView::VideoDelayed,
            FbapiError::PhaseError(d) => ErrorView::PhaseError(d@),
        }
    }
}

/// The view of a reply that is a document or a failure.
pub open spec fn reply_view(r: Result<Json, FbapiError>) -> Result<JsonValue, ErrorView> {
    match r {
        Ok(d) => Ok(d@),
        Err(e) => Err(e@),
    }
}

/// The classes into which every failure falls.
#[derive(Clone, Copy, Debug, PartialEq, Eq, Structural)]
pub enum ErrorKind {
    /// Network or I/O.
    TransportFailure,
    /// A body that is no JSON document.
    DecodeFailure,
    /// The platform returned an `error` object.
    ApiError,
    /// A document in which an expected field is missing or of another type.
    UnexpectedShape,
    /// The budget of polls was used up while the status was still transient.
    PollTimeout,
    /// The platform reported a status of failure.
    PollTerminalFailure,
    /// The copyright check found a match.
    CopyrightViolation,
}

impl ErrorView {
    /// The class of the failure.
    pub open spec fn kind(self) -> ErrorKind {
        match self {
            ErrorView::Reqwest(_) => ErrorKind::TransportFailure,
            ErrorView::IO(_) => ErrorKind::TransportFailure,
            ErrorView::Json => ErrorKind::DecodeFailure,
            ErrorView::Facebook(_) => ErrorKind::ApiError,
            ErrorView::UnExpected(_) => ErrorKind::UnexpectedShape,
            ErrorView::VideoTimeout => ErrorKind::PollTimeout,
            ErrorView::VideoDelayed => ErrorKind::PollTimeout,
            ErrorView::VideoError => ErrorKind::PollTerminalFailure,
            ErrorView::IgVideoError(_) => ErrorKind::PollTerminalFailure,
            ErrorView::PhaseError(_) => ErrorKind::PollTerminalFailure,
            ErrorView::CopyRight => ErrorKind::CopyrightViolation,
        }
    }

    /// Whether a call is worth another attempt after this failure: only a
    /// failure of the transport or of decoding is. Every other failure is
    /// handed on at once.
    pub open spec fn retryable(self) -> bool {
        self.kind() == ErrorKind::TransportFailure || self.kind() == ErrorKind::DecodeFailure
    }
}

/// Shown to the user where the account has to be authorised again.
pub const SHOULD_REOAUTH: &'static str =
    "アカウントの認証エラーで投稿が失敗しました。アカウントを再認証してください。";

/// The error code of an access token that has expired.
pub const EXPIRED_TOKEN_CODE: u64 = 190;

/// Whether `subcode` is one of the subcodes of a failed authorisation.
pub open spec fn is_reauth_subcode(subcode: u64) -> bool {
    subcode == 458 || subcode == 459 || subcode == 460 || subcode == 463 || subcode == 464
        || subcode == 467 || subcode == 492
}

/// The member `error_subcode` of an error detail: `Some(None)` where it is
/// missing or `null`, `Some(Some(n))` where it is the non-negative integer
/// `n`, `None` where it is anything else.
pub open spec fn error_subcode(detail: JsonValue) -> Option<Option<u64>> {
    match detail.member("error_subcode"@) {
        None => Some(None),
        Some(JsonValue::Null) => Some(None),
        Some(JsonValue::Number(NumberValue::PosInt(s))) => Some(Some(s)),
        Some(_) => None,
    }
}

/// The code and the subcode of the `error` object of a reply, where both are
/// of the types the platform documents.
pub open spec fn error_detail(doc: JsonValue) -> Option<(u64, Option<u64>)> {
    match doc.member("error"@) {
        Some(detail) => if detail is Object {
            match (detail.member("code"@), error_subcode(detail)) {
                (Some(JsonValue::Number(NumberValue::PosInt(code))), Some(subcode)) => Some(
                    (code, subcode),
                ),
                _ => None,
            }
        } else {
            None
        },
        None => None,
    }
}

/// Whether a reply of the platform calls for a new authorisation.
pub open spec fn should_reauthorize(doc: JsonValue) -> bool {
    match error_detail(doc) {
        Some((code, subcode)) => code == EXPIRED_TOKEN_CODE || (subcode matches Some(s)
            && is_reauth_subcode(s)),
        None => false,
    }
}

/// What the user is told of a failure: the prompt to authorise again, or
/// nothing.
pub open spec fn user_content(e: ErrorView) -> Seq<char> {
    match e {
        ErrorView::Facebook(doc) => if should_reauthorize(doc) {
            SHOULD_REOAUTH@
        } else {
            Seq::empty()
        },
        _ => Seq::empty(),
    }
}

fn reauth_subcode(subcode: u64) -> (r: bool)
    ensures
        r == is_reauth_subcode(subcode),
{
    subcode == 458 || subcode == 459 || subcode == 460 || subcode == 463 || subcode == 464
        || subcode == 467 || subcode == 492
}

fn read_subcode(detail: &Json) -> (r: Option<Option<u64>>)
    ensures
        r == error_subcode(detail@),
{
    match detail.member("error_subcode") {
        None => Some(None),
        Some(value) => {
            if value.is_null() {
                Some(None)
            } else {
                match value.as_u64() {
                    Some(s) => Some(Some(s)),
                    None => None,
                }
            }
        },
    }
}

fn read_detail(doc: &Json) -> (r: Option<(u64, Option<u64>)>)
    ensures
        r == error_detail(doc@),
{
    match doc.member("error") {
        Some(detail) => {
            if !detail.is_object() {
                return None;
            }
            let code = match detail.member("code") {
                Some(c) => c.as_u64(),
                None => None,
            };
            match (code, read_subcode(detail)) {
                (Some(code), Some(subcode)) => Some((code, subcode)),
                _ => None,
            }
        },
        None => None,
    }
}

impl FbapiError {
    /// The class of the failure.
    pub fn kind(&self) -> (r: ErrorKind)
        ensures
            r == self@.kind(),
    {
        match self {
            FbapiError::Reqwest(_) => ErrorKind::TransportFailure,
            FbapiError::IO(_) => ErrorKind::TransportFailure,
            FbapiError::Json(_) => ErrorKind::DecodeFailure,
            FbapiError::Facebook(_) => ErrorKind::ApiError,
            FbapiError::UnExpected(_) => ErrorKind::UnexpectedShape,
            FbapiError::VideoTimeout => ErrorKind::PollTimeout,
            FbapiError::VideoDelayed => ErrorKind::PollTimeout,
            FbapiError::VideoError => ErrorKind::PollTerminalFailure,
            FbapiError::IgVideoError(_) => ErrorKind::PollTerminalFailure,
            FbapiError::PhaseError(_) => ErrorKind::PollTerminalFailure,
            FbapiError::CopyRight => ErrorKind::CopyrightViolation,
        }
    }

    /// Whether a call is worth another attempt after this failure.
    pub fn retryable(&self) -> (r: bool)
        ensures
            r == self@.retryable(),
    {
        match self.kind() {
            ErrorKind::TransportFailure => true,
            ErrorKind::DecodeFailure => true,
            _ => false,
        }
    }

    /// What to show the user: the prompt to authorise the account again for
    /// a reply of the platform whose code is that of an expired token or
    /// whose subcode is one of a failed authorisation; the empty text for
    /// every other failure.
    pub fn make_error_content_for_user(&self) -> (r: String)
        ensures
            r@ == user_content(self@),
    {
        match self {
            FbapiError::Facebook(value) => {
                match read_detail(value) {
                    Some((code, subcode)) => {
                        if code == EXPIRED_TOKEN_CODE {
                            return SHOULD_REOAUTH.to_owned();
                        }
                        match subcode {
                            Some(s) => {
                                if reauth_subcode(s) {
                                    SHOULD_REOAUTH.to_owned()
                                } else {
                                    String::new()
                                }
                            },
                            None => String::new(),
                        }
                    },
                    None => String::new(),
                }
            },
            _ => String::new(),
        }
    }
}

} // verus!
