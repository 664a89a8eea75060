//! The client's settings, and the URLs it builds.

use crate::error::FbapiError;
use crate::json::{member_views, push_member, Json, JsonNumber, JsonValue, NumberValue};
use vstd::prelude::*;

verus! {

/// The host of the graph.
pub const GRAPH_PREFIX: &'static str = "https://graph.facebook.com/";

/// The host to which videos are handed over.
pub const VIDEO_PREFIX: &'static str = "https://graph-video.facebook.com/";

/// The host to which reels are uploaded.
pub const VIDEO_REEL_URL_PREFIX: &'static str = "https://rupload.facebook.com/video-upload/";

/// The settings of a client: the version of the platform's API, the
/// timeout of its transport, and whether it only pretends to call and
/// answers every call with the platform's report of a used-up rate limit.
pub struct Fbapi {
    version: String,
    timeout_seconds: u64,
    rate_limit_emulation: bool,
}

/// The mathematical value of a [`Fbapi`].
pub struct FbapiView {
    pub version: Seq<char>,
    pub timeout_seconds: u64,
    pub rate_limit_emulation: bool,
}

impl View for Fbapi {
    type V = FbapiView;

    closed spec fn view(&self) -> FbapiView {
        FbapiView {
            version: self.version@,
            timeout_seconds: self.timeout_seconds,
            rate_limit_emulation: self.rate_limit_emulation,
        }
    }
}

/// `prefix`, the version, `/` and `postfix`.
pub open spec fn versioned_url(prefix: Seq<char>, version: Seq<char>, postfix: Seq<char>) -> Seq<
    char,
> {
    prefix + version + "/"@ + postfix
}

/// The URL of `postfix` on the graph host.
pub open spec fn graph_url(version: Seq<char>, postfix: Seq<char>) -> Seq<char> {
    versioned_url(GRAPH_PREFIX@, version, postfix)
}

/// The URL of `postfix` on the video host.
pub open spec fn video_url(version: Seq<char>, postfix: Seq<char>) -> Seq<char> {
    versioned_url(VIDEO_PREFIX@, version, postfix)
}

/// The URL of a reel's upload.
pub open spec fn video_reel_url(version: Seq<char>, video_id: Seq<char>) -> Seq<char> {
    versioned_url(VIDEO_REEL_URL_PREFIX@, version, video_id)
}

/// The platform's report of a used-up rate limit, as the emulation answers.
pub open spec fn rate_limit_report() -> JsonValue {
    JsonValue::Object(
        seq![
            (
                "error"@,
                JsonValue::Object(
                    seq![
                        ("code"@, JsonValue::Number(NumberValue::PosInt(32))),
                        ("fbtrace_id"@, JsonValue::String("emulated"@)),
                        ("message"@, JsonValue::String("(#32) Page request limit reached"@)),
                        ("type"@, JsonValue::String("OAuthException"@)),
                    ],
                ),
            ),
        ],
    )
}

/// The platform's report of a used-up rate limit.
pub fn rate_limit_error() -> (r: Json)
    ensures
        r@ == rate_limit_report(),
{
    let mut detail: Vec<(String, Json)> = Vec::new();
    assert(member_views(detail@) =~= Seq::empty());
    push_member(&mut detail, "code", Json::Number(JsonNumber::PosInt(32)));
    push_member(&mut detail, "fbtrace_id", Json::text("emulated"));
    push_member(&mut detail, "message", Json::text("(#32) Page request limit reached"));
    push_member(&mut detail, "type", Json::text("OAuthException"));
    assert(member_views(detail@) =~= rate_limit_report()->Object_0[0].1->Object_0);
    let mut members: Vec<(String, Json)> = Vec::new();
    assert(member_views(members@) =~= Seq::empty());
    push_member(&mut members, "error", Json::object(detail));
    assert(member_views(members@) =~= rate_limit_report()->Object_0);
    Json::object(members)
}

/// The URL of `postfix` on the graph host, for a version of the API.
pub fn graph_path(version: &str, postfix: &str) -> (r: String)
    ensures
        r@ == graph_url(version@, postfix@),
{
    versioned(GRAPH_PREFIX, version, postfix)
}

/// The URL of `postfix` on the video host, for a version of the API.
pub fn video_path(version: &str, postfix: &str) -> (r: String)
    ensures
        r@ == video_url(version@, postfix@),
{
    versioned(VIDEO_PREFIX, version, postfix)
}

fn versioned(prefix: &str, version: &str, postfix: &str) -> (r: String)
    ensures
        r@ == versioned_url(prefix@, version@, postfix@),
{
    let mut url = prefix.to_owned();
    url.append(version);
    url.append("/");
    url.append(postfix);
    assert(url@ =~= versioned_url(prefix@, version@, postfix@));
    url
}

impl Fbapi {
    /// The settings of a client. It never fails: the transport, which may,
    /// is the caller's to build, with the timeout kept here.
    pub fn new(version: &str, timeout_seconds: u64, rate_limit_emulation: bool) -> (r: Result<
        Self,
        FbapiError,
    >)
        ensures
            r matches Ok(api) && api@ == (FbapiView {
                version: version@,
                timeout_seconds,
                rate_limit_emulation,
            }),
    {
        Ok(Self { version: version.to_owned(), timeout_seconds, rate_limit_emulation })
    }

    /// The timeout of the transport, in seconds.
    pub fn timeout_seconds(&self) -> (r: u64)
        ensures
            r == self@.timeout_seconds,
    {
        self.timeout_seconds
    }

    /// Whether the client only pretends to call.
    pub fn rate_limit_emulation(&self) -> (r: bool)
        ensures
            r == self@.rate_limit_emulation,
    {
        self.rate_limit_emulation
    }

    /// The version of the platform's API.
    pub fn version(&self) -> (r: &str)
        ensures
            r@ == self@.version,
    {
        self.version.as_str()
    }

    /// The URL of `postfix` on the graph host.
    pub fn make_path(&self, postfix: &str) -> (r: String)
        ensures
            r@ == graph_url(self@.version, postfix@),
    {
        versioned(GRAPH_PREFIX, self.version.as_str(), postfix)
    }

    /// The URL of `postfix` on the video host.
    pub fn make_video_path(&self, postfix: &str) -> (r: String)
        ensures
            r@ == video_url(self@.version, postfix@),
    {
        versioned(VIDEO_PREFIX, self.version.as_str(), postfix)
    }

    /// The URL of a reel's upload.
    pub fn make_video_reel_path(&self, video_id: &str) -> (r: String)
        ensures
            r@ == video_reel_url(self@.version, video_id@),
    {
        versioned(VIDEO_REEL_URL_PREFIX, self.version.as_str(), video_id)
    }
}

} // verus!
