//! Setting the thumbnail of a video.

use crate::api::{graph_path, graph_url, Fbapi};
use crate::exchange::{
    fresh_record, multipart_request, LogParams, LogParamsView, Request, RequestView, Turn,
};
use crate::flow::{form_begun, FormFlow};
use crate::json::Json;
use crate::text::borrowed_pairs;
use vstd::prelude::*;

verus! {

/// Where the thumbnail of a video is set.
pub open spec fn thumbnail_url(version: Seq<char>, video_id: Seq<char>) -> Seq<char> {
    graph_url(version, video_id + "/thumbnails"@)
}

/// The request that sets a thumbnail: a multipart form with the access
/// token and the mark of preference, and with the image as the part
/// `source` under the file name `thumnail`.
pub open spec fn thumbnail_request(
    version: Seq<char>,
    access_token: Seq<char>,
    video_id: Seq<char>,
) -> RequestView {
    multipart_request(
        thumbnail_url(version, video_id),
        seq![("access_token"@, access_token), ("is_preferred"@, "true"@)],
        "thumnail"@,
    )
}

/// The record with which setting a thumbnail is observed.
pub open spec fn thumbnail_record(
    version: Seq<char>,
    access_token: Seq<char>,
    video_id: Seq<char>,
) -> LogParamsView {
    fresh_record(
        thumbnail_url(version, video_id),
        seq![("access_token"@, access_token), ("video_id"@, video_id)],
    )
}

/// The form call that sets a thumbnail: its request and its record.
pub fn thumbnail_call(version: &str, access_token: &str, video_id: &str) -> (r: (
    Request,
    LogParams,
))
    ensures
        r.0@ == thumbnail_request(version@, access_token@, video_id@),
        r.1@ == thumbnail_record(version@, access_token@, video_id@),
{
    let mut postfix = video_id.to_owned();
    postfix.append("/thumbnails");
    let path = graph_path(version, postfix.as_str());
    let fields = [("access_token", access_token), ("is_preferred", "true")];
    let params = [("access_token", access_token), ("video_id", video_id)];
    let request = Request::post_multipart(path.as_str(), &fields, "thumnail");
    let record = LogParams::new(path.as_str(), &params);
    proof {
        assert(borrowed_pairs(fields@) =~= seq![
            ("access_token"@, access_token@),
            ("is_preferred"@, "true"@),
        ]);
        assert(borrowed_pairs(params@) =~= seq![
            ("access_token"@, access_token@),
            ("video_id"@, video_id@),
        ]);
    }
    (request, record)
}

impl Fbapi {
    /// Sets the thumbnail of a video: one form call, with the image that
    /// the caller holds.
    pub fn post_video_thumnail(&self, access_token: &str, video_id: &str) -> (r: Turn<
        FormFlow,
        Json,
    >)
        ensures
            r@ == form_begun(
                thumbnail_request(self@.version, access_token@, video_id@),
                thumbnail_record(self@.version, access_token@, video_id@),
            ),
    {
        let (request, record) = thumbnail_call(self.version(), access_token, video_id);
        FormFlow::begin(request, record)
    }
}

} // verus!
