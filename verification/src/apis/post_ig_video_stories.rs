//! Publishing a video as a story of an account.

use crate::api::{video_url, Fbapi};
use crate::apis::check_ig_media::{media_begun, media_plan, CheckStyle, MediaPublish};
use crate::exchange::Turn;
use crate::json::Json;
use crate::text::{borrowed_pairs, Pair};
use vstd::prelude::*;

verus! {

/// The fields that make the container of a story from a video.
pub open spec fn video_story_fields(access_token: Seq<char>, video_url: Seq<char>) -> Seq<Pair> {
    seq![("access_token"@, access_token), ("media_type"@, "STORIES"@), ("video_url"@, video_url)]
}

impl Fbapi {
    /// Publishes the video at `video_url` as a story of the account.
    pub fn post_ig_video_stories(
        &self,
        access_token: &str,
        account_igid: &str,
        video_url: &str,
        check_retry_count: usize,
        check_video_delay: usize,
        retry_count: usize,
    ) -> (r: Turn<MediaPublish, Json>)
        ensures
            r@ == media_begun(
                media_plan(
                    self@.version,
                    access_token@,
                    account_igid@,
                    CheckStyle::Detailed,
                    check_retry_count,
                    check_video_delay,
                    retry_count,
                ),
                video_story_fields(access_token@, video_url@),
            ),
    {
        let fields = [
            ("access_token", access_token),
            ("media_type", "STORIES"),
            ("video_url", video_url),
        ];
        proof {
            assert(borrowed_pairs(fields@) =~= video_story_fields(access_token@, video_url@));
        }
        MediaPublish::begin(
            self.media_plan(
                access_token,
                account_igid,
                CheckStyle::Detailed,
                check_retry_count,
                check_video_delay,
                retry_count,
            ),
            &fields,
        )
    }
}

} // verus!
