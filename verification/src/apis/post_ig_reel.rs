//! Publishing a reel on an account.

use crate::api::{video_url, Fbapi};
use crate::apis::check_ig_media::{media_begun, media_plan, CheckStyle, MediaPublish};
use crate::apis::get_object::optional_str;
use crate::exchange::Turn;
use crate::json::Json;
use crate::text::{borrowed_pairs, truth, truth_text, Pair};
use vstd::prelude::*;

verus! {

/// The fields that make the container of a reel; the cover is named last,
/// where there is one.
pub open spec fn reel_fields(
    access_token: Seq<char>,
    video_url: Seq<char>,
    cover_url: Option<Seq<char>>,
    caption: Seq<char>,
    is_share_to_feed: bool,
) -> Seq<Pair> {
    seq![
        ("access_token"@, access_token),
        ("media_type"@, "REELS"@),
        ("video_url"@, video_url),
        ("caption"@, caption),
        ("share_to_feed"@, truth(is_share_to_feed)),
    ] + match cover_url {
        Some(url) => seq![("cover_url"@, url)],
        None => Seq::empty(),
    }
}

impl Fbapi {
    /// Publishes the video at `video_url` as a reel of the account.
    pub fn post_ig_reel(
        &self,
        access_token: &str,
        account_igid: &str,
        video_url: &str,
        cover_url: Option<&str>,
        caption: &str,
        is_share_to_feed: bool,
        check_retry_count: usize,
        check_video_delay: usize,
        retry_count: usize,
    ) -> (r: Turn<MediaPublish, Json>)
        ensures
            r@ == media_begun(
                media_plan(
                    self@.version,
                    access_token@,
                    account_igid@,
                    CheckStyle::Detailed,
                    check_retry_count,
                    check_video_delay,
                    retry_count,
                ),
                reel_fields(
                    access_token@,
                    video_url@,
                    optional_str(cover_url),
                    caption@,
                    is_share_to_feed,
                ),
            ),
    {
        let mut fields = vec![
            ("access_token", access_token),
            ("media_type", "REELS"),
            ("video_url", video_url),
            ("caption", caption),
            ("share_to_feed", truth_text(is_share_to_feed)),
        ];
        match cover_url {
            Some(url) => {
                fields.push(("cover_url", url));
            },
            None => {},
        }
        proof {
            assert(borrowed_pairs(fields@) =~= reel_fields(
                access_token@,
                video_url@,
                optional_str(cover_url),
                caption@,
                is_share_to_feed,
            ));
        }
        MediaPublish::begin(
            self.media_plan(
                access_token,
                account_igid,
                CheckStyle::Detailed,
                check_retry_count,
                check_video_delay,
                retry_count,
            ),
            fields.as_slice(),
        )
    }
}

} // verus!
