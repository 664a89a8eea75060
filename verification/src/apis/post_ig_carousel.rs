//! Publishing a carousel on an account.

use crate::api::Fbapi;
use crate::apis::check_ig_media::{media_begun, media_plan, CheckStyle, MediaPublish};
use crate::exchange::Turn;
use crate::json::Json;
use crate::text::{borrowed_pairs, comma_list, join_commas, owned_texts, Pair};
use vstd::prelude::*;

verus! {

/// The fields that make the container of a carousel: its children are
/// named by their ids, joined by commas.
pub open spec fn carousel_fields(
    access_token: Seq<char>,
    caption: Seq<char>,
    children: Seq<Seq<char>>,
) -> Seq<Pair> {
    seq![
        ("access_token"@, access_token),
        ("media_type"@, "CAROUSEL"@),
        ("children"@, comma_list(children)),
        ("caption"@, caption),
    ]
}

impl Fbapi {
    /// Publishes the containers `children` as a carousel of the account,
    /// with a caption.
    pub fn post_ig_carousel(
        &self,
        access_token: &str,
        account_igid: &str,
        caption: &str,
        children: &Vec<String>,
        check_retry_count: usize,
        check_video_delay: usize,
        retry_count: usize,
    ) -> (r: Turn<MediaPublish, Json>)
        ensures
            r@ == media_begun(
                media_plan(
                    self@.version,
                    access_token@,
                    account_igid@,
                    CheckStyle::Plain,
                    check_retry_count,
                    check_video_delay,
                    retry_count,
                ),
                carousel_fields(access_token@, caption@, owned_texts(children@)),
            ),
    {
        let children_str = join_commas(children);
        let fields = [
            ("access_token", access_token),
            ("media_type", "CAROUSEL"),
            ("children", children_str.as_str()),
            ("caption", caption),
        ];
        proof {
            assert(borrowed_pairs(fields@) =~= carousel_fields(
                access_token@,
                caption@,
                owned_texts(children@),
            ));
        }
        MediaPublish::begin(
            self.media_plan(
                access_token,
                account_igid,
                CheckStyle::Plain,
                check_retry_count,
                check_video_delay,
                retry_count,
            ),
            &fields,
        )
    }
}

} // verus!
