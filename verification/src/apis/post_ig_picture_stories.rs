//! Publishing a picture as a story of an account.

use crate::api::Fbapi;
use crate::apis::check_ig_media::{
    media_begun, media_plan, stage_begun, upload_turn, CheckStyle, ContainerUpload, MediaPublish,
};
use crate::exchange::Turn;
use crate::json::Json;
use crate::text::{borrowed_pairs, Pair};
use vstd::prelude::*;

verus! {

/// The fields that make the container of a story from a picture.
pub open spec fn picture_story_fields(access_token: Seq<char>, image_url: Seq<char>) -> Seq<Pair> {
    seq![("access_token"@, access_token), ("media_type"@, "STORIES"@), ("image_url"@, image_url)]
}

impl Fbapi {
    /// Publishes the picture at `image_url` as a story of the account.
    pub fn post_ig_picture_stories(
        &self,
        access_token: &str,
        account_igid: &str,
        image_url: &str,
        check_retry_count: usize,
        check_delay: usize,
        retry_count: usize,
    ) -> (r: Turn<MediaPublish, Json>)
        ensures
            r@ == media_begun(
                media_plan(
                    self@.version,
                    access_token@,
                    account_igid@,
                    CheckStyle::Detailed,
                    check_retry_count,
                    check_delay,
                    retry_count,
                ),
                picture_story_fields(access_token@, image_url@),
            ),
    {
        let fields = [
            ("access_token", access_token),
            ("media_type", "STORIES"),
            ("image_url", image_url),
        ];
        proof {
            assert(borrowed_pairs(fields@) =~= picture_story_fields(access_token@, image_url@));
        }
        MediaPublish::begin(
            self.media_plan(
                access_token,
                account_igid,
                CheckStyle::Detailed,
                check_retry_count,
                check_delay,
                retry_count,
            ),
            &fields,
        )
    }

    /// Makes the container of a story from the picture at `image_url` and
    /// watches it until it is finished, without publishing it. The product
    /// is the id of the container, to be published apart.
    pub fn upload_ig_picture_stories(
        &self,
        access_token: &str,
        account_igid: &str,
        image_url: &str,
        check_retry_count: usize,
        check_delay: usize,
        retry_count: usize,
    ) -> (r: Turn<ContainerUpload, String>)
        ensures
            r@ == upload_turn(
                media_plan(
                    self@.version,
                    access_token@,
                    account_igid@,
                    CheckStyle::Detailed,
                    check_retry_count,
                    check_delay,
                    retry_count,
                ),
                stage_begun(
                    media_plan(
                        self@.version,
                        access_token@,
                        account_igid@,
                        CheckStyle::Detailed,
                        check_retry_count,
                        check_delay,
                        retry_count,
                    ),
                    picture_story_fields(access_token@, image_url@),
                ),
            ),
    {
        let fields = [
            ("access_token", access_token),
            ("media_type", "STORIES"),
            ("image_url", image_url),
        ];
        proof {
            assert(borrowed_pairs(fields@) =~= picture_story_fields(access_token@, image_url@));
        }
        ContainerUpload::begin(
            self.media_plan(
                access_token,
                account_igid,
                CheckStyle::Detailed,
                check_retry_count,
                check_delay,
                retry_count,
            ),
            &fields,
        )
    }
}

} // verus!
