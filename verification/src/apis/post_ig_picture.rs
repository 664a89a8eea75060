//! Publishing a picture on an account, and making the container of one.

use crate::api::Fbapi;
use crate::apis::check_ig_media::{media_begun, media_plan, media_url, CheckStyle, MediaPublish};
use crate::exchange::{form_request, fresh_record, Channel, LogParams, Request, Turn};
use crate::flow::{id_call_begun, IdCall};
use crate::json::Json;
use crate::text::{borrowed_pairs, truth, truth_text, Pair};
use vstd::prelude::*;

verus! {

/// The fields that make the container of a picture.
pub open spec fn picture_fields(
    access_token: Seq<char>,
    image_url: Seq<char>,
    caption: Seq<char>,
    is_carousel_item: bool,
) -> Seq<Pair> {
    seq![
        ("access_token"@, access_token),
        ("image_url"@, image_url),
        ("caption"@, caption),
        ("is_carousel_item"@, truth(is_carousel_item)),
    ]
}

impl Fbapi {
    /// Publishes the picture at `image_url` on the account, with a caption:
    /// its container is made, watched until it is finished, and published.
    pub fn post_ig_picture(
        &self,
        access_token: &str,
        account_igid: &str,
        image_url: &str,
        caption: &str,
        check_retry_count: usize,
        check_delay: usize,
        retry_count: usize,
    ) -> (r: Turn<MediaPublish, Json>)
        ensures
            r@ == media_begun(
                media_plan(
                    self@.version,
                    access_token@,
                    account_igid@,
                    CheckStyle::Detailed,
                    check_retry_count,
                    check_delay,
                    retry_count,
                ),
                picture_fields(access_token@, image_url@, caption@, false),
            ),
    {
        let fields = [
            ("access_token", access_token),
            ("image_url", image_url),
            ("caption", caption),
            ("is_carousel_item", truth_text(false)),
        ];
        proof {
            assert(borrowed_pairs(fields@) =~= picture_fields(
                access_token@,
                image_url@,
                caption@,
                false,
            ));
        }
        MediaPublish::begin(
            self.media_plan(
                access_token,
                account_igid,
                CheckStyle::Detailed,
                check_retry_count,
                check_delay,
                retry_count,
            ),
            &fields,
        )
    }

    /// Makes the container of the picture at `image_url`, for itself or as
    /// an item of a carousel. The product is the id of the container.
    pub fn post_ig_image_container(
        &self,
        access_token: &str,
        account_igid: &str,
        image_url: &str,
        caption: &str,
        is_carousel_item: bool,
        retry_count: usize,
    ) -> (r: Turn<IdCall, String>)
        ensures
            r@ == id_call_begun(
                retry_count,
                form_request(
                    media_url(self@.version, account_igid@),
                    picture_fields(access_token@, image_url@, caption@, is_carousel_item),
                    Channel::Standard,
                ),
                fresh_record(
                    media_url(self@.version, account_igid@),
                    picture_fields(access_token@, image_url@, caption@, is_carousel_item),
                ),
            ),
    {
        let fields = [
            ("access_token", access_token),
            ("image_url", image_url),
            ("caption", caption),
            ("is_carousel_item", truth_text(is_carousel_item)),
        ];
        proof {
            assert(borrowed_pairs(fields@) =~= picture_fields(
                access_token@,
                image_url@,
                caption@,
                is_carousel_item,
            ));
        }
        let mut postfix = account_igid.to_owned();
        postfix.append("/media");
        let path = self.make_path(postfix.as_str());
        IdCall::begin(
            retry_count,
            Request::post_form(path.as_str(), &fields, Channel::Standard),
            LogParams::new(path.as_str(), &fields),
        )
    }
}

} // verus!
