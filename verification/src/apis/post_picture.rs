//! Posting a picture to a page.

use crate::api::Fbapi;
use crate::apis::post_album_photo::photos_url;
use crate::exchange::{fresh_record, multipart_request, LogParams, Request, Turn};
use crate::flow::{form_begun, FormFlow};
use crate::json::Json;
use crate::text::borrowed_pairs;
use vstd::prelude::*;

verus! {

impl Fbapi {
    /// Posts the picture that the caller holds to the page, unpublished,
    /// with a caption: one form call, with the picture as the part `source`
    /// under the name of its file.
    pub fn post_picture(
        &self,
        access_token: &str,
        page_fbid: &str,
        file_path: &str,
        caption: &str,
    ) -> (r: Turn<FormFlow, Json>)
        ensures
            r@ == form_begun(
                multipart_request(
                    photos_url(self@.version, page_fbid@),
                    seq![
                        ("access_token"@, access_token@),
                        ("caption"@, caption@),
                        ("published"@, "false"@),
                    ],
                    file_path@,
                ),
                fresh_record(
                    photos_url(self@.version, page_fbid@),
                    seq![
                        ("access_token"@, access_token@),
                        ("file_path"@, file_path@),
                        ("caption"@, caption@),
                        ("published"@, "false"@),
                    ],
                ),
            ),
    {
        let path = self.photos_path(page_fbid);
        let params = [
            ("access_token", access_token),
            ("file_path", file_path),
            ("caption", caption),
            ("published", "false"),
        ];
        let fields = [
            ("access_token", access_token),
            ("caption", caption),
            ("published", "false"),
        ];
        proof {
            assert(borrowed_pairs(params@) =~= seq![
                ("access_token"@, access_token@),
                ("file_path"@, file_path@),
                ("caption"@, caption@),
                ("published"@, "false"@),
            ]);
            assert(borrowed_pairs(fields@) =~= seq![
                ("access_token"@, access_token@),
                ("caption"@, caption@),
                ("published"@, "false"@),
            ]);
        }
        FormFlow::begin(
            Request::post_multipart(path.as_str(), &fields, file_path),
            LogParams::new(path.as_str(), &params),
        )
    }
}

} // verus!
