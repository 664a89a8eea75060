//! Adding a photo to an album.

use crate::api::{graph_url, Fbapi};
use crate::exchange::{fresh_record, multipart_request, LogParams, Request, Turn};
use crate::flow::{form_begun, FormFlow};
use crate::json::Json;
use crate::text::borrowed_pairs;
use vstd::prelude::*;

verus! {

/// Where the photos of an album or of a page are posted.
pub open spec fn photos_url(version: Seq<char>, fbid: Seq<char>) -> Seq<char> {
    graph_url(version, fbid + "/photos"@)
}

impl Fbapi {
    /// The URL of the photos of an album or of a page.
    pub fn photos_path(&self, fbid: &str) -> (r: String)
        ensures
            r@ == photos_url(self@.version, fbid@),
    {
        let mut postfix = fbid.to_owned();
        postfix.append("/photos");
        self.make_path(postfix.as_str())
    }

    /// Adds the photo that the caller holds to the album, published, with a
    /// message: one form call, with the photo as the part `source` under
    /// the name of its file.
    pub fn post_album_photo(
        &self,
        access_token: &str,
        album_fbid: &str,
        file_path: &str,
        message: &str,
    ) -> (r: Turn<FormFlow, Json>)
        ensures
            r@ == form_begun(
                multipart_request(
                    photos_url(self@.version, album_fbid@),
                    seq![
                        ("access_token"@, access_token@),
                        ("message"@, message@),
                        ("published"@, "true"@),
                    ],
                    file_path@,
                ),
                fresh_record(
                    photos_url(self@.version, album_fbid@),
                    seq![
                        ("access_token"@, access_token@),
                        ("file_path"@, file_path@),
                        ("message"@, message@),
                        ("published"@, "true"@),
                    ],
                ),
            ),
    {
        let path = self.photos_path(album_fbid);
        let params = [
            ("access_token", access_token),
            ("file_path", file_path),
            ("message", message),
            ("published", "true"),
        ];
        let fields = [("access_token", access_token), ("message", message), ("published", "true")];
        proof {
            assert(borrowed_pairs(params@) =~= seq![
                ("access_token"@, access_token@),
                ("file_path"@, file_path@),
                ("message"@, message@),
                ("published"@, "true"@),
            ]);
            assert(borrowed_pairs(fields@) =~= seq![
                ("access_token"@, access_token@),
                ("message"@, message@),
                ("published"@, "true"@),
            ]);
        }
        FormFlow::begin(
            Request::post_multipart(path.as_str(), &fields, file_path),
            LogParams::new(path.as_str(), &params),
        )
    }
}

} // verus!
