//! Posting to the feed of a page.

use crate::api::{graph_url, Fbapi};
use crate::exchange::{form_request, fresh_record, Channel, LogParams, Request, Turn};
use crate::flow::{call_begun, CallFlow};
use crate::json::Json;
use crate::text::borrowed_pairs;
use vstd::prelude::*;

verus! {

/// Where the feed of a page is posted to.
pub open spec fn feed_url(version: Seq<char>, page_fbid: Seq<char>) -> Seq<char> {
    graph_url(version, page_fbid + "/feed"@)
}

impl Fbapi {
    /// Posts the parameters to the feed of the page, in one attempt. The
    /// record of the call names no parameter.
    pub fn post_feed_array(&self, page_fbid: &str, params: &[(&str, &str)]) -> (r: Turn<
        CallFlow,
        Json,
    >)
        ensures
            r@ == call_begun(
                0,
                form_request(
                    feed_url(self@.version, page_fbid@),
                    borrowed_pairs(params@),
                    Channel::Standard,
                ),
                fresh_record(feed_url(self@.version, page_fbid@), Seq::empty()),
            ),
    {
        let mut postfix = page_fbid.to_owned();
        postfix.append("/feed");
        let path = self.make_path(postfix.as_str());
        CallFlow::begin(
            0,
            Request::post_form(path.as_str(), params, Channel::Standard),
            LogParams::bare(path.as_str()),
        )
    }
}

} // verus!
