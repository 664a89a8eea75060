//! Writing to an object of the graph.

use crate::api::{graph_url, Fbapi};
use crate::exchange::{form_request, fresh_record, Channel, LogParams, Request, Turn};
use crate::flow::{call_begun, CallFlow};
use crate::json::Json;
use crate::text::{borrowed_pairs, chain, Pair};
use vstd::prelude::*;

verus! {

/// The fields of a write: the access token, then the caller's parameters.
pub open spec fn object_fields(access_token: Seq<char>, params: Seq<Pair>) -> Seq<Pair> {
    seq![("access_token"@, access_token)] + params
}

impl Fbapi {
    /// Posts the parameters to the object `fbid`.
    pub fn post_object(
        &self,
        access_token: &str,
        fbid: &str,
        params: &[(&str, &str)],
        retry_count: usize,
    ) -> (r: Turn<CallFlow, Json>)
        ensures
            r@ == call_begun(
                retry_count,
                form_request(
                    graph_url(self@.version, fbid@),
                    object_fields(access_token@, borrowed_pairs(params@)),
                    Channel::Standard,
                ),
                fresh_record(
                    graph_url(self@.version, fbid@),
                    object_fields(access_token@, borrowed_pairs(params@)),
                ),
            ),
    {
        let path = self.make_path(fbid);
        let leading = [("access_token", access_token)];
        let fields = chain(&leading, params);
        proof {
            assert(borrowed_pairs(leading@) =~= seq![("access_token"@, access_token@)]);
        }
        CallFlow::begin(
            retry_count,
            Request::post_form(path.as_str(), fields.as_slice(), Channel::Standard),
            LogParams::new(path.as_str(), fields.as_slice()),
        )
    }
}

} // verus!
