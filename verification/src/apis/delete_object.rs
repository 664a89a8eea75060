//! Deleting an object of the graph.

use crate::api::Fbapi;
use crate::apis::get_object::object_url;
use crate::exchange::{fresh_record, plain_request, LogParams, Request, Turn, Verb};
use crate::flow::{call_begun, CallFlow};
use crate::json::Json;
use crate::text::borrowed_pairs;
use vstd::prelude::*;

verus! {

impl Fbapi {
    /// Deletes the object `fbid`.
    pub fn delete_object(
        &self,
        access_token: &str,
        fbid: &str,
        fields: &str,
        params: &[(&str, &str)],
        retry_count: usize,
    ) -> (r: Turn<CallFlow, Json>)
        ensures
            r@ == call_begun(
                retry_count,
                plain_request(
                    Verb::Delete,
                    object_url(
                        self@.version,
                        access_token@,
                        None,
                        fbid@,
                        fields@,
                        borrowed_pairs(params@),
                    ),
                ),
                fresh_record(
                    object_url(
                        self@.version,
                        access_token@,
                        None,
                        fbid@,
                        fields@,
                        borrowed_pairs(params@),
                    ),
                    Seq::empty(),
                ),
            ),
    {
        let path = self.object_path(access_token, None, fbid, fields, params);
        CallFlow::begin(
            retry_count,
            Request::delete(path.as_str()),
            LogParams::bare(path.as_str()),
        )
    }
}

} // verus!
