//! Making an album of a page.

use crate::api::{graph_url, rate_limit_error, rate_limit_report, Fbapi, FbapiView};
use crate::error::{ErrorView, FbapiError};
use crate::exchange::{form_request, fresh_record, Channel, LogParams, Request, Turn};
use crate::flow::{call_begun, call_refused, CallFlow, CallTurn};
use crate::json::Json;
use crate::text::{borrowed_pairs, Pair};
use vstd::prelude::*;

verus! {

/// Where the albums of a page are made.
pub open spec fn albums_url(version: Seq<char>, page_fbid: Seq<char>) -> Seq<char> {
    graph_url(version, page_fbid + "/albums"@)
}

/// The fields of a new album.
pub open spec fn album_fields(
    access_token: Seq<char>,
    name: Seq<char>,
    message: Seq<char>,
) -> Seq<Pair> {
    seq![("access_token"@, access_token), ("name"@, name), ("message"@, message)]
}

/// The turn that begins making an album. A client that only pretends to
/// call observes the call and ends it with the report of a used-up rate
/// limit.
pub open spec fn create_album_turn(
    api: FbapiView,
    page_fbid: Seq<char>,
    fields: Seq<Pair>,
    retry_count: usize,
) -> CallTurn {
    let url = albums_url(api.version, page_fbid);
    if api.rate_limit_emulation {
        call_refused(fresh_record(url, fields), ErrorView::Facebook(rate_limit_report()))
    } else {
        call_begun(
            retry_count,
            form_request(url, fields, Channel::Standard),
            fresh_record(url, fields),
        )
    }
}

impl Fbapi {
    /// Makes an album of the page with a name and a message.
    pub fn create_album(
        &self,
        access_token: &str,
        page_fbid: &str,
        name: &str,
        message: &str,
        retry_count: usize,
    ) -> (r: Turn<CallFlow, Json>)
        ensures
            r@ == create_album_turn(
                self@,
                page_fbid@,
                album_fields(access_token@, name@, message@),
                retry_count,
            ),
    {
        let mut postfix = page_fbid.to_owned();
        postfix.append("/albums");
        let path = self.make_path(postfix.as_str());
        let params = [("access_token", access_token), ("name", name), ("message", message)];
        proof {
            assert(borrowed_pairs(params@) =~= album_fields(access_token@, name@, message@));
        }
        let record = LogParams::new(path.as_str(), &params);
        if self.rate_limit_emulation() {
            CallFlow::refuse(record, FbapiError::Facebook(rate_limit_error()))
        } else {
            CallFlow::begin(
                retry_count,
                Request::post_form(path.as_str(), &params, Channel::Standard),
                record,
            )
        }
    }
}

} // verus!
