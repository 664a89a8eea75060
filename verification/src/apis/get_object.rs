//! Reading an object of the graph.

use crate::api::{graph_url, rate_limit_error, rate_limit_report, Fbapi, FbapiView};
use crate::error::{ErrorView, FbapiError};
use crate::exchange::{fresh_record, plain_request, LogParams, Request, Turn, Verb};
use crate::flow::{call_begun, call_refused, CallFlow, CallTurn};
use crate::json::Json;
use crate::sign::{sign, signature};
use crate::text::{borrowed_pairs, chain, join_query, query_string, Pair};
use vstd::prelude::*;

verus! {

/// The text of an optional text.
pub open spec fn optional_str(text: Option<&str>) -> Option<Seq<char>> {
    match text {
        Some(t) => Some(t@),
        None => None,
    }
}

/// The query of a call on an object: the access token, the fields and the
/// caller's parameters, in this order, and the proof of the application
/// secret where there is a secret.
pub open spec fn object_query(
    access_token: Seq<char>,
    app_secret: Option<Seq<char>>,
    fields: Seq<char>,
    params: Seq<Pair>,
) -> Seq<char> {
    let pairs = seq![("access_token"@, access_token), ("fields"@, fields)] + params;
    query_string(pairs) + match app_secret {
        Some(secret) => "&appsecret_proof="@ + signature(access_token, secret),
        None => Seq::empty(),
    }
}

/// Where an object is read and deleted.
pub open spec fn object_url(
    version: Seq<char>,
    access_token: Seq<char>,
    app_secret: Option<Seq<char>>,
    fbid: Seq<char>,
    fields: Seq<char>,
    params: Seq<Pair>,
) -> Seq<char> {
    graph_url(version, fbid + "?"@ + object_query(access_token, app_secret, fields, params))
}

/// The turn that begins reading an object. A client that only pretends to
/// call observes the call and ends it with the report of a used-up rate
/// limit.
pub open spec fn get_object_turn(
    api: FbapiView,
    url: Seq<char>,
    retry_count: usize,
) -> CallTurn {
    if api.rate_limit_emulation {
        call_refused(fresh_record(url, Seq::empty()), ErrorView::Facebook(rate_limit_report()))
    } else {
        call_begun(retry_count, plain_request(Verb::Get, url), fresh_record(url, Seq::empty()))
    }
}

impl Fbapi {
    /// The URL of a call on an object, with its query.
    pub fn object_path(
        &self,
        access_token: &str,
        app_secret: Option<&str>,
        fbid: &str,
        fields: &str,
        params: &[(&str, &str)],
    ) -> (r: String)
        ensures
            r@ == object_url(
                self@.version,
                access_token@,
                optional_str(app_secret),
                fbid@,
                fields@,
                borrowed_pairs(params@),
            ),
    {
        let leading = [("access_token", access_token), ("fields", fields)];
        let pairs = chain(&leading, params);
        let mut postfix = fbid.to_owned();
        postfix.append("?");
        let query = join_query(pairs.as_slice());
        postfix.append(query.as_str());
        match app_secret {
            Some(secret) => {
                postfix.append("&appsecret_proof=");
                let proof_text = sign(access_token, secret);
                postfix.append(proof_text.as_str());
            },
            None => {},
        }
        proof {
            assert(borrowed_pairs(leading@) =~= seq![
                ("access_token"@, access_token@),
                ("fields"@, fields@),
            ]);
            assert(postfix@ =~= fbid@ + "?"@ + object_query(
                access_token@,
                optional_str(app_secret),
                fields@,
                borrowed_pairs(params@),
            ));
        }
        self.make_path(postfix.as_str())
    }

    /// Reads the object `fbid` with the given fields.
    pub fn get_object(
        &self,
        access_token: &str,
        app_secret: Option<&str>,
        fbid: &str,
        fields: &str,
        params: &[(&str, &str)],
        retry_count: usize,
    ) -> (r: Turn<CallFlow, Json>)
        ensures
            r@ == get_object_turn(
                self@,
                object_url(
                    self@.version,
                    access_token@,
                    optional_str(app_secret),
                    fbid@,
                    fields@,
                    borrowed_pairs(params@),
                ),
                retry_count,
            ),
    {
        let path = self.object_path(access_token, app_secret, fbid, fields, params);
        let record = LogParams::bare(path.as_str());
        if self.rate_limit_emulation() {
            CallFlow::refuse(record, FbapiError::Facebook(rate_limit_error()))
        } else {
            CallFlow::begin(retry_count, Request::get(path.as_str()), record)
        }
    }
}

} // verus!
