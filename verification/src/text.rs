//! Texts and lists of key/value pairs: their views, copies and joins.

use vstd::prelude::*;

verus! {

/// A key/value pair as two texts.
pub type Pair = (Seq<char>, Seq<char>);

/// The texts of a list of borrowed pairs.
pub open spec fn borrowed_pairs(params: Seq<(&str, &str)>) -> Seq<Pair> {
    Seq::new(params.len(), |i: int| (params[i].0@, params[i].1@))
}

/// The texts of a list of owned pairs.
pub open spec fn owned_pairs(params: Seq<(String, String)>) -> Seq<Pair> {
    Seq::new(params.len(), |i: int| (params[i].0@, params[i].1@))
}

/// `key=value`.
pub open spec fn assignment(pair: Pair) -> Seq<char> {
    pair.0 + seq!['='] + pair.1
}

/// The pairs as `key=value`, joined by `&`, in their order.
pub open spec fn query_string(params: Seq<Pair>) -> Seq<char>
    decreases params.len(),
{
    if params.len() == 0 {
        Seq::empty()
    } else if params.len() == 1 {
        assignment(params[0])
    } else {
        query_string(params.drop_last()) + seq!['&'] + assignment(params.last())
    }
}

/// The texts of a list of owned texts.
pub open spec fn owned_texts(items: Seq<String>) -> Seq<Seq<char>> {
    Seq::new(items.len(), |i: int| items[i]@)
}

/// `true` or `false`.
pub open spec fn truth(b: bool) -> Seq<char> {
    if b {
        "true"@
    } else {
        "false"@
    }
}

/// `true` or `false`.
pub fn truth_text(b: bool) -> (r: &'static str)
    ensures
        r@ == truth(b),
{
    if b {
        "true"
    } else {
        "false"
    }
}

/// The texts joined by commas, in their order.
pub open spec fn comma_list(items: Seq<Seq<char>>) -> Seq<char>
    decreases items.len(),
{
    if items.len() == 0 {
        Seq::empty()
    } else if items.len() == 1 {
        items[0]
    } else {
        comma_list(items.drop_last()) + seq![','] + items.last()
    }
}

/// Joins the texts by commas.
pub fn join_commas(items: &Vec<String>) -> (r: String)
    ensures
        r@ == comma_list(owned_texts(items@)),
{
    let mut out = String::new();
    let ghost all = owned_texts(items@);
    let mut i: usize = 0;
    while i < items.len()
        invariant
            i <= items.len(),
            all == owned_texts(items@),
            out@ == comma_list(all.take(i as int)),
        decreases items.len() - i,
    {
        proof {
            reveal_strlit(",");
            let next = all.take(i + 1);
            assert(next.drop_last() =~= all.take(i as int));
            assert(next.last() == all[i as int]);
        }
        if i > 0 {
            out.append(",");
        }
        out.append(items[i].as_str());
        proof {
            if i > 0 {
                assert(out@ =~= comma_list(all.take(i as int)) + seq![','] + all[i as int]);
            } else {
                assert(out@ =~= all[0]);
            }
        }
        i += 1;
    }
    proof {
        assert(all.take(items.len() as int) =~= all);
    }
    out
}

/// Whether two texts are the same.
pub fn same_text(a: &str, b: &str) -> (r: bool)
    ensures
        r == (a@ == b@),
{
    let left = a.as_bytes();
    let right = b.as_bytes();
    proof {
        vstd::utf8::encode_utf8_decode_utf8(a@);
        vstd::utf8::encode_utf8_decode_utf8(b@);
    }
    if left.len() != right.len() {
        return false;
    }
    let mut i: usize = 0;
    while i < left.len()
        invariant
            i <= left.len(),
            left.len() == right.len(),
            left@ == vstd::utf8::encode_utf8(a@),
            right@ == vstd::utf8::encode_utf8(b@),
            forall|k: int| 0 <= k < i ==> left@[k] == right@[k],
        decreases left.len() - i,
    {
        if left[i] != right[i] {
            return false;
        }
        i += 1;
    }
    assert(left@ =~= right@);
    true
}

/// Appends `key=value` to `out`.
pub fn push_assignment(out: &mut String, key: &str, value: &str)
    ensures
        final(out)@ == old(out)@ + assignment((key@, value@)),
{
    proof {
        reveal_strlit("=");
    }
    out.append(key);
    out.append("=");
    out.append(value);
    assert(out@ =~= old(out)@ + assignment((key@, value@)));
}

/// Joins the pairs into a query string.
pub fn join_query(params: &[(&str, &str)]) -> (r: String)
    ensures
        r@ == query_string(borrowed_pairs(params@)),
{
    let mut out = String::new();
    let ghost pairs = borrowed_pairs(params@);
    let mut i: usize = 0;
    while i < params.len()
        invariant
            i <= params.len(),
            pairs == borrowed_pairs(params@),
            out@ == query_string(pairs.take(i as int)),
        decreases params.len() - i,
    {
        proof {
            reveal_strlit("&");
            let next = pairs.take(i + 1);
            assert(next.drop_last() =~= pairs.take(i as int));
            assert(next.last() == pairs[i as int]);
        }
        if i > 0 {
            out.append("&");
        }
        push_assignment(&mut out, params[i].0, params[i].1);
        proof {
            if i > 0 {
                assert(out@ =~= query_string(pairs.take(i as int)) + seq!['&'] + assignment(
                    pairs[i as int],
                ));
            } else {
                assert(out@ =~= assignment(pairs[0]));
            }
        }
        i += 1;
    }
    proof {
        assert(pairs.take(params.len() as int) =~= pairs);
    }
    out
}

/// The pairs of two lists, one after the other.
pub fn chain<'a>(first: &[(&'a str, &'a str)], rest: &[(&'a str, &'a str)]) -> (r: Vec<
    (&'a str, &'a str),
>)
    ensures
        borrowed_pairs(r@) == borrowed_pairs(first@) + borrowed_pairs(rest@),
{
    let mut out: Vec<(&'a str, &'a str)> = Vec::new();
    let mut i: usize = 0;
    while i < first.len()
        invariant
            i <= first.len(),
            out.len() == i,
            forall|k: int| 0 <= k < i ==> out[k] == first[k],
        decreases first.len() - i,
    {
        out.push(first[i]);
        i += 1;
    }
    let mut j: usize = 0;
    while j < rest.len()
        invariant
            j <= rest.len(),
            out.len() == first.len() + j,
            forall|k: int| 0 <= k < first.len() ==> out[k] == first[k],
            forall|k: int| 0 <= k < j ==> out[first.len() + k] == rest[k],
        decreases rest.len() - j,
    {
        out.push(rest[j]);
        j += 1;
    }
    assert(borrowed_pairs(out@) =~= borrowed_pairs(first@) + borrowed_pairs(rest@));
    out
}

/// An owned copy of borrowed pairs.
pub fn to_owned_pairs(params: &[(&str, &str)]) -> (r: Vec<(String, String)>)
    ensures
        owned_pairs(r@) == borrowed_pairs(params@),
{
    let mut out: Vec<(String, String)> = Vec::new();
    let mut i: usize = 0;
    while i < params.len()
        invariant
            i <= params.len(),
            out.len() == i,
            forall|k: int| 0 <= k < i ==> out[k].0@ == params[k].0@ && out[k].1@ == params[k].1@,
        decreases params.len() - i,
    {
        out.push((params[i].0.to_owned(), params[i].1.to_owned()));
        i += 1;
    }
    assert(owned_pairs(out@) =~= borrowed_pairs(params@));
    out
}

/// A copy of owned pairs.
pub fn copy_pairs(params: &Vec<(String, String)>) -> (r: Vec<(String, String)>)
    ensures
        owned_pairs(r@) == owned_pairs(params@),
{
    let mut out: Vec<(String, String)> = Vec::new();
    let mut i: usize = 0;
    while i < params.len()
        invariant
            i <= params.len(),
            out.len() == i,
            forall|k: int| 0 <= k < i ==> out[k].0@ == params[k].0@ && out[k].1@ == params[k].1@,
        decreases params.len() - i,
    {
        out.push((params[i].0.clone(), params[i].1.clone()));
        i += 1;
    }
    assert(owned_pairs(out@) =~= owned_pairs(params@));
    out
}

} // verus!
