//! The proof of the application secret: an HMAC-SHA256 of the access token,
//! in lower-case hexadecimal.

use vstd::prelude::*;

verus! {

/// The HMAC-SHA256 of `message` under `key`, as `crypto::hmac::Hmac` computes
/// it with `crypto::sha2::Sha256`.
pub uninterp spec fn hmac_sha256(key: Seq<u8>, message: Seq<u8>) -> Seq<u8>;

/// `crypto::hmac::Hmac::new` with a fresh `Sha256`, one `input` of the whole
/// message, and the `code` of its `result`: the bytes named by
/// [`hmac_sha256`].
#[verifier::external_body]
fn mac_sha256(key: &[u8], message: &[u8]) -> (r: Vec<u8>)
    ensures
        r@ == hmac_sha256(key@, message@),
{
    let mut hmac = crypto::hmac::Hmac::new(crypto::sha2::Sha256::new(), key);
    crypto::mac::Mac::input(&mut hmac, message);
    crypto::mac::Mac::result(&mut hmac).code().to_vec()
}

/// The hexadecimal digits, in their order.
pub const HEX_DIGITS: &'static str = "0123456789abcdef";

/// The two hexadecimal digits of a byte, the high one first.
pub open spec fn hex_pair(byte: u8) -> Seq<char> {
    HEX_DIGITS@.subrange(byte as int / 16, byte as int / 16 + 1) + HEX_DIGITS@.subrange(
        byte as int % 16,
        byte as int % 16 + 1,
    )
}

/// The bytes in hexadecimal, two digits each.
pub open spec fn hex_text(bytes: Seq<u8>) -> Seq<char>
    decreases bytes.len(),
{
    if bytes.len() == 0 {
        Seq::empty()
    } else {
        hex_text(bytes.drop_last()) + hex_pair(bytes.last())
    }
}

/// The signature of `base` under `key`.
pub open spec fn signature(base: Seq<char>, key: Seq<char>) -> Seq<char> {
    hex_text(hmac_sha256(vstd::utf8::encode_utf8(key), vstd::utf8::encode_utf8(base)))
}

/// The bytes in lower-case hexadecimal.
pub fn hex(bytes: &[u8]) -> (r: String)
    ensures
        r@ == hex_text(bytes@),
{
    proof {
        reveal_strlit("0123456789abcdef");
    }
    let digits = HEX_DIGITS;
    assert(digits.is_ascii());
    let mut out = String::new();
    let mut i: usize = 0;
    while i < bytes.len()
        invariant
            i <= bytes.len(),
            digits == HEX_DIGITS,
            digits.is_ascii(),
            digits@.len() == 16,
            out@ == hex_text(bytes@.take(i as int)),
        decreases bytes.len() - i,
    {
        let high = (bytes[i] / 16) as usize;
        let low = (bytes[i] % 16) as usize;
        proof {
            let next = bytes@.take(i + 1);
            assert(next.drop_last() =~= bytes@.take(i as int));
            assert(next.last() == bytes@[i as int]);
        }
        out.append(digits.substring_ascii(high, high + 1));
        out.append(digits.substring_ascii(low, low + 1));
        assert(out@ =~= hex_text(bytes@.take(i as int)) + hex_pair(bytes@[i as int]));
        i += 1;
    }
    assert(bytes@.take(bytes.len() as int) =~= bytes@);
    out
}

/// Signs `base` with `key`: the HMAC-SHA256 of the text under the key, in
/// lower-case hexadecimal.
pub fn sign(base: &str, key: &str) -> (r: String)
    ensures
        r@ == signature(base@, key@),
{
    let mac = mac_sha256(key.as_bytes(), base.as_bytes());
    hex(mac.as_slice())
}

} // verus!
