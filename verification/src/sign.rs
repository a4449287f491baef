//! Request signing: a keyed signature over the path and query of a request,
//! rendered as upper-case hex and appended to the query together with the
//! caller's developer id — `devid` first, `signature` always last.

use vstd::prelude::*;
use vstd::string::StrSliceExecFns;
use vstd::string::StringExecFns;
use vstd::utf8::encode_utf8;
use hmac::Mac;
use crate::hex::hex_upper;
use crate::hex::hex_upper_bytes;
use crate::hex::is_upper_hex_char;
use crate::hex::lemma_hex_upper_chars;
use crate::pct::pct;
use crate::pct::percent_encode_bytes;
use crate::strutil::bytes_to_chars;
use crate::strutil::chars_of_bytes;
use crate::strutil::chars_to_string;
use crate::strutil::push_chars;
use crate::strutil::push_str_chars;

verus! {

/// The keyed 160-bit message authentication code of `msg` under `key`: a
/// function of the key and message bytes alone.
pub uninterp spec fn hmac_sha1_of(key: Seq<u8>, msg: Seq<u8>) -> Seq<u8>;

/// Compute the keyed digest of a message.
///
/// Relies on `hmac::Hmac<sha1::Sha1>`: the digest is a deterministic
/// function of the key and message bytes alone; the output is the SHA-1
/// digest size of 20 bytes; `new_from_slice` accepts a key of any length
/// (long keys are hashed, short ones padded), so it never fails.
#[verifier::external_body]
fn hmac_sha1(key: &Vec<u8>, msg: &Vec<u8>) -> (r: Vec<u8>)
    ensures
        r@ == hmac_sha1_of(key@, msg@),
        r@.len() == 20,
{
    let mac = hmac::Hmac::<sha1::Sha1>::new_from_slice(key.as_slice())
        .expect("HMAC accepts a key of any length");
    mac.chain_update(msg.as_slice()).finalize().into_bytes().to_vec()
}

/// The signature hex of a request: the keyed digest of
/// `path || "?" || query`, keyed by the shared secret, as upper-case hex
/// bytes. The query is the one the query encoder built, before `devid` and
/// `signature` are appended.
pub open spec fn spec_signature_hex(key: Seq<char>, path: Seq<char>, query: Seq<char>) -> Seq<u8> {
    hex_upper(hmac_sha1_of(encode_utf8(key), encode_utf8(path) + seq![63u8] + encode_utf8(query)))
}

/// The final query string of a signed request: the encoder's query, then
/// `devid=<devid>` (percent-encoded), then `signature=<hex>` last.
pub open spec fn spec_signed_query(
    path: Seq<char>,
    query: Seq<char>,
    devid: Seq<char>,
    key: Seq<char>,
) -> Seq<char> {
    query + (if query.len() == 0 {
        Seq::<char>::empty()
    } else {
        seq!['&']
    }) + "devid="@ + chars_of_bytes(pct(encode_utf8(devid))) + "&signature="@ + chars_of_bytes(
        spec_signature_hex(key, path, query),
    )
}

/// A fully qualified signed request URL, immutable once built: origin, path,
/// and the signed query string.
pub struct SignedUrl {
    /// Scheme and authority, e.g. `https://host.example`
    pub base: String,
    /// Absolute path of the endpoint
    pub path: String,
    /// Query string with `devid` and `signature` appended
    pub query: String,
}

impl SignedUrl {
    /// The whole URL as text: `<base><path>?<query>`.
    pub fn url_string(&self) -> (s: String)
        ensures
            s@ == self.base@ + self.path@ + "?"@ + self.query@,
    {
        let s = self.base.clone();
        let s = s.concat(self.path.as_str());
        let s = s.concat("?");
        let s = s.concat(self.query.as_str());
        s
    }
}

/// Sign a request. The signature covers `path || "?" || query` under the
/// shared secret `key`; the result carries the query extended with
/// `devid=<devid>&signature=<hex>` in that order, the signature last, a
/// 40-character upper-case hex digest.
pub fn sign(base: &str, path: &str, query: &str, devid: &str, key: &str) -> (u: SignedUrl)
    ensures
        u.base@ == base@,
        u.path@ == path@,
        u.query@ == spec_signed_query(path@, query@, devid@, key@),
        spec_signature_hex(key@, path@, query@).len() == 40,
        forall|i: int| 0 <= i < 40 ==> is_upper_hex_char(
            #[trigger] chars_of_bytes(spec_signature_hex(key@, path@, query@))[i],
        ),
{
    let mut msg = path.as_bytes_vec();
    msg.push(63);
    let mut query_bytes = query.as_bytes_vec();
    msg.append(&mut query_bytes);
    assert(msg@ =~= encode_utf8(path@) + seq![63u8] + encode_utf8(query@));
    let key_bytes = key.as_bytes_vec();
    let digest = hmac_sha1(&key_bytes, &msg);
    let hexv = hex_upper_bytes(&digest);
    assert(hexv@ == spec_signature_hex(key@, path@, query@));
    proof {
        lemma_hex_upper_chars(digest@);
    }

    let mut tail: Vec<char> = Vec::new();
    if !query.is_empty() {
        tail.push('&');
    }
    push_str_chars(&mut tail, "devid=");
    let devid_bytes = devid.as_bytes_vec();
    let devid_enc = percent_encode_bytes(&devid_bytes);
    let devid_chars = bytes_to_chars(&devid_enc);
    push_chars(&mut tail, &devid_chars);
    push_str_chars(&mut tail, "&signature=");
    let hex_chars = bytes_to_chars(&hexv);
    push_chars(&mut tail, &hex_chars);

    let q = String::from_str(query);
    let q = q.concat(chars_to_string(&tail).as_str());
    assert(q@ =~= spec_signed_query(path@, query@, devid@, key@));
    SignedUrl { base: base.to_owned(), path: path.to_owned(), query: q }
}

} // verus!
