//! The WebSocket opening handshake: the `Sec-WebSocket-Accept` value that
//! proves to the browser that this server understood its upgrade request.

use vstd::prelude::*;
use crate::content::{Reply, ReplyView};
use sha1::Digest;

verus! {

/// Appended to the client's key before hashing, as the WebSocket protocol fixes.
pub const WEBSOCKET_GUID: &'static str = "258EAFA5-E914-47DA-95CA-C5AB0DC85B11";

/// The SHA-1 digest of `data`.
pub uninterp spec fn sha1_of(data: Seq<u8>) -> Seq<u8>;

/// The character for the six-bit value `v` in the standard base64 alphabet.
pub open spec fn base64_digit(v: int) -> char {
    "ABCDEFGHIJKLMNOPQRSTUVWXYZabcdefghijklmnopqrstuvwxyz0123456789+/"@[v]
}

/// The standard base64 encoding of `b`, padded with `=`.
pub open spec fn base64_of(b: Seq<u8>) -> Seq<char>
    decreases b.len(),
{
    if b.len() == 0 {
        seq![]
    } else {
        let x = b[0] as int;
        let y = if b.len() > 1 { b[1] as int } else { 0 };
        let z = if b.len() > 2 { b[2] as int } else { 0 };
        let first = base64_digit(x / 4);
        let second = base64_digit((x % 4) * 16 + y / 16);
        if b.len() == 1 {
            seq![first, second, '=', '=']
        } else if b.len() == 2 {
            seq![first, second, base64_digit((y % 16) * 4), '=']
        } else {
            seq![first, second, base64_digit((y % 16) * 4 + z / 64), base64_digit(z % 64)]
                + base64_of(b.subrange(3, b.len() as int))
        }
    }
}

/// Base64 turns each started group of three bytes into four characters.
pub proof fn lemma_base64_len(b: Seq<u8>)
    ensures
        base64_of(b).len() == 4 * ((b.len() + 2) / 3),
    decreases b.len(),
{
    if b.len() >= 3 {
        lemma_base64_len(b.subrange(3, b.len() as int));
    }
}

/// Input whose length leaves two bytes over ends its encoding with one `=`.
pub proof fn lemma_base64_pad(b: Seq<u8>)
    requires
        b.len() % 3 == 2,
    ensures
        base64_of(b).len() >= 4,
        base64_of(b).last() == '=',
        base64_of(b)[base64_of(b).len() - 2] != '=',
    decreases b.len(),
{
    lemma_base64_len(b);
    if b.len() > 2 {
        let rest = b.subrange(3, b.len() as int);
        lemma_base64_pad(rest);
        lemma_base64_len(rest);
        let x = b[0] as int;
        let y = b[1] as int;
        let z = b[2] as int;
        let g = seq![
            base64_digit(x / 4),
            base64_digit((x % 4) * 16 + y / 16),
            base64_digit((y % 16) * 4 + z / 64),
            base64_digit(z % 64),
        ];
        assert(base64_of(b) == g + base64_of(rest));
    } else {
        let y = b[1] as int;
        assert("ABCDEFGHIJKLMNOPQRSTUVWXYZabcdefghijklmnopqrstuvwxyz0123456789+/"@[(y % 16) * 4]
            != '=') by {
            reveal_strlit("ABCDEFGHIJKLMNOPQRSTUVWXYZabcdefghijklmnopqrstuvwxyz0123456789+/");
        }
    }
}

/// What is hashed for a client key: its UTF-8 bytes, then the GUID's.
pub open spec fn accept_input(key: Seq<char>) -> Seq<u8> {
    vstd::utf8::encode_utf8(key) + vstd::utf8::encode_utf8(WEBSOCKET_GUID@)
}

/// The accept value owed to a client that sent `key`.
pub open spec fn accept_of(key: Seq<char>) -> Seq<char> {
    base64_of(sha1_of(accept_input(key)))
}

/// Relies on `sha1::Sha1::digest` (through `digest::Digest`): the 20-byte
/// SHA-1 digest of the input, which depends on the input alone.
#[verifier::external_body]
fn sha1_digest(data: &[u8]) -> (r: Vec<u8>)
    ensures
        r@ == sha1_of(data@),
        r@.len() == 20,
{
    sha1::Sha1::digest(data).to_vec()
}

/// Relies on `base64::Engine::encode` with the `STANDARD` engine: the
/// standard alphabet, padded with `=`. It panics only where the output length
/// overflows `usize`, which the bound on the input rules out.
#[verifier::external_body]
fn base64_encode(data: &[u8]) -> (r: String)
    requires
        data@.len() <= usize::MAX / 2,
    ensures
        r@ == base64_of(data@),
{
    base64::Engine::encode(&base64::engine::general_purpose::STANDARD, data)
}

/// The bytes that are hashed for `key`.
fn handshake_input(key: &str) -> (r: Vec<u8>)
    ensures
        r@ == accept_input(key@),
{
    let k = key.as_bytes();
    let g = WEBSOCKET_GUID.as_bytes();
    let mut r: Vec<u8> = Vec::new();
    let mut i: usize = 0;
    while i < k.len()
        invariant
            k@ == vstd::utf8::encode_utf8(key@),
            i <= k@.len(),
            r@ == k@.subrange(0, i as int),
        decreases k@.len() - i,
    {
        r.push(k[i]);
        i = i + 1;
        assert(r@ =~= k@.subrange(0, i as int));
    }
    let mut j: usize = 0;
    while j < g.len()
        invariant
            k@ == vstd::utf8::encode_utf8(key@),
            g@ == vstd::utf8::encode_utf8(WEBSOCKET_GUID@),
            j <= g@.len(),
            r@ == k@ + g@.subrange(0, j as int),
        decreases g@.len() - j,
    {
        r.push(g[j]);
        j = j + 1;
        assert(r@ =~= k@ + g@.subrange(0, j as int));
    }
    assert(g@.subrange(0, g@.len() as int) =~= g@);
    r
}

/// The accept value for a SHA-1 digest: its standard base64 encoding.
pub fn encode_accept(digest: &[u8]) -> (r: String)
    requires
        digest@.len() <= usize::MAX / 2,
    ensures
        r@ == base64_of(digest@),
        r@.len() == 4 * ((digest@.len() + 2) / 3),
{
    proof {
        lemma_base64_len(digest@);
    }
    base64_encode(digest)
}

/// The `Sec-WebSocket-Accept` value for the client key `key`: the base64 form
/// of the SHA-1 digest of the key followed by the GUID.
pub fn compute_websocket_accept(key: &str) -> (r: String)
    ensures
        r@ == accept_of(key@),
        sha1_of(accept_input(key@)).len() == 20,
        r@.len() == 28,
        r@[27] == '=',
        r@[26] != '=',
{
    let input = handshake_input(key);
    let digest = sha1_digest(input.as_slice());
    proof {
        lemma_base64_pad(digest@);
    }
    encode_accept(digest.as_slice())
}

/// The answer to an upgrade request that carried the key `key` (a missing
/// key counts as empty): 101 with the accept value.
pub fn handshake_reply(key: Option<&str>) -> (r: Reply)
    ensures
        r@ == (ReplyView::SwitchingProtocols {
            accept: accept_of(
                match key {
                    Some(k) => k@,
                    None => seq![],
                },
            ),
        }),
{
    let accept = match key {
        Some(k) => compute_websocket_accept(k),
        None => {
            let r = compute_websocket_accept("");
            proof {
                reveal_strlit("");
            }
            r
        },
    };
    Reply::SwitchingProtocols { accept }
}

} // verus!
