//! WebSocket server-side framing: unmasked binary data frames and the
//! handshake accept computation (SHA-1 of the client key joined with the
//! protocol GUID, then base64).

use vstd::prelude::*;
use sha1::Digest;
use base64::Engine;
use crate::util::append_copy;

verus! {

/// The fixed GUID every WebSocket accept token mixes into the client key.
pub open spec fn ws_guid() -> Seq<u8> {
    seq![
        0x32u8, 0x35u8, 0x38u8, 0x45u8, 0x41u8, 0x46u8, 0x41u8, 0x35u8,
        0x2du8, 0x45u8, 0x39u8, 0x31u8, 0x34u8, 0x2du8, 0x34u8, 0x37u8,
        0x44u8, 0x41u8, 0x2du8, 0x39u8, 0x35u8, 0x43u8, 0x41u8, 0x2du8,
        0x43u8, 0x35u8, 0x41u8, 0x42u8, 0x30u8, 0x44u8, 0x43u8, 0x38u8,
        0x35u8, 0x42u8, 0x31u8, 0x31u8,
    ]
}

/// The status line and headers of the `101 Switching Protocols` response,
/// up to and including the name of the accept header.
pub open spec fn handshake_prefix() -> Seq<u8> {
    seq![
        0x48u8, 0x54u8, 0x54u8, 0x50u8, 0x2fu8, 0x31u8, 0x2eu8, 0x31u8,
        0x20u8, 0x31u8, 0x30u8, 0x31u8, 0x20u8, 0x53u8, 0x77u8, 0x69u8,
        0x74u8, 0x63u8, 0x68u8, 0x69u8, 0x6eu8, 0x67u8, 0x20u8, 0x50u8,
        0x72u8, 0x6fu8, 0x74u8, 0x6fu8, 0x63u8, 0x6fu8, 0x6cu8, 0x73u8,
        0x0du8, 0x0au8, 0x55u8, 0x70u8, 0x67u8, 0x72u8, 0x61u8, 0x64u8,
        0x65u8, 0x3au8, 0x20u8, 0x77u8, 0x65u8, 0x62u8, 0x73u8, 0x6fu8,
        0x63u8, 0x6bu8, 0x65u8, 0x74u8, 0x0du8, 0x0au8, 0x43u8, 0x6fu8,
        0x6eu8, 0x6eu8, 0x65u8, 0x63u8, 0x74u8, 0x69u8, 0x6fu8, 0x6eu8,
        0x3au8, 0x20u8, 0x55u8, 0x70u8, 0x67u8, 0x72u8, 0x61u8, 0x64u8,
        0x65u8, 0x0du8, 0x0au8, 0x53u8, 0x65u8, 0x63u8, 0x2du8, 0x57u8,
        0x65u8, 0x62u8, 0x53u8, 0x6fu8, 0x63u8, 0x6bu8, 0x65u8, 0x74u8,
        0x2du8, 0x41u8, 0x63u8, 0x63u8, 0x65u8, 0x70u8, 0x74u8, 0x3au8,
        0x20u8,
    ]
}

/// The blank line that ends the handshake response.
pub open spec fn handshake_suffix() -> Seq<u8> {
    seq![
        0x0du8, 0x0au8, 0x0du8, 0x0au8,
    ]
}

/// The lowercase name of the handshake key header.
pub open spec fn ws_key_header_name() -> Seq<u8> {
    seq![
        0x73u8, 0x65u8, 0x63u8, 0x2du8, 0x77u8, 0x65u8, 0x62u8, 0x73u8,
        0x6fu8, 0x63u8, 0x6bu8, 0x65u8, 0x74u8, 0x2du8, 0x6bu8, 0x65u8,
        0x79u8,
    ]
}

/// The GUID as bytes.
fn ws_guid_bytes() -> (v: Vec<u8>)
    ensures
        v@ == ws_guid(),
{
    let mut v: Vec<u8> = Vec::new();
    v.push(0x32u8);
    v.push(0x35u8);
    v.push(0x38u8);
    v.push(0x45u8);
    v.push(0x41u8);
    v.push(0x46u8);
    v.push(0x41u8);
    v.push(0x35u8);
    v.push(0x2du8);
    v.push(0x45u8);
    v.push(0x39u8);
    v.push(0x31u8);
    v.push(0x34u8);
    v.push(0x2du8);
    v.push(0x34u8);
    v.push(0x37u8);
    v.push(0x44u8);
    v.push(0x41u8);
    v.push(0x2du8);
    v.push(0x39u8);
    v.push(0x35u8);
    v.push(0x43u8);
    v.push(0x41u8);
    v.push(0x2du8);
    v.push(0x43u8);
    v.push(0x35u8);
    v.push(0x41u8);
    v.push(0x42u8);
    v.push(0x30u8);
    v.push(0x44u8);
    v.push(0x43u8);
    v.push(0x38u8);
    v.push(0x35u8);
    v.push(0x42u8);
    v.push(0x31u8);
    v.push(0x31u8);
    proof {
        assert(v@ =~= ws_guid());
    }
    v
}

/// The payload-length field of an unmasked binary frame: one byte up to
/// 125; the marker 126 and two big-endian bytes up to 65535; else the
/// marker 127 and eight big-endian bytes.
pub open spec fn ws_len_bytes(len: u64) -> Seq<u8> {
    if len <= 125 {
        seq![len as u8]
    } else if len <= 65535 {
        seq![126u8, (len >> 8u64) as u8, (len & 0xff) as u8]
    } else {
        seq![
            127u8,
            (len >> 56u64) as u8,
            (len >> 48u64) as u8,
            (len >> 40u64) as u8,
            (len >> 32u64) as u8,
            (len >> 24u64) as u8,
            (len >> 16u64) as u8,
            (len >> 8u64) as u8,
            (len & 0xff) as u8,
        ]
    }
}

/// A whole binary frame: FIN plus binary opcode, the length field, and the
/// unmasked payload.
pub open spec fn ws_frame_bytes(data: Seq<u8>) -> Seq<u8>
    recommends
        data.len() <= u64::MAX,
{
    seq![0x82u8] + ws_len_bytes(data.len() as u64) + data
}

/// Wrap one compressed packet in a single binary WebSocket frame, FIN set,
/// no fragmentation, no masking.
pub fn create_websocket_frame(data: &[u8]) -> (frame: Vec<u8>)
    ensures
        frame@ == ws_frame_bytes(data@),
{
    let len: u64 = data.len() as u64;
    let mut frame: Vec<u8> = Vec::new();
    frame.push(0x82u8);
    if len <= 125 {
        frame.push(len as u8);
    } else if len <= 65535 {
        frame.push(126u8);
        frame.push((len >> 8u64) as u8);
        frame.push((len & 0xff) as u8);
    } else {
        frame.push(127u8);
        frame.push((len >> 56u64) as u8);
        frame.push((len >> 48u64) as u8);
        frame.push((len >> 40u64) as u8);
        frame.push((len >> 32u64) as u8);
        frame.push((len >> 24u64) as u8);
        frame.push((len >> 16u64) as u8);
        frame.push((len >> 8u64) as u8);
        frame.push((len & 0xff) as u8);
    }
    append_copy(&mut frame, data);
    proof {
        assert(frame@ =~= ws_frame_bytes(data@));
    }
    frame
}

/// The SHA-1 digest of a byte sequence, named: it depends on the input
/// bytes alone.
pub uninterp spec fn sha1_of(s: Seq<u8>) -> Seq<u8>;

/// The standard (padded) base64 encoding of a byte sequence, named: it
/// depends on the input bytes alone.
pub uninterp spec fn base64_of(s: Seq<u8>) -> Seq<u8>;

/// Relies on sha1::Sha1 through Digest::digest: the 20-byte SHA-1 digest
/// of the input, a function of the input bytes alone.
#[verifier::external_body]
fn sha1_digest(data: &Vec<u8>) -> (r: Vec<u8>)
    ensures
        r@ == sha1_of(data@),
        r@.len() == 20,
{
    sha1::Sha1::digest(data.as_slice()).to_vec()
}

/// Relies on base64's general_purpose::STANDARD engine (Engine::encode):
/// the padded base64 text of the input, a function of the input bytes
/// alone, four output bytes per three input bytes; `encode` can panic only
/// when the output length overflows, which the length bound rules out.
#[verifier::external_body]
fn base64_encode(data: &Vec<u8>) -> (r: Vec<u8>)
    requires
        data@.len() <= 1024,
    ensures
        r@ == base64_of(data@),
        r@.len() == 4 * ((data@.len() + 2) / 3),
{
    base64::engine::general_purpose::STANDARD.encode(data.as_slice()).into_bytes()
}

/// The accept token: base64 of the SHA-1 of the client key joined with the
/// fixed GUID.
pub open spec fn accept_token(key: Seq<u8>) -> Seq<u8> {
    base64_of(sha1_of(key + ws_guid()))
}

/// Compute the `Sec-WebSocket-Accept` value for a client key.
pub fn compute_accept_key(key: &Vec<u8>) -> (r: Vec<u8>)
    ensures
        r@ == accept_token(key@),
        r@.len() == 28,
{
    let mut buf: Vec<u8> = Vec::new();
    append_copy(&mut buf, key.as_slice());
    let guid = ws_guid_bytes();
    append_copy(&mut buf, guid.as_slice());
    proof {
        assert(buf@ =~= key@ + ws_guid());
    }
    let digest = sha1_digest(&buf);
    base64_encode(&digest)
}

/// The full `101 Switching Protocols` response for a client key.
pub open spec fn handshake_response(key: Seq<u8>) -> Seq<u8> {
    handshake_prefix() + accept_token(key) + handshake_suffix()
}

/// Build the handshake response for a client key.
/// The handshake status line and headers as bytes.
#[verifier::rlimit(100)]
fn handshake_prefix_bytes() -> (v: Vec<u8>)
    ensures
        v@ == handshake_prefix(),
{
    let mut v: Vec<u8> = Vec::new();
    v.push(0x48u8);
    v.push(0x54u8);
    v.push(0x54u8);
    v.push(0x50u8);
    v.push(0x2fu8);
    v.push(0x31u8);
    v.push(0x2eu8);
    v.push(0x31u8);
    v.push(0x20u8);
    v.push(0x31u8);
    v.push(0x30u8);
    v.push(0x31u8);
    v.push(0x20u8);
    v.push(0x53u8);
    v.push(0x77u8);
    v.push(0x69u8);
    v.push(0x74u8);
    v.push(0x63u8);
    v.push(0x68u8);
    v.push(0x69u8);
    v.push(0x6eu8);
    v.push(0x67u8);
    v.push(0x20u8);
    v.push(0x50u8);
    v.push(0x72u8);
    v.push(0x6fu8);
    v.push(0x74u8);
    v.push(0x6fu8);
    v.push(0x63u8);
    v.push(0x6fu8);
    v.push(0x6cu8);
    v.push(0x73u8);
    v.push(0x0du8);
    v.push(0x0au8);
    v.push(0x55u8);
    v.push(0x70u8);
    v.push(0x67u8);
    v.push(0x72u8);
    v.push(0x61u8);
    v.push(0x64u8);
    v.push(0x65u8);
    v.push(0x3au8);
    v.push(0x20u8);
    v.push(0x77u8);
    v.push(0x65u8);
    v.push(0x62u8);
    v.push(0x73u8);
    v.push(0x6fu8);
    v.push(0x63u8);
    v.push(0x6bu8);
    v.push(0x65u8);
    v.push(0x74u8);
    v.push(0x0du8);
    v.push(0x0au8);
    v.push(0x43u8);
    v.push(0x6fu8);
    v.push(0x6eu8);
    v.push(0x6eu8);
    v.push(0x65u8);
    v.push(0x63u8);
    v.push(0x74u8);
    v.push(0x69u8);
    v.push(0x6fu8);
    v.push(0x6eu8);
    v.push(0x3au8);
    v.push(0x20u8);
    v.push(0x55u8);
    v.push(0x70u8);
    v.push(0x67u8);
    v.push(0x72u8);
    v.push(0x61u8);
    v.push(0x64u8);
    v.push(0x65u8);
    v.push(0x0du8);
    v.push(0x0au8);
    v.push(0x53u8);
    v.push(0x65u8);
    v.push(0x63u8);
    v.push(0x2du8);
    v.push(0x57u8);
    v.push(0x65u8);
    v.push(0x62u8);
    v.push(0x53u8);
    v.push(0x6fu8);
    v.push(0x63u8);
    v.push(0x6bu8);
    v.push(0x65u8);
    v.push(0x74u8);
    v.push(0x2du8);
    v.push(0x41u8);
    v.push(0x63u8);
    v.push(0x63u8);
    v.push(0x65u8);
    v.push(0x70u8);
    v.push(0x74u8);
    v.push(0x3au8);
    v.push(0x20u8);
    proof {
        assert(v@ =~= handshake_prefix());
    }
    v
}

pub fn build_handshake_response(key: &Vec<u8>) -> (r: Vec<u8>)
    ensures
        r@ == handshake_response(key@),
{
    let mut r = handshake_prefix_bytes();
    let token = compute_accept_key(key);
    append_copy(&mut r, token.as_slice());
    r.push(0x0du8);
    r.push(0x0au8);
    r.push(0x0du8);
    r.push(0x0au8);
    proof {
        assert(r@ =~= handshake_response(key@));
    }
    r
}

/// A byte lowered to its ASCII lowercase form.
pub open spec fn ascii_lower(b: u8) -> u8 {
    if 0x41 <= b <= 0x5a {
        (b + 0x20) as u8
    } else {
        b
    }
}

/// Whether a header name is `Sec-WebSocket-Key`, compared case-insensitively.
pub open spec fn is_ws_key_name(name: Seq<u8>) -> bool {
    name.map_values(|b: u8| ascii_lower(b)) == ws_key_header_name()
}

/// The lowercase key-header name as bytes.
fn ws_key_name_bytes() -> (v: Vec<u8>)
    ensures
        v@ == ws_key_header_name(),
{
    let mut v: Vec<u8> = Vec::new();
    v.push(0x73u8);
    v.push(0x65u8);
    v.push(0x63u8);
    v.push(0x2du8);
    v.push(0x77u8);
    v.push(0x65u8);
    v.push(0x62u8);
    v.push(0x73u8);
    v.push(0x6fu8);
    v.push(0x63u8);
    v.push(0x6bu8);
    v.push(0x65u8);
    v.push(0x74u8);
    v.push(0x2du8);
    v.push(0x6bu8);
    v.push(0x65u8);
    v.push(0x79u8);
    proof {
        assert(v@ =~= ws_key_header_name());
    }
    v
}

/// Case-insensitive comparison of one header name against
/// `sec-websocket-key`.
pub fn name_is_ws_key(name: &[u8]) -> (b: bool)
    ensures
        b == is_ws_key_name(name@),
{
    let target = ws_key_name_bytes();
    if name.len() != target.len() {
        proof {
            assert(name@.map_values(|b: u8| ascii_lower(b)).len() == name@.len());
        }
        return false;
    }
    let mut i: usize = 0;
    while i < name.len()
        invariant
            i <= name@.len(),
            name@.len() == ws_key_header_name().len(),
            target@ == ws_key_header_name(),
            forall|k: int| 0 <= k < i ==> ascii_lower(name@[k]) == ws_key_header_name()[k],
        decreases name@.len() - i,
    {
        let c = name[i];
        let lc: u8 = if 0x41 <= c && c <= 0x5a {
            c + 0x20
        } else {
            c
        };
        if lc != target[i] {
            proof {
                let m = name@.map_values(|b: u8| ascii_lower(b));
                assert(m[i as int] == ascii_lower(name@[i as int]));
                assert(m != ws_key_header_name());
            }
            return false;
        }
        i = i + 1;
    }
    proof {
        assert(name@.map_values(|b: u8| ascii_lower(b)) =~= ws_key_header_name());
    }
    true
}

/// Find the value of the `Sec-WebSocket-Key` header among the request
/// headers; a missing key means the handshake must be refused.
pub fn find_websocket_key(headers: &Vec<(Vec<u8>, Vec<u8>)>) -> (r: Option<Vec<u8>>)
    ensures
        r is Some ==> exists|i: int|
            0 <= i < headers@.len() && #[trigger] is_ws_key_name(headers@[i].0@)
                && r.unwrap()@ == headers@[i].1@,
        r is None ==> forall|i: int|
            0 <= i < headers@.len() ==> !#[trigger] is_ws_key_name(headers@[i].0@),
{
    let mut i: usize = 0;
    while i < headers.len()
        invariant
            i <= headers@.len(),
            forall|k: int| 0 <= k < i ==> !#[trigger] is_ws_key_name(headers@[k].0@),
        decreases headers@.len() - i,
    {
        if name_is_ws_key(headers[i].0.as_slice()) {
            let v = vstd::slice::slice_to_vec(headers[i].1.as_slice());
            return Some(v);
        }
        i = i + 1;
    }
    None
}

} // verus!
