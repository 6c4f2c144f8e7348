//! Server Name Indication extraction from a raw TLS ClientHello.
//!
//! `extract_sni` parses a byte buffer as a single TLS plaintext record that
//! must carry a ClientHello handshake message, and returns the host name
//! found in the ClientHello's `server_name` extension. The grammar is stated
//! as spec functions over byte sequences, and the executable parser is proved
//! to return exactly what the grammar gives for every input buffer.

use vstd::prelude::*;

verus! {

/// Why SNI extraction failed.
#[derive(Clone, Copy, Debug, PartialEq, Eq, Structural)]
pub enum ExtractError {
    /// The bytes are not a parseable TLS record/handshake.
    ProtocolError,
    /// A valid TLS record, but its message is not a ClientHello.
    UnexpectedHandshakeType,
    /// A ClientHello without an extensions block.
    MissingExtensions,
    /// The extensions block (or the SNI extension's own content) is malformed.
    ExtensionParseError,
    /// A well-formed extension list with no SNI entry.
    SniNotFound,
}

/// The big-endian 16-bit integer at offset `i`.
pub open spec fn u16_be(b: Seq<u8>, i: int) -> int {
    b[i] * 256 + b[i + 1]
}

/// The big-endian 24-bit integer at offset `i`.
pub open spec fn u24_be(b: Seq<u8>, i: int) -> int {
    b[i] * 65536 + b[i + 1] * 256 + b[i + 2]
}

/// The TLS record content type that carries handshake messages.
pub const HANDSHAKE_CONTENT_TYPE: u8 = 22;

/// The handshake message type of a ClientHello.
pub const CLIENT_HELLO_TYPE: u8 = 1;

/// The extension type of `server_name`.
pub const SNI_EXTENSION_TYPE: u16 = 0;

/// The length declared in the record header at bytes 3..5.
pub open spec fn record_body_len(b: Seq<u8>) -> int {
    u16_be(b, 3)
}

/// `b` starts with a well-framed TLS plaintext record: a known content type,
/// a 3.x protocol version, and a declared body that fits inside the buffer.
/// Bytes past the record are ignored.
pub open spec fn is_tls_record(b: Seq<u8>) -> bool {
    &&& b.len() >= 5
    &&& (20 <= b[0] <= 23)
    &&& b[1] == 3
    &&& b[2] <= 4
    &&& 5 + record_body_len(b) <= b.len()
}

/// The record body: the bytes the record header declares.
pub open spec fn record_payload(b: Seq<u8>) -> Seq<u8> {
    b.subrange(5, 5 + record_body_len(b))
}

/// The record payload `p` starts with a well-framed handshake message:
/// a type byte, a 24-bit length, and a body that fits.
pub open spec fn is_handshake_framed(p: Seq<u8>) -> bool {
    p.len() >= 4 && 4 + u24_be(p, 1) <= p.len()
}

/// The body of the first handshake message in the record payload `p`.
pub open spec fn handshake_body(p: Seq<u8>) -> Seq<u8> {
    p.subrange(4, 4 + u24_be(p, 1))
}

/// Offset of the cipher-suites length field in a ClientHello body `c`:
/// version (2) + random (32) + session-id length byte (1) + session id.
pub open spec fn cipher_off(c: Seq<u8>) -> int {
    35 + c[34]
}

/// Offset of the compression-methods length byte in a ClientHello body `c`.
pub open spec fn comp_off(c: Seq<u8>) -> int {
    cipher_off(c) + 2 + u16_be(c, cipher_off(c))
}

/// Offset of the extensions block (its two length bytes) in `c`.
pub open spec fn ext_off(c: Seq<u8>) -> int {
    comp_off(c) + 1 + c[comp_off(c)]
}

/// The fixed ClientHello fields (version, random, session id, cipher
/// suites, compression methods) are all present and in bounds.
pub open spec fn hello_prefix_ok(c: Seq<u8>) -> bool {
    &&& c.len() >= 35
    &&& cipher_off(c) + 2 <= c.len()
    &&& comp_off(c) + 1 <= c.len()
    &&& ext_off(c) <= c.len()
}

/// Bytes remain after the fixed fields: the ClientHello carries an
/// extensions block.
pub open spec fn has_ext_block(c: Seq<u8>) -> bool {
    ext_off(c) < c.len()
}

/// The extensions block's length field is present and accounts for exactly
/// the rest of the ClientHello body.
pub open spec fn ext_block_ok(c: Seq<u8>) -> bool {
    &&& ext_off(c) + 2 <= c.len()
    &&& ext_off(c) + 2 + u16_be(c, ext_off(c)) == c.len()
}

/// The contents of the extensions block of `c`.
pub open spec fn ext_block(c: Seq<u8>) -> Seq<u8> {
    c.subrange(ext_off(c) + 2, c.len() as int)
}

/// `e` is a well-formed extension list: a run of (type: u16, length: u16,
/// value) entries that consumes the block exactly.
pub open spec fn exts_well_formed(e: Seq<u8>) -> bool
    decreases e.len(),
{
    if e.len() == 0 {
        true
    } else {
        &&& e.len() >= 4
        &&& 4 + u16_be(e, 2) <= e.len()
        &&& exts_well_formed(e.skip(4 + u16_be(e, 2)))
    }
}

/// The value of the first entry of type `ty` in the extension list `e`,
/// if a well-framed one is there.
pub open spec fn find_ext(e: Seq<u8>, ty: int) -> Option<Seq<u8>>
    decreases e.len(),
{
    if e.len() < 4 || 4 + u16_be(e, 2) > e.len() {
        None
    } else if u16_be(e, 0) == ty {
        Some(e.subrange(4, 4 + u16_be(e, 2)))
    } else {
        find_ext(e.skip(4 + u16_be(e, 2)), ty)
    }
}

/// The SNI extension value `s` is well-formed: a server-name list whose
/// length covers the rest of the value exactly, holding at least one entry
/// (name type: 1 byte, name length: u16, name), the first of which fits.
/// The entry's name type is not inspected.
pub open spec fn sni_payload_ok(s: Seq<u8>) -> bool {
    &&& s.len() >= 5
    &&& 2 + u16_be(s, 0) == s.len()
    &&& 5 + u16_be(s, 3) <= s.len()
}

/// The raw bytes of the first name entry of the SNI extension value `s`.
pub open spec fn sni_first_name(s: Seq<u8>) -> Seq<u8> {
    s.subrange(5, 5 + u16_be(s, 3))
}

/// What `extract_sni` returns on buffer `b`, as a value of the grammar:
/// the host name as a character sequence, or the error the buffer earns.
/// A name that is not valid UTF-8 is rejected as `ExtensionParseError`
/// (RFC 6066 sends host names in ASCII; nothing is decoded lossily).
pub open spec fn spec_extract_sni(b: Seq<u8>) -> Result<Seq<char>, ExtractError> {
    if !is_tls_record(b) {
        Err(ExtractError::ProtocolError)
    } else if b[0] != HANDSHAKE_CONTENT_TYPE {
        Err(ExtractError::UnexpectedHandshakeType)
    } else if !is_handshake_framed(record_payload(b)) {
        Err(ExtractError::ProtocolError)
    } else if record_payload(b)[0] != CLIENT_HELLO_TYPE {
        Err(ExtractError::UnexpectedHandshakeType)
    } else {
        spec_extract_from_hello(handshake_body(record_payload(b)))
    }
}

/// The part of the grammar below the handshake header: what extraction
/// yields on a ClientHello body `c`.
pub open spec fn spec_extract_from_hello(c: Seq<u8>) -> Result<Seq<char>, ExtractError> {
    if !hello_prefix_ok(c) {
        Err(ExtractError::ProtocolError)
    } else if !has_ext_block(c) {
        Err(ExtractError::MissingExtensions)
    } else if !ext_block_ok(c) {
        Err(ExtractError::ProtocolError)
    } else if !exts_well_formed(ext_block(c)) {
        Err(ExtractError::ExtensionParseError)
    } else {
        match find_ext(ext_block(c), SNI_EXTENSION_TYPE as int) {
            Option::None => Err(ExtractError::SniNotFound),
            Option::Some(s) => {
                if !sni_payload_ok(s) {
                    Err(ExtractError::ExtensionParseError)
                } else if !vstd::utf8::valid_utf8(sni_first_name(s)) {
                    Err(ExtractError::ExtensionParseError)
                } else {
                    Ok(vstd::utf8::decode_utf8(sni_first_name(s)))
                }
            },
        }
    }
}

/// `b` opens with a handshake record whose first message is framed as a
/// ClientHello.
pub open spec fn is_client_hello_buffer(b: Seq<u8>) -> bool {
    &&& is_tls_record(b)
    &&& b[0] == HANDSHAKE_CONTENT_TYPE
    &&& is_handshake_framed(record_payload(b))
    &&& record_payload(b)[0] == CLIENT_HELLO_TYPE
}

/// The ClientHello body carried by buffer `b`.
pub open spec fn hello_body(b: Seq<u8>) -> Seq<u8> {
    handshake_body(record_payload(b))
}

/// Law: for every well-formed ClientHello buffer whose extension list holds
/// an SNI entry with a valid host name, extraction returns exactly that
/// name.
pub proof fn lemma_extract_sni_returns_name(b: Seq<u8>, s: Seq<u8>)
    requires
        is_client_hello_buffer(b),
        hello_prefix_ok(hello_body(b)),
        has_ext_block(hello_body(b)),
        ext_block_ok(hello_body(b)),
        exts_well_formed(ext_block(hello_body(b))),
        find_ext(ext_block(hello_body(b)), SNI_EXTENSION_TYPE as int) == Some(s),
        sni_payload_ok(s),
        vstd::utf8::valid_utf8(sni_first_name(s)),
    ensures
        spec_extract_sni(b) == Ok::<Seq<char>, ExtractError>(
            vstd::utf8::decode_utf8(sni_first_name(s)),
        ),
{
}

/// Law: a buffer that is not a well-framed TLS record yields
/// `ProtocolError`, whatever else it holds.
pub proof fn lemma_extract_sni_rejects_non_tls(b: Seq<u8>)
    requires
        !is_tls_record(b),
    ensures
        spec_extract_sni(b) == Err::<Seq<char>, ExtractError>(ExtractError::ProtocolError),
{
}

/// Law: a ClientHello with a well-formed extension list but no SNI entry
/// yields `SniNotFound`.
pub proof fn lemma_extract_sni_not_found(b: Seq<u8>)
    requires
        is_client_hello_buffer(b),
        hello_prefix_ok(hello_body(b)),
        has_ext_block(hello_body(b)),
        ext_block_ok(hello_body(b)),
        exts_well_formed(ext_block(hello_body(b))),
        find_ext(ext_block(hello_body(b)), SNI_EXTENSION_TYPE as int) is None,
    ensures
        spec_extract_sni(b) == Err::<Seq<char>, ExtractError>(ExtractError::SniNotFound),
{
}

/// Law: a ClientHello whose body ends at the fixed fields, with no
/// extensions block, yields `MissingExtensions`.
pub proof fn lemma_extract_sni_missing_extensions(b: Seq<u8>)
    requires
        is_client_hello_buffer(b),
        hello_prefix_ok(hello_body(b)),
        !has_ext_block(hello_body(b)),
    ensures
        spec_extract_sni(b) == Err::<Seq<char>, ExtractError>(ExtractError::MissingExtensions),
{
}

/// Law: extraction succeeds on exactly the well-formed buffers: `Ok` comes
/// of a buffer if and only if it is a ClientHello buffer whose well-formed
/// extension list holds an SNI entry with a well-formed value and a valid
/// UTF-8 host name; every other buffer earns one of the errors.
pub proof fn lemma_extract_sni_ok_iff(b: Seq<u8>)
    ensures
        spec_extract_sni(b) is Ok <==> {
            &&& is_client_hello_buffer(b)
            &&& hello_prefix_ok(hello_body(b))
            &&& has_ext_block(hello_body(b))
            &&& ext_block_ok(hello_body(b))
            &&& exts_well_formed(ext_block(hello_body(b)))
            &&& find_ext(ext_block(hello_body(b)), SNI_EXTENSION_TYPE as int) matches Some(s)
                && sni_payload_ok(s) && vstd::utf8::valid_utf8(sni_first_name(s))
        },
{
}

/// Relies on `String::from_utf8`: it succeeds exactly on valid UTF-8 input,
/// and the string it builds holds the UTF-8 decoding of the bytes.
#[verifier::external_body]
fn utf8_to_string(bytes: Vec<u8>) -> (r: Option<String>)
    ensures
        r is Some <==> vstd::utf8::valid_utf8(bytes@),
        r matches Some(s) ==> s@ == vstd::utf8::decode_utf8(bytes@),
{
    String::from_utf8(bytes).ok()
}

/// Reads the big-endian 16-bit integer at offset `i`.
fn be_u16(b: &[u8], i: usize) -> (r: u16)
    requires
        i + 2 <= b@.len(),
    ensures
        r == u16_be(b@, i as int),
{
    (b[i] as u16) * 256 + (b[i + 1] as u16)
}

/// Reads the big-endian 24-bit integer at offset `i`.
fn be_u24(b: &[u8], i: usize) -> (r: u32)
    requires
        i + 3 <= b@.len(),
    ensures
        r == u24_be(b@, i as int),
{
    (b[i] as u32) * 65536 + (b[i + 1] as u32) * 256 + (b[i + 2] as u32)
}

/// Walks the extension list once and decides whether it is well-formed.
fn check_exts(e: &[u8]) -> (r: bool)
    ensures
        r == exts_well_formed(e@),
{
    let mut off: usize = 0;
    assert(e@.skip(0) =~= e@);
    loop
        invariant
            off <= e@.len(),
            exts_well_formed(e@) == exts_well_formed(e@.skip(off as int)),
        decreases e@.len() - off,
    {
        let ghost rest = e@.skip(off as int);
        if off == e.len() {
            assert(rest =~= Seq::<u8>::empty());
            return true;
        }
        if e.len() - off < 4 {
            return false;
        }
        assert(rest[2] == e@[off + 2] && rest[3] == e@[off + 3]);
        let l = be_u16(e, off + 2) as usize;
        if e.len() - off - 4 < l {
            return false;
        }
        proof {
            vstd::seq_lib::lemma_seq_skip_of_skip(e@, off as int, 4 + l);
        }
        off = off + 4 + l;
    }
}

/// Walks a well-formed extension list and returns the offset and length of
/// the value of the first entry of type `ty`, if one is there.
fn find_ext_at(e: &[u8], ty: u16) -> (r: Option<(usize, usize)>)
    ensures
        match r {
            Option::Some((o, l)) => {
                &&& o + l <= e@.len()
                &&& find_ext(e@, ty as int) == Some(e@.subrange(o as int, o + l))
            },
            Option::None => find_ext(e@, ty as int) is None,
        },
{
    let mut off: usize = 0;
    assert(e@.skip(0) =~= e@);
    loop
        invariant
            off <= e@.len(),
            find_ext(e@, ty as int) == find_ext(e@.skip(off as int), ty as int),
        decreases e@.len() - off,
    {
        let ghost rest = e@.skip(off as int);
        if e.len() - off < 4 {
            return Option::None;
        }
        assert(rest[0] == e@[off as int] && rest[1] == e@[off + 1]);
        assert(rest[2] == e@[off + 2] && rest[3] == e@[off + 3]);
        let l = be_u16(e, off + 2) as usize;
        if e.len() - off - 4 < l {
            return Option::None;
        }
        let t = be_u16(e, off);
        if t == ty {
            assert(rest.subrange(4, 4 + l) =~= e@.subrange(off + 4, off + 4 + l));
            return Option::Some((off + 4, l));
        }
        proof {
            vstd::seq_lib::lemma_seq_skip_of_skip(e@, off as int, 4 + l);
        }
        off = off + 4 + l;
    }
}

/// Extracts the host name from a ClientHello body `c` (the bytes after the
/// handshake header).
fn extract_from_hello(c: &[u8]) -> (r: Result<String, ExtractError>)
    ensures
        match r {
            Result::Ok(h) => spec_extract_from_hello(c@) == Ok::<Seq<char>, ExtractError>(h@),
            Result::Err(e) => spec_extract_from_hello(c@) == Err::<Seq<char>, ExtractError>(e),
        },
{
    if c.len() < 35 {
        return Result::Err(ExtractError::ProtocolError);
    }
    let sid = c[34] as usize;
    if c.len() - 35 < sid {
        return Result::Err(ExtractError::ProtocolError);
    }
    let cip = 35 + sid;
    if c.len() - cip < 2 {
        return Result::Err(ExtractError::ProtocolError);
    }
    let cl = be_u16(c, cip) as usize;
    if c.len() - cip - 2 < cl {
        return Result::Err(ExtractError::ProtocolError);
    }
    let co = cip + 2 + cl;
    if c.len() - co < 1 {
        return Result::Err(ExtractError::ProtocolError);
    }
    let cmp = c[co] as usize;
    if c.len() - co - 1 < cmp {
        return Result::Err(ExtractError::ProtocolError);
    }
    let eo = co + 1 + cmp;
    if eo == c.len() {
        return Result::Err(ExtractError::MissingExtensions);
    }
    if c.len() - eo < 2 {
        return Result::Err(ExtractError::ProtocolError);
    }
    let el = be_u16(c, eo) as usize;
    if c.len() - eo - 2 != el {
        return Result::Err(ExtractError::ProtocolError);
    }
    let e: &[u8] = &c[eo + 2..c.len()];
    assert(e@ == ext_block(c@));
    if !check_exts(e) {
        return Result::Err(ExtractError::ExtensionParseError);
    }
    match find_ext_at(e, SNI_EXTENSION_TYPE) {
        Option::None => Result::Err(ExtractError::SniNotFound),
        Option::Some((o, l)) => {
            let s: &[u8] = &e[o..o + l];
            if s.len() < 5 {
                return Result::Err(ExtractError::ExtensionParseError);
            }
            let listl = be_u16(s, 0) as usize;
            if s.len() - 2 != listl {
                return Result::Err(ExtractError::ExtensionParseError);
            }
            let nl = be_u16(s, 3) as usize;
            if s.len() - 5 < nl {
                return Result::Err(ExtractError::ExtensionParseError);
            }
            let name: &[u8] = &s[5..5 + nl];
            assert(name@ == sni_first_name(s@));
            let namev = vstd::slice::slice_to_vec(name);
            match utf8_to_string(namev) {
                Option::Some(h) => Result::Ok(h),
                Option::None => Result::Err(ExtractError::ExtensionParseError),
            }
        },
    }
}

/// Extracts the SNI host name from a buffer holding the start of a TLS
/// stream: the buffer must open with a handshake record whose first message
/// is a ClientHello carrying a `server_name` extension. Returns exactly the
/// value the grammar (`spec_extract_sni`) gives, for every input: the result
/// depends on the buffer alone, so two calls on one buffer agree. The
/// function is verified never to panic or to read out of bounds.
pub fn extract_sni(buf: &[u8]) -> (r: Result<String, ExtractError>)
    ensures
        match r {
            Result::Ok(h) => spec_extract_sni(buf@) == Ok::<Seq<char>, ExtractError>(h@),
            Result::Err(e) => spec_extract_sni(buf@) == Err::<Seq<char>, ExtractError>(e),
        },
{
    if buf.len() < 5 {
        return Result::Err(ExtractError::ProtocolError);
    }
    let ct = buf[0];
    if !(20 <= ct && ct <= 23) {
        return Result::Err(ExtractError::ProtocolError);
    }
    if buf[1] != 3 || buf[2] > 4 {
        return Result::Err(ExtractError::ProtocolError);
    }
    let rec_len = be_u16(buf, 3) as usize;
    if buf.len() - 5 < rec_len {
        return Result::Err(ExtractError::ProtocolError);
    }
    if ct != HANDSHAKE_CONTENT_TYPE {
        return Result::Err(ExtractError::UnexpectedHandshakeType);
    }
    let p: &[u8] = &buf[5..5 + rec_len];
    assert(p@ == record_payload(buf@));
    if p.len() < 4 {
        return Result::Err(ExtractError::ProtocolError);
    }
    let hs_len = be_u24(p, 1) as usize;
    if p.len() - 4 < hs_len {
        return Result::Err(ExtractError::ProtocolError);
    }
    if p[0] != CLIENT_HELLO_TYPE {
        return Result::Err(ExtractError::UnexpectedHandshakeType);
    }
    let ch: &[u8] = &p[4..4 + hs_len];
    assert(ch@ == handshake_body(p@));
    extract_from_hello(ch)
}

} // verus!
