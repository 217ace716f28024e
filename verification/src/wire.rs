//! Wire protocol between the sandboxed process and the privileged helper
//! that writes the user's `config.toml`.
//!
//! A request is the magic number, the session token, the destination and
//! the content, each length-prefixed (little-endian `u32`). A response is a
//! status byte and a length-prefixed message.

use vstd::prelude::*;
use vstd::bytes::{lemma_auto_spec_u32_to_from_le_bytes, spec_u32_from_le_bytes, spec_u32_to_le_bytes, u32_from_le_bytes, u32_to_le_bytes};
use vstd::string::*;
use vstd::utf8::{decode_utf8, encode_utf8, encode_utf8_decode_utf8, valid_utf8, encode_utf8_valid_utf8};

verus! {

/// `"GKC1"` as a little-endian `u32`.
pub const MAGIC: u32 = 0x3143_4B47;

/// Length of the session token in bytes.
pub const TOKEN_LEN: usize = 32;

/// Longest destination path accepted, in bytes.
pub const MAX_DEST_BYTES: u32 = 4096;

/// Largest content accepted, in bytes.
pub const MAX_CONTENT_BYTES: u32 = 8388608;

/// Classes of protocol failure.
#[derive(Clone, Copy, PartialEq, Eq, Structural, Debug)]
pub enum WireErrorKind {
    InvalidInput,
    InvalidData,
    PermissionDenied,
    /// The frame ended early.
    UnexpectedEof,
}

/// A protocol failure and its message.
pub struct WireError {
    pub kind: WireErrorKind,
    pub message: String,
}

/// The bytes of a request frame.
pub open spec fn request_bytes(token: Seq<u8>, dest: Seq<u8>, content: Seq<u8>) -> Seq<u8> {
    spec_u32_to_le_bytes(MAGIC) + token + spec_u32_to_le_bytes(dest.len() as u32) + dest
        + spec_u32_to_le_bytes(content.len() as u32) + content
}

/// A failure of the given kind and message.
pub open spec fn fails_with(r: Result<(String, String, usize), WireError>, kind: WireErrorKind, msg: Seq<char>) -> bool {
    r is Err && r->Err_0.kind == kind && r->Err_0.message@ == msg
}

/// An encoding failure of the given kind and message.
pub open spec fn encode_fails_with(r: Result<Vec<u8>, WireError>, kind: WireErrorKind, msg: Seq<char>) -> bool {
    r is Err && r->Err_0.kind == kind && r->Err_0.message@ == msg
}

/// A wire error.
fn wire_error(kind: WireErrorKind, msg: &str) -> (r: WireError)
    ensures
        r.kind == kind,
        r.message@ == msg@,
{
    WireError { kind, message: crate::text::owned(msg) }
}

/// Appends `b` to `v`.
fn push_bytes(v: &mut Vec<u8>, b: &[u8])
    ensures
        final(v)@ == old(v)@ + b@,
{
    let mut i: usize = 0;
    let ghost v0 = v@;
    while i < b.len()
        invariant
            i <= b@.len(),
            v@ == v0 + b@.subrange(0, i as int),
        decreases b@.len() - i,
    {
        v.push(b[i]);
        i += 1;
        assert(v@ =~= v0 + b@.subrange(0, i as int));
    }
    assert(b@.subrange(0, b@.len() as int) =~= b@);
}

/// The request frame for writing `content` to `dest`: refused when the
/// destination or the content exceeds its limit.
pub fn encode_request(dest: &str, content: &str, token: &[u8; 32]) -> (r: Result<Vec<u8>, WireError>)
    ensures
        dest.spec_bytes().len() > MAX_DEST_BYTES ==> encode_fails_with(
            r,
            WireErrorKind::InvalidInput,
            "privileged writer: dest too long"@,
        ),
        dest.spec_bytes().len() <= MAX_DEST_BYTES && content.spec_bytes().len() > MAX_CONTENT_BYTES
            ==> encode_fails_with(
            r,
            WireErrorKind::InvalidInput,
            "privileged writer: content too large"@,
        ),
        dest.spec_bytes().len() <= MAX_DEST_BYTES && content.spec_bytes().len() <= MAX_CONTENT_BYTES
            ==> r is Ok && r->Ok_0@ == request_bytes(token@, dest.spec_bytes(), content.spec_bytes()),
{
    let d = dest.as_bytes();
    let c = content.as_bytes();
    if d.len() > MAX_DEST_BYTES as usize {
        return Err(wire_error(WireErrorKind::InvalidInput, "privileged writer: dest too long"));
    }
    if c.len() > MAX_CONTENT_BYTES as usize {
        return Err(wire_error(WireErrorKind::InvalidInput, "privileged writer: content too large"));
    }
    let mut out: Vec<u8> = Vec::new();
    push_bytes(&mut out, u32_to_le_bytes(MAGIC).as_slice());
    push_bytes(&mut out, token.as_slice());
    push_bytes(&mut out, u32_to_le_bytes(d.len() as u32).as_slice());
    push_bytes(&mut out, d);
    push_bytes(&mut out, u32_to_le_bytes(c.len() as u32).as_slice());
    push_bytes(&mut out, c);
    Ok(out)
}

/// The text `bytes` encode, when they are valid UTF-8
/// (`std::str::from_utf8`, then copied into a `String`). The contract takes
/// vstd's `valid_utf8` and `decode_utf8` to be UTF-8 as std checks it.
#[verifier::external_body]
fn utf8_string(bytes: &[u8]) -> (r: Option<String>)
    ensures
        r is Some == valid_utf8(bytes@),
        r is Some ==> r->0@ == decode_utf8(bytes@),
{
    std::str::from_utf8(bytes).ok().map(|s| s.to_owned())
}

/// Little-endian `u32` at `at`.
pub open spec fn u32_at(buf: Seq<u8>, at: int) -> u32 {
    spec_u32_from_le_bytes(buf.subrange(at, at + 4))
}

/// What a request frame at the start of `buf` holds, given the helper's
/// token: the destination and content texts and the frame's length, or the
/// first failure met reading it in order (a short frame, a bad magic
/// number, a bad token, a destination length of zero or past its limit,
/// text that is not UTF-8, a content length past its limit).
pub open spec fn decode_request_spec(buf: Seq<u8>, token: Seq<u8>) -> Result<
    (Seq<char>, Seq<char>, int),
    (WireErrorKind, Seq<char>),
> {
    if buf.len() < 4 {
        Err((WireErrorKind::UnexpectedEof, "privileged writer: short frame"@))
    } else if u32_at(buf, 0) != MAGIC {
        Err((WireErrorKind::InvalidData, "privileged writer: bad magic"@))
    } else if buf.len() < 36 {
        Err((WireErrorKind::UnexpectedEof, "privileged writer: short frame"@))
    } else if buf.subrange(4, 36) != token {
        Err((WireErrorKind::PermissionDenied, "privileged writer: bad token"@))
    } else if buf.len() < 40 {
        Err((WireErrorKind::UnexpectedEof, "privileged writer: short frame"@))
    } else {
        let dl = u32_at(buf, 36) as int;
        if dl == 0 || dl > MAX_DEST_BYTES {
            Err((WireErrorKind::InvalidData, "privileged writer: dest length"@))
        } else if buf.len() < 40 + dl {
            Err((WireErrorKind::UnexpectedEof, "privileged writer: short frame"@))
        } else if !valid_utf8(buf.subrange(40, 40 + dl)) {
            Err((WireErrorKind::InvalidData, "privileged writer: not UTF-8"@))
        } else if buf.len() < 44 + dl {
            Err((WireErrorKind::UnexpectedEof, "privileged writer: short frame"@))
        } else {
            let cl = u32_at(buf, 40 + dl) as int;
            if cl > MAX_CONTENT_BYTES {
                Err((WireErrorKind::InvalidData, "privileged writer: content length"@))
            } else if buf.len() < 44 + dl + cl {
                Err((WireErrorKind::UnexpectedEof, "privileged writer: short frame"@))
            } else if !valid_utf8(buf.subrange(44 + dl, 44 + dl + cl)) {
                Err((WireErrorKind::InvalidData, "privileged writer: not UTF-8"@))
            } else {
                Ok(
                    (
                        decode_utf8(buf.subrange(40, 40 + dl)),
                        decode_utf8(buf.subrange(44 + dl, 44 + dl + cl)),
                        44 + dl + cl,
                    ),
                )
            }
        }
    }
}

/// View of a decoding result.
pub open spec fn decoded_view(r: Result<(String, String, usize), WireError>) -> Result<
    (Seq<char>, Seq<char>, int),
    (WireErrorKind, Seq<char>),
> {
    match r {
        Ok(x) => Ok((x.0@, x.1@, x.2 as int)),
        Err(e) => Err((e.kind, e.message@)),
    }
}

/// The bytes `buf[from..to]`.
fn byte_range(buf: &[u8], from: usize, to: usize) -> (r: Vec<u8>)
    requires
        from <= to <= buf@.len(),
    ensures
        r@ == buf@.subrange(from as int, to as int),
{
    let mut r: Vec<u8> = Vec::new();
    let mut i = from;
    while i < to
        invariant
            from <= i <= to <= buf@.len(),
            r@ == buf@.subrange(from as int, i as int),
        decreases to - i,
    {
        r.push(buf[i]);
        i += 1;
        assert(r@ =~= buf@.subrange(from as int, i as int));
    }
    r
}

/// Little-endian `u32` at `at`.
fn read_u32_at(buf: &[u8], at: usize) -> (r: u32)
    requires
        at + 4 <= buf@.len(),
    ensures
        r == u32_at(buf@, at as int),
{
    let n = buf.len();
    assert(at + 4 <= n);
    let b = byte_range(buf, at, at + 4);
    u32_from_le_bytes(b.as_slice())
}

/// Byte sequences are equal; every byte is compared whatever the first
/// difference, so the time taken does not reveal where they differ.
pub fn tokens_match(presented: &[u8], expected: &[u8]) -> (r: bool)
    ensures
        r == (presented@ == expected@),
{
    if presented.len() != expected.len() {
        return false;
    }
    let mut diff: u8 = 0;
    let mut i: usize = 0;
    while i < presented.len()
        invariant
            i <= presented@.len(),
            presented@.len() == expected@.len(),
            (diff == 0) == (forall|j: int| 0 <= j < i ==> presented@[j] == expected@[j]),
        decreases presented@.len() - i,
    {
        let a = presented[i];
        let b = expected[i];
        let d2 = diff | (a ^ b);
        assert((d2 == 0) == (diff == 0 && a == b)) by (bit_vector)
            requires
                d2 == diff | (a ^ b),
        ;
        diff = d2;
        i += 1;
    }
    if diff == 0 {
        assert(presented@ =~= expected@);
    }
    diff == 0
}

/// Reads the request frame at the start of `buf` (see
/// [`decode_request_spec`]); on success also says how many bytes it took.
pub fn decode_request(buf: &[u8], token: &[u8; 32]) -> (r: Result<(String, String, usize), WireError>)
    ensures
        decoded_view(r) == decode_request_spec(buf@, token@),
{
    if buf.len() < 4 {
        return Err(wire_error(WireErrorKind::UnexpectedEof, "privileged writer: short frame"));
    }
    if read_u32_at(buf, 0) != MAGIC {
        return Err(wire_error(WireErrorKind::InvalidData, "privileged writer: bad magic"));
    }
    if buf.len() < 36 {
        return Err(wire_error(WireErrorKind::UnexpectedEof, "privileged writer: short frame"));
    }
    let presented = byte_range(buf, 4, 36);
    if !tokens_match(presented.as_slice(), token.as_slice()) {
        return Err(wire_error(WireErrorKind::PermissionDenied, "privileged writer: bad token"));
    }
    if buf.len() < 40 {
        return Err(wire_error(WireErrorKind::UnexpectedEof, "privileged writer: short frame"));
    }
    let dl = read_u32_at(buf, 36) as usize;
    if dl == 0 || dl > MAX_DEST_BYTES as usize {
        return Err(wire_error(WireErrorKind::InvalidData, "privileged writer: dest length"));
    }
    if buf.len() - 40 < dl {
        return Err(wire_error(WireErrorKind::UnexpectedEof, "privileged writer: short frame"));
    }
    let dest = match utf8_string(byte_range(buf, 40, 40 + dl).as_slice()) {
        Some(s) => s,
        None => {
            return Err(wire_error(WireErrorKind::InvalidData, "privileged writer: not UTF-8"));
        },
    };
    if buf.len() - 40 - dl < 4 {
        return Err(wire_error(WireErrorKind::UnexpectedEof, "privileged writer: short frame"));
    }
    let cl = read_u32_at(buf, 40 + dl) as usize;
    if cl > MAX_CONTENT_BYTES as usize {
        return Err(wire_error(WireErrorKind::InvalidData, "privileged writer: content length"));
    }
    if buf.len() - 44 - dl < cl {
        return Err(wire_error(WireErrorKind::UnexpectedEof, "privileged writer: short frame"));
    }
    let content = match utf8_string(byte_range(buf, 44 + dl, 44 + dl + cl).as_slice()) {
        Some(s) => s,
        None => {
            return Err(wire_error(WireErrorKind::InvalidData, "privileged writer: not UTF-8"));
        },
    };
    Ok((dest, content, 44 + dl + cl))
}

/// A request frame read back with the token it was written with gives the
/// destination and content it was written with, and its own length, with
/// any bytes after it left unread.
pub proof fn lemma_request_roundtrip(token: Seq<u8>, dest: Seq<char>, content: Seq<char>, rest: Seq<u8>)
    requires
        token.len() == 32,
        0 < encode_utf8(dest).len() <= MAX_DEST_BYTES,
        encode_utf8(content).len() <= MAX_CONTENT_BYTES,
    ensures
        decode_request_spec(
            request_bytes(token, encode_utf8(dest), encode_utf8(content)) + rest,
            token,
        ) == Ok::<(Seq<char>, Seq<char>, int), (WireErrorKind, Seq<char>)>(
            (dest, content, request_bytes(token, encode_utf8(dest), encode_utf8(content)).len() as int),
        ),
{
    lemma_auto_spec_u32_to_from_le_bytes();
    let d = encode_utf8(dest);
    let c = encode_utf8(content);
    let buf = request_bytes(token, d, c) + rest;
    let dl = d.len() as int;
    let cl = c.len() as int;
    assert(buf.subrange(0, 4) =~= spec_u32_to_le_bytes(MAGIC));
    assert(buf.subrange(4, 36) =~= token);
    assert(buf.subrange(36, 40) =~= spec_u32_to_le_bytes(dl as u32));
    assert(buf.subrange(40, 40 + dl) =~= d);
    assert(buf.subrange(40 + dl, 44 + dl) =~= spec_u32_to_le_bytes(cl as u32));
    assert(buf.subrange(44 + dl, 44 + dl + cl) =~= c);
    encode_utf8_valid_utf8(dest);
    encode_utf8_valid_utf8(content);
    encode_utf8_decode_utf8(dest);
    encode_utf8_decode_utf8(content);
}

/// A request frame presented with another token than the helper's is
/// refused as a bad token, whatever it asks to write.
pub proof fn lemma_request_wrong_token(
    token: Seq<u8>,
    other: Seq<u8>,
    dest: Seq<u8>,
    content: Seq<u8>,
    rest: Seq<u8>,
)
    requires
        token.len() == 32,
        other.len() == 32,
        token != other,
    ensures
        decode_request_spec(request_bytes(other, dest, content) + rest, token) == Err::<
            (Seq<char>, Seq<char>, int),
            (WireErrorKind, Seq<char>),
        >((WireErrorKind::PermissionDenied, "privileged writer: bad token"@)),
{
    lemma_auto_spec_u32_to_from_le_bytes();
    let buf = request_bytes(other, dest, content) + rest;
    assert(buf.subrange(0, 4) =~= spec_u32_to_le_bytes(MAGIC));
    assert(buf.subrange(4, 36) =~= other);
}

/// The bytes of a response frame: `None` reports success, `Some(message)`
/// an error.
pub open spec fn response_bytes(error: Option<Seq<u8>>) -> Seq<u8> {
    match error {
        None => seq![0u8] + spec_u32_to_le_bytes(0),
        Some(m) => seq![1u8] + spec_u32_to_le_bytes(
            if m.len() > u32::MAX {
                u32::MAX
            } else {
                m.len() as u32
            },
        ) + m,
    }
}

/// The response frame reporting `result`: status `0` with an empty
/// message, or status `1` with the error's message.
pub fn encode_response(result: &Result<(), String>) -> (r: Vec<u8>)
    ensures
        r@ == response_bytes(
            match result {
                Ok(_) => None,
                Err(m) => Some(encode_utf8(m@)),
            },
        ),
{
    let mut out: Vec<u8> = Vec::new();
    match result {
        Ok(()) => {
            out.push(0u8);
            push_bytes(&mut out, u32_to_le_bytes(0).as_slice());
            assert(out@ =~= seq![0u8] + spec_u32_to_le_bytes(0));
        },
        Err(m) => {
            let b = m.as_str().as_bytes();
            let len: u32 = if b.len() > u32::MAX as usize {
                u32::MAX
            } else {
                b.len() as u32
            };
            out.push(1u8);
            push_bytes(&mut out, u32_to_le_bytes(len).as_slice());
            push_bytes(&mut out, b);
            assert(out@ =~= seq![1u8] + spec_u32_to_le_bytes(len) + b@);
        },
    }
    out
}

/// What a response frame at the start of `buf` reports: success (`None`)
/// for status `0`, otherwise the frame's message (or a generic one when it
/// is empty); or why the frame could not be read.
pub open spec fn decode_response_spec(buf: Seq<u8>) -> Result<Option<Seq<char>>, (WireErrorKind, Seq<char>)> {
    if buf.len() < 5 {
        Err((WireErrorKind::UnexpectedEof, "privileged writer: short frame"@))
    } else {
        let ml = u32_at(buf, 1) as int;
        if buf.len() < 5 + ml {
            Err((WireErrorKind::UnexpectedEof, "privileged writer: short frame"@))
        } else if ml > 0 && !valid_utf8(buf.subrange(5, 5 + ml)) {
            Err((WireErrorKind::InvalidData, "privileged writer: not UTF-8"@))
        } else {
            let msg = if ml == 0 {
                Seq::empty()
            } else {
                decode_utf8(buf.subrange(5, 5 + ml))
            };
            if buf[0] == 0 {
                Ok(None)
            } else if msg.len() == 0 {
                Ok(Some("privileged writer failed"@))
            } else {
                Ok(Some(msg))
            }
        }
    }
}

/// View of a response decoding.
pub open spec fn response_view(r: Result<Result<(), String>, WireError>) -> Result<
    Option<Seq<char>>,
    (WireErrorKind, Seq<char>),
> {
    match r {
        Ok(Ok(_)) => Ok(None),
        Ok(Err(m)) => Ok(Some(m@)),
        Err(e) => Err((e.kind, e.message@)),
    }
}

/// Reads the response frame at the start of `buf`.
pub fn decode_response(buf: &[u8]) -> (r: Result<Result<(), String>, WireError>)
    ensures
        response_view(r) == decode_response_spec(buf@),
{
    if buf.len() < 5 {
        return Err(wire_error(WireErrorKind::UnexpectedEof, "privileged writer: short frame"));
    }
    let ml = read_u32_at(buf, 1) as usize;
    if buf.len() - 5 < ml {
        return Err(wire_error(WireErrorKind::UnexpectedEof, "privileged writer: short frame"));
    }
    let msg = if ml == 0 {
        String::new()
    } else {
        match utf8_string(byte_range(buf, 5, 5 + ml).as_slice()) {
            Some(s) => s,
            None => {
                return Err(wire_error(WireErrorKind::InvalidData, "privileged writer: not UTF-8"));
            },
        }
    };
    if buf[0] == 0 {
        Ok(Ok(()))
    } else if msg.as_str().is_empty() {
        Ok(Err(crate::text::owned("privileged writer failed")))
    } else {
        Ok(Err(msg))
    }
}

/// A response read back gives what was reported: success, or the error's
/// message when it is not empty and its length fits the frame.
pub proof fn lemma_response_roundtrip(error: Option<Seq<char>>, rest: Seq<u8>)
    requires
        error matches Some(m) ==> m.len() > 0 && encode_utf8(m).len() <= u32::MAX,
    ensures
        decode_response_spec(
            response_bytes(
                match error {
                    None => None,
                    Some(m) => Some(encode_utf8(m)),
                },
            ) + rest,
        ) == Ok::<Option<Seq<char>>, (WireErrorKind, Seq<char>)>(error),
{
    lemma_auto_spec_u32_to_from_le_bytes();
    match error {
        None => {
            let buf = response_bytes(None) + rest;
            assert(buf.subrange(1, 5) =~= spec_u32_to_le_bytes(0));
            assert(buf[0] == 0u8);
        },
        Some(m) => {
            let b = encode_utf8(m);
            let buf = response_bytes(Some(b)) + rest;
            assert(buf.subrange(1, 5) =~= spec_u32_to_le_bytes(b.len() as u32));
            assert(buf.subrange(5, 5 + b.len() as int) =~= b);
            assert(buf[0] == 1u8);
            encode_utf8_valid_utf8(m);
            encode_utf8_decode_utf8(m);
            if b.len() == 0 {
                assert(decode_utf8(Seq::<u8>::empty()) =~= Seq::<char>::empty());
            }
        },
    }
}

// ── the helper's write policy ───────────────────────────────────────────

/// Two paths name the same place lexically (`Path` equality compares
/// components).
pub open spec fn same_path(a: Seq<char>, b: Seq<char>) -> bool {
    crate::paths::components(a) == crate::paths::components(b)
}

/// The user config file of a grok home.
pub open spec fn user_config_slot(home: Seq<char>) -> Seq<char> {
    crate::paths::join_path(home, "config.toml"@)
}

/// Whether two paths have the same components.
fn same_path_exec(a: &str, b: &str) -> (r: bool)
    ensures
        r == same_path(a@, b@),
{
    let ac = crate::text::chars_of(a);
    let bc = crate::text::chars_of(b);
    let x = crate::paths::components_chars(ac.as_slice());
    let y = crate::paths::components_chars(bc.as_slice());
    if x.len() != y.len() {
        proof {
            assert(crate::paths::views(x@).len() != crate::paths::views(y@).len());
        }
        return false;
    }
    let mut i: usize = 0;
    while i < x.len()
        invariant
            i <= x@.len(),
            x@.len() == y@.len(),
            crate::paths::views(x@) == crate::paths::components(a@),
            crate::paths::views(y@) == crate::paths::components(b@),
            forall|k: int| 0 <= k < i ==> crate::paths::views(x@)[k] == crate::paths::views(y@)[k],
        decreases x@.len() - i,
    {
        assert(crate::paths::views(x@)[i as int] == x@[i as int]@);
        assert(crate::paths::views(y@)[i as int] == y@[i as int]@);
        if !crate::text::chars_eq(x[i].as_slice(), y[i].as_slice()) {
            return false;
        }
        i += 1;
    }
    assert(crate::paths::views(x@) =~= crate::paths::views(y@));
    true
}

/// Whether a requested destination is the user config of `home`: the slot
/// itself, or where the slot's symlink leads (`bound`, when it resolved).
pub fn dest_is_user_config_at(home: &str, path: &str, bound: &Option<String>) -> (r: bool)
    ensures
        r == (same_path(path@, user_config_slot(home@)) || match bound {
            Some(b) => same_path(b@, path@),
            None => false,
        }),
{
    let h = crate::text::chars_of(home);
    let f = crate::text::chars_of("config.toml");
    let slot = crate::text::string_of(crate::paths::join_path_chars(h.as_slice(), f.as_slice()).as_slice());
    if same_path_exec(path, slot.as_str()) {
        return true;
    }
    match bound {
        Some(b) => same_path_exec(b.as_str(), path),
        None => false,
    }
}

/// The first checks of a privileged write: the destination must be the
/// user config, and the content within its limit.
pub fn precheck_user_config_write(is_user_config: bool, content_len: usize) -> (r: Result<(), WireError>)
    ensures
        !is_user_config ==> (r matches Err(e) && e.kind == WireErrorKind::PermissionDenied && e.message@
            == "privileged writer: dest is not user config.toml"@),
        is_user_config && content_len > MAX_CONTENT_BYTES ==> (r matches Err(e) && e.kind
            == WireErrorKind::InvalidInput && e.message@ == "privileged writer: content too large"@),
        is_user_config && content_len <= MAX_CONTENT_BYTES ==> r is Ok,
{
    if !is_user_config {
        return Err(wire_error(WireErrorKind::PermissionDenied, "privileged writer: dest is not user config.toml"));
    }
    if content_len > MAX_CONTENT_BYTES as usize {
        return Err(wire_error(WireErrorKind::InvalidInput, "privileged writer: content too large"));
    }
    Ok(())
}

/// The followed destination must stay in the grok home: its parent, after
/// symlink resolution, lies under the resolved home. Either failing to
/// resolve refuses the write.
pub fn config_dest_stays_in_home(canonical_home: &Option<String>, canonical_parent: &Option<String>) -> (r:
    Result<(), WireError>)
    ensures
        r is Ok <==> match (canonical_home, canonical_parent) {
            (Some(h), Some(p)) => crate::paths::path_starts_with(p@, h@),
            _ => false,
        },
        r matches Err(e) ==> e.kind == WireErrorKind::PermissionDenied && e.message@
            == "privileged writer: config symlink escapes grok home"@,
{
    let ok = match (canonical_home, canonical_parent) {
        (Some(h), Some(p)) => crate::paths::path_starts_with_exec(p.as_str(), h.as_str()),
        _ => false,
    };
    if ok {
        Ok(())
    } else {
        Err(wire_error(WireErrorKind::PermissionDenied, "privileged writer: config symlink escapes grok home"))
    }
}

} // verus!
