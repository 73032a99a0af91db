//! The request-facing core: the token authentication gate that admits a
//! report submission, and the report handler that acknowledges it.
//!
//! An authorization header authenticates when it has the shape
//! `Token <value>`: the literal word `Token`, one ASCII whitespace
//! character, and then the raw token, taken verbatim to the end of the
//! header with no trimming or decoding.

use vstd::prelude::*;
use vstd::string::StringSliceAdditionalSpecFns;
use vstd::utf8::*;

verus! {

broadcast use vstd::utf8::group_utf8_lib;

/// Why a request failed to authenticate.
#[derive(Debug, PartialEq, Eq, Structural, Clone, Copy)]
pub enum AuthError {
    /// No authorization header was present.
    Missing,
    /// A header was present but did not match the `Token <value>` shape.
    Malformed,
    /// The extracted token did not resolve to a known identity.
    IdentityResolutionFailed,
}

/// The caller a request was resolved to; established anew on every request,
/// never cached.
pub struct AuthenticatedIdentity {
    /// Username of the resolved caller.
    pub username: String,
    /// The raw token the caller presented.
    pub raw_token: String,
}

/// The characters accepted between the `Token` keyword and the raw token:
/// the ASCII whitespace class.
pub open spec fn spec_is_token_whitespace(c: char) -> bool {
    c == ' ' || c == '\t' || c == '\n' || c == '\r' || c == '\u{b}' || c == '\u{c}'
}

/// Whether a header value has the required `Token <value>` shape: the
/// literal prefix `Token`, then one whitespace character, then the token
/// (which may be empty).
pub open spec fn spec_is_valid_header(header: Seq<char>) -> bool {
    &&& header.len() >= 6
    &&& header.take(5) == "Token"@
    &&& spec_is_token_whitespace(header[5])
}

/// The raw token a valid header carries: everything after the prefix and
/// its whitespace separator, verbatim.
pub open spec fn spec_raw_token(header: Seq<char>) -> Seq<char> {
    header.skip(6)
}

/// Whether the byte is the single-byte encoding of a token-whitespace
/// character.
fn is_token_whitespace_byte(b: u8) -> (r: bool)
    ensures
        r == spec_is_token_whitespace(b as char),
{
    b == 32 || b == 9 || b == 10 || b == 13 || b == 11 || b == 12
}

/// The UTF-8 encoding of a concatenation is the concatenation of the
/// encodings.
proof fn lemma_encode_utf8_concat(a: Seq<char>, b: Seq<char>)
    ensures
        encode_utf8(a + b) == encode_utf8(a) + encode_utf8(b),
    decreases a.len(),
{
    if a.len() == 0 {
        assert(a + b =~= b);
        assert(encode_utf8(a) + encode_utf8(b) =~= encode_utf8(b));
    } else {
        assert((a + b).drop_first() =~= a.drop_first() + b);
        lemma_encode_utf8_concat(a.drop_first(), b);
        assert((a + b)[0] == a[0]);
        let head = encode_scalar(a[0] as u32);
        assert(encode_utf8(a + b) =~= head + (encode_utf8(a.drop_first()) + encode_utf8(b)));
        assert(encode_utf8(a) =~= head + encode_utf8(a.drop_first()));
        assert(head + (encode_utf8(a.drop_first()) + encode_utf8(b)) =~= (head + encode_utf8(
            a.drop_first(),
        )) + encode_utf8(b));
    }
}

/// The first six characters of a valid header are the five letters of
/// `Token` and one whitespace character, all ASCII, so the header's UTF-8
/// encoding starts with exactly those six characters as bytes.
proof fn lemma_valid_header_encoding(header: Seq<char>)
    requires
        spec_is_valid_header(header),
    ensures
        header[0] == 'T' && header[1] == 'o' && header[2] == 'k' && header[3] == 'e' && header[4]
            == 'n',
        encode_utf8(header).len() >= 6,
        forall|i: int| 0 <= i < 6 ==> encode_utf8(header)[i] == header[i] as u8,
        forall|i: int| 0 <= i < 6 ==> encode_utf8(header)[i] < 0x80,
{
    reveal_strlit("Token");
    assert forall|i: int| 0 <= i < 5 implies header[i] == "Token"@[i] by {
        assert(header.take(5)[i] == header[i]);
    }
    let head = header.take(6);
    let tail = header.skip(6);
    assert forall|i: int| 0 <= i < 6 implies '\0' <= #[trigger] head[i] <= '\u{7f}' by {
        assert(head[i] == header[i]);
    }
    assert(is_ascii_chars(head));
    is_ascii_chars_encode_utf8(head);
    lemma_encode_utf8_concat(head, tail);
    assert(head + tail =~= header);
    assert forall|i: int| 0 <= i < 6 implies #[trigger] encode_utf8(header)[i] == header[i]
        as u8 && encode_utf8(header)[i] < 0x80 by {
        assert(encode_utf8(header)[i] == encode_utf8(head)[i]);
        assert(encode_utf8(head)[i] == head[i] as u8);
        assert(head[i] == header[i]);
    }
}

/// Where a valid UTF-8 byte sequence starts with ASCII bytes, the decoded
/// character sequence starts with exactly those bytes as characters, and the
/// position after them is a character boundary.
proof fn lemma_ascii_byte_prefix(bytes: Seq<u8>, n: int)
    requires
        valid_utf8(bytes),
        0 <= n <= bytes.len(),
        forall|i: int| 0 <= i < n ==> bytes[i] < 0x80,
    ensures
        decode_utf8(bytes).len() >= n,
        bytes.len() == n ==> decode_utf8(bytes).len() == n,
        forall|i: int| 0 <= i < n ==> decode_utf8(bytes)[i] == bytes[i] as char,
        is_char_boundary(bytes, n),
    decreases n,
{
    if n > 0 {
        let b0 = bytes[0];
        assert(b0 < 0x80);
        assert(is_leading_byte_width_1(b0));
        assert(length_of_first_scalar(bytes) == 1);
        let tail = pop_first_scalar(bytes);
        assert(forall|i: int| 0 <= i < n - 1 ==> tail[i] == bytes[i + 1]);
        lemma_ascii_byte_prefix(tail, n - 1);
        assert(b0 & 0x7f == b0) by (bit_vector)
            requires
                b0 < 0x80,
        ;
        assert(decode_first_scalar(bytes) == b0 as u32);
        assert((b0 as u32) as char == b0 as char);
        assert(decode_utf8(bytes) =~= seq![b0 as char] + decode_utf8(tail));
        assert(is_char_boundary(bytes, n));
    }
}

/// Whether the header value matches the required `Token <value>` shape.
pub fn is_valid(key: &str) -> (valid: bool)
    ensures
        valid == spec_is_valid_header(key@),
{
    let bytes = key.as_bytes();
    proof {
        assert(bytes@ == encode_utf8(key@));
    }
    if bytes.len() < 6 {
        proof {
            if spec_is_valid_header(key@) {
                lemma_valid_header_encoding(key@);
            }
        }
        false
    } else {
        let matched = bytes[0] == 84 && bytes[1] == 111 && bytes[2] == 107 && bytes[3] == 101
            && bytes[4] == 110 && is_token_whitespace_byte(bytes[5]);
        proof {
            reveal_strlit("Token");
            if matched {
                lemma_ascii_byte_prefix(bytes@, 6);
                assert(key@.take(5) =~= "Token"@);
            } else if spec_is_valid_header(key@) {
                lemma_valid_header_encoding(key@);
                assert(bytes@[5] == key@[5] as u8);
                assert(spec_is_token_whitespace((key@[5] as u8) as char));
            }
        }
        matched
    }
}

/// Extracts the raw token from a header value of the `Token <value>` shape:
/// everything after the prefix and its whitespace separator, verbatim.
pub fn extract_token(header: &str) -> (token: Option<String>)
    ensures
        match token {
            Some(t) => spec_is_valid_header(header@) && t@ == spec_raw_token(header@),
            None => !spec_is_valid_header(header@),
        },
{
    if !is_valid(header) {
        return None;
    }
    let ghost s = header@;
    let ghost bytes = encode_utf8(s);
    proof {
        lemma_valid_header_encoding(s);
        lemma_ascii_byte_prefix(bytes, 6);
    }
    let (_, rest) = header.split_at(6);
    proof {
        let head_bytes = bytes.subrange(0, 6);
        let tail_bytes = bytes.subrange(6, bytes.len() as int);
        assert(rest.spec_bytes() == tail_bytes);
        assert(encode_utf8(rest@) == tail_bytes);
        valid_utf8_split(bytes, 6);
        decode_utf8_split(bytes, 6);
        lemma_ascii_byte_prefix(head_bytes, 6);
        assert(decode_utf8(bytes) == s);
        assert(s == decode_utf8(head_bytes) + decode_utf8(tail_bytes));
        assert(decode_utf8(tail_bytes) =~= s.skip(6));
        assert(decode_utf8(encode_utf8(rest@)) == rest@);
        assert(rest@ == s.skip(6));
    }
    Some(rest.to_owned())
}

/// Looks up the username that a raw token belongs to.
pub trait IdentityResolver {
    /// Resolves a raw token to the username it belongs to, or reports that
    /// no known identity carries this token.
    fn resolve(&self, token: &str) -> Result<String, ResolutionFailure>;
}

/// The token did not belong to any known identity.
pub struct ResolutionFailure {}

/// Trivial resolver: every token resolves to the same fixed username. It
/// stands in while no real identity lookup is available.
pub struct StubResolver {}

impl IdentityResolver for StubResolver {
    fn resolve(&self, _token: &str) -> Result<String, ResolutionFailure> {
        Ok("test".to_owned())
    }
}

/// Combines an extracted token with the outcome of its username lookup: on
/// a hit, an `AuthenticatedIdentity` holding both; on a miss, an error.
pub fn finish_resolution(raw_token: String, resolution: Result<String, ResolutionFailure>) -> (r:
    Result<AuthenticatedIdentity, AuthError>)
    ensures
        match resolution {
            Ok(username) => r matches Ok(identity) && identity.username == username
                && identity.raw_token == raw_token,
            Err(_) => r == Err::<AuthenticatedIdentity, AuthError>(
                AuthError::IdentityResolutionFailed,
            ),
        },
{
    match resolution {
        Ok(username) => Ok(AuthenticatedIdentity { username, raw_token }),
        Err(_) => Err(AuthError::IdentityResolutionFailed),
    }
}

/// The authentication gate: a missing header is rejected as such; a header
/// without the `Token <value>` shape is malformed; otherwise the raw token
/// is handed to the resolver, and the request authenticates exactly when the
/// token resolves, as the identity carrying the resolved username and the
/// raw token taken verbatim from the header.
pub fn authenticate<R: IdentityResolver>(header_value: Option<&str>, resolver: &R) -> (r: Result<
    AuthenticatedIdentity,
    AuthError,
>)
    ensures
        header_value is None ==> r == Err::<AuthenticatedIdentity, AuthError>(AuthError::Missing),
        header_value matches Some(h) ==> {
            &&& !spec_is_valid_header(h@) ==> r == Err::<AuthenticatedIdentity, AuthError>(
                AuthError::Malformed,
            )
            &&& spec_is_valid_header(h@) ==> match r {
                Ok(identity) => identity.raw_token@ == spec_raw_token(h@),
                Err(e) => e == AuthError::IdentityResolutionFailed,
            }
        },
{
    match header_value {
        None => Err(AuthError::Missing),
        Some(header) => match extract_token(header) {
            None => Err(AuthError::Malformed),
            Some(token) => {
                let resolution = resolver.resolve(token.as_str());
                finish_resolution(token, resolution)
            },
        },
    }
}

/// The HTTP status a rejected request is answered with: a missing or
/// malformed header is a bad request, a token that did not resolve is an
/// authorization failure.
pub open spec fn spec_auth_error_status(error: AuthError) -> u16 {
    match error {
        AuthError::Missing => 400,
        AuthError::Malformed => 400,
        AuthError::IdentityResolutionFailed => 401,
    }
}

/// The HTTP status code for an authentication failure.
pub fn auth_error_status(error: &AuthError) -> (status: u16)
    ensures
        status == spec_auth_error_status(*error),
{
    match error {
        AuthError::Missing => 400,
        AuthError::Malformed => 400,
        AuthError::IdentityResolutionFailed => 401,
    }
}

/// One seeded release in a submitted report: the release id (a forum topic
/// id) and the hash of its torrent.
pub struct ReleaseReport {
    /// Release identifier.
    pub release_id: u32,
    /// Torrent hash, taken as given; its format is not validated here.
    pub torrent_hash: String,
}

/// The answer a handled request is acknowledged with: when it was handled
/// and a human-readable message.
pub struct Acknowledgment {
    /// Server time of the acknowledgment, in seconds since the Unix epoch.
    pub timestamp_secs: i64,
    /// Human-readable outcome.
    pub message: String,
}

/// Relies on chrono::Utc::now: the current wall-clock time, reported as
/// whole seconds since the Unix epoch. Nothing is assumed about its value.
#[verifier::external_body]
fn now_unix_seconds() -> i64 {
    chrono::Utc::now().timestamp()
}

/// The fixed message an accepted report is acknowledged with.
pub open spec fn spec_report_accepted_message() -> Seq<char> {
    "Report enqueued"@
}

/// The acknowledgment issued at the given server time for an accepted
/// report: it carries exactly that time and the fixed message.
pub fn acknowledgment_at(timestamp_secs: i64) -> (ack: Acknowledgment)
    ensures
        ack.timestamp_secs == timestamp_secs,
        ack.message@ == spec_report_accepted_message(),
{
    Acknowledgment { timestamp_secs, message: "Report enqueued".to_owned() }
}

/// The report handler: once the caller has authenticated, a submitted batch
/// of releases is always accepted and acknowledged with the fixed message.
/// The batch is not validated against the registry and not persisted; both
/// are stated extension points, outside the current scope.
pub fn submit(identity: &AuthenticatedIdentity, releases: &Vec<ReleaseReport>) -> (ack:
    Acknowledgment)
    ensures
        ack.message@ == spec_report_accepted_message(),
{
    acknowledgment_at(now_unix_seconds())
}

/// The message of the response to a request that failed outside the report
/// handler: the HTTP reason phrase where one is known, a fixed fallback
/// otherwise.
pub fn failure_ack(reason: Option<String>) -> (ack: Acknowledgment)
    ensures
        match reason {
            Some(phrase) => ack.message == phrase,
            None => ack.message@ == "Unknown error"@,
        },
{
    let message = match reason {
        Some(phrase) => phrase,
        None => "Unknown error".to_owned(),
    };
    Acknowledgment { timestamp_secs: now_unix_seconds(), message }
}

} // verus!
