//! Bearer tokens: what they carry, how they are written, and when one is
//! accepted.
//!
//! A token is ASCII text of seven fields separated by dots: the algorithm
//! name, the kind, the two timestamps, the session id, the subject, and the
//! signature over everything before it.
//!
//! ```text
//! RS256.a.00f1536500000000.84f4536500000000.0f0e0d0c0b0a09080706050403020100.7531.<signature>
//! ```
//!
//! The kind is `a` for an access token and `r` for a refresh token. The
//! timestamps, in seconds since the epoch, and the session id are written
//! as the bytes of the number, lowest first, the subject as the bytes of
//! its UTF-8 text; each byte is two lower-case hexadecimal digits. The
//! signature is RS256 over the text before its dot, in unpadded URL-safe
//! base64. Written so, a token has exactly one reading and every set of
//! claims exactly one text.
//!
//! Verification goes by the reading first, then the expiry, then the
//! signature: a text without a reading is malformed, a token past its
//! expiry is expired whatever its signature, and only then does the key
//! decide. The time is always handed in, never read from a clock.

use vstd::bytes::*;
use vstd::prelude::*;
use vstd::string::*;
use vstd::utf8::*;

use crate::utils::codec::{
    hex_bytes, hex_text, is_hex_text, lemma_hex_canonical, lemma_hex_round_trip,
    lemma_hex_text_is_hex, lemma_hex_text_len, push_hex, read_hex, text_of,
};

verus! {

/// What a token is for. Each kind is signed with a key pair of its own.
#[derive(Clone, Copy, Debug, PartialEq, Eq, Structural)]
pub enum TokenKind {
    Access,
    Refresh,
}

/// Why a token was not accepted.
#[derive(Clone, Copy, Debug, PartialEq, Eq, Structural)]
pub enum TokenError {
    /// The text is not a token of this format, or declares another algorithm.
    Malformed,
    /// The key does not accept the signature, or the token is of another kind.
    InvalidSignature,
    /// The token's own lifetime has passed.
    Expired,
}

/// Why no token was issued.
#[derive(Clone, Copy, Debug, PartialEq, Eq, Structural)]
pub enum IssueError {
    /// The lifetime is not positive, or the clock and the lifetime together
    /// leave the range of a timestamp.
    Lifetime,
    /// The signing key was refused or signing failed.
    Signing,
}

/// What a token states.
#[derive(Debug)]
pub struct TokenClaims {
    pub subject_id: String,
    pub session_id: u128,
    pub issued_at: i64,
    pub expires_at: i64,
    pub kind: TokenKind,
}

/// The claims as plain values.
pub ghost struct ClaimsView {
    pub subject_id: Seq<char>,
    pub session_id: u128,
    pub issued_at: i64,
    pub expires_at: i64,
    pub kind: TokenKind,
}

impl View for TokenClaims {
    type V = ClaimsView;

    open spec fn view(&self) -> ClaimsView {
        ClaimsView {
            subject_id: self.subject_id@,
            session_id: self.session_id,
            issued_at: self.issued_at,
            expires_at: self.expires_at,
            kind: self.kind,
        }
    }
}

impl ClaimsView {
    /// Claims are issued at a time of this era and expire later.
    pub open spec fn wf(self) -> bool {
        0 <= self.issued_at < self.expires_at
    }
}

/// A token taken apart: its claims and where the signed text ends.
#[derive(Debug)]
pub struct ParsedToken {
    pub claims: TokenClaims,
    pub signed_len: usize,
}

/// A reading of a token as plain values.
pub ghost struct ParsedView {
    pub claims: ClaimsView,
    pub signed_len: int,
}

impl View for ParsedToken {
    type V = ParsedView;

    open spec fn view(&self) -> ParsedView {
        ParsedView { claims: self.claims@, signed_len: self.signed_len as int }
    }
}

/// A token as issued, with what it states and the signature it ends with.
#[derive(Debug)]
pub struct IssuedToken {
    pub token: String,
    pub claims: TokenClaims,
    pub signature: String,
}

impl IssuedToken {
    /// The token is the text of its claims and its signature, and the
    /// signature is ASCII.
    pub open spec fn wf(&self) -> bool {
        &&& self.claims@.wf()
        &&& is_ascii_chars(self.signature@)
        &&& self.token@ == token_text(self.claims@, self.signature@)
    }
}

/// The position at which the subject begins in every token.
pub const SUBJECT_AT: usize = 75;

/// The only algorithm that tokens declare.
pub open spec fn algorithm_text() -> Seq<char> {
    seq!['R', 'S', '2', '5', '6']
}

/// The character that stands for a kind.
pub open spec fn kind_tag(kind: TokenKind) -> char {
    match kind {
        TokenKind::Access => 'a',
        TokenKind::Refresh => 'r',
    }
}

/// A timestamp as it is written: the eight bytes of the number, lowest
/// first.
pub open spec fn stamp_text(at: i64) -> Seq<char> {
    hex_text(spec_u64_to_le_bytes(at as u64))
}

/// A session id as it is written: the sixteen bytes of the number,
/// lowest first.
pub open spec fn session_text(id: u128) -> Seq<char> {
    hex_text(spec_u128_to_le_bytes(id))
}

/// A subject as it is written: the bytes of its UTF-8 text.
pub open spec fn subject_text(subject: Seq<char>) -> Seq<char> {
    hex_text(encode_utf8(subject))
}

/// The text that is signed: every field but the signature.
pub open spec fn signing_text(claims: ClaimsView) -> Seq<char> {
    algorithm_text() + seq!['.', kind_tag(claims.kind), '.'] + stamp_text(claims.issued_at)
        + seq!['.'] + stamp_text(claims.expires_at) + seq!['.'] + session_text(claims.session_id)
        + seq!['.'] + subject_text(claims.subject_id)
}

/// The whole token for given claims and signature.
pub open spec fn token_text(claims: ClaimsView, signature: Seq<char>) -> Seq<char> {
    signing_text(claims) + seq!['.'] + signature
}

/// The first position at or after `from` that holds a dot, or the length of
/// the text where there is none.
pub open spec fn first_dot(text: Seq<char>, from: int) -> int
    decreases text.len() - from,
{
    if from < 0 || from >= text.len() {
        text.len() as int
    } else if text[from] == '.' {
        from
    } else {
        first_dot(text, from + 1)
    }
}

/// The timestamp written in the sixteen characters from `from`.
pub open spec fn stamp_at(text: Seq<char>, from: int) -> Option<i64> {
    let field = text.subrange(from, from + 16);
    let value = spec_u64_from_le_bytes(hex_bytes(field));
    if is_hex_text(field) && value <= i64::MAX {
        Some(value as i64)
    } else {
        None
    }
}

/// The kind named by a tag.
pub open spec fn kind_of_tag(tag: char) -> Option<TokenKind> {
    if tag == 'a' {
        Some(TokenKind::Access)
    } else if tag == 'r' {
        Some(TokenKind::Refresh)
    } else {
        None
    }
}

/// Whether the fixed part of a token, up to the subject, is in place.
pub open spec fn frame_ok(text: Seq<char>) -> bool {
    &&& is_ascii_chars(text)
    &&& text.len() > SUBJECT_AT
    &&& text.subrange(0, 5) == algorithm_text()
    &&& text[5] == '.'
    &&& text[7] == '.'
    &&& text[24] == '.'
    &&& text[41] == '.'
    &&& text[74] == '.'
}

/// The reading of a text as a token, where it has one.
pub open spec fn parse_token(text: Seq<char>) -> Option<ParsedView> {
    if !frame_ok(text) {
        None
    } else {
        let dot = first_dot(text, SUBJECT_AT as int);
        let session = text.subrange(42, 74);
        let subject = text.subrange(SUBJECT_AT as int, dot);
        if dot < text.len() && kind_of_tag(text[6]) is Some && stamp_at(text, 8) is Some
            && stamp_at(text, 25) is Some && stamp_at(text, 8).unwrap() < stamp_at(
            text,
            25,
        ).unwrap() && is_hex_text(session) && is_hex_text(subject) && valid_utf8(
            hex_bytes(subject),
        ) {
            Some(
                ParsedView {
                    claims: ClaimsView {
                        subject_id: decode_utf8(hex_bytes(subject)),
                        session_id: spec_u128_from_le_bytes(hex_bytes(session)),
                        issued_at: stamp_at(text, 8).unwrap(),
                        expires_at: stamp_at(text, 25).unwrap(),
                        kind: kind_of_tag(text[6]).unwrap(),
                    },
                    signed_len: dot,
                },
            )
        } else {
            None
        }
    }
}

/// The signature that a token carries under a reading.
pub open spec fn signature_of(text: Seq<char>, parsed: ParsedView) -> Seq<char> {
    text.subrange(parsed.signed_len + 1, text.len() as int)
}

/// The signed part of a token under a reading.
pub open spec fn signed_part(text: Seq<char>, parsed: ParsedView) -> Seq<char> {
    text.subrange(0, parsed.signed_len)
}

/// Reads the timestamp written in the sixteen characters from `from`.
fn read_stamp(token: &str, from: usize) -> (at: Option<i64>)
    requires
        token.is_ascii(),
        from < SUBJECT_AT,
        from + 16 <= token@.len(),
    ensures
        at == stamp_at(token@, from as int),
{
    match read_hex(token, from, from + 16) {
        None => None,
        Some(bytes) => {
            proof {
                lemma_hex_canonical(token@.subrange(from as int, from + 16));
            }
            let value: u64 = u64_from_le_bytes(bytes.as_slice());
            if value <= 0x7fff_ffff_ffff_ffff {
                Some(value as i64)
            } else {
                None
            }
        },
    }
}

/// Finds the first dot at or after `from`.
fn find_dot(token: &str, from: usize, len: usize) -> (dot: usize)
    requires
        token.is_ascii(),
        len == token@.len(),
        from <= len,
    ensures
        dot == first_dot(token@, from as int),
        from <= dot <= len,
{
    let mut i: usize = from;
    while i < len
        invariant
            token.is_ascii(),
            len == token@.len(),
            from <= i <= len,
            first_dot(token@, from as int) == first_dot(token@, i as int),
        decreases len - i,
    {
        if token.get_ascii(i) == 46 {
            assert(token@[i as int] == '.');
            return i;
        }
        assert(token@[i as int] != '.');
        i = i + 1;
    }
    i
}

/// Takes a token apart. A text that is not written exactly as tokens are
/// written has no reading.
#[verifier::rlimit(40)]
pub fn parse(token: &str) -> (parsed: Option<ParsedToken>)
    ensures
        match parsed {
            Some(p) => parse_token(token@) == Some(p@),
            None => parse_token(token@) is None,
        },
{
    if !token.is_ascii() {
        return None;
    }
    let len: usize = token.unicode_len();
    if len <= SUBJECT_AT {
        return None;
    }
    let framed = token.get_ascii(0) == 82 && token.get_ascii(1) == 83 && token.get_ascii(2) == 50
        && token.get_ascii(3) == 53 && token.get_ascii(4) == 54 && token.get_ascii(5) == 46
        && token.get_ascii(7) == 46 && token.get_ascii(24) == 46 && token.get_ascii(41) == 46
        && token.get_ascii(74) == 46;
    proof {
        let head = token@.subrange(0, 5);
        if framed {
            assert(head =~= algorithm_text());
        } else if frame_ok(token@) {
            assert(head[0] == 'R' && head[1] == 'S' && head[2] == '2' && head[3] == '5' && head[4]
                == '6');
        }
    }
    if !framed {
        return None;
    }
    let tag: u8 = token.get_ascii(6);
    let kind = if tag == 97 {
        TokenKind::Access
    } else if tag == 114 {
        TokenKind::Refresh
    } else {
        return None;
    };
    let issued_at: i64 = match read_stamp(token, 8) {
        Some(at) => at,
        None => { return None; },
    };
    let expires_at: i64 = match read_stamp(token, 25) {
        Some(at) => at,
        None => { return None; },
    };
    if issued_at >= expires_at {
        return None;
    }
    let session_id: u128 = match read_hex(token, 42, 74) {
        Some(bytes) => {
            proof {
                lemma_hex_canonical(token@.subrange(42, 74));
            }
            u128_from_le_bytes(bytes.as_slice())
        },
        None => { return None; },
    };
    let dot: usize = find_dot(token, SUBJECT_AT, len);
    if dot >= len {
        return None;
    }
    let subject_id: String = match read_hex(token, SUBJECT_AT, dot) {
        Some(bytes) => match text_of(bytes) {
            Some(text) => text,
            None => { return None; },
        },
        None => { return None; },
    };
    Some(
        ParsedToken {
            claims: TokenClaims { subject_id, session_id, issued_at, expires_at, kind },
            signed_len: dot,
        },
    )
}


/// What every token issued at `now` for `ttl_minutes` minutes states.
pub open spec fn issued_claims(
    subject: Seq<char>,
    session_id: u128,
    now: i64,
    ttl_minutes: i64,
    kind: TokenKind,
) -> ClaimsView {
    ClaimsView {
        subject_id: subject,
        session_id,
        issued_at: now,
        expires_at: (now + ttl_minutes * 60) as i64,
        kind,
    }
}

/// Whether a lifetime in minutes, begun at `now`, gives well-formed claims.
pub open spec fn lifetime_fits(now: i64, ttl_minutes: i64) -> bool {
    0 <= now && 0 < ttl_minutes && now + ttl_minutes * 60 <= i64::MAX
}

/// What becomes of a token, given its reading, the kind asked for, the time,
/// and whether the key accepted the signature. A text without a reading is
/// malformed; a token past its expiry is expired whatever its signature; one
/// of another kind or with a signature that the key does not accept has an
/// invalid signature.
pub open spec fn verdict(parsed: Option<ParsedView>, kind: TokenKind, now: i64, accepted: bool)
    -> Result<ClaimsView, TokenError> {
    match parsed {
        None => Err(TokenError::Malformed),
        Some(p) => if p.claims.expires_at < now {
            Err(TokenError::Expired)
        } else if p.claims.kind != kind || !accepted {
            Err(TokenError::InvalidSignature)
        } else {
            Ok(p.claims)
        },
    }
}

/// An outcome of verification as plain values.
pub open spec fn outcome_view(outcome: Result<TokenClaims, TokenError>) -> Result<
    ClaimsView,
    TokenError,
> {
    match outcome {
        Ok(claims) => Ok(claims@),
        Err(e) => Err(e),
    }
}

/// `jsonwebtoken::errors::Error`: why a key was refused or a signature
/// could not be made or checked. It is carried to where it is turned into
/// an error of this library; nothing is read from it.
#[verifier::external_type_specification]
#[verifier::external_body]
pub struct ExSignatureError(jsonwebtoken::errors::Error);

/// The RS256 signature of a message under the private key in a PEM text,
/// written as unpadded URL-safe base64, or nothing where the text holds no
/// RSA key that can sign. RS256 pads by rule, not by chance: the message and
/// the key settle both whether a signature is made and what it is.
pub uninterp spec fn rs256_signature(message: Seq<u8>, private_pem: Seq<u8>) -> Option<Seq<char>>;

/// Whether the public key in a PEM text accepts a signature over a message.
pub uninterp spec fn rs256_accepts(
    signature: Seq<char>,
    message: Seq<u8>,
    public_pem: Seq<u8>,
) -> bool;

/// `jsonwebtoken::crypto::sign` with RS256 and the key that
/// `jsonwebtoken::EncodingKey::from_rsa_pem` reads. The call succeeds
/// exactly when the message and the key have a signature, and then gives
/// that signature, which is base64 text, hence ASCII.
#[verifier::external_body]
fn rs256_sign(message: &[u8], private_pem: &[u8]) -> (signature: Result<
    String,
    jsonwebtoken::errors::Error,
>)
    ensures
        match signature {
            Ok(s) => rs256_signature(message@, private_pem@) == Some(s@) && is_ascii_chars(s@),
            Err(_) => rs256_signature(message@, private_pem@) is None,
        },
{
    let key = jsonwebtoken::EncodingKey::from_rsa_pem(private_pem)?;
    jsonwebtoken::crypto::sign(message, &key, jsonwebtoken::Algorithm::RS256)
}

/// `jsonwebtoken::crypto::verify` with RS256 and the key that
/// `jsonwebtoken::DecodingKey::from_rsa_pem` reads. The key accepts the
/// signature exactly when the call returns `Ok(true)`.
#[verifier::external_body]
fn rs256_verify(signature: &str, message: &[u8], public_pem: &[u8]) -> (accepted: Result<
    bool,
    jsonwebtoken::errors::Error,
>)
    ensures
        accepted matches Ok(b) ==> b == rs256_accepts(signature@, message@, public_pem@),
        accepted is Err ==> !rs256_accepts(signature@, message@, public_pem@),
{
    let key = jsonwebtoken::DecodingKey::from_rsa_pem(public_pem)?;
    jsonwebtoken::crypto::verify(signature, message, &key, jsonwebtoken::Algorithm::RS256)
}

/// Whether a 128-bit number is a UUID of version 4: the version bits say
/// four and the variant bits say RFC 4122.
pub open spec fn is_version_4(id: u128) -> bool {
    id & 0x0000_0000_0000_f000_c000_0000_0000_0000 == 0x0000_0000_0000_4000_8000_0000_0000_0000
}

/// `uuid::Uuid::new_v4`, as the 128-bit number that `as_u128` gives: random
/// but for the version and variant bits, which mark it as version 4.
#[verifier::external_body]
pub(crate) fn fresh_uuid() -> (id: u128)
    ensures
        is_version_4(id),
{
    uuid::Uuid::new_v4().as_u128()
}

/// What issuing under a session id gives. A lifetime that does not fit is
/// refused. Otherwise issuing succeeds exactly when the key signs the
/// signed part of the token: the token then states the subject, the
/// session, the time of issue and an expiry `ttl_minutes` minutes later,
/// and ends with that signature.
pub open spec fn issued_as(
    issued: Result<IssuedToken, IssueError>,
    subject: Seq<char>,
    session_id: u128,
    ttl_minutes: i64,
    kind: TokenKind,
    signing_key: Seq<char>,
    now: i64,
) -> bool {
    let claims = issued_claims(subject, session_id, now, ttl_minutes, kind);
    if !lifetime_fits(now, ttl_minutes) {
        issued == Err::<IssuedToken, IssueError>(IssueError::Lifetime)
    } else {
        match rs256_signature(encode_utf8(signing_text(claims)), encode_utf8(signing_key)) {
            None => issued == Err::<IssuedToken, IssueError>(IssueError::Signing),
            Some(signature) => issued matches Ok(t) && t.wf() && t.claims@ == claims
                && t.signature@ == signature,
        }
    }
}

/// What issuing under a fresh session id gives: what issuing under some id
/// of version 4 gives.
pub open spec fn issued_afresh(
    issued: Result<IssuedToken, IssueError>,
    subject: Seq<char>,
    ttl_minutes: i64,
    kind: TokenKind,
    signing_key: Seq<char>,
    now: i64,
) -> bool {
    exists|id: u128| #[trigger]
        is_version_4(id) && issued_as(issued, subject, id, ttl_minutes, kind, signing_key, now)
}

/// Writes the signed part of a token.
fn write_signing_text(claims: &TokenClaims) -> (text: String)
    requires
        claims@.wf(),
    ensures
        text@ == signing_text(claims@),
{
    proof {
        reveal_strlit("RS256");
        reveal_strlit(".a.");
        reveal_strlit(".r.");
        reveal_strlit(".");
    }
    let mut out = String::from_str("RS256");
    assert(out@ =~= algorithm_text());
    match claims.kind {
        TokenKind::Access => out.append(".a."),
        TokenKind::Refresh => out.append(".r."),
    }
    assert(out@ =~= algorithm_text() + seq!['.', kind_tag(claims.kind), '.']);
    let issued = u64_to_le_bytes(claims.issued_at as u64);
    push_hex(&mut out, issued.as_slice());
    out.append(".");
    assert(".".view() =~= seq!['.']);
    let expires = u64_to_le_bytes(claims.expires_at as u64);
    push_hex(&mut out, expires.as_slice());
    out.append(".");
    let session = u128_to_le_bytes(claims.session_id);
    push_hex(&mut out, session.as_slice());
    out.append(".");
    push_hex(&mut out, claims.subject_id.as_str().as_bytes());
    out
}

/// Issues a token for a given session id. The token states the subject, the
/// session, the time of issue and an expiry `ttl_minutes` minutes later, and
/// is signed with the private key of its kind.
pub fn issue_with(
    subject_id: &str,
    ttl_minutes: i64,
    kind: TokenKind,
    signing_key: &str,
    now: i64,
    session_id: u128,
) -> (issued: Result<IssuedToken, IssueError>)
    ensures
        issued_as(issued, subject_id@, session_id, ttl_minutes, kind, signing_key@, now),
{
    if now < 0 || ttl_minutes <= 0 || ttl_minutes > (0x7fff_ffff_ffff_ffff - now) / 60 {
        return Err(IssueError::Lifetime);
    }
    let expires_at: i64 = now + ttl_minutes * 60;
    let claims = TokenClaims {
        subject_id: String::from_str(subject_id),
        session_id,
        issued_at: now,
        expires_at,
        kind,
    };
    let mut token = write_signing_text(&claims);
    match rs256_sign(token.as_str().as_bytes(), signing_key.as_bytes()) {
        Err(_) => Err(IssueError::Signing),
        Ok(signature) => {
            proof {
                reveal_strlit(".");
            }
            token.append(".");
            token.append(signature.as_str());
            assert(token@ =~= token_text(claims@, signature@));
            Ok(IssuedToken { token, claims, signature })
        },
    }
}

/// Issues a token under a fresh random session id.
pub fn issue(subject_id: &str, ttl_minutes: i64, kind: TokenKind, signing_key: &str, now: i64) -> (issued:
    Result<IssuedToken, IssueError>)
    ensures
        issued_afresh(issued, subject_id@, ttl_minutes, kind, signing_key@, now),
{
    let session_id = fresh_uuid();
    let issued = issue_with(subject_id, ttl_minutes, kind, signing_key, now, session_id);
    assert(is_version_4(session_id) && issued_as(
        issued,
        subject_id@,
        session_id,
        ttl_minutes,
        kind,
        signing_key@,
        now,
    ));
    issued
}

/// Decides what becomes of a token once it is taken apart and the key has
/// spoken.
pub fn settle(parsed: Option<ParsedToken>, kind: TokenKind, now: i64, accepted: bool) -> (outcome:
    Result<TokenClaims, TokenError>)
    ensures
        outcome_view(outcome) == verdict(
            match parsed {
                Some(p) => Some(p@),
                None => None,
            },
            kind,
            now,
            accepted,
        ),
{
    match parsed {
        None => Err(TokenError::Malformed),
        Some(p) => {
            if p.claims.expires_at < now {
                Err(TokenError::Expired)
            } else if !same_kind(p.claims.kind, kind) || !accepted {
                Err(TokenError::InvalidSignature)
            } else {
                Ok(p.claims)
            }
        },
    }
}

fn same_kind(a: TokenKind, b: TokenKind) -> (same: bool)
    ensures
        same == (a == b),
{
    match (a, b) {
        (TokenKind::Access, TokenKind::Access) => true,
        (TokenKind::Refresh, TokenKind::Refresh) => true,
        _ => false,
    }
}

/// Whether the public key accepts the signature that a text carries over
/// its signed part. A text without a reading carries none.
pub open spec fn accepted_under(text: Seq<char>, public_key: Seq<char>) -> bool {
    match parse_token(text) {
        Some(p) => rs256_accepts(
            signature_of(text, p),
            encode_utf8(signed_part(text, p)),
            encode_utf8(public_key),
        ),
        None => false,
    }
}

/// Verifies a token of the given kind at time `now` against the public key
/// of that kind.
pub fn verify(token: &str, kind: TokenKind, public_key: &str, now: i64) -> (outcome: Result<
    TokenClaims,
    TokenError,
>)
    ensures
        outcome_view(outcome) == verdict(
            parse_token(token@),
            kind,
            now,
            accepted_under(token@, public_key@),
        ),
{
    let parsed = parse(token);
    let accepted = match &parsed {
        None => false,
        Some(p) => {
            if p.claims.expires_at < now || !same_kind(p.claims.kind, kind) {
                false
            } else {
                let len: usize = token.unicode_len();
                let signed = token.substring_ascii(0, p.signed_len);
                let signature = token.substring_ascii(p.signed_len + 1, len);
                match rs256_verify(signature, signed.as_bytes(), public_key.as_bytes()) {
                    Ok(b) => b,
                    Err(_) => false,
                }
            }
        },
    };
    settle(parsed, kind, now, accepted)
}


/// Where no dot stands between `from` and a dot, that dot is the first.
proof fn lemma_first_dot(text: Seq<char>, from: int, dot: int)
    requires
        0 <= from <= dot < text.len(),
        text[dot] == '.',
        forall|i: int| from <= i < dot ==> text[i] != '.',
    ensures
        first_dot(text, from) == dot,
    decreases dot - from,
{
    if from < dot {
        lemma_first_dot(text, from + 1, dot);
    }
}

/// The first dot at or after a position lies within the text or at its end,
/// and no dot stands before it.
proof fn lemma_first_dot_is_first(text: Seq<char>, from: int)
    requires
        0 <= from <= text.len(),
    ensures
        from <= first_dot(text, from) <= text.len(),
        first_dot(text, from) < text.len() ==> text[first_dot(text, from)] == '.',
    decreases text.len() - from,
{
    if from < text.len() && text[from] != '.' {
        lemma_first_dot_is_first(text, from + 1);
    }
}

/// Text made from bytes is ASCII and holds no dot.
proof fn lemma_hex_text_plain(bytes: Seq<u8>)
    ensures
        is_ascii_chars(hex_text(bytes)),
        forall|i: int| 0 <= i < hex_text(bytes).len() ==> hex_text(bytes)[i] != '.',
{
    lemma_hex_text_is_hex(bytes);
    let text = hex_text(bytes);
    assert forall|i: int| 0 <= i < text.len() implies '\0' <= #[trigger] text[i] <= '\u{7f}'
        && text[i] != '.' by {
        assert(crate::utils::codec::hex_value(text[i]) is Some);
    }
}

/// The timestamp written at a position is read back from it.
proof fn lemma_stamp_read_back(text: Seq<char>, from: int, at: i64)
    requires
        0 <= from,
        from + 16 <= text.len(),
        0 <= at,
        text.subrange(from, from + 16) == stamp_text(at),
    ensures
        stamp_at(text, from) == Some(at),
{
    lemma_auto_spec_u64_to_from_le_bytes();
    let bytes = spec_u64_to_le_bytes(at as u64);
    lemma_hex_text_is_hex(bytes);
    lemma_hex_round_trip(bytes);
    assert(spec_u64_from_le_bytes(bytes) == at as u64);
}

/// Whether a text is the fields given, each in its place with a dot after
/// it.
spec fn laid_out(
    text: Seq<char>,
    tag: char,
    issued: Seq<char>,
    expires: Seq<char>,
    session: Seq<char>,
    subject: Seq<char>,
    signature: Seq<char>,
) -> bool {
    let dot = SUBJECT_AT + subject.len();
    &&& issued.len() == 16
    &&& expires.len() == 16
    &&& session.len() == 32
    &&& text.len() == dot + 1 + signature.len()
    &&& text.subrange(0, 5) == algorithm_text()
    &&& text[5] == '.'
    &&& text[6] == tag
    &&& text[7] == '.'
    &&& text.subrange(8, 24) == issued
    &&& text[24] == '.'
    &&& text.subrange(25, 41) == expires
    &&& text[41] == '.'
    &&& text.subrange(42, 74) == session
    &&& text[74] == '.'
    &&& text.subrange(SUBJECT_AT as int, dot) == subject
    &&& text[dot] == '.'
    &&& text.subrange(dot + 1, text.len() as int) == signature
}

/// A written token is its fields, each in its place.
#[verifier::rlimit(40)]
proof fn lemma_written_token_is_laid_out(claims: ClaimsView, signature: Seq<char>)
    ensures
        laid_out(
            token_text(claims, signature),
            kind_tag(claims.kind),
            stamp_text(claims.issued_at),
            stamp_text(claims.expires_at),
            session_text(claims.session_id),
            subject_text(claims.subject_id),
            signature,
        ),
        signing_text(claims).len() == SUBJECT_AT + subject_text(claims.subject_id).len(),
        token_text(claims, signature).subrange(0, signing_text(claims).len() as int)
            == signing_text(claims),
{
    lemma_auto_spec_u64_to_from_le_bytes();
    lemma_auto_spec_u128_to_from_le_bytes();
    lemma_hex_text_len(spec_u64_to_le_bytes(claims.issued_at as u64));
    lemma_hex_text_len(spec_u64_to_le_bytes(claims.expires_at as u64));
    lemma_hex_text_len(spec_u128_to_le_bytes(claims.session_id));
    let issued = stamp_text(claims.issued_at);
    let expires = stamp_text(claims.expires_at);
    let session = session_text(claims.session_id);
    let subject = subject_text(claims.subject_id);
    let signed = signing_text(claims);
    let text = token_text(claims, signature);
    let dot = signed.len() as int;
    assert(dot == SUBJECT_AT + subject.len());
    assert(text.subrange(0, 5) =~= algorithm_text());
    assert(text.subrange(8, 24) =~= issued);
    assert(text.subrange(25, 41) =~= expires);
    assert(text.subrange(42, 74) =~= session);
    assert(text.subrange(SUBJECT_AT as int, dot) =~= subject);
    assert(text.subrange(dot + 1, text.len() as int) =~= signature);
    assert(text.subrange(0, dot) =~= signed);
}

/// A text laid out of plain fields is ASCII, and the first dot at or after
/// its subject is the one before its signature.
#[verifier::rlimit(40)]
proof fn lemma_laid_out_is_plain(
    text: Seq<char>,
    tag: char,
    issued: Seq<char>,
    expires: Seq<char>,
    session: Seq<char>,
    subject: Seq<char>,
    signature: Seq<char>,
)
    requires
        laid_out(text, tag, issued, expires, session, subject, signature),
        tag == 'a' || tag == 'r',
        is_ascii_chars(issued),
        is_ascii_chars(expires),
        is_ascii_chars(session),
        is_ascii_chars(subject),
        is_ascii_chars(signature),
        forall|i: int| 0 <= i < subject.len() ==> subject[i] != '.',
    ensures
        is_ascii_chars(text),
        first_dot(text, SUBJECT_AT as int) == SUBJECT_AT + subject.len(),
{
    let dot = SUBJECT_AT + subject.len();
    let head = text.subrange(0, 5);
    assert forall|i: int| 0 <= i < text.len() implies '\0' <= #[trigger] text[i] <= '\u{7f}' by {
        if i < 5 {
            assert(text[i] == head[i]);
        } else if i < 8 {
        } else if i < 24 {
            assert(text[i] == text.subrange(8, 24)[i - 8]);
        } else if i < 25 {
        } else if i < 41 {
            assert(text[i] == text.subrange(25, 41)[i - 25]);
        } else if i < 42 {
        } else if i < 74 {
            assert(text[i] == text.subrange(42, 74)[i - 42]);
        } else if i < 75 {
        } else if i < dot {
            assert(text[i] == text.subrange(SUBJECT_AT as int, dot)[i - 75]);
        } else if i == dot {
        } else {
            assert(text[i] == text.subrange(dot + 1, text.len() as int)[i - dot - 1]);
        }
    }
    assert forall|i: int| SUBJECT_AT <= i < dot implies text[i] != '.' by {
        assert(text[i] == text.subrange(SUBJECT_AT as int, dot)[i - 75]);
    }
    lemma_first_dot(text, SUBJECT_AT as int, dot);
}

/// Every token reads back as the claims it was written from, with the
/// signature it was given: writing and reading are inverse.
#[verifier::rlimit(40)]
pub proof fn law_written_token_reads_back(claims: ClaimsView, signature: Seq<char>)
    requires
        claims.wf(),
        is_ascii_chars(signature),
    ensures
        parse_token(token_text(claims, signature)) == Some(
            ParsedView { claims, signed_len: signing_text(claims).len() as int },
        ),
        signature_of(
            token_text(claims, signature),
            ParsedView { claims, signed_len: signing_text(claims).len() as int },
        ) == signature,
        signed_part(
            token_text(claims, signature),
            ParsedView { claims, signed_len: signing_text(claims).len() as int },
        ) == signing_text(claims),
{
    broadcast use {encode_utf8_valid_utf8, encode_utf8_decode_utf8};

    lemma_auto_spec_u128_to_from_le_bytes();
    let text = token_text(claims, signature);
    let session = session_text(claims.session_id);
    let subject = subject_text(claims.subject_id);
    lemma_written_token_is_laid_out(claims, signature);
    lemma_hex_text_plain(spec_u64_to_le_bytes(claims.issued_at as u64));
    lemma_hex_text_plain(spec_u64_to_le_bytes(claims.expires_at as u64));
    lemma_hex_text_plain(spec_u128_to_le_bytes(claims.session_id));
    lemma_hex_text_plain(encode_utf8(claims.subject_id));
    lemma_laid_out_is_plain(
        text,
        kind_tag(claims.kind),
        stamp_text(claims.issued_at),
        stamp_text(claims.expires_at),
        session,
        subject,
        signature,
    );
    lemma_hex_text_is_hex(spec_u128_to_le_bytes(claims.session_id));
    lemma_hex_text_is_hex(encode_utf8(claims.subject_id));
    lemma_hex_round_trip(spec_u128_to_le_bytes(claims.session_id));
    lemma_hex_round_trip(encode_utf8(claims.subject_id));
    lemma_stamp_read_back(text, 8, claims.issued_at);
    lemma_stamp_read_back(text, 25, claims.expires_at);
    let dot = SUBJECT_AT + subject.len();
    assert(frame_ok(text));
    assert(kind_of_tag(text[6]) == Some(claims.kind));
    assert(hex_bytes(text.subrange(42, 74)) == spec_u128_to_le_bytes(claims.session_id));
    assert(hex_bytes(text.subrange(SUBJECT_AT as int, dot)) == encode_utf8(claims.subject_id));
    assert(parse_token(text).unwrap().claims.subject_id == claims.subject_id);
    assert(parse_token(text).unwrap().claims.session_id == claims.session_id);
}

/// A text that reads as a token is the text written from its reading: no
/// two texts share a reading, and the claims read are well formed.
#[verifier::rlimit(40)]
pub proof fn law_read_token_is_canonical(text: Seq<char>)
    requires
        parse_token(text) is Some,
    ensures
        parse_token(text).unwrap().claims.wf(),
        is_ascii_chars(signature_of(text, parse_token(text).unwrap())),
        text == token_text(
            parse_token(text).unwrap().claims,
            signature_of(text, parse_token(text).unwrap()),
        ),
        signed_part(text, parse_token(text).unwrap()) == signing_text(
            parse_token(text).unwrap().claims,
        ),
{
    broadcast use decode_utf8_encode_utf8;

    lemma_auto_spec_u64_to_from_le_bytes();
    lemma_auto_spec_u128_to_from_le_bytes();
    let parsed = parse_token(text).unwrap();
    let claims = parsed.claims;
    let dot = parsed.signed_len;
    lemma_first_dot_is_first(text, SUBJECT_AT as int);
    let issued = text.subrange(8, 24);
    let expires = text.subrange(25, 41);
    let session = text.subrange(42, 74);
    let subject = text.subrange(SUBJECT_AT as int, dot);
    lemma_hex_canonical(issued);
    lemma_hex_canonical(expires);
    lemma_hex_canonical(session);
    lemma_hex_canonical(subject);
    assert(stamp_text(claims.issued_at) == issued);
    assert(stamp_text(claims.expires_at) == expires);
    assert(session_text(claims.session_id) == session);
    assert(subject_text(claims.subject_id) == subject);
    let head = text.subrange(0, 5);
    assert(head[0] == 'R' && head[1] == 'S' && head[2] == '2' && head[3] == '5' && head[4] == '6');
    assert(text[0] == head[0] && text[1] == head[1] && text[2] == head[2] && text[3] == head[3]
        && text[4] == head[4]);
    let signature = signature_of(text, parsed);
    assert(text.subrange(0, dot) =~= signing_text(claims));
    assert(text =~= token_text(claims, signature));
    assert forall|i: int| 0 <= i < signature.len() implies '\0' <= #[trigger] signature[i]
        <= '\u{7f}' by {
        assert(signature[i] == text[dot + 1 + i]);
    }
}

/// An issued token, verified at any time up to its expiry and for the kind
/// it was issued for, comes back as the claims it was issued with, the same
/// subject and the same session, where the key accepts its signature, and
/// is refused for its signature where the key does not.
pub proof fn law_issued_token_verifies(token: IssuedToken, now: i64, accepted: bool)
    requires
        token.wf(),
        now <= token.claims.expires_at,
    ensures
        verdict(parse_token(token.token@), token.claims.kind, now, accepted) == (if accepted {
            Ok::<ClaimsView, TokenError>(token.claims@)
        } else {
            Err::<ClaimsView, TokenError>(TokenError::InvalidSignature)
        }),
{
    law_written_token_reads_back(token.claims@, token.signature@);
}

/// An issued token is expired at every time after its expiry, whatever kind
/// is asked for and whether or not the key accepts its signature.
pub proof fn law_expired_whatever_the_signature(
    token: IssuedToken,
    kind: TokenKind,
    now: i64,
    accepted: bool,
)
    requires
        token.wf(),
        token.claims.expires_at < now,
    ensures
        verdict(parse_token(token.token@), kind, now, accepted) == Err::<ClaimsView, TokenError>(
            TokenError::Expired,
        ),
{
    law_written_token_reads_back(token.claims@, token.signature@);
}

/// A token is accepted only if the key accepts its signature and it is of
/// the kind asked for and not past its expiry.
pub proof fn law_accepted_token_is_sound(
    text: Seq<char>,
    kind: TokenKind,
    now: i64,
    accepted: bool,
)
    requires
        verdict(parse_token(text), kind, now, accepted) is Ok,
    ensures
        accepted,
        parse_token(text) matches Some(p) && p.claims.kind == kind && now <= p.claims.expires_at
            && verdict(parse_token(text), kind, now, accepted) == Ok::<ClaimsView, TokenError>(
            p.claims,
        ),
{
}

} // verus!
