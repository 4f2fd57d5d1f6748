//! Password lock of the web interface: password digests, signed session
//! tokens carried in cookies, and the per-request access decision.

use crate::text::{
    chars_of, dec_string, parse_unsigned, parse_unsigned_spec, split_chars, split_seq, string_of,
    u64_to_dec, views, is_digit, lemma_dec_string, lemma_split_no_sep, lemma_split_concat,
    lemma_parse_dec_string, starts_with, starts_with_chars, skip_chars, trim_seq, trim_chars,
    chars_eq_str, is_ws, lemma_trim_noop,
};
use sha2::Digest;
use crate::clock::now_secs;
use vstd::prelude::*;
use vstd::utf8::*;
use vstd::string::StringSliceAdditionalSpecFns;

verus! {

broadcast use vstd::string::group_string_axioms;

/// How long an issued session token stays valid, in seconds (seven days).
pub const SESSION_TTL_SECS: u64 = 7 * 24 * 60 * 60;

/// The SHA-256 digest of a byte sequence.
pub uninterp spec fn sha256_spec(data: Seq<u8>) -> Seq<u8>;

/// `sha2::Sha256::digest`: the contract claims that the digest is a function of
/// the input bytes alone and is 32 bytes long.
#[verifier::external_body]
fn sha256_digest(data: &[u8]) -> (r: Vec<u8>)
    ensures
        r@ == sha256_spec(data@),
        r@.len() == 32,
{
    sha2::Sha256::digest(data).to_vec()
}

/// The lowercase hexadecimal digit for a value below 16.
pub open spec fn hex_digit(x: int) -> char {
    if x < 10 {
        ((x + 48) as u32) as char
    } else {
        ((x + 87) as u32) as char
    }
}

/// Lowercase hexadecimal text of a byte sequence, two digits per byte.
pub open spec fn hex_lower(b: Seq<u8>) -> Seq<char>
    decreases b.len(),
{
    if b.len() == 0 {
        Seq::<char>::empty()
    } else {
        hex_lower(b.drop_last()) + seq![hex_digit(b.last() as int / 16), hex_digit(b.last() as int % 16)]
    }
}

/// `hex::encode`: the contract claims lowercase hexadecimal text, two digits
/// per input byte, high nibble first.
#[verifier::external_body]
fn hex_encode(data: &[u8]) -> (s: String)
    ensures
        s@ == hex_lower(data@),
{
    hex::encode(data)
}

/// `uuid::Uuid::new_v4().simple().to_string()`: the contract claims only the
/// shape of the text (32 lowercase hexadecimal digits); its value is random.
#[verifier::external_body]
fn random_simple_uuid() -> (s: String)
    ensures
        s@.len() == 32,
        forall|i: int| 0 <= i < 32 ==> is_lower_hex(#[trigger] s@[i]),
{
    uuid::Uuid::new_v4().simple().to_string()
}

/// `uuid::Uuid::new_v4().as_bytes()`: 16 random bytes.
#[verifier::external_body]
fn random_uuid_bytes() -> (b: Vec<u8>)
    ensures
        b@.len() == 16,
{
    uuid::Uuid::new_v4().as_bytes().to_vec()
}

/// The 8 bytes of `t`, least significant first (`u64::to_le_bytes`).
pub open spec fn le_bytes_spec(t: u64) -> Seq<u8> {
    Seq::new(8, |k: int| ((t >> ((8 * k) as u64)) & 0xff) as u8)
}

/// A lowercase hexadecimal digit.
pub open spec fn is_lower_hex(c: char) -> bool {
    ('0' <= c <= '9') || ('a' <= c <= 'f')
}

/// The signature of a session payload: hex of SHA-256 over secret then payload bytes.
pub open spec fn sign_spec(secret: Seq<u8>, payload: Seq<char>) -> Seq<char> {
    hex_lower(sha256_spec(secret + encode_utf8(payload)))
}

/// The signed part of a token: expiry, a dot, the nonce.
pub open spec fn payload_spec(exp: nat, nonce: Seq<char>) -> Seq<char> {
    dec_string(exp) + seq!['.'] + nonce
}

/// A session token: payload, a dot, its signature.
pub open spec fn token_spec(secret: Seq<u8>, exp: nat, nonce: Seq<char>) -> Seq<char> {
    payload_spec(exp, nonce) + seq!['.'] + sign_spec(secret, payload_spec(exp, nonce))
}

/// The expiry of a token issued at `now` (saturating addition of the lifetime).
pub open spec fn expiry_spec(now: u64) -> nat {
    if now + SESSION_TTL_SECS > u64::MAX {
        u64::MAX as nat
    } else {
        (now + SESSION_TTL_SECS) as nat
    }
}

/// Whether `token` is accepted at time `now`: exactly three dot-separated parts,
/// an expiry that parses as `u64` and is not in the past, and a signature that
/// matches the first two parts.
pub open spec fn verify_spec(secret: Seq<u8>, token: Seq<char>, now: nat) -> bool {
    let parts = split_seq(token, seq!['.']);
    &&& parts.len() == 3
    &&& match parse_unsigned_spec(parts[0], u64::MAX as nat) {
        Some(exp) => now <= exp && parts[2] == sign_spec(secret, parts[0] + seq!['.'] + parts[1]),
        None => false,
    }
}

/// The password lock: the password's digest and a per-process signing secret.
pub struct AuthState {
    pub password_sha256: Vec<u8>,
    pub session_secret: Vec<u8>,
}

/// Whether two byte slices are equal, examining every byte when the lengths agree.
pub fn constant_time_eq(a: &[u8], b: &[u8]) -> (r: bool)
    ensures
        r == (a@ == b@),
{
    if a.len() != b.len() {
        return false;
    }
    let mut diff: u8 = 0;
    for i in 0..a.len()
        invariant
            a@.len() == b@.len(),
            (diff == 0) <==> (forall|k: int| 0 <= k < i ==> a@[k] == b@[k]),
    {
        let x = a[i];
        let y = b[i];
        let e = x ^ y;
        assert((diff | e) == 0 <==> (diff == 0 && e == 0)) by (bit_vector);
        assert(e == 0 <==> x == y) by (bit_vector)
            requires
                e == x ^ y,
        ;
        diff = diff | e;
    }
    assert((diff == 0) ==> a@ =~= b@);
    diff == 0
}

/// The bytes of `a` followed by the bytes of `b`.
fn concat_bytes(a: &[u8], b: &[u8]) -> (r: Vec<u8>)
    ensures
        r@ == a@ + b@,
{
    let mut r: Vec<u8> = Vec::new();
    for i in 0..a.len()
        invariant
            r@ == a@.take(i as int),
    {
        r.push(a[i]);
        assert(a@.take(i as int).push(a@[i as int]) =~= a@.take(i + 1));
    }
    assert(a@.take(a@.len() as int) =~= a@);
    for j in 0..b.len()
        invariant
            r@ == a@ + b@.take(j as int),
    {
        r.push(b[j]);
        assert((a@ + b@.take(j as int)).push(b@[j as int]) =~= a@ + b@.take(j + 1));
    }
    assert(b@.take(b@.len() as int) =~= b@);
    r
}

/// The characters of `a` followed by those of `b`.
pub fn concat_chars(a: &[char], b: &[char]) -> (r: Vec<char>)
    ensures
        r@ == a@ + b@,
{
    let mut r: Vec<char> = Vec::new();
    for i in 0..a.len()
        invariant
            r@ == a@.take(i as int),
    {
        r.push(a[i]);
        assert(a@.take(i as int).push(a@[i as int]) =~= a@.take(i + 1));
    }
    assert(a@.take(a@.len() as int) =~= a@);
    for j in 0..b.len()
        invariant
            r@ == a@ + b@.take(j as int),
    {
        r.push(b[j]);
        assert((a@ + b@.take(j as int)).push(b@[j as int]) =~= a@ + b@.take(j + 1));
    }
    assert(b@.take(b@.len() as int) =~= b@);
    r
}

/// `a`, a dot, then `b`.
fn join_dot(a: &[char], b: &[char]) -> (r: Vec<char>)
    ensures
        r@ == a@ + seq!['.'] + b@,
{
    let mut r = concat_chars(a, &[]);
    r.push('.');
    let r2 = concat_chars(r.as_slice(), b);
    assert(a@ + Seq::<char>::empty() =~= a@);
    r2
}

impl AuthState {
    /// Builds the lock for `password`: its digest, and a signing secret that
    /// is the SHA-256 of the digest, the current second as 8 little-endian
    /// bytes and 16 random bytes (which second and which bytes, the clock
    /// and the random source decide).
    pub fn from_password(password: &str) -> (a: AuthState)
        ensures
            a.password_sha256@ == sha256_spec(password.spec_bytes()),
            a.session_secret@.len() == 32,
            exists|t: u64, n: Seq<u8>|
                n.len() == 16 && a.session_secret@ == #[trigger] sha256_spec(
                    a.password_sha256@ + le_bytes_spec(t) + n,
                ),
    {
        let password_sha256 = sha256_digest(password.as_bytes());
        let now = now_secs();
        let mut le: Vec<u8> = Vec::new();
        let mut k: u64 = 0;
        while k < 8
            invariant
                k <= 8,
                le@ == le_bytes_spec(now).take(k as int),
            decreases 8 - k,
        {
            let byte = ((now >> (8 * k)) & 0xff) as u8;
            assert(byte == le_bytes_spec(now)[k as int]);
            le.push(byte);
            assert(le_bytes_spec(now).take(k as int).push(byte) =~= le_bytes_spec(now).take(k + 1));
            k += 1;
        }
        assert(le_bytes_spec(now).take(8) =~= le_bytes_spec(now));
        let nonce = random_uuid_bytes();
        let first = concat_bytes(password_sha256.as_slice(), le.as_slice());
        let all = concat_bytes(first.as_slice(), nonce.as_slice());
        let session_secret = sha256_digest(all.as_slice());
        let a = AuthState { password_sha256, session_secret };
        assert(a.session_secret@ == sha256_spec(a.password_sha256@ + le_bytes_spec(now) + nonce@));
        a
    }

    /// The signature of `payload` under this lock's secret.
    pub fn sign_payload(&self, payload: &str) -> (s: String)
        ensures
            s@ == sign_spec(self.session_secret@, payload@),
    {
        let data = concat_bytes(self.session_secret.as_slice(), payload.as_bytes());
        let digest = sha256_digest(data.as_slice());
        hex_encode(digest.as_slice())
    }

    /// The lifetime of issued tokens in seconds.
    pub fn session_ttl_secs(&self) -> (r: u64)
        ensures
            r == SESSION_TTL_SECS,
    {
        SESSION_TTL_SECS
    }

    /// The token issued at time `now` with the given nonce.
    pub fn issue_session_token_at(&self, now: u64, nonce: &str) -> (t: String)
        ensures
            t@ == token_spec(self.session_secret@, expiry_spec(now), nonce@),
    {
        let exp = now.saturating_add(SESSION_TTL_SECS);
        let exp_chars = u64_to_dec(exp);
        let nonce_chars = chars_of(nonce);
        let payload = join_dot(exp_chars.as_slice(), nonce_chars.as_slice());
        let payload_str = string_of(payload.as_slice());
        let sig = self.sign_payload(payload_str.as_str());
        let sig_chars = chars_of(sig.as_str());
        let token = join_dot(payload.as_slice(), sig_chars.as_slice());
        string_of(token.as_slice())
    }

    /// Issues a token that expires one lifetime from now, with a random nonce.
    pub fn issue_session_token(&self) -> (t: String)
        ensures
            exists|now: u64, nonce: Seq<char>|
                nonce.len() == 32 && (forall|i: int| 0 <= i < 32 ==> is_lower_hex(#[trigger] nonce[i]))
                    && t@ == token_spec(self.session_secret@, expiry_spec(now), nonce),
    {
        let now = now_secs();
        let nonce = random_simple_uuid();
        self.issue_session_token_at(now, nonce.as_str())
    }

    /// Whether `token` is accepted at time `now`.
    pub fn verify_session_token_at(&self, token: &str, now: u64) -> (r: bool)
        ensures
            r == verify_spec(self.session_secret@, token@, now as nat),
    {
        let chars = chars_of(token);
        let parts = split_chars(chars.as_slice(), &['.']);
        assert(seq!['.'] =~= (&['.'])@) by {
            assert((&['.'])@.len() == 1);
        }
        if parts.len() != 3 {
            return false;
        }
        assert(views(parts@)[0] == parts@[0]@);
        assert(views(parts@)[1] == parts@[1]@);
        assert(views(parts@)[2] == parts@[2]@);
        let exp = match parse_unsigned(parts[0].as_slice(), u64::MAX) {
            Some(e) => e,
            None => return false,
        };
        if now > exp {
            return false;
        }
        let payload = join_dot(parts[0].as_slice(), parts[1].as_slice());
        let payload_str = string_of(payload.as_slice());
        let expected = self.sign_payload(payload_str.as_str());
        let sig_str = string_of(parts[2].as_slice());
        let r = constant_time_eq(sig_str.as_str().as_bytes(), expected.as_str().as_bytes());
        proof {
            encode_utf8_decode_utf8(sig_str@);
            encode_utf8_decode_utf8(expected@);
        }
        r
    }

    /// Whether `token` is accepted now: the answer is the decision
    /// `verify_session_token_at` gives at the clock's current second (which
    /// the clock alone decides), so a token accepted now is well formed,
    /// correctly signed and was accepted at every earlier time.
    pub fn verify_session_token(&self, token: &str) -> (r: bool)
        ensures
            exists|now: u64| r == #[trigger] verify_spec(self.session_secret@, token@, now as nat),
            r ==> verify_spec(self.session_secret@, token@, 0),
    {
        let now = now_secs();
        let r = self.verify_session_token_at(token, now);
        assert(r == verify_spec(self.session_secret@, token@, now as nat));
        r
    }
}


/// Hexadecimal text holds no dot.
pub proof fn lemma_hex_no_dot(b: Seq<u8>)
    ensures
        forall|i: int| 0 <= i < hex_lower(b).len() ==> #[trigger] hex_lower(b)[i] != '.',
    decreases b.len(),
{
    if b.len() > 0 {
        lemma_hex_no_dot(b.drop_last());
        let p = hex_lower(b.drop_last());
        assert forall|i: int| 0 <= i < hex_lower(b).len() implies #[trigger] hex_lower(b)[i] != '.' by {
            if i < p.len() {
                assert(hex_lower(b)[i] == p[i]);
            }
        }
    }
}

/// A token issued with a dot-free nonce and expiry `exp` is accepted at time
/// `now` exactly when `now` is not past `exp`.
pub proof fn lemma_token_verifies(secret: Seq<u8>, exp: nat, nonce: Seq<char>, now: nat)
    requires
        exp <= u64::MAX,
        forall|i: int| 0 <= i < nonce.len() ==> #[trigger] nonce[i] != '.',
    ensures
        verify_spec(secret, token_spec(secret, exp, nonce), now) <==> now <= exp,
{
    let dots = seq!['.'];
    let e = dec_string(exp);
    let sig = sign_spec(secret, payload_spec(exp, nonce));
    lemma_dec_string(exp);
    lemma_hex_no_dot(sha256_spec(secret + encode_utf8(payload_spec(exp, nonce))));
    assert forall|i: int| 0 <= i < e.len() implies !dots.contains(#[trigger] e[i]) by {
        assert(is_digit(e[i]));
        if dots.contains(e[i]) {
            assert(dots[0] == '.');
        }
    }
    assert forall|i: int| 0 <= i < nonce.len() implies !dots.contains(#[trigger] nonce[i]) by {
        if dots.contains(nonce[i]) {
            assert(dots[0] == '.');
        }
    }
    assert forall|i: int| 0 <= i < sig.len() implies !dots.contains(#[trigger] sig[i]) by {
        if dots.contains(sig[i]) {
            assert(dots[0] == '.');
        }
    }
    assert(dots.contains('.')) by {
        assert(dots[0] == '.');
    }
    lemma_split_no_sep(e, dots);
    lemma_split_no_sep(nonce, dots);
    lemma_split_no_sep(sig, dots);
    let pl = payload_spec(exp, nonce);
    lemma_split_concat(e, '.', nonce, dots);
    lemma_split_concat(pl, '.', sig, dots);
    let parts = split_seq(token_spec(secret, exp, nonce), dots);
    assert(parts =~= seq![e, nonce, sig]);
    lemma_parse_dec_string(exp, u64::MAX as nat);
}

/// A text split into a single piece is that whole text.
proof fn lemma_split_single(s: Seq<char>, seps: Seq<char>)
    ensures
        split_seq(s, seps).len() >= 1,
        split_seq(s, seps).len() == 1 ==> split_seq(s, seps)[0] == s,
    decreases s.len(),
{
    if s.len() > 0 {
        lemma_split_single(s.drop_last(), seps);
        assert(s.drop_last().push(s.last()) =~= s);
    }
}

/// A token whose signature was changed is refused: keeping the expiry and
/// the (dot-free) nonce of a signed payload, any signature other than the
/// payload's own makes the token fail at every time.
pub proof fn lemma_changed_signature_refused(secret: Seq<u8>, exp: nat, nonce: Seq<char>, sig: Seq<char>, now: nat)
    requires
        exp <= u64::MAX,
        forall|i: int| 0 <= i < nonce.len() ==> #[trigger] nonce[i] != '.',
        sig != sign_spec(secret, payload_spec(exp, nonce)),
    ensures
        !verify_spec(secret, payload_spec(exp, nonce) + seq!['.'] + sig, now),
{
    let dots = seq!['.'];
    let e = dec_string(exp);
    lemma_dec_string(exp);
    assert forall|i: int| 0 <= i < e.len() implies !dots.contains(#[trigger] e[i]) by {
        assert(is_digit(e[i]));
        if dots.contains(e[i]) {
            assert(dots[0] == '.');
        }
    }
    assert forall|i: int| 0 <= i < nonce.len() implies !dots.contains(#[trigger] nonce[i]) by {
        if dots.contains(nonce[i]) {
            assert(dots[0] == '.');
        }
    }
    assert(dots.contains('.')) by {
        assert(dots[0] == '.');
    }
    lemma_split_no_sep(e, dots);
    lemma_split_no_sep(nonce, dots);
    let pl = payload_spec(exp, nonce);
    lemma_split_concat(e, '.', nonce, dots);
    lemma_split_concat(pl, '.', sig, dots);
    lemma_split_single(sig, dots);
    let parts = split_seq(pl + seq!['.'] + sig, dots);
    assert(parts =~= seq![e, nonce] + split_seq(sig, dots));
    if parts.len() == 3 {
        assert(split_seq(sig, dots).len() == 1);
        assert(parts[2] == sig);
        assert(parts[0] + seq!['.'] + parts[1] =~= pl);
    }
}

/// A freshly issued token is accepted at any time up to its expiry and at no
/// time after it.
pub proof fn lemma_issued_token_accepted(auth: &AuthState, issued_at: u64, nonce: Seq<char>, now: nat)
    requires
        forall|i: int| 0 <= i < nonce.len() ==> #[trigger] nonce[i] != '.',
    ensures
        verify_spec(auth.session_secret@, token_spec(auth.session_secret@, expiry_spec(issued_at), nonce), now)
            <==> now <= expiry_spec(issued_at),
{
    lemma_token_verifies(auth.session_secret@, expiry_spec(issued_at), nonce, now);
}


/// The value after `prefix` of the first item that begins with it.
pub open spec fn first_with_prefix(items: Seq<Seq<char>>, prefix: Seq<char>) -> Option<Seq<char>>
    decreases items.len(),
{
    if items.len() == 0 {
        None
    } else if starts_with(items[0], prefix) {
        Some(items[0].skip(prefix.len() as int))
    } else {
        first_with_prefix(items.drop_first(), prefix)
    }
}

/// The trimmed pieces of a `Cookie` header.
pub open spec fn cookie_pairs(raw: Seq<char>) -> Seq<Seq<char>> {
    split_seq(raw, seq![';']).map_values(|p: Seq<char>| trim_seq(p))
}

/// The value of cookie `key` in a `Cookie` header: the rest of the first
/// trimmed `;`-separated piece that begins with `key=`.
pub open spec fn cookie_value_spec(raw: Seq<char>, key: Seq<char>) -> Option<Seq<char>> {
    first_with_prefix(cookie_pairs(raw), key + seq!['='])
}

/// The value of cookie `key` in the `Cookie` header `raw_cookie`.
pub fn cookie_value(raw_cookie: &str, key: &str) -> (r: Option<String>)
    ensures
        r matches Some(v) ==> cookie_value_spec(raw_cookie@, key@) == Some(v@),
        r is None ==> cookie_value_spec(raw_cookie@, key@) is None,
{
    let raw = chars_of(raw_cookie);
    let k = chars_of(key);
    let mut prefix = concat_chars(k.as_slice(), &[]);
    prefix.push('=');
    assert(prefix@ =~= key@ + seq!['=']);
    let pieces = split_chars(raw.as_slice(), &[';']);
    assert(seq![';'] =~= (&[';'])@) by {
        assert((&[';'])@.len() == 1);
    }
    let ghost items = cookie_pairs(raw_cookie@);
    assert(items.len() == pieces@.len());
    assert(items.skip(0) =~= items);
    for i in 0..pieces.len()
        invariant
            items == cookie_pairs(raw_cookie@),
            items.len() == pieces@.len(),
            raw@ == raw_cookie@,
            prefix@ == key@ + seq!['='],
            views(pieces@) == split_seq(raw@, seq![';']),
            first_with_prefix(items, prefix@) == first_with_prefix(items.skip(i as int), prefix@),
    {
        let t = trim_chars(pieces[i].as_slice());
        assert(views(pieces@)[i as int] == pieces@[i as int]@);
        assert(t@ == items[i as int]);
        assert(items.skip(i as int).drop_first() =~= items.skip(i + 1));
        assert(items.skip(i as int)[0] == items[i as int]);
        if starts_with_chars(t.as_slice(), prefix.as_slice()) {
            let v = skip_chars(t.as_slice(), prefix.len());
            return Some(string_of(v.as_slice()));
        }
    }
    assert(items.skip(items.len() as int) =~= Seq::<Seq<char>>::empty());
    None
}

/// Paths served without a password: the landing page, static assets and login.
pub open spec fn is_public_path_spec(path: Seq<char>) -> bool {
    path == "/"@ || starts_with(path, "/assets/"@) || path == "/api/login"@
}

/// Whether `path` is served without a password.
pub fn is_public_path(path: &str) -> (r: bool)
    ensures
        r == is_public_path_spec(path@),
{
    let p = chars_of(path);
    let assets = chars_of("/assets/");
    chars_eq_str(p.as_slice(), "/") || starts_with_chars(p.as_slice(), assets.as_slice())
        || chars_eq_str(p.as_slice(), "/api/login")
}

/// The session token a `Cookie` header carries: `tomato_session`, else `auth_token`.
pub open spec fn session_cookie_spec(raw: Seq<char>) -> Option<Seq<char>> {
    match cookie_value_spec(raw, "tomato_session"@) {
        Some(v) => Some(v),
        None => cookie_value_spec(raw, "auth_token"@),
    }
}

/// Whether a request to a locked server is let through at time `now`: public
/// paths always; other paths with a session cookie accepted at `now`, or with a
/// non-empty password header whose digest is the password's.
pub open spec fn authorized_spec(
    secret: Seq<u8>,
    password_sha256: Seq<u8>,
    path: Seq<char>,
    header: Seq<char>,
    raw_cookie: Option<Seq<char>>,
    now: nat,
) -> bool {
    ||| is_public_path_spec(path)
    ||| (match raw_cookie {
        Some(c) => match session_cookie_spec(c) {
            Some(t) => verify_spec(secret, t, now),
            None => false,
        },
        None => false,
    })
    ||| (header.len() > 0 && sha256_spec(encode_utf8(header)) == password_sha256)
}

/// The characters of an optional `Cookie` header.
pub open spec fn cookie_view(raw_cookie: Option<&str>) -> Option<Seq<char>> {
    match raw_cookie {
        Some(c) => Some(c@),
        None => None,
    }
}

impl AuthState {
    /// Whether `provided` is the password: its digest equals the stored one.
    pub fn verify_password(&self, provided: &str) -> (r: bool)
        ensures
            r == (sha256_spec(provided.spec_bytes()) == self.password_sha256@),
    {
        let d = sha256_digest(provided.as_bytes());
        constant_time_eq(d.as_slice(), self.password_sha256.as_slice())
    }

    /// The access decision for a request at time `now`.
    pub fn authorize_request_at(
        &self,
        path: &str,
        provided_header: &str,
        raw_cookie: Option<&str>,
        now: u64,
    ) -> (r: bool)
        ensures
            r == authorized_spec(
                self.session_secret@,
                self.password_sha256@,
                path@,
                provided_header@,
                match raw_cookie {
                    Some(c) => Some(c@),
                    None => None,
                },
                now as nat,
            ),
    {
        if is_public_path(path) {
            return true;
        }
        let mut authorized = false;
        if let Some(raw) = raw_cookie {
            let token = match cookie_value(raw, "tomato_session") {
                Some(t) => Some(t),
                None => cookie_value(raw, "auth_token"),
            };
            if let Some(t) = token {
                authorized = self.verify_session_token_at(t.as_str(), now);
            }
        }
        if !authorized && !provided_header.is_empty() {
            authorized = self.verify_password(provided_header);
        }
        authorized
    }

    /// The access decision for a request now: the decision of
    /// `authorize_request_at` at the time read from the clock, so public
    /// paths and the right password header always pass, whatever the time.
    pub fn authorize_request(&self, path: &str, provided_header: &str, raw_cookie: Option<&str>) -> (r: bool)
        ensures
            exists|now: nat| r == #[trigger] authorized_spec(
                self.session_secret@,
                self.password_sha256@,
                path@,
                provided_header@,
                cookie_view(raw_cookie),
                now,
            ),
            is_public_path_spec(path@) ==> r,
            (provided_header@.len() > 0 && sha256_spec(encode_utf8(provided_header@)) == self.password_sha256@) ==> r,
    {
        let now = now_secs();
        let r = self.authorize_request_at(path, provided_header, raw_cookie, now);
        assert(r == authorized_spec(
            self.session_secret@,
            self.password_sha256@,
            path@,
            provided_header@,
            match raw_cookie {
                Some(c) => Some(c@),
                None => None,
            },
            now as nat,
        ));
        r
    }
}


/// What a login request is answered.
#[derive(Debug, Clone, Copy, PartialEq, Eq)]
pub enum LoginOutcome {
    /// The server has no password lock.
    Unlocked,
    /// Empty or wrong password.
    Rejected,
    /// Right password: a session is opened.
    Accepted,
}

/// The answer to a login with `password` (surrounding whitespace ignored).
pub open spec fn login_outcome_spec(auth: Option<(Seq<u8>, Seq<u8>)>, password: Seq<char>) -> LoginOutcome {
    match auth {
        None => LoginOutcome::Unlocked,
        Some((_secret, pw)) => {
            let p = trim_seq(password);
            if p.len() == 0 {
                LoginOutcome::Rejected
            } else if sha256_spec(encode_utf8(p)) == pw {
                LoginOutcome::Accepted
            } else {
                LoginOutcome::Rejected
            }
        },
    }
}

/// The views of an optional lock.
pub open spec fn auth_view(auth: Option<&AuthState>) -> Option<(Seq<u8>, Seq<u8>)> {
    match auth {
        Some(a) => Some((a.session_secret@, a.password_sha256@)),
        None => None,
    }
}

/// Decides a login request.
pub fn login_outcome(auth: Option<&AuthState>, password: &str) -> (r: LoginOutcome)
    ensures
        r == login_outcome_spec(auth_view(auth), password@),
{
    match auth {
        None => LoginOutcome::Unlocked,
        Some(a) => {
            let t = trim_chars(chars_of(password).as_slice());
            if t.len() == 0 {
                return LoginOutcome::Rejected;
            }
            let ts = string_of(t.as_slice());
            if a.verify_password(ts.as_str()) {
                LoginOutcome::Accepted
            } else {
                LoginOutcome::Rejected
            }
        },
    }
}

/// The `Set-Cookie` value that stores a session token for `max_age` seconds.
pub open spec fn session_cookie_header_spec(name: Seq<char>, token: Seq<char>, max_age: nat) -> Seq<char> {
    name + seq!['='] + token + "; Path=/; HttpOnly; SameSite=Lax; Max-Age="@ + dec_string(max_age)
}

/// Builds the `Set-Cookie` value for a session token.
pub fn session_cookie_header(name: &str, token: &str, max_age: u64) -> (r: String)
    ensures
        r@ == session_cookie_header_spec(name@, token@, max_age as nat),
{
    let mut v = chars_of(name);
    v.push('=');
    let a = concat_chars(v.as_slice(), chars_of(token).as_slice());
    let b = concat_chars(a.as_slice(), chars_of("; Path=/; HttpOnly; SameSite=Lax; Max-Age=").as_slice());
    let c = concat_chars(b.as_slice(), u64_to_dec(max_age).as_slice());
    string_of(c.as_slice())
}

/// Hexadecimal text is twice as long as its bytes and made of lowercase hex digits.
pub proof fn lemma_hex_shape(b: Seq<u8>)
    ensures
        hex_lower(b).len() == 2 * b.len(),
        forall|i: int| 0 <= i < hex_lower(b).len() ==> is_lower_hex(#[trigger] hex_lower(b)[i]),
    decreases b.len(),
{
    if b.len() > 0 {
        lemma_hex_shape(b.drop_last());
        let p = hex_lower(b.drop_last());
        let x = b.last() as int;
        assert(0 <= x / 16 < 16 && 0 <= x % 16 < 16);
        assert forall|i: int| 0 <= i < hex_lower(b).len() implies is_lower_hex(#[trigger] hex_lower(b)[i]) by {
            if i < p.len() {
                assert(hex_lower(b)[i] == p[i]);
            } else if i == p.len() {
                let d = x / 16;
                assert(((d + 48) as u32) as char as u32 == (d + 48) as u32);
                assert(((d + 87) as u32) as char as u32 == (d + 87) as u32);
            } else {
                let d = x % 16;
                assert(((d + 48) as u32) as char as u32 == (d + 48) as u32);
                assert(((d + 87) as u32) as char as u32 == (d + 87) as u32);
            }
        }
    }
}

/// Characters that can occur in an issued token.
pub open spec fn token_char(c: char) -> bool {
    is_lower_hex(c) || c == '.'
}

/// Every character of an issued token is a lowercase hex digit or a dot.
pub proof fn lemma_token_chars(secret: Seq<u8>, exp: nat, nonce: Seq<char>)
    requires
        forall|i: int| 0 <= i < nonce.len() ==> is_lower_hex(#[trigger] nonce[i]),
    ensures
        forall|i: int| 0 <= i < token_spec(secret, exp, nonce).len() ==> token_char(
            #[trigger] token_spec(secret, exp, nonce)[i],
        ),
        token_spec(secret, exp, nonce).len() > 0,
{
    let e = dec_string(exp);
    let h = sha256_spec(secret + encode_utf8(payload_spec(exp, nonce)));
    let sig = sign_spec(secret, payload_spec(exp, nonce));
    lemma_dec_string(exp);
    lemma_hex_shape(h);
    let t = token_spec(secret, exp, nonce);
    assert forall|i: int| 0 <= i < t.len() implies token_char(#[trigger] t[i]) by {
        let pl = payload_spec(exp, nonce);
        if i < e.len() {
            assert(t[i] == e[i]);
            assert(is_digit(e[i]));
        } else if i == e.len() {
            assert(t[i] == '.');
        } else if i < pl.len() {
            assert(t[i] == nonce[i - e.len() - 1]);
        } else if i == pl.len() {
            assert(t[i] == '.');
        } else {
            assert(t[i] == sig[i - pl.len() - 1]);
        }
    }
}

/// A `Cookie` header carrying a freshly issued session token under the name
/// `tomato_session` lets any request through until the token expires.
pub proof fn lemma_login_cookie_authorizes(
    auth: &AuthState,
    issued_at: u64,
    nonce: Seq<char>,
    path: Seq<char>,
    header: Seq<char>,
    now: nat,
)
    requires
        forall|i: int| 0 <= i < nonce.len() ==> is_lower_hex(#[trigger] nonce[i]),
        now <= expiry_spec(issued_at),
    ensures
        authorized_spec(
            auth.session_secret@,
            auth.password_sha256@,
            path,
            header,
            Some("tomato_session="@ + token_spec(auth.session_secret@, expiry_spec(issued_at), nonce)),
            now,
        ),
{
    reveal_strlit("tomato_session=");
    reveal_strlit("tomato_session");
    let secret = auth.session_secret@;
    let exp = expiry_spec(issued_at);
    let tok = token_spec(secret, exp, nonce);
    let key = "tomato_session"@;
    let c = key + seq!['='] + tok;
    assert(c =~= "tomato_session="@ + tok);
    lemma_token_chars(secret, exp, nonce);
    let semi = seq![';'];
    assert forall|i: int| 0 <= i < c.len() implies !semi.contains(#[trigger] c[i]) by {
        if semi.contains(c[i]) {
            assert(semi[0] == ';');
            if i >= key.len() + 1 {
                assert(c[i] == tok[i - key.len() - 1]);
                assert(token_char(tok[i - key.len() - 1]));
            }
        }
    }
    lemma_split_no_sep(c, semi);
    assert(c.last() == tok[tok.len() - 1]);
    assert(token_char(tok[tok.len() - 1]));
    lemma_trim_noop(c);
    let pairs = cookie_pairs(c);
    assert(pairs =~= seq![c]);
    assert(c.take((key + seq!['=']).len() as int) =~= key + seq!['=']);
    assert(c.skip((key + seq!['=']).len() as int) =~= tok);
    assert(first_with_prefix(pairs, key + seq!['=']) == Some(tok));
    assert forall|i: int| 0 <= i < nonce.len() implies #[trigger] nonce[i] != '.' by {
        assert(is_lower_hex(nonce[i]));
    }
    lemma_token_verifies(secret, exp, nonce, now);
}


/// A lock built from a password accepts a login with that password (given
/// without surrounding whitespace), and with it a password header on any path.
pub proof fn lemma_own_password_accepted(a: &AuthState, password: Seq<char>, path: Seq<char>, now: nat)
    requires
        a.password_sha256@ == sha256_spec(encode_utf8(password)),
        password.len() > 0,
        trim_seq(password) == password,
    ensures
        login_outcome_spec(auth_view(Some(a)), password) == LoginOutcome::Accepted,
        authorized_spec(a.session_secret@, a.password_sha256@, path, password, None, now),
{
}

} // verus!
