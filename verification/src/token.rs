//! The token service: issues signed session tokens carrying subject and
//! lifetime, and validates presented tokens against the signature, the
//! clock and the revocation store.
//!
//! A token renders as `tag.issued-at.expiry.subject` read as
//! `tag "." payload`, where the payload is `issued-at "." expiry "." subject`
//! and the tag is a keyed checksum of the payload under the process-wide
//! secret. The subject (an email address) may itself contain dots: parsing
//! only ever splits at the first dot of each numeric field, and numeric
//! renderings contain none.

use vstd::prelude::*;
use crate::data_store::BannedTokenStore;
use crate::digits::{dec_digits, is_digit, lemma_dec_digits_all_digits,
    lemma_parse_of_dec_digits, parse_u64, spec_parse_u64, u64_to_string};
use crate::email::{contains_char, valid_email, Email};

verus! {

/// How long an issued token stays live, and therewith how long a ban entry
/// needs to outlive it.
pub const TOKEN_TTL_SECONDS: u64 = 600;

/// The modulus of the keyed checksum: tags are 32-bit values.
pub const TAG_MODULUS: u64 = 0x1_0000_0000;

/// The initial accumulator of the keyed checksum.
pub const TAG_SEED: u64 = 17;

/// The claims a session token carries.
pub struct Claims {
    pub subject: Email,
    pub issued_at: u64,
    pub expiry: u64,
}

/// The mathematical content of a token's claims.
pub struct ClaimsView {
    pub subject: Seq<char>,
    pub issued_at: u64,
    pub expiry: u64,
}

impl View for Claims {
    type V = ClaimsView;

    open spec fn view(&self) -> ClaimsView {
        ClaimsView {
            subject: self.subject@,
            issued_at: self.issued_at,
            expiry: self.expiry,
        }
    }
}

pub open spec fn mac_step(acc: int, c: char) -> int {
    (acc * 31 + c as int) % (TAG_MODULUS as int)
}

/// The keyed checksum folded over `s`, starting from `acc`.
pub open spec fn mac_from(s: Seq<char>, acc: int) -> int
    decreases s.len(),
{
    if s.len() == 0 {
        acc
    } else {
        mac_step(mac_from(s.drop_last(), acc), s.last())
    }
}

/// The tag of a payload under a secret.
pub open spec fn tag_of(secret: Seq<char>, payload: Seq<char>) -> int {
    mac_from(secret + payload, TAG_SEED as int)
}

pub proof fn lemma_mac_from_bounds(s: Seq<char>, acc: int)
    requires
        0 <= acc < TAG_MODULUS,
    ensures
        0 <= mac_from(s, acc) < TAG_MODULUS,
{
    if s.len() > 0 {
    }
}

/// Folding one more character applies one checksum step.
pub proof fn lemma_mac_from_extend(s: Seq<char>, i: int, acc: int)
    requires
        0 <= i < s.len(),
    ensures
        mac_from(s.subrange(0, i + 1), acc) == mac_step(mac_from(s.subrange(0, i), acc), s[i]),
{
    let t = s.subrange(0, i + 1);
    assert(t.drop_last() =~= s.subrange(0, i));
    assert(t.last() == s[i]);
}

/// Folding over a concatenation folds over the parts in order.
pub proof fn lemma_mac_from_concat(a: Seq<char>, b: Seq<char>, acc: int)
    ensures
        mac_from(a + b, acc) == mac_from(b, mac_from(a, acc)),
    decreases b.len(),
{
    if b.len() == 0 {
        assert(a + b =~= a);
    } else {
        assert((a + b).drop_last() =~= a + b.drop_last());
        assert((a + b).last() == b.last());
        lemma_mac_from_concat(a, b.drop_last(), acc);
    }
}

/// Computes the keyed checksum of `s` starting from `acc`.
fn mac_str(s: &str, acc: u64) -> (r: u64)
    requires
        acc < TAG_MODULUS,
    ensures
        r == mac_from(s@, acc as int),
        r < TAG_MODULUS,
{
    let n = s.unicode_len();
    let mut h: u64 = acc;
    let mut i: usize = 0;
    proof {
        assert(s@.subrange(0, 0) =~= Seq::<char>::empty());
    }
    while i < n
        invariant
            n == s@.len(),
            i <= n,
            h == mac_from(s@.subrange(0, i as int), acc as int),
            h < TAG_MODULUS,
        decreases n - i,
    {
        let c = s.get_char(i);
        let cv: u64 = c as u64;
        let next: u64 = (h * 31 + cv) % TAG_MODULUS;
        proof {
            lemma_mac_from_extend(s@, i as int, acc as int);
        }
        h = next;
        i += 1;
    }
    proof {
        assert(s@.subrange(0, n as int) =~= s@);
    }
    h
}

/// The index of the first occurrence of `c` in `s` at or after `from`, or
/// `-1` when there is none.
pub open spec fn spec_find(s: Seq<char>, c: char, from: int) -> int
    decreases s.len() - from,
{
    if from < 0 || from >= s.len() {
        -1
    } else if s[from] == c {
        from
    } else {
        spec_find(s, c, from + 1)
    }
}

/// The first occurrence is the witness index when nothing before it matches.
pub proof fn lemma_spec_find_at(s: Seq<char>, c: char, from: int, i: int)
    requires
        0 <= from <= i < s.len(),
        s[i] == c,
        forall|j: int| from <= j < i ==> s[j] != c,
    ensures
        spec_find(s, c, from) == i,
    decreases i - from,
{
    if from < i {
        lemma_spec_find_at(s, c, from + 1, i);
    }
}

/// Scans `s` for the first occurrence of `c` at or after `from`.
fn find_char_from(s: &str, c: char, from: usize) -> (r: Option<usize>)
    requires
        from <= s@.len(),
    ensures
        r matches Some(i) ==> from <= i < s@.len() && spec_find(s@, c, from as int) == i,
        r is None ==> spec_find(s@, c, from as int) == -1,
{
    let n = s.unicode_len();
    let mut i: usize = from;
    while i < n
        invariant
            n == s@.len(),
            from <= i <= n,
            forall|j: int| from <= j < i ==> s@[j] != c,
        decreases n - i,
    {
        if s.get_char(i) == c {
            proof {
                lemma_spec_find_at(s@, c, from as int, i as int);
            }
            return Some(i);
        }
        i += 1;
    }
    proof {
        if spec_find(s@, c, from as int) != -1 {
            lemma_spec_find_correct_some(s@, c, from as int);
        }
    }
    None
}

pub proof fn lemma_spec_find_correct_some(s: Seq<char>, c: char, from: int)
    requires
        0 <= from <= s.len(),
        spec_find(s, c, from) != -1,
    ensures
        from <= spec_find(s, c, from) < s.len(),
        s[spec_find(s, c, from)] == c,
    decreases s.len() - from,
{
    if from < s.len() && s[from] != c {
        lemma_spec_find_correct_some(s, c, from + 1);
    }
}

/// The payload a token carries: issued-at, expiry and subject.
pub open spec fn payload_for(subject: Seq<char>, issued_at: u64, expiry: u64) -> Seq<char> {
    dec_digits(issued_at as nat) + seq!['.'] + dec_digits(expiry as nat) + seq!['.'] + subject
}

/// The canonical rendering of a token: the tag of the payload, a dot, and
/// the payload.
pub open spec fn token_for(subject: Seq<char>, issued_at: u64, expiry: u64, secret: Seq<char>) -> Seq<
    char,
> {
    let payload = payload_for(subject, issued_at, expiry);
    dec_digits(tag_of(secret, payload) as nat) + seq!['.'] + payload
}

/// What a presented token string means under a secret: the claims it
/// carries, when the tag verifies, the numeric fields parse and the subject
/// is a well-formed email; nothing otherwise.
pub open spec fn spec_parse_token(s: Seq<char>, secret: Seq<char>) -> Option<ClaimsView> {
    let i1 = spec_find(s, '.', 0);
    if i1 < 0 {
        None
    } else {
        let tag_s = s.subrange(0, i1);
        let payload = s.subrange(i1 + 1, s.len() as int);
        match spec_parse_u64(tag_s) {
            None => None,
            Some(tag) => {
                if tag as int != tag_of(secret, payload) {
                    None
                } else {
                    let i2 = spec_find(payload, '.', 0);
                    if i2 < 0 {
                        None
                    } else {
                        let i3 = spec_find(payload, '.', i2 + 1);
                        if i3 < 0 {
                            None
                        } else {
                            let iat_s = payload.subrange(0, i2);
                            let exp_s = payload.subrange(i2 + 1, i3);
                            let subject = payload.subrange(i3 + 1, payload.len() as int);
                            match (spec_parse_u64(iat_s), spec_parse_u64(exp_s)) {
                                (Some(iat), Some(exp)) => {
                                    if valid_email(subject) {
                                        Some(ClaimsView { subject, issued_at: iat, expiry: exp })
                                    } else {
                                        None
                                    }
                                },
                                _ => None,
                            }
                        }
                    }
                }
            },
        }
    }
}

/// A presented token is live iff it parses under the secret, has not
/// expired, and is absent from the revocation set.
pub open spec fn spec_token_valid(
    s: Seq<char>,
    secret: Seq<char>,
    now: u64,
    banned: Set<Seq<char>>,
) -> bool {
    match spec_parse_token(s, secret) {
        Some(c) => now < c.expiry && !banned.contains(s),
        None => false,
    }
}

/// Issues a signed token for `email`, live from `now` for
/// `TOKEN_TTL_SECONDS`.
pub fn issue_token(email: &Email, now: u64, secret: &str) -> (r: String)
    requires
        now + TOKEN_TTL_SECONDS <= u64::MAX,
    ensures
        r@ == token_for(email@, now, (now + TOKEN_TTL_SECONDS) as u64, secret@),
{
    proof {
        reveal_strlit(".");
        assert("."@ =~= seq!['.']);
    }
    let mut payload = u64_to_string(now);
    payload.append(".");
    let exp_s = u64_to_string(now + TOKEN_TTL_SECONDS);
    payload.append(exp_s.as_str());
    payload.append(".");
    payload.append(email.as_str());
    proof {
        assert(payload@ =~= payload_for(email@, now, (now + TOKEN_TTL_SECONDS) as u64));
    }
    let acc = mac_str(secret, TAG_SEED);
    let tag = mac_str(payload.as_str(), acc);
    proof {
        lemma_mac_from_concat(secret@, payload@, TAG_SEED as int);
    }
    let mut token = u64_to_string(tag);
    token.append(".");
    token.append(payload.as_str());
    proof {
        assert(token@ =~= token_for(email@, now, (now + TOKEN_TTL_SECONDS) as u64, secret@));
    }
    token
}

/// Parses a presented token under the secret, checking the tag and the
/// shape of every field.
pub fn parse_token(token: &str, secret: &str) -> (r: Option<Claims>)
    ensures
        r is Some <==> spec_parse_token(token@, secret@) is Some,
        r matches Some(c) ==> spec_parse_token(token@, secret@) == Some(c@),
{
    let n = token.unicode_len();
    let i1 = match find_char_from(token, '.', 0) {
        Some(i) => i,
        None => {
            return None;
        },
    };
    let tag_str = token.substring_char(0, i1);
    let payload = token.substring_char(i1 + 1, n);
    let tag = match parse_u64(tag_str) {
        Some(t) => t,
        None => {
            return None;
        },
    };
    let acc = mac_str(secret, TAG_SEED);
    let expected = mac_str(payload, acc);
    proof {
        lemma_mac_from_concat(secret@, payload@, TAG_SEED as int);
    }
    if tag != expected {
        return None;
    }
    let m = payload.unicode_len();
    let i2 = match find_char_from(payload, '.', 0) {
        Some(i) => i,
        None => {
            return None;
        },
    };
    let i3 = match find_char_from(payload, '.', i2 + 1) {
        Some(i) => i,
        None => {
            return None;
        },
    };
    let iat = match parse_u64(payload.substring_char(0, i2)) {
        Some(v) => v,
        None => {
            return None;
        },
    };
    let exp = match parse_u64(payload.substring_char(i2 + 1, i3)) {
        Some(v) => v,
        None => {
            return None;
        },
    };
    let subject_str = payload.substring_char(i3 + 1, m);
    if subject_str.is_empty() || !contains_char(subject_str, '@') {
        return None;
    }
    match Email::parse(String::from_str(subject_str)) {
        Ok(subject) => Some(Claims { subject, issued_at: iat, expiry: exp }),
        Err(_) => None,
    }
}

/// Validates a presented token: signature shape, expiry against `now`, and
/// absence from the revocation store.
pub fn validate_token<B: BannedTokenStore>(
    token: &str,
    banned: &B,
    now: u64,
    secret: &str,
) -> (r: Option<Claims>)
    requires
        banned.inv(),
    ensures
        r is Some <==> spec_token_valid(token@, secret@, now, banned.tokens()),
        r matches Some(c) ==> spec_parse_token(token@, secret@) == Some(c@),
{
    let claims = match parse_token(token, secret) {
        Some(c) => c,
        None => {
            return None;
        },
    };
    if !(now < claims.expiry) {
        return None;
    }
    match banned.contains_token(token) {
        Ok(true) => None,
        Ok(false) => Some(claims),
        Err(_) => None,
    }
}

/// A well-formed issued token parses back to exactly the claims it was
/// issued with.
pub proof fn lemma_parse_of_token_for(
    subject: Seq<char>,
    issued_at: u64,
    expiry: u64,
    secret: Seq<char>,
)
    requires
        valid_email(subject),
    ensures
        spec_parse_token(token_for(subject, issued_at, expiry, secret), secret) == Some(
            ClaimsView { subject, issued_at, expiry },
        ),
{
    let payload = payload_for(subject, issued_at, expiry);
    let tag = tag_of(secret, payload);
    lemma_mac_from_bounds(secret + payload, TAG_SEED as int);
    let tds = dec_digits(tag as nat);
    let ids = dec_digits(issued_at as nat);
    let eds = dec_digits(expiry as nat);
    lemma_dec_digits_all_digits(tag as nat);
    lemma_dec_digits_all_digits(issued_at as nat);
    lemma_dec_digits_all_digits(expiry as nat);
    let s = token_for(subject, issued_at, expiry, secret);
    assert(s =~= tds + seq!['.'] + payload);
    assert(s.len() == tds.len() + 1 + payload.len());
    // the first dot of the token ends the tag digits
    assert(s[tds.len() as int] == '.');
    assert forall|j: int| 0 <= j < tds.len() implies s[j] != '.' by {
        assert(s[j] == tds[j]);
        assert(is_digit(tds[j]));
    }
    lemma_spec_find_at(s, '.', 0, tds.len() as int);
    assert(s.subrange(0, tds.len() as int) =~= tds);
    assert(s.subrange(tds.len() as int + 1, s.len() as int) =~= payload);
    lemma_parse_of_dec_digits(tag as u64);
    // the first dot of the payload ends the issued-at digits
    assert(payload =~= ids + seq!['.'] + eds + seq!['.'] + subject);
    assert(payload[ids.len() as int] == '.');
    assert forall|j: int| 0 <= j < ids.len() implies payload[j] != '.' by {
        assert(payload[j] == ids[j]);
        assert(is_digit(ids[j]));
    }
    lemma_spec_find_at(payload, '.', 0, ids.len() as int);
    // the next dot ends the expiry digits
    let i3: int = ids.len() as int + 1 + eds.len() as int;
    assert(payload[i3] == '.');
    assert forall|j: int| ids.len() as int + 1 <= j < i3 implies payload[j] != '.' by {
        assert(payload[j] == eds[j - (ids.len() as int + 1)]);
        assert(is_digit(eds[j - (ids.len() as int + 1)]));
    }
    lemma_spec_find_at(payload, '.', ids.len() as int + 1, i3);
    assert(payload.subrange(0, ids.len() as int) =~= ids);
    assert(payload.subrange(ids.len() as int + 1, i3 as int) =~= eds);
    assert(payload.subrange(i3 + 1, payload.len() as int) =~= subject);
    lemma_parse_of_dec_digits(issued_at);
    lemma_parse_of_dec_digits(expiry);
}

/// Issuing then validating under the same secret succeeds while the token
/// is unexpired and unrevoked, and yields the subject it was issued for.
pub proof fn lemma_issue_then_validate(
    subject: Seq<char>,
    issued_at: u64,
    now: u64,
    secret: Seq<char>,
    banned: Set<Seq<char>>,
)
    requires
        valid_email(subject),
        issued_at + TOKEN_TTL_SECONDS <= u64::MAX,
        now < issued_at + TOKEN_TTL_SECONDS,
        !banned.contains(token_for(subject, issued_at, (issued_at + TOKEN_TTL_SECONDS) as u64, secret)),
    ensures
        spec_token_valid(
            token_for(subject, issued_at, (issued_at + TOKEN_TTL_SECONDS) as u64, secret),
            secret,
            now,
            banned,
        ),
        spec_parse_token(
            token_for(subject, issued_at, (issued_at + TOKEN_TTL_SECONDS) as u64, secret),
            secret,
        ) matches Some(c) && c.subject == subject,
{
    lemma_parse_of_token_for(subject, issued_at, (issued_at + TOKEN_TTL_SECONDS) as u64, secret);
}

/// A token whose recorded expiry has passed is rejected whatever the
/// revocation store holds: validity requires `now` strictly before expiry.
pub proof fn lemma_expired_token_rejected(
    s: Seq<char>,
    secret: Seq<char>,
    now: u64,
    banned: Set<Seq<char>>,
)
    requires
        spec_parse_token(s, secret) matches Some(c) && now >= c.expiry,
    ensures
        !spec_token_valid(s, secret, now, banned),
{
}

} // verus!
