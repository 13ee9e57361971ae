//! Session tokens: issue and validate signed, expiring proofs of
//! authentication.
//!
//! A token is one line of text: sixteen hex characters of a keyed tag, a
//! dot, the issue time in seconds, a dot, the expiry time in seconds, a dot,
//! and the identity.  The tag is a keyed 64-bit mixing checksum over the
//! payload computed with a process-wide secret key, so a token altered
//! anywhere after the key was fixed no longer carries a matching tag.
//! Validation is a pure function of the key, the token text, the clock and
//! the revocation set; it performs the checks in order: structure and tag,
//! expiry, revocation.

use vstd::prelude::*;

use crate::strutil::{
    chars_of, find_char, lemma_dec_digits, lemma_dec_roundtrip, lemma_find_spec, parse_dec_range,
    push_dec, spec_dec, spec_find, spec_is_digit, spec_parse_dec, string_from_chars,
};

verus! {

/// Lifetime of an issued token, in seconds.
pub const TOKEN_TTL_SECONDS: u64 = 600;

/// Offset basis of the keyed tag.
pub const TAG_SEED: u64 = 0xcbf2_9ce4_8422_2325;

/// Multiplier of the keyed tag.
pub const TAG_PRIME: u64 = 0x0000_0100_0000_01b3;

/// Name of the session cookie that carries a token.
pub fn jwt_cookie_name() -> (r: &'static str)
    ensures
        r@ == "jwt"@,
{
    "jwt"
}

/// The mathematical value of a token's claims.
pub ghost struct ClaimsV {
    pub sub: Seq<char>,
    pub iat: u64,
    pub exp: u64,
}

/// The claims carried by a token: the identity, the issue time, and the
/// expiry time, both in seconds.
#[derive(Debug)]
pub struct Claims {
    pub sub: String,
    pub iat: u64,
    pub exp: u64,
}

impl View for Claims {
    type V = ClaimsV;

    open spec fn view(&self) -> ClaimsV {
        ClaimsV { sub: self.sub@, iat: self.iat, exp: self.exp }
    }
}

impl Clone for Claims {
    fn clone(&self) -> (r: Self)
        ensures
            r@ == self@,
    {
        Claims { sub: self.sub.clone(), iat: self.iat, exp: self.exp }
    }
}

/// One step of the keyed tag: mix a character into the state.
pub open spec fn spec_tag_step(h: u64, c: char) -> u64 {
    vstd::wrapping::u64_specs::wrapping_mul(h ^ (c as u64), TAG_PRIME)
}

/// The tag state after mixing every character of `s` into `h`.
pub open spec fn spec_tag_acc(h: u64, s: Seq<char>) -> u64
    decreases s.len(),
{
    if s.len() == 0 {
        h
    } else {
        spec_tag_acc(spec_tag_step(h, s[0]), s.subrange(1, s.len() as int))
    }
}

/// The keyed tag of `msg` under `key`.
pub open spec fn spec_tag(key: Seq<char>, msg: Seq<char>) -> u64 {
    spec_tag_acc(spec_tag_acc(TAG_SEED, key), msg)
}

fn tag_step(h: u64, c: char) -> (r: u64)
    ensures
        r == spec_tag_step(h, c),
{
    (h ^ (c as u64)).wrapping_mul(TAG_PRIME)
}

/// Mixes the character range `[from, to)` of `v` into `h`.
fn tag_range(h: u64, v: &Vec<char>, from: usize, to: usize) -> (r: u64)
    requires
        from <= to <= v@.len(),
    ensures
        r == spec_tag_acc(h, v@.subrange(from as int, to as int)),
{
    let mut acc = h;
    let mut i = from;
    while i < to
        invariant
            from <= i <= to <= v@.len(),
            spec_tag_acc(h, v@.subrange(from as int, to as int)) == spec_tag_acc(
                acc,
                v@.subrange(i as int, to as int),
            ),
        decreases to - i,
    {
        proof {
            let rest = v@.subrange(i as int, to as int);
            assert(rest[0] == v@[i as int]);
            assert(rest.subrange(1, rest.len() as int) =~= v@.subrange(i + 1, to as int));
        }
        acc = tag_step(acc, v[i]);
        i = i + 1;
    }
    acc
}

/// The character of a hex digit value below sixteen.
pub open spec fn spec_hex_digit(d: u64) -> char {
    if d < 10 {
        crate::strutil::spec_digit_char(d)
    } else if d == 10 {
        'a'
    } else if d == 11 {
        'b'
    } else if d == 12 {
        'c'
    } else if d == 13 {
        'd'
    } else if d == 14 {
        'e'
    } else {
        'f'
    }
}

/// The fixed-width hex rendering of `x`, `w` characters wide, most
/// significant nibble first.
pub open spec fn spec_hex_w(x: u64, w: nat) -> Seq<char>
    decreases w,
{
    if w == 0 {
        Seq::empty()
    } else {
        spec_hex_w(x / 16, (w - 1) as nat) + seq![spec_hex_digit(x % 16)]
    }
}

/// The sixteen-character hex rendering of a 64-bit tag.
pub open spec fn spec_hex16(x: u64) -> Seq<char> {
    spec_hex_w(x, 16)
}

/// A fixed-width hex rendering has exactly its width, and no dot.
pub proof fn lemma_hex_w_shape(x: u64, w: nat)
    ensures
        spec_hex_w(x, w).len() == w,
        forall|i: int| 0 <= i < w ==> #[trigger] spec_hex_w(x, w)[i] != '.',
    decreases w,
{
    if w > 0 {
        lemma_hex_w_shape(x / 16, (w - 1) as nat);
    }
}

fn hex_digit_char(d: u64) -> (c: char)
    requires
        d < 16,
    ensures
        c == spec_hex_digit(d),
{
    if d == 0 {
        '0'
    } else if d == 1 {
        '1'
    } else if d == 2 {
        '2'
    } else if d == 3 {
        '3'
    } else if d == 4 {
        '4'
    } else if d == 5 {
        '5'
    } else if d == 6 {
        '6'
    } else if d == 7 {
        '7'
    } else if d == 8 {
        '8'
    } else if d == 9 {
        '9'
    } else if d == 10 {
        'a'
    } else if d == 11 {
        'b'
    } else if d == 12 {
        'c'
    } else if d == 13 {
        'd'
    } else if d == 14 {
        'e'
    } else {
        'f'
    }
}

/// Appends the `w`-character hex rendering of `x` to `out`.
fn push_hex_w(x: u64, w: usize, out: &mut Vec<char>)
    ensures
        final(out)@ == old(out)@ + spec_hex_w(x, w as nat),
    decreases w,
{
    if w == 0 {
        assert(out@ =~= old(out)@ + spec_hex_w(x, 0));
        return ;
    }
    push_hex_w(x / 16, w - 1, out);
    out.push(hex_digit_char(x % 16));
    assert(out@ =~= old(out)@ + spec_hex_w(x, w as nat));
}

/// The signed part of a token: issue time, expiry time, identity.
pub open spec fn spec_payload(sub: Seq<char>, iat: u64, exp: u64) -> Seq<char> {
    spec_dec(iat) + seq!['.'] + spec_dec(exp) + seq!['.'] + sub
}

/// The full token text for the given claims under `key`.
pub open spec fn spec_token(key: Seq<char>, sub: Seq<char>, iat: u64, exp: u64) -> Seq<char> {
    spec_hex16(spec_tag(key, spec_payload(sub, iat, exp))) + seq!['.'] + spec_payload(sub, iat, exp)
}

/// The structural reading of a token: the tag part must be sixteen
/// characters before the first dot, then two dot-terminated decimal numbers,
/// then the identity (which may itself contain dots).
pub open spec fn spec_parse_token(s: Seq<char>) -> Option<ClaimsV> {
    if s.len() < 17 || s[16] != '.' {
        None
    } else {
        match spec_find(s, '.', 17) {
            Option::None => None,
            Option::Some(d1) => match spec_parse_dec(s.subrange(17, d1)) {
                Option::None => None,
                Option::Some(iat) => match spec_find(s, '.', (d1 + 1) as nat) {
                    Option::None => None,
                    Option::Some(d2) => match spec_parse_dec(s.subrange(d1 + 1, d2)) {
                        Option::None => None,
                        Option::Some(exp) => Some(
                            ClaimsV { sub: s.subrange(d2 + 1, s.len() as int), iat, exp },
                        ),
                    },
                },
            },
        }
    }
}

/// Whether the tag carried by `s` matches the tag of its payload under
/// `key`.
pub open spec fn spec_token_signed(key: Seq<char>, s: Seq<char>) -> bool {
    s.len() >= 17 && s.subrange(0, 16) == spec_hex16(
        spec_tag(key, s.subrange(17, s.len() as int)),
    )
}

/// The claims a token yields at time `now` with revocation set `banned`, or
/// nothing if any of the three checks fails.
pub open spec fn spec_validate(
    key: Seq<char>,
    banned: Set<Seq<char>>,
    s: Seq<char>,
    now: u64,
) -> Option<ClaimsV> {
    match spec_parse_token(s) {
        Option::None => None,
        Option::Some(c) => if spec_token_signed(key, s) && c.exp > now && !banned.contains(s) {
            Some(c)
        } else {
            None
        },
    }
}

/// Builds the token text for identity `sub` issued at `iat`, expiring at
/// `exp`, signed with `key`.
pub fn issue_token(key: &Vec<char>, sub: &str, iat: u64, exp: u64) -> (r: String)
    ensures
        r@ == spec_token(key@, sub@, iat, exp),
{
    let mut payload: Vec<char> = Vec::new();
    push_dec(iat, &mut payload);
    payload.push('.');
    push_dec(exp, &mut payload);
    payload.push('.');
    let mut sub_chars = chars_of(sub);
    payload.append(&mut sub_chars);
    proof {
        assert(payload@ =~= spec_payload(sub@, iat, exp));
        assert(key@.subrange(0, key@.len() as int) =~= key@);
        assert(payload@.subrange(0, payload@.len() as int) =~= payload@);
    }
    let h1 = tag_range(TAG_SEED, key, 0, key.len());
    let h = tag_range(h1, &payload, 0, payload.len());
    let mut tok: Vec<char> = Vec::new();
    push_hex_w(h, 16, &mut tok);
    tok.push('.');
    tok.append(&mut payload);
    proof {
        assert(tok@ =~= spec_token(key@, sub@, iat, exp));
    }
    string_from_chars(&tok)
}

/// Checks structure, tag and expiry of a token; the revocation check is the
/// caller's third step.
pub fn check_token(key: &Vec<char>, token: &str, now: u64) -> (r: Option<Claims>)
    ensures
        match r {
            Option::Some(c) => spec_parse_token(token@) == Some(c@) && spec_token_signed(
                key@,
                token@,
            ) && c@.exp > now,
            Option::None => !(spec_parse_token(token@) matches Some(c) && spec_token_signed(
                key@,
                token@,
            ) && c.exp > now),
        },
{
    let v = chars_of(token);
    if v.len() < 17 {
        return None;
    }
    if v[16] != '.' {
        return None;
    }
    let d1 = match find_char(&v, '.', 17) {
        Option::Some(j) => j,
        Option::None => {
            return None;
        },
    };
    proof {
        lemma_find_spec(v@, '.', 17);
    }
    let iat = match parse_dec_range(&v, 17, d1) {
        Option::Some(x) => x,
        Option::None => {
            return None;
        },
    };
    let d2 = match find_char(&v, '.', d1 + 1) {
        Option::Some(j) => j,
        Option::None => {
            return None;
        },
    };
    proof {
        lemma_find_spec(v@, '.', (d1 + 1) as nat);
    }
    let exp = match parse_dec_range(&v, d1 + 1, d2) {
        Option::Some(x) => x,
        Option::None => {
            return None;
        },
    };
    // Recompute the tag over the payload and compare it with the carried tag.
    let h1 = tag_range(TAG_SEED, key, 0, key.len());
    let h = tag_range(h1, &v, 17, v.len());
    proof {
        assert(key@.subrange(0, key@.len() as int) =~= key@);
    }
    let mut sig: Vec<char> = Vec::new();
    push_hex_w(h, 16, &mut sig);
    proof {
        lemma_hex_w_shape(h, 16);
    }
    let mut k: usize = 0;
    while k < 16
        invariant
            k <= 16,
            v@.len() >= 17,
            v@ == token@,
            sig@ == spec_hex16(spec_tag(key@, v@.subrange(17, v@.len() as int))),
            sig@.len() == 16,
            forall|j: int| 0 <= j < k ==> v@[j] == sig@[j],
        decreases 16 - k,
    {
        if v[k] != sig[k] {
            proof {
                assert(v@ == token@);
                assert(v@[k as int] != sig@[k as int]);
                if spec_token_signed(key@, token@) {
                    assert(token@.subrange(0, 16) == spec_hex16(
                        spec_tag(key@, token@.subrange(17, token@.len() as int)),
                    ));
                    assert(token@.subrange(17, token@.len() as int) == v@.subrange(
                        17,
                        v@.len() as int,
                    ));
                    assert(token@.subrange(0, 16) == sig@);
                    assert(token@.subrange(0, 16)[k as int] == sig@[k as int]);
                    assert(token@.subrange(0, 16)[k as int] == token@[k as int]);
                    assert(false);
                }
            }
            return None;
        }
        k = k + 1;
    }
    proof {
        assert(v@.subrange(0, 16) =~= sig@);
    }
    if exp <= now {
        return None;
    }
    // Copy the identity out of the token text.
    let mut sub_chars: Vec<char> = Vec::new();
    let mut i: usize = d2 + 1;
    while i < v.len()
        invariant
            d2 + 1 <= i <= v@.len(),
            sub_chars@ == v@.subrange(d2 + 1, i as int),
        decreases v@.len() - i,
    {
        sub_chars.push(v[i]);
        assert(sub_chars@ =~= v@.subrange(d2 + 1, i + 1));
        i = i + 1;
    }
    assert(sub_chars@ =~= v@.subrange(d2 + 1, v@.len() as int));
    let sub = string_from_chars(&sub_chars);
    Some(Claims { sub, iat, exp })
}

/// Parsing a freshly built token gives the claims back, and the tag
/// matches: the round trip behind every issue-then-validate contract.
pub proof fn lemma_token_roundtrip(key: Seq<char>, sub: Seq<char>, iat: u64, exp: u64)
    ensures
        spec_parse_token(spec_token(key, sub, iat, exp)) == Some(ClaimsV { sub, iat, exp }),
        spec_token_signed(key, spec_token(key, sub, iat, exp)),
{
    let payload = spec_payload(sub, iat, exp);
    let tag = spec_tag(key, payload);
    let s = spec_token(key, sub, iat, exp);
    lemma_hex_w_shape(tag, 16);
    lemma_dec_digits(iat);
    lemma_dec_digits(exp);
    let a = spec_dec(iat).len() as int;
    let b = spec_dec(exp).len() as int;
    assert(s.len() == 17 + a + 1 + b + 1 + sub.len());
    assert(s[16] == '.');
    // The first dot after the tag ends the issue-time digits.
    let d1 = 17 + a;
    assert(s[d1] == '.');
    assert forall|k: int| 17 <= k < d1 implies s[k] != '.' by {
        assert(s[k] == spec_dec(iat)[k - 17]);
        assert(spec_is_digit(spec_dec(iat)[k - 17]));
    }
    lemma_find_hits(s, '.', 17, d1);
    assert(s.subrange(17, d1) =~= spec_dec(iat));
    lemma_dec_roundtrip(iat);
    // The next dot ends the expiry digits.
    let d2 = d1 + 1 + b;
    assert(s[d2] == '.');
    assert forall|k: int| d1 + 1 <= k < d2 implies s[k] != '.' by {
        assert(s[k] == spec_dec(exp)[k - (d1 + 1)]);
        assert(spec_is_digit(spec_dec(exp)[k - (d1 + 1)]));
    }
    lemma_find_hits(s, '.', (d1 + 1) as nat, d2);
    assert(s.subrange(d1 + 1, d2) =~= spec_dec(exp));
    lemma_dec_roundtrip(exp);
    assert(s.subrange(d2 + 1, s.len() as int) =~= sub);
    // The carried tag is the recomputed tag.
    assert(s.subrange(0, 16) =~= spec_hex16(tag));
    assert(s.subrange(17, s.len() as int) =~= payload);
}

/// If `c` first occurs at `p` when scanning from `from`, the find returns
/// `p`.
proof fn lemma_find_hits(s: Seq<char>, c: char, from: nat, p: int)
    requires
        from <= p < s.len(),
        s[p] == c,
        forall|k: int| from <= k < p ==> s[k] != c,
    ensures
        spec_find(s, c, from) == Some(p),
    decreases p - from,
{
    if from < p {
        lemma_find_hits(s, c, from + 1, p);
    }
}

} // verus!
