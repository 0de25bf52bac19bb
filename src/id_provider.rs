use vstd::prelude::*;
use std::collections::hash_map::RandomState;
use std::hash::BuildHasher;
use vstd::arithmetic::power::pow;

verus! {

/// Length of the identifiers minted by `NanoIDProvider`; 62^11 exceeds 2^64.
pub const TOKEN_LEN: usize = 11;

/// Mints short identifiers.
pub trait IDProvider {
    /// Whether `id` is an identifier that this provider may hand out.
    spec fn may_provide(&self, id: Seq<char>) -> bool;

    /// A new identifier.
    fn provide(&self) -> (r: String)
        ensures
            self.may_provide(r@),
    ;
}

/// A provider that hands out the same configured identifier on every call,
/// which makes identifiers deterministic in tests; not for serving requests.
pub struct FakeIDProvide {
    id: String,
}

impl View for FakeIDProvide {
    type V = Seq<char>;

    closed spec fn view(&self) -> Seq<char> {
        self.id@
    }
}

impl FakeIDProvide {
    pub fn new(id: String) -> (r: Self)
        ensures
            r@ == id@,
    {
        FakeIDProvide { id }
    }
}

impl IDProvider for FakeIDProvide {
    open spec fn may_provide(&self, id: Seq<char>) -> bool {
        id == self@
    }

    fn provide(&self) -> (r: String) {
        self.id.clone()
    }
}

/// The character that stands for a digit in base 62: `0-9`, then `a-z`, then `A-Z`.
pub open spec fn digit_char(d: nat) -> char {
    if d < 10 {
        (('0' as nat) + d) as char
    } else if d < 36 {
        (('a' as nat) + (d - 10)) as char
    } else {
        (('A' as nat) + (d - 36)) as char
    }
}

/// The last `n` digits of `x` in base 62, most significant first.
pub open spec fn token_of(x: nat, n: nat) -> Seq<char>
    decreases n,
{
    if n == 0 {
        Seq::empty()
    } else {
        token_of(x / 62, (n - 1) as nat).push(digit_char(x % 62))
    }
}

/// An ASCII letter or digit.
pub open spec fn is_alphanumeric(c: char) -> bool {
    ('0' <= c && c <= '9') || ('a' <= c && c <= 'z') || ('A' <= c && c <= 'Z')
}

/// The shape of a minted identifier: `TOKEN_LEN` letters and digits.
pub open spec fn is_token(id: Seq<char>) -> bool {
    id.len() == TOKEN_LEN && forall|i: int| 0 <= i < id.len() ==> is_alphanumeric(#[trigger] id[i])
}

/// Relies on `String::push`: the character is appended.
#[verifier::external_body]
fn push_char(s: &mut String, c: char)
    ensures
        final(s)@ == old(s)@.push(c),
{
    s.push(c);
}

/// Relies on `RandomState::new`: a hasher seeded with fresh random keys.
#[verifier::external_body]
fn fresh_random_state() -> (r: RandomState) {
    RandomState::new()
}

/// Relies on `BuildHasher::hash_one`: a hash of `x` under the state's random keys.
#[verifier::external_body]
fn hash_under(s: &RandomState, x: u64) -> (r: u64) {
    s.hash_one(x)
}

/// The base-62 digit `d` as a character.
fn encode_digit(d: u64) -> (c: char)
    requires
        d < 62,
    ensures
        c == digit_char(d as nat),
        is_alphanumeric(c),
{
    let c: char = if d < 10 {
        (48 + d) as u8 as char
    } else if d < 36 {
        (97 + (d - 10)) as u8 as char
    } else {
        (65 + (d - 36)) as u8 as char
    };
    c
}

proof fn lemma_token_is_token(x: nat, n: nat)
    ensures
        token_of(x, n).len() == n,
        forall|i: int| 0 <= i < n ==> is_alphanumeric(#[trigger] token_of(x, n)[i]),
    decreases n,
{
    if n > 0 {
        lemma_token_is_token(x / 62, (n - 1) as nat);
        assert(is_alphanumeric(digit_char(x % 62)));
    }
}

/// Appends the last `n` base-62 digits of `x` to `out`.
fn write_token(x: u64, n: usize, out: &mut String)
    ensures
        final(out)@ == old(out)@ + token_of(x as nat, n as nat),
    decreases n,
{
    if n > 0 {
        write_token(x / 62, n - 1, out);
        let c = encode_digit(x % 62);
        push_char(out, c);
        assert(out@ =~= old(out)@ + token_of(x as nat, n as nat));
    } else {
        assert(out@ =~= old(out)@ + token_of(x as nat, n as nat));
    }
}

/// The identifier for the number `x`: its last `TOKEN_LEN` base-62 digits.
pub fn encode_token(x: u64) -> (r: String)
    ensures
        r@ == token_of(x as nat, TOKEN_LEN as nat),
        is_token(r@),
{
    let mut r = String::new();
    write_token(x, TOKEN_LEN, &mut r);
    proof {
        lemma_token_is_token(x as nat, TOKEN_LEN as nat);
        assert(r@ =~= token_of(x as nat, TOKEN_LEN as nat));
    }
    r
}

proof fn lemma_digit_char_injective(a: nat, b: nat)
    requires
        a < 62,
        b < 62,
        digit_char(a) == digit_char(b),
    ensures
        a == b,
{
}

proof fn lemma_token_injective(x: nat, y: nat, n: nat)
    requires
        x < pow(62, n),
        y < pow(62, n),
        token_of(x, n) == token_of(y, n),
    ensures
        x == y,
    decreases n,
{
    reveal(pow);
    if n == 0 {
        assert(pow(62, 0) == 1);
    } else {
        let p = pow(62, (n - 1) as nat);
        assert(pow(62, n) == 62 * p);
        let tx = token_of(x / 62, (n - 1) as nat);
        let ty = token_of(y / 62, (n - 1) as nat);
        assert(tx.push(digit_char(x % 62)).drop_last() =~= tx);
        assert(ty.push(digit_char(y % 62)).drop_last() =~= ty);
        assert(tx.push(digit_char(x % 62)).last() == digit_char(x % 62));
        assert(ty.push(digit_char(y % 62)).last() == digit_char(y % 62));
        lemma_digit_char_injective(x % 62, y % 62);
        assert(x / 62 < p && y / 62 < p) by (nonlinear_arith)
            requires
                x < 62 * p,
                y < 62 * p,
        ;
        lemma_token_injective(x / 62, y / 62, (n - 1) as nat);
        assert(x == 62 * (x / 62) + x % 62);
        assert(y == 62 * (y / 62) + y % 62);
    }
}

/// Distinct draws give distinct identifiers: the encoding of a 64-bit
/// number as a token loses nothing.
pub proof fn law_distinct_draws_distinct_ids(x: u64, y: u64)
    requires
        x != y,
    ensures
        token_of(x as nat, TOKEN_LEN as nat) != token_of(y as nat, TOKEN_LEN as nat),
{
    reveal_with_fuel(pow, 12);
    assert(pow(62, 11) == 52036560683837093888);
    if token_of(x as nat, TOKEN_LEN as nat) == token_of(y as nat, TOKEN_LEN as nat) {
        lemma_token_injective(x as nat, y as nat, TOKEN_LEN as nat);
    }
}

/// A provider that mints random identifiers of `TOKEN_LEN` letters and digits.
pub struct NanoIDProvider;

impl IDProvider for NanoIDProvider {
    open spec fn may_provide(&self, id: Seq<char>) -> bool {
        is_token(id)
    }

    fn provide(&self) -> (r: String) {
        let state = fresh_random_state();
        encode_token(hash_under(&state, 0))
    }
}

} // verus!
