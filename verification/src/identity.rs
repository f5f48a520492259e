//! The client identity of a relay session: the local account name followed by
//! eight lower-case hexadecimal digits drawn at random.

use vstd::prelude::*;
use vstd::string::*;

verus! {

/// The local account could not be resolved, so no identity can be made.
#[derive(Copy, Clone, Debug, PartialEq, Eq, Structural)]
pub struct IdentityUnavailable;

/// Number of hexadecimal digits in the suffix of an identity.
pub const SUFFIX_DIGITS: usize = 8;

/// The lower-case hexadecimal digit for `n`, where `0 <= n < 16`.
pub open spec fn hex_digit(n: int) -> char {
    "0123456789abcdef"@[n]
}

/// `16` to the power `k`.
pub open spec fn place_value(k: int) -> int
    decreases k,
{
    if k <= 0 {
        1
    } else {
        16 * place_value(k - 1)
    }
}

/// The digit of `x` at position `i` of its eight-digit hexadecimal form,
/// position 0 being the most significant.
pub open spec fn nibble(x: u32, i: int) -> int {
    (x as int / place_value(7 - i)) % 16
}

/// `x` written as exactly eight lower-case hexadecimal digits, zero padded.
pub open spec fn hex8(x: u32) -> Seq<char> {
    Seq::new(8, |i: int| hex_digit(nibble(x, i)))
}

/// An identity is an account name followed by the eight digits of a suffix.
pub open spec fn identity_of(username: Seq<char>, suffix: u32) -> Seq<char> {
    username + hex8(suffix)
}

/// Every place value is a positive number.
pub proof fn lemma_place_value_positive(k: int)
    ensures
        place_value(k) >= 1,
    decreases k,
{
    if k > 0 {
        lemma_place_value_positive(k - 1);
    }
}

/// Dividing by sixteen after dividing by `place` is dividing by sixteen
/// times `place`.
proof fn lemma_divide_on(x: int, place: int)
    requires
        0 <= x,
        0 < place,
    ensures
        (x / place) / 16 == x / (16 * place),
        x / place == 16 * (x / (16 * place)) + (x / place) % 16,
{
    let q = x / place;
    let r = q / 16;
    assert(x / (16 * place) == r) by (nonlinear_arith)
        requires
            0 <= x,
            0 < place,
            q == x / place,
            r == q / 16,
    {
        assert(place * q <= x < place * q + place);
        assert(16 * r <= q < 16 * r + 16);
        assert(16 * place * r <= place * q);
        assert(place * q + place <= 16 * place * r + 16 * place);
        assert(16 * place * r <= x < 16 * place * r + 16 * place);
        assert(x / (16 * place) == r);
    }
}

/// The eight digits of `x`, each weighted by its place, add up to `x`.
pub proof fn lemma_nibbles_sum(x: u32)
    ensures
        forall|i: int| 0 <= i < 8 ==> 0 <= #[trigger] nibble(x, i) < 16,
        x == nibble(x, 0) * 0x1000_0000 + nibble(x, 1) * 0x100_0000 + nibble(x, 2) * 0x10_0000
            + nibble(x, 3) * 0x1_0000 + nibble(x, 4) * 0x1000 + nibble(x, 5) * 0x100 + nibble(x, 6)
            * 0x10 + nibble(x, 7),
{
    reveal_with_fuel(place_value, 9);
    assert(place_value(0) == 1);
    assert(place_value(1) == 0x10);
    assert(place_value(2) == 0x100);
    assert(place_value(3) == 0x1000);
    assert(place_value(4) == 0x1_0000);
    assert(place_value(5) == 0x10_0000);
    assert(place_value(6) == 0x100_0000);
    assert(place_value(7) == 0x1000_0000);
    let v = x as int;
    lemma_divide_on(v, 1);
    lemma_divide_on(v, 0x10);
    lemma_divide_on(v, 0x100);
    lemma_divide_on(v, 0x1000);
    lemma_divide_on(v, 0x1_0000);
    lemma_divide_on(v, 0x10_0000);
    lemma_divide_on(v, 0x100_0000);
    assert(v / 0x1000_0000 < 16);
}

/// No two hexadecimal digits are written alike.
pub proof fn lemma_hex_digit_injective(a: int, b: int)
    requires
        0 <= a < 16,
        0 <= b < 16,
        hex_digit(a) == hex_digit(b),
    ensures
        a == b,
{
    reveal_strlit("0123456789abcdef");
}

/// Different suffixes are written differently, so that two sessions of one
/// account have the same identity only if they drew the same suffix.
pub proof fn lemma_identity_injective(username: Seq<char>, x: u32, y: u32)
    requires
        identity_of(username, x) == identity_of(username, y),
    ensures
        x == y,
{
    let a = identity_of(username, x);
    let b = identity_of(username, y);
    lemma_nibbles_sum(x);
    lemma_nibbles_sum(y);
    assert forall|i: int| 0 <= i < 8 implies nibble(x, i) == nibble(y, i) by {
        assert(a[username.len() + i] == hex8(x)[i]);
        assert(b[username.len() + i] == hex8(y)[i]);
        lemma_hex_digit_injective(nibble(x, i), nibble(y, i));
    }
}

/// The one-character string of the hexadecimal digit `n`.
fn hex_digit_str(n: u32) -> (digit: &'static str)
    requires
        n < 16,
    ensures
        digit@ == seq![hex_digit(n as int)],
{
    let digits = "0123456789abcdef";
    proof {
        reveal_strlit("0123456789abcdef");
    }
    let from = n as usize;
    let digit = digits.substring_ascii(from, from + 1);
    assert(digit@ =~= seq![hex_digit(n as int)]);
    digit
}

/// Composes the identity of a session from the account name and the random
/// suffix.
pub fn client_identity(username: &str, suffix: u32) -> (identity: String)
    ensures
        identity@ == identity_of(username@, suffix),
        identity@.len() == username@.len() + SUFFIX_DIGITS,
{
    let mut identity = username.to_owned();
    let mut divisor: u32 = 0x1000_0000;
    let mut i: usize = 0;
    proof {
        reveal_with_fuel(place_value, 9);
        assert(place_value(7) == 0x1000_0000);
    }
    while i < 8
        invariant
            i <= 8,
            i < 8 ==> divisor == place_value(7 - i),
            identity@ == username@ + hex8(suffix).take(i as int),
        decreases 8 - i,
    {
        proof {
            lemma_place_value_positive(7 - i);
        }
        let n = (suffix / divisor) % 16;
        let digit = hex_digit_str(n);
        identity.append(digit);
        proof {
            assert(n == nibble(suffix, i as int));
            assert(hex8(suffix).take(i + 1) =~= hex8(suffix).take(i as int).push(
                hex_digit(n as int),
            ));
            assert(i < 7 ==> place_value(7 - i) == 16 * place_value(6 - i));
        }
        divisor = divisor / 16;
        i += 1;
    }
    assert(hex8(suffix).take(8) =~= hex8(suffix));
    identity
}

/// The name of the account this process runs under, as
/// `users::get_current_username` reports it, with any bytes that are not
/// UTF-8 replaced as `OsStr::to_string_lossy` does.
///
/// Trusted, and nothing is claimed of the result: the name comes from the
/// system's account database, and it is `None` where the account no longer
/// exists there.
#[verifier::external_body]
fn current_username() -> (name: Option<String>) {
    match users::get_current_username() {
        Some(name) => Some(name.to_string_lossy().into_owned()),
        None => None,
    }
}

/// A fresh 32-bit value from `rand::random`, which draws it from the
/// thread-local generator.
///
/// Trusted, and nothing is claimed of the result: any value may come back.
/// The call panics only where the operating system cannot seed the
/// generator.
#[verifier::external_body]
fn random_suffix() -> (suffix: u32) {
    rand::random::<u32>()
}

/// The identity of a session, given what the system reported as the account
/// name and the suffix that was drawn: without an account name there is no
/// identity, and with one it is the name followed by the suffix.
pub fn identity_for(username: Option<String>, suffix: u32) -> (identity: Result<
    String,
    IdentityUnavailable,
>)
    ensures
        username is None ==> identity is Err,
        username matches Some(name) ==> identity is Ok && identity->Ok_0@ == identity_of(
            name@,
            suffix,
        ),
{
    match username {
        Some(name) => Ok(client_identity(name.as_str(), suffix)),
        None => Err(IdentityUnavailable),
    }
}

/// Generates the identity of a new session: the local account name, read
/// once, followed by a fresh random suffix.
///
/// Which account name and which suffix are used is up to the system, so the
/// result is only known to have the shape of an identity; `identity_for`
/// says what it is for each name and suffix.
pub fn generate() -> (identity: Result<String, IdentityUnavailable>)
    ensures
        identity matches Ok(id) ==> exists|username: Seq<char>, suffix: u32|
            id@ == identity_of(username, suffix),
{
    let username = current_username();
    let suffix = random_suffix();
    let ghost name = username;
    let identity = identity_for(username, suffix);
    proof {
        if identity is Ok {
            assert(identity->Ok_0@ == identity_of(name->Some_0@, suffix));
        }
    }
    identity
}

} // verus!
