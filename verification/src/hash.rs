//! Content hashing for derived RBAC object names.
//!
//! Derived objects are content-addressed: their name embeds a hash of the
//! canonical serialization of the permission entry they represent, so equal
//! declarations map to equal names and any change of content moves to a
//! fresh name. The hash is the 64-bit FNV-1a function over the input's
//! characters — a pure function of its argument — rendered in decimal.

use vstd::prelude::*;

verus! {

use vstd::string::StrSliceExecFns;
use vstd::string::StringExecFns;

/// FNV-1a 64-bit offset basis.
pub const FNV_OFFSET_BASIS: u64 = 0xcbf29ce484222325;

/// FNV-1a 64-bit prime.
pub const FNV_PRIME: u64 = 0x100000001b3;

/// One FNV-1a round: fold a character into the running hash.
pub open spec fn fnv1a_step(h: u64, c: char) -> u64 {
    vstd::wrapping::u64_specs::wrapping_mul(h ^ (c as u64), FNV_PRIME)
}

/// The FNV-1a 64-bit hash of a character sequence.
pub open spec fn fnv1a(s: Seq<char>) -> u64
    decreases s.len(),
{
    if s.len() == 0 {
        FNV_OFFSET_BASIS
    } else {
        fnv1a_step(fnv1a(s.drop_last()), s.last())
    }
}

/// Hash the characters of a string with FNV-1a.
pub fn fnv1a_hash(s: &str) -> (h: u64)
    ensures
        h == fnv1a(s@),
{
    let n = s.unicode_len();
    let mut h: u64 = FNV_OFFSET_BASIS;
    let mut i: usize = 0;
    assert(s@.take(0) =~= Seq::<char>::empty());
    while i < n
        invariant
            i <= n,
            n == s@.len(),
            h == fnv1a(s@.take(i as int)),
        decreases n - i,
    {
        let c = s.get_char(i);
        h = (h ^ (c as u64)).wrapping_mul(FNV_PRIME);
        i = i + 1;
        proof {
            assert(s@.take(i as int).drop_last() =~= s@.take(i - 1));
            assert(s@.take(i as int).last() == s@[i - 1]);
        }
    }
    proof {
        assert(s@.take(s@.len() as int) =~= s@);
    }
    h
}

/// The character for one decimal digit.
pub open spec fn dec_digit_char(d: nat) -> char {
    if d == 0 {
        '0'
    } else if d == 1 {
        '1'
    } else if d == 2 {
        '2'
    } else if d == 3 {
        '3'
    } else if d == 4 {
        '4'
    } else if d == 5 {
        '5'
    } else if d == 6 {
        '6'
    } else if d == 7 {
        '7'
    } else if d == 8 {
        '8'
    } else {
        '9'
    }
}

/// The decimal rendering of a natural number, most significant digit
/// first, without leading zeroes (zero itself is "0").
pub open spec fn dec_digits(n: nat) -> Seq<char>
    decreases n,
{
    if n < 10 {
        seq![dec_digit_char(n)]
    } else {
        dec_digits(n / 10) + seq![dec_digit_char(n % 10)]
    }
}

/// True of the ten decimal digit characters.
pub open spec fn is_dec_digit(c: char) -> bool {
    c == '0' || c == '1' || c == '2' || c == '3' || c == '4' || c == '5' || c == '6' || c == '7'
        || c == '8' || c == '9'
}

/// A decimal rendering consists of digit characters alone.
pub proof fn lemma_dec_digits_are_digits(n: nat)
    ensures
        forall|i: int| 0 <= i < dec_digits(n).len() ==> is_dec_digit(#[trigger] dec_digits(n)[i]),
    decreases n,
{
    if n >= 10 {
        lemma_dec_digits_are_digits(n / 10);
        assert forall|i: int| 0 <= i < dec_digits(n).len() implies is_dec_digit(
            #[trigger] dec_digits(n)[i],
        ) by {
            if i < dec_digits(n / 10).len() {
                assert(dec_digits(n)[i] == dec_digits(n / 10)[i]);
            } else {
                assert(dec_digits(n)[i] == dec_digit_char(n % 10));
            }
        }
    }
}

/// A decimal rendering is never empty, and has one character exactly for
/// numbers below ten.
pub proof fn lemma_dec_digits_len(n: nat)
    ensures
        dec_digits(n).len() >= 1,
        (n < 10) <==> (dec_digits(n).len() == 1),
    decreases n,
{
    if n >= 10 {
        lemma_dec_digits_len(n / 10);
    }
}

/// Distinct numbers have distinct decimal renderings.
pub proof fn lemma_dec_digits_injective(a: nat, b: nat)
    requires
        dec_digits(a) == dec_digits(b),
    ensures
        a == b,
    decreases a,
{
    lemma_dec_digits_len(a);
    lemma_dec_digits_len(b);
    if a < 10 && b < 10 {
        assert(dec_digits(a)[0] == dec_digit_char(a));
        assert(dec_digits(b)[0] == dec_digit_char(b));
    } else if a >= 10 && b >= 10 {
        assert(dec_digits(a).last() == dec_digit_char(a % 10));
        assert(dec_digits(b).last() == dec_digit_char(b % 10));
        assert(a % 10 == b % 10);
        assert(dec_digits(a).drop_last() =~= dec_digits(a / 10));
        assert(dec_digits(b).drop_last() =~= dec_digits(b / 10));
        lemma_dec_digits_injective(a / 10, b / 10);
        vstd::arithmetic::div_mod::lemma_fundamental_div_mod(a as int, 10);
        vstd::arithmetic::div_mod::lemma_fundamental_div_mod(b as int, 10);
    }
}

/// A decimal rendering followed by a non-digit delimiter parses uniquely:
/// equal texts mean equal numbers and equal tails.
pub proof fn lemma_dec_delimited(a: nat, b: nat, d: char, r1: Seq<char>, r2: Seq<char>)
    requires
        !is_dec_digit(d),
        dec_digits(a) + seq![d] + r1 == dec_digits(b) + seq![d] + r2,
    ensures
        a == b,
        r1 == r2,
{
    let da = dec_digits(a);
    let db = dec_digits(b);
    let lhs = da + seq![d] + r1;
    let rhs = db + seq![d] + r2;
    lemma_dec_digits_are_digits(a);
    lemma_dec_digits_are_digits(b);
    if da.len() < db.len() {
        assert(lhs[da.len() as int] == d);
        assert(rhs[da.len() as int] == db[da.len() as int]);
        assert(false);
    }
    if db.len() < da.len() {
        assert(rhs[db.len() as int] == d);
        assert(lhs[db.len() as int] == da[db.len() as int]);
        assert(false);
    }
    assert forall|i: int| 0 <= i < da.len() implies da[i] == db[i] by {
        assert(lhs[i] == da[i]);
        assert(rhs[i] == db[i]);
    }
    assert(da =~= db);
    lemma_dec_digits_injective(a, b);
    assert(lhs.len() == rhs.len());
    assert forall|i: int| 0 <= i < r1.len() implies r1[i] == r2[i] by {
        assert(lhs[da.len() + 1 + i] == r1[i]);
        assert(rhs[db.len() + 1 + i] == r2[i]);
    }
    assert(r1 =~= r2);
}

/// The string literal for one decimal digit.
fn digit_str(d: u64) -> (s: &'static str)
    requires
        d < 10,
    ensures
        s@ == seq![dec_digit_char(d as nat)],
{
    proof {
        reveal_strlit("0");
        reveal_strlit("1");
        reveal_strlit("2");
        reveal_strlit("3");
        reveal_strlit("4");
        reveal_strlit("5");
        reveal_strlit("6");
        reveal_strlit("7");
        reveal_strlit("8");
        reveal_strlit("9");
    }
    match d {
        0 => "0",
        1 => "1",
        2 => "2",
        3 => "3",
        4 => "4",
        5 => "5",
        6 => "6",
        7 => "7",
        8 => "8",
        _ => "9",
    }
}

/// Render a 64-bit number in decimal.
pub fn u64_to_dec(n: u64) -> (s: String)
    ensures
        s@ == dec_digits(n as nat),
    decreases n,
{
    if n < 10 {
        digit_str(n).to_owned()
    } else {
        let mut s = u64_to_dec(n / 10);
        s.append(digit_str(n % 10));
        s
    }
}

} // verus!
