//! Worker-unit names.
//!
//! A unit produced at tick `base` with retry suffix `suffix` is named
//! `"{base}-{suffix}"` in decimal. The lemmas here show the scheme is
//! injective, which is what makes suffix-increment retry terminate and
//! keeps the names of units produced in one tick pairwise distinct.

use vstd::prelude::*;
use vstd::string::*;

verus! {

/// The decimal digit character for `d`.
pub open spec fn spec_digit(d: nat) -> char
    recommends
        d < 10,
{
    if d == 0 {
        '0'
    } else if d == 1 {
        '1'
    } else if d == 2 {
        '2'
    } else if d == 3 {
        '3'
    } else if d == 4 {
        '4'
    } else if d == 5 {
        '5'
    } else if d == 6 {
        '6'
    } else if d == 7 {
        '7'
    } else if d == 8 {
        '8'
    } else {
        '9'
    }
}

/// The decimal rendering of `n`, most significant digit first, without
/// leading zeros (except for `n == 0` itself).
pub open spec fn spec_dec(n: nat) -> Seq<char>
    decreases n,
{
    if n < 10 {
        seq![spec_digit(n)]
    } else {
        spec_dec(n / 10).push(spec_digit(n % 10))
    }
}

/// The full unit name `"{base}-{suffix}"`.
pub open spec fn spec_name(base: nat, suffix: nat) -> Seq<char> {
    spec_dec(base) + seq!['-'] + spec_dec(suffix)
}

/// Whether `c` is a decimal digit character.
pub open spec fn is_dec_digit(c: char) -> bool {
    c == '0' || c == '1' || c == '2' || c == '3' || c == '4' || c == '5' || c == '6' || c == '7'
        || c == '8' || c == '9'
}

/// A decimal rendering is non-empty, and has one character exactly when
/// the number is below ten.
pub proof fn lemma_dec_len(n: nat)
    ensures
        spec_dec(n).len() >= 1,
        n < 10 <==> spec_dec(n).len() == 1,
    decreases n,
{
    if n >= 10 {
        lemma_dec_len(n / 10);
    }
}

/// Every character of a decimal rendering is a digit.
pub proof fn lemma_dec_digits(n: nat)
    ensures
        forall|i: int| 0 <= i < spec_dec(n).len() ==> is_dec_digit(spec_dec(n)[i]),
    decreases n,
{
    if n < 10 {
        assert(spec_dec(n) == seq![spec_digit(n)]);
        assert(is_dec_digit(spec_digit(n)));
    } else {
        lemma_dec_digits(n / 10);
        assert(spec_dec(n) == spec_dec(n / 10).push(spec_digit(n % 10)));
        assert(is_dec_digit(spec_digit(n % 10)));
        assert forall|i: int| 0 <= i < spec_dec(n).len() implies is_dec_digit(spec_dec(n)[i]) by {
            if i < spec_dec(n / 10).len() {
                assert(spec_dec(n)[i] == spec_dec(n / 10)[i]);
            } else {
                assert(spec_dec(n)[i] == spec_digit(n % 10));
            }
        }
    }
}

/// Distinct digits render as distinct characters.
proof fn lemma_digit_inj(d1: nat, d2: nat)
    requires
        d1 < 10,
        d2 < 10,
        spec_digit(d1) == spec_digit(d2),
    ensures
        d1 == d2,
{
}

/// Decimal rendering is injective.
pub proof fn lemma_dec_inj(a: nat, b: nat)
    requires
        spec_dec(a) == spec_dec(b),
    ensures
        a == b,
    decreases a,
{
    lemma_dec_len(a);
    lemma_dec_len(b);
    if a < 10 && b < 10 {
        assert(spec_dec(a) == seq![spec_digit(a)]);
        assert(spec_dec(b) == seq![spec_digit(b)]);
        assert(spec_digit(a) == spec_dec(a)[0]);
        assert(spec_digit(b) == spec_dec(b)[0]);
        lemma_digit_inj(a, b);
    } else if a >= 10 && b >= 10 {
        assert(spec_dec(a) == spec_dec(a / 10).push(spec_digit(a % 10)));
        assert(spec_dec(b) == spec_dec(b / 10).push(spec_digit(b % 10)));
        assert(spec_digit(a % 10) == spec_dec(a).last());
        assert(spec_digit(b % 10) == spec_dec(b).last());
        lemma_digit_inj(a % 10, b % 10);
        assert(spec_dec(a).drop_last() =~= spec_dec(a / 10));
        assert(spec_dec(b).drop_last() =~= spec_dec(b / 10));
        lemma_dec_inj(a / 10, b / 10);
        assert(a == 10 * (a / 10) + a % 10);
        assert(b == 10 * (b / 10) + b % 10);
    } else {
        // One side has one digit, the other at least two: lengths differ.
        assert(spec_dec(a).len() == spec_dec(b).len());
        assert(false);
    }
}

/// The name scheme is injective: equal names mean equal tick base and
/// equal suffix.
pub proof fn lemma_name_inj(b1: nat, s1: nat, b2: nat, s2: nat)
    requires
        spec_name(b1, s1) == spec_name(b2, s2),
    ensures
        b1 == b2,
        s1 == s2,
{
    lemma_dec_len(b1);
    lemma_dec_len(b2);
    lemma_dec_digits(b1);
    lemma_dec_digits(b2);
    let n1 = spec_name(b1, s1);
    let n2 = spec_name(b2, s2);
    let l1 = spec_dec(b1).len() as int;
    let l2 = spec_dec(b2).len() as int;
    assert(n1[l1] == '-');
    assert(n2[l2] == '-');
    if l1 < l2 {
        assert(n2[l1] == spec_dec(b2)[l1]);
        assert(is_dec_digit(n2[l1]));
        assert(n1[l1] == '-');
        assert(false);
    }
    if l2 < l1 {
        assert(n1[l2] == spec_dec(b1)[l2]);
        assert(is_dec_digit(n1[l2]));
        assert(false);
    }
    assert(l1 == l2);
    assert(spec_dec(b1) =~= n1.subrange(0, l1));
    assert(spec_dec(b2) =~= n2.subrange(0, l2));
    lemma_dec_inj(b1, b2);
    assert(spec_dec(s1) =~= n1.subrange(l1 + 1, n1.len() as int));
    assert(spec_dec(s2) =~= n2.subrange(l2 + 1, n2.len() as int));
    lemma_dec_inj(s1, s2);
}

/// The set of name views occurring in a list of names.
pub open spec fn seq_name_set(v: Seq<String>) -> Set<Seq<char>> {
    Set::new(|k: Seq<char>| exists|i: int| 0 <= i < v.len() && v[i]@ == k)
}

/// Appending one name to a list adds exactly its view to the name set.
pub proof fn lemma_seq_name_set_push(v: Seq<String>, s: String)
    ensures
        seq_name_set(v.push(s)) =~= seq_name_set(v).insert(s@),
{
    assert forall|k: Seq<char>| seq_name_set(v).insert(s@).contains(k) implies seq_name_set(
        v.push(s),
    ).contains(k) by {
        if k == s@ {
            assert(v.push(s)[v.len() as int]@ == k);
        } else {
            let i = choose|i: int| 0 <= i < v.len() && v[i]@ == k;
            assert(v.push(s)[i]@ == k);
        }
    }
}

/// Whether `s` occurs in the list `v` of names.
pub fn contains_name(v: &Vec<String>, s: &String) -> (r: bool)
    ensures
        r == seq_name_set(v@).contains(s@),
{
    let mut i: usize = 0;
    while i < v.len()
        invariant
            0 <= i <= v.len(),
            forall|j: int| 0 <= j < i ==> v@[j]@ != s@,
        decreases v.len() - i,
    {
        if v[i].eq(s) {
            return true;
        }
        i = i + 1;
    }
    false
}

/// The one-character string for digit `d`.
fn digit_str(d: u32) -> (r: &'static str)
    requires
        d < 10,
    ensures
        r@ =~= seq![spec_digit(d as nat)],
{
    proof {
        reveal_strlit("0");
        reveal_strlit("1");
        reveal_strlit("2");
        reveal_strlit("3");
        reveal_strlit("4");
        reveal_strlit("5");
        reveal_strlit("6");
        reveal_strlit("7");
        reveal_strlit("8");
        reveal_strlit("9");
    }
    match d {
        0 => "0",
        1 => "1",
        2 => "2",
        3 => "3",
        4 => "4",
        5 => "5",
        6 => "6",
        7 => "7",
        8 => "8",
        _ => "9",
    }
}

/// Render `n` in decimal.
pub fn render_u32(n: u32) -> (s: String)
    ensures
        s@ == spec_dec(n as nat),
    decreases n,
{
    if n < 10 {
        String::from_str(digit_str(n))
    } else {
        let mut s = render_u32(n / 10);
        s.append(digit_str(n % 10));
        proof {
            assert(s@ =~= spec_dec(n as nat));
        }
        s
    }
}

/// Render the unit name `"{base}-{suffix}"`.
pub fn render_name(base: u32, suffix: u32) -> (s: String)
    ensures
        s@ == spec_name(base as nat, suffix as nat),
{
    proof {
        reveal_strlit("-");
    }
    let mut s = render_u32(base);
    s.append("-");
    let tail = render_u32(suffix);
    s.append(tail.as_str());
    proof {
        assert(("-")@ =~= seq!['-']);
        assert(s@ =~= spec_name(base as nat, suffix as nat));
    }
    s
}

} // verus!
