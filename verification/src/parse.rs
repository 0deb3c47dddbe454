//! Conversion between report text and typed numbers.
//!
//! The external tool renders every report field as a string; counts and
//! device numbers are plain decimal text, and sizes are decimal text with
//! a trailing byte-unit letter.  This module holds the specification of
//! those textual forms, executable parsers proved against it, and the
//! formatter that renders a byte count back into the unit-suffixed form
//! that the creation command expects.

use vstd::prelude::*;

verus! {

/// The value of a decimal digit character, or 10 for any other character.
pub open spec fn char_digit(c: char) -> nat {
    if c == '0' {
        0
    } else if c == '1' {
        1
    } else if c == '2' {
        2
    } else if c == '3' {
        3
    } else if c == '4' {
        4
    } else if c == '5' {
        5
    } else if c == '6' {
        6
    } else if c == '7' {
        7
    } else if c == '8' {
        8
    } else if c == '9' {
        9
    } else {
        10
    }
}

/// The decimal digit character for a value below ten.
pub open spec fn digit_char(d: nat) -> char {
    if d == 0 {
        '0'
    } else if d == 1 {
        '1'
    } else if d == 2 {
        '2'
    } else if d == 3 {
        '3'
    } else if d == 4 {
        '4'
    } else if d == 5 {
        '5'
    } else if d == 6 {
        '6'
    } else if d == 7 {
        '7'
    } else if d == 8 {
        '8'
    } else {
        '9'
    }
}

pub open spec fn is_digit(c: char) -> bool {
    char_digit(c) < 10
}

pub open spec fn all_digits(s: Seq<char>) -> bool {
    forall|i: int| 0 <= i < s.len() ==> is_digit(#[trigger] s[i])
}

/// The numeric value of a digit sequence, most significant digit first.
pub open spec fn digits_value(s: Seq<char>) -> nat
    decreases s.len(),
{
    if s.len() == 0 {
        0
    } else {
        digits_value(s.drop_last()) * 10 + char_digit(s.last())
    }
}

/// What generic string-to-number conversion accepts: a non-empty run of
/// decimal digits, and nothing else.  A leading plus sign is not part
/// of this grammar: the external tool renders counts, device numbers
/// and sizes as bare digits, the latter with only the unit suffix.
pub open spec fn spec_parse_nat(s: Seq<char>) -> Option<nat> {
    if s.len() > 0 && all_digits(s) {
        Some(digits_value(s))
    } else {
        None
    }
}

pub open spec fn spec_parse_u64(s: Seq<char>) -> Option<u64> {
    match spec_parse_nat(s) {
        Some(v) => if v <= u64::MAX {
            Some(v as u64)
        } else {
            None
        },
        None => None,
    }
}

pub open spec fn spec_parse_u32(s: Seq<char>) -> Option<u32> {
    match spec_parse_nat(s) {
        Some(v) => if v <= u32::MAX {
            Some(v as u32)
        } else {
            None
        },
        None => None,
    }
}

/// A signed value is an optional leading minus sign followed by digits.
pub open spec fn spec_parse_i32(s: Seq<char>) -> Option<i32> {
    if s.len() > 0 && s[0] == '-' {
        match spec_parse_nat(s.skip(1)) {
            Some(v) => if v <= 0x8000_0000 {
                Some((-(v as int)) as i32)
            } else {
                None
            },
            None => None,
        }
    } else {
        match spec_parse_nat(s) {
            Some(v) => if v <= i32::MAX {
                Some(v as i32)
            } else {
                None
            },
            None => None,
        }
    }
}

/// Unit stripping removes every occurrence of the byte-unit letter.
pub open spec fn strip_unit(s: Seq<char>) -> Seq<char> {
    s.filter(|c: char| c != 'B')
}

/// A size field parses by stripping the unit letter, then converting.
pub open spec fn spec_parse_size(s: Seq<char>) -> Option<u64> {
    spec_parse_u64(strip_unit(s))
}

/// The decimal rendering of a number, without leading zeros (a single
/// zero for the number zero).
pub open spec fn spec_digits_of(n: nat) -> Seq<char>
    decreases n,
{
    if n < 10 {
        seq![digit_char(n)]
    } else {
        spec_digits_of(n / 10).push(digit_char(n % 10))
    }
}

/// The unit-suffixed rendering handed to the external creation command.
pub open spec fn spec_size_string(n: nat) -> Seq<char> {
    spec_digits_of(n).push('B')
}

proof fn lemma_digits_value_append(a: Seq<char>, b: Seq<char>)
    ensures
        digits_value(a + b) >= digits_value(a),
    decreases b.len(),
{
    if b.len() == 0 {
        assert(a + b =~= a);
    } else {
        assert((a + b).drop_last() =~= a + b.drop_last());
        lemma_digits_value_append(a, b.drop_last());
    }
}

proof fn lemma_digits_value_push(x: Seq<char>, c: char)
    ensures
        digits_value(x.push(c)) == digits_value(x) * 10 + char_digit(c),
{
    assert(x.push(c).drop_last() =~= x);
    assert(x.push(c).last() == c);
}

proof fn lemma_digits_value_take_step(s: Seq<char>, i: int)
    requires
        0 <= i < s.len(),
    ensures
        digits_value(s.take(i + 1)) == digits_value(s.take(i)) * 10 + char_digit(s[i]),
{
    assert(s.take(i + 1).drop_last() =~= s.take(i));
    assert(s.take(i + 1).last() == s[i]);
}

proof fn lemma_digits_value_prefix_le(s: Seq<char>, i: int)
    requires
        0 <= i <= s.len(),
    ensures
        digits_value(s.take(i)) <= digits_value(s),
{
    assert(s =~= s.take(i) + s.skip(i));
    lemma_digits_value_append(s.take(i), s.skip(i));
}

/// Parses a non-empty all-digit string into a 64-bit unsigned value;
/// anything else, including a value past the type's range, is `None`.
pub fn parse_u64(s: &str) -> (r: Option<u64>)
    ensures
        r == spec_parse_u64(s@),
{
    let n: usize = s.unicode_len();
    if n == 0 {
        return None;
    }
    let mut acc: u64 = 0;
    let mut i: usize = 0;
    while i < n
        invariant
            0 < n == s@.len(),
            i <= n,
            all_digits(s@.take(i as int)),
            acc == digits_value(s@.take(i as int)),
        decreases n - i,
    {
        let c = s.get_char(i);
        let d: u64 = if c == '0' {
            0
        } else if c == '1' {
            1
        } else if c == '2' {
            2
        } else if c == '3' {
            3
        } else if c == '4' {
            4
        } else if c == '5' {
            5
        } else if c == '6' {
            6
        } else if c == '7' {
            7
        } else if c == '8' {
            8
        } else if c == '9' {
            9
        } else {
            proof {
                assert(!is_digit(s@[i as int]));
            }
            return None;
        };
        proof {
            assert(char_digit(s@[i as int]) == d);
            lemma_digits_value_take_step(s@, i as int);
        }
        let next: u64 = match acc.checked_mul(10) {
            Some(m) => match m.checked_add(d) {
                Some(a) => a,
                None => {
                    proof {
                        lemma_digits_value_prefix_le(s@, i + 1);
                    }
                    return None;
                },
            },
            None => {
                proof {
                    lemma_digits_value_prefix_le(s@, i + 1);
                }
                return None;
            },
        };
        acc = next;
        i = i + 1;
    }
    proof {
        assert(s@.take(n as int) =~= s@);
    }
    Some(acc)
}

/// Parses a non-empty all-digit string into a 32-bit unsigned value.
pub fn parse_u32(s: &str) -> (r: Option<u32>)
    ensures
        r == spec_parse_u32(s@),
{
    match parse_u64(s) {
        Some(v) => {
            if v <= u32::MAX as u64 {
                Some(v as u32)
            } else {
                None
            }
        },
        None => None,
    }
}

/// Parses an optionally negated all-digit string into a 32-bit signed
/// value.
pub fn parse_i32(s: &str) -> (r: Option<i32>)
    ensures
        r == spec_parse_i32(s@),
{
    let n: usize = s.unicode_len();
    if n > 0 && s.get_char(0) == '-' {
        let rest = s.substring_char(1, n);
        proof {
            assert(rest@ =~= s@.skip(1));
        }
        match parse_u64(rest) {
            Some(v) => {
                if v <= 0x7fff_ffff {
                    Some(-(v as i32))
                } else if v == 0x8000_0000 {
                    Some(i32::MIN)
                } else {
                    None
                }
            },
            None => {
                proof {
                    if spec_parse_nat(s@.skip(1)) is Some {
                        let v: nat = spec_parse_nat(s@.skip(1))->Some_0;
                        assert(v <= 0x8000_0000 ==> v <= u64::MAX);
                    }
                }
                None
            },
        }
    } else {
        match parse_u64(s) {
            Some(v) => {
                if v <= i32::MAX as u64 {
                    Some(v as i32)
                } else {
                    None
                }
            },
            None => None,
        }
    }
}

proof fn lemma_filter_singleton(x: char, pred: spec_fn(char) -> bool)
    ensures
        seq![x].filter(pred) == if pred(x) {
            seq![x]
        } else {
            Seq::<char>::empty()
        },
{
    reveal_with_fuel(Seq::filter, 2);
    assert(seq![x].drop_last() =~= Seq::<char>::empty());
}

proof fn lemma_strip_unit_take_step(s: Seq<char>, i: int)
    requires
        0 <= i < s.len(),
    ensures
        s[i] == 'B' ==> strip_unit(s.take(i + 1)) == strip_unit(s.take(i)),
        s[i] != 'B' ==> strip_unit(s.take(i + 1)) == strip_unit(s.take(i)).push(s[i]),
{
    let pred = |c: char| c != 'B';
    assert(s.take(i + 1) =~= s.take(i) + seq![s[i]]);
    Seq::filter_distributes_over_add(s.take(i), seq![s[i]], pred);
    lemma_filter_singleton(s[i], pred);
    if s[i] != 'B' {
        assert(s.take(i).filter(pred) + seq![s[i]] =~= s.take(i).filter(pred).push(s[i]));
    } else {
        assert(s.take(i).filter(pred) + Seq::<char>::empty() =~= s.take(i).filter(pred));
    }
}

/// Parses a unit-suffixed size field: every occurrence of the unit
/// letter is stripped, and what remains must be a non-empty digit run
/// within the 64-bit unsigned range.
pub fn parse_size(s: &str) -> (r: Option<u64>)
    ensures
        r == spec_parse_size(s@),
{
    let n: usize = s.unicode_len();
    let mut acc: u64 = 0;
    let mut any: bool = false;
    let mut i: usize = 0;
    while i < n
        invariant
            n == s@.len(),
            i <= n,
            all_digits(strip_unit(s@.take(i as int))),
            acc == digits_value(strip_unit(s@.take(i as int))),
            any == (strip_unit(s@.take(i as int)).len() > 0),
        decreases n - i,
    {
        let c = s.get_char(i);
        proof {
            lemma_strip_unit_take_step(s@, i as int);
        }
        if c == 'B' {
            i = i + 1;
            continue;
        }
        let d: u64 = if c == '0' {
            0
        } else if c == '1' {
            1
        } else if c == '2' {
            2
        } else if c == '3' {
            3
        } else if c == '4' {
            4
        } else if c == '5' {
            5
        } else if c == '6' {
            6
        } else if c == '7' {
            7
        } else if c == '8' {
            8
        } else if c == '9' {
            9
        } else {
            proof {
                let pred = |c: char| c != 'B';
                Seq::lemma_filter_contains(s@, pred, i as int);
                let stripped = strip_unit(s@);
                let j = choose|j: int| 0 <= j < stripped.len() && stripped[j] == s@[i as int];
                assert(!is_digit(stripped[j]));
            }
            return None;
        };
        proof {
            assert(char_digit(s@[i as int]) == d);
            lemma_digits_value_push(strip_unit(s@.take(i as int)), s@[i as int]);
            assert(digits_value(strip_unit(s@.take(i + 1))) == acc * 10 + d);
        }
        let next: u64 = match acc.checked_mul(10) {
            Some(m) => match m.checked_add(d) {
                Some(a) => a,
                None => {
                    proof {
                        lemma_strip_prefix_value(s@, i + 1);
                    }
                    return None;
                },
            },
            None => {
                proof {
                    lemma_strip_prefix_value(s@, i + 1);
                }
                return None;
            },
        };
        acc = next;
        any = true;
        i = i + 1;
    }
    proof {
        assert(s@.take(n as int) =~= s@);
    }
    if any {
        Some(acc)
    } else {
        None
    }
}

proof fn lemma_strip_prefix_value(s: Seq<char>, i: int)
    requires
        0 <= i <= s.len(),
    ensures
        digits_value(strip_unit(s)) >= digits_value(strip_unit(s.take(i))),
{
    let pred = |c: char| c != 'B';
    assert(s =~= s.take(i) + s.skip(i));
    Seq::filter_distributes_over_add(s.take(i), s.skip(i), pred);
    lemma_digits_value_append(s.take(i).filter(pred), s.skip(i).filter(pred));
}

fn digit_str(d: u64) -> (r: &'static str)
    requires
        d < 10,
    ensures
        r@ == seq![digit_char(d as nat)],
{
    if d == 0 {
        proof {
            reveal_strlit("0");
            assert(("0")@ =~= seq!['0']);
        }
        "0"
    } else if d == 1 {
        proof {
            reveal_strlit("1");
            assert(("1")@ =~= seq!['1']);
        }
        "1"
    } else if d == 2 {
        proof {
            reveal_strlit("2");
            assert(("2")@ =~= seq!['2']);
        }
        "2"
    } else if d == 3 {
        proof {
            reveal_strlit("3");
            assert(("3")@ =~= seq!['3']);
        }
        "3"
    } else if d == 4 {
        proof {
            reveal_strlit("4");
            assert(("4")@ =~= seq!['4']);
        }
        "4"
    } else if d == 5 {
        proof {
            reveal_strlit("5");
            assert(("5")@ =~= seq!['5']);
        }
        "5"
    } else if d == 6 {
        proof {
            reveal_strlit("6");
            assert(("6")@ =~= seq!['6']);
        }
        "6"
    } else if d == 7 {
        proof {
            reveal_strlit("7");
            assert(("7")@ =~= seq!['7']);
        }
        "7"
    } else if d == 8 {
        proof {
            reveal_strlit("8");
            assert(("8")@ =~= seq!['8']);
        }
        "8"
    } else {
        proof {
            reveal_strlit("9");
            assert(("9")@ =~= seq!['9']);
        }
        "9"
    }
}

/// Renders a 64-bit unsigned value in decimal, without leading zeros.
pub fn format_u64(n: u64) -> (r: String)
    ensures
        r@ == spec_digits_of(n as nat),
    decreases n,
{
    if n < 10 {
        String::from_str(digit_str(n))
    } else {
        let mut s = format_u64(n / 10);
        let tail = digit_str(n % 10);
        s.append(tail);
        proof {
            assert(spec_digits_of((n / 10) as nat).push(digit_char((n % 10) as nat)) =~= spec_digits_of(
                (n / 10) as nat,
            ) + seq![digit_char((n % 10) as nat)]);
        }
        s
    }
}

/// Renders a byte count in the unit-suffixed form the external creation
/// command takes, a decimal number immediately followed by the unit
/// letter.
pub fn format_size(n: u64) -> (r: String)
    ensures
        r@ == spec_size_string(n as nat),
{
    let mut s = format_u64(n);
    proof {
        reveal_strlit("B");
        assert(("B")@ =~= seq!['B']);
        assert(spec_digits_of(n as nat).push('B') =~= spec_digits_of(n as nat) + seq!['B']);
    }
    s.append("B");
    s
}

proof fn lemma_spec_digits_of(n: nat)
    ensures
        spec_digits_of(n).len() >= 1,
        all_digits(spec_digits_of(n)),
        digits_value(spec_digits_of(n)) == n,
    decreases n,
{
    if n < 10 {
        assert(digits_value(Seq::<char>::empty()) == 0);
        assert(seq![digit_char(n)].drop_last() =~= Seq::<char>::empty());
        assert(seq![digit_char(n)].last() == digit_char(n));
        assert(char_digit(digit_char(n)) == n);
        assert(digits_value(seq![digit_char(n)]) == n);
    } else {
        lemma_spec_digits_of(n / 10);
        lemma_digits_value_push(spec_digits_of(n / 10), digit_char(n % 10));
        assert(char_digit(digit_char(n % 10)) == n % 10);
        vstd::arithmetic::div_mod::lemma_fundamental_div_mod(n as int, 10);
        assert(digits_value(spec_digits_of(n)) == (n / 10) * 10 + (n % 10));
    }
}

proof fn lemma_strip_unit_digits(s: Seq<char>)
    requires
        all_digits(s),
    ensures
        strip_unit(s) == s,
    decreases s.len(),
{
    let pred = |c: char| c != 'B';
    reveal_with_fuel(Seq::filter, 2);
    if s.len() == 0 {
        assert(s.filter(pred) =~= s);
    } else {
        assert(forall|i: int| 0 <= i < s.drop_last().len() ==> is_digit(#[trigger] s.drop_last()[i]));
        lemma_strip_unit_digits(s.drop_last());
        assert(is_digit(s.last()));
        assert(s.last() != 'B');
        assert(s.drop_last().push(s.last()) =~= s);
    }
}

proof fn lemma_strip_unit_push(s: Seq<char>, c: char)
    ensures
        c == 'B' ==> strip_unit(s.push(c)) == strip_unit(s),
        c != 'B' ==> strip_unit(s.push(c)) == strip_unit(s).push(c),
{
    let pred = |x: char| x != 'B';
    assert(s.push(c) =~= s + seq![c]);
    Seq::filter_distributes_over_add(s, seq![c], pred);
    lemma_filter_singleton(c, pred);
    if c != 'B' {
        assert(s.filter(pred) + seq![c] =~= s.filter(pred).push(c));
    } else {
        assert(s.filter(pred) + Seq::<char>::empty() =~= s.filter(pred));
    }
}

/// Round-trip law for unit stripping: rendering any byte count in the
/// unit-suffixed form and parsing it back through the unit-stripping
/// conversion yields exactly the original count.
pub proof fn lemma_round_trip_unit(n: u64)
    ensures
        spec_parse_size(spec_size_string(n as nat)) == Some(n),
{
    let d = spec_digits_of(n as nat);
    lemma_spec_digits_of(n as nat);
    lemma_strip_unit_push(d, 'B');
    lemma_strip_unit_digits(d);
    assert(strip_unit(spec_size_string(n as nat)) == d);
    assert(spec_parse_u64(d) == Some(n));
}

} // verus!
