//! Text helpers: decimal digits, reading a string into characters, comparing
//! strings and joining path segments.

use vstd::prelude::*;
use vstd::string::{StrSliceExecFns, StringExecFns};

verus! {

/// The character that writes the digit `d`, for `d` below ten.
pub open spec fn digit_char(d: int) -> char {
    if d == 0 {
        '0'
    } else if d == 1 {
        '1'
    } else if d == 2 {
        '2'
    } else if d == 3 {
        '3'
    } else if d == 4 {
        '4'
    } else if d == 5 {
        '5'
    } else if d == 6 {
        '6'
    } else if d == 7 {
        '7'
    } else if d == 8 {
        '8'
    } else {
        '9'
    }
}

/// Whether `c` is one of the ten decimal digits.
pub open spec fn is_digit(c: char) -> bool {
    '0' <= c && c <= '9'
}

/// The value of the digit `c`.
pub open spec fn digit_value(c: char) -> int {
    c as int - '0' as int
}

/// The one-character string of a digit.
fn digit_str(d: u8) -> (s: &'static str)
    requires
        d < 10,
    ensures
        s@ == seq![digit_char(d as int)],
{
    proof {
        reveal_strlit("0");
        reveal_strlit("1");
        reveal_strlit("2");
        reveal_strlit("3");
        reveal_strlit("4");
        reveal_strlit("5");
        reveal_strlit("6");
        reveal_strlit("7");
        reveal_strlit("8");
        reveal_strlit("9");
    }
    let s = match d {
        0 => "0",
        1 => "1",
        2 => "2",
        3 => "3",
        4 => "4",
        5 => "5",
        6 => "6",
        7 => "7",
        8 => "8",
        _ => "9",
    };
    assert(s@ =~= seq![digit_char(d as int)]);
    s
}

/// A natural number written in decimal, without leading zeros.
pub open spec fn decimal_of(n: nat) -> Seq<char>
    decreases n,
{
    if n < 10 {
        seq![digit_char(n as int)]
    } else {
        decimal_of(n / 10).push(digit_char((n % 10) as int))
    }
}

/// A number below 256 has one, two or three digits: its hundreds, tens and
/// units, without the leading zeros.
pub proof fn lemma_decimal_of_byte(n: u8)
    ensures
        decimal_of(n as nat) == if n < 10 {
            seq![digit_char(n as int)]
        } else if n < 100 {
            seq![digit_char(n as int / 10), digit_char(n as int % 10)]
        } else {
            seq![
                digit_char(n as int / 100),
                digit_char(n as int / 10 % 10),
                digit_char(n as int % 10),
            ]
        },
{
    reveal_with_fuel(decimal_of, 3);
    if n < 10 {
    } else if n < 100 {
        assert(decimal_of(n as nat) =~= seq![
            digit_char(n as int / 10),
            digit_char(n as int % 10),
        ]);
    } else {
        assert(decimal_of(n as nat) =~= seq![
            digit_char(n as int / 100),
            digit_char(n as int / 10 % 10),
            digit_char(n as int % 10),
        ]);
    }
}

/// Appends `n` in decimal to `out`.
pub fn append_number(out: &mut String, n: u64)
    ensures
        final(out)@ == old(out)@ + decimal_of(n as nat),
{
    let mut digits: Vec<u8> = Vec::new();
    let mut rest: u64 = n;
    while rest >= 10
        invariant
            forall|k: int| 0 <= k < digits.len() ==> digits[k] < 10,
            forall|head: Seq<char>| #[trigger]
                (head + decimal_of(n as nat)) == head + decimal_of(rest as nat) + Seq::new(
                    digits.len() as nat,
                    |k: int| digit_char(digits[digits.len() - 1 - k] as int),
                ),
        decreases rest,
    {
        let ghost before = digits@;
        let ghost whole = rest;
        digits.push((rest % 10) as u8);
        rest = rest / 10;
        proof {
            assert forall|head: Seq<char>| #[trigger]
                (head + decimal_of(n as nat)) == head + decimal_of(rest as nat) + Seq::new(
                    digits.len() as nat,
                    |k: int| digit_char(digits[digits.len() - 1 - k] as int),
                ) by {
                let old_tail = Seq::new(
                    before.len() as nat,
                    |k: int| digit_char(before[before.len() - 1 - k] as int),
                );
                let new_tail = Seq::new(
                    digits.len() as nat,
                    |k: int| digit_char(digits[digits.len() - 1 - k] as int),
                );
                assert(head + decimal_of(n as nat) == head + decimal_of(whole as nat) + old_tail);
                assert(decimal_of(whole as nat) == decimal_of(rest as nat).push(
                    digit_char((whole % 10) as int),
                ));
                assert(new_tail =~= seq![digit_char((whole % 10) as int)] + old_tail);
                assert(head + decimal_of(whole as nat) + old_tail =~= head + decimal_of(
                    rest as nat,
                ) + new_tail);
            }
        }
    }
    out.append(digit_str(rest as u8));
    let ghost start = old(out)@ + decimal_of(rest as nat);
    let mut i: usize = digits.len();
    while i > 0
        invariant
            i <= digits.len(),
            forall|k: int| 0 <= k < digits.len() ==> digits[k] < 10,
            out@ == start + Seq::new(
                (digits.len() - i) as nat,
                |k: int| digit_char(digits[digits.len() - 1 - k] as int),
            ),
        decreases i,
    {
        let ghost written = out@;
        i -= 1;
        out.append(digit_str(digits[i]));
        proof {
            assert(out@ =~= start + Seq::new(
                (digits.len() - i) as nat,
                |k: int| digit_char(digits[digits.len() - 1 - k] as int),
            ));
        }
    }
    proof {
        assert(old(out)@ + decimal_of(n as nat) == start + Seq::new(
            digits.len() as nat,
            |k: int| digit_char(digits[digits.len() - 1 - k] as int),
        ));
    }
}

/// The characters of a string, in order.
pub fn chars_of(s: &str) -> (v: Vec<char>)
    ensures
        v@ == s@,
{
    let mut v: Vec<char> = Vec::new();
    for c in it: s.chars()
        invariant
            it.seq() == s@,
            v@ == it.seq().take(it.index()),
    {
        v.push(c);
    }
    v
}

/// Whether two strings hold the same characters.
pub fn same_text(a: &str, b: &str) -> (eq: bool)
    ensures
        eq == (a@ == b@),
{
    let x = chars_of(a);
    let y = chars_of(b);
    if x.len() != y.len() {
        return false;
    }
    let mut i: usize = 0;
    while i < x.len()
        invariant
            i <= x.len(),
            x.len() == y.len(),
            x@ == a@,
            y@ == b@,
            forall|j: int| 0 <= j < i ==> x@[j] == y@[j],
        decreases x.len() - i,
    {
        if x[i] != y[i] {
            return false;
        }
        i += 1;
    }
    assert(x@ =~= y@);
    true
}

/// `base` and `name` as one path: `name` below `base`, with one `/` between
/// them unless `base` is empty or already ends in one.
pub open spec fn join_spec(base: Seq<char>, name: Seq<char>) -> Seq<char> {
    if base.len() == 0 || base.last() == '/' {
        base + name
    } else {
        base + seq!['/'] + name
    }
}

/// Joins two path segments.
pub fn join(base: &str, name: &str) -> (path: String)
    ensures
        path@ == join_spec(base@, name@),
{
    let b = chars_of(base);
    let mut path = String::from_str(base);
    if b.len() > 0 && b[b.len() - 1] != '/' {
        path.append("/");
        proof {
            reveal_strlit("/");
            assert("/"@ =~= seq!['/']);
        }
    }
    path.append(name);
    path
}

/// The position of the last `/` in `path`, or -1 where it has none.
pub open spec fn last_slash(path: Seq<char>) -> int
    decreases path.len(),
{
    if path.len() == 0 {
        -1
    } else if path.last() == '/' {
        path.len() - 1
    } else {
        last_slash(path.drop_last())
    }
}

/// The directory that holds `path`: what stands before its last `/`, the
/// root itself for a path directly below it, and nothing for a bare name.
pub open spec fn parent_spec(path: Seq<char>) -> Seq<char> {
    let at = last_slash(path);
    if at < 0 {
        Seq::<char>::empty()
    } else if at == 0 {
        seq!['/']
    } else {
        path.take(at)
    }
}

/// The directory that holds `path`.
pub fn parent_of(path: &str) -> (parent: String)
    ensures
        parent@ == parent_spec(path@),
{
    let p = chars_of(path);
    let mut i: usize = p.len();
    proof {
        assert(p@.take(p.len() as int) =~= p@);
    }
    while i > 0 && p[i - 1] != '/'
        invariant
            i <= p.len(),
            last_slash(p@) == last_slash(p@.take(i as int)),
        decreases i,
    {
        proof {
            assert(p@.take(i as int).drop_last() =~= p@.take(i - 1));
        }
        i -= 1;
    }
    if i == 0 {
        String::new()
    } else if i == 1 {
        proof {
            reveal_strlit("/");
            assert("/"@ =~= seq!['/']);
        }
        String::from_str("/")
    } else {
        String::from_str(path.substring_char(0, i - 1))
    }
}

} // verus!
