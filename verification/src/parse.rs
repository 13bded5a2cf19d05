//! Reading a version back from its canonical string.
//!
//! The reader scans the text for the fields of a version and then accepts
//! it only if the version it found formats to exactly that text. What it
//! accepts is therefore canonical by construction; that it accepts every
//! canonical string is proved from the scan.

use vstd::prelude::*;
use crate::error::Error;
use crate::text::{
    chars_of, decimal_of, digit_char, digit_value, is_digit, lemma_decimal_of_byte, same_text,
};
use crate::version::{
    alpha_text, beta_text, mono_text, prefix_text, rc_text, Platform, Suffix, Version,
};

verus! {

/// Whether `word` stands in `text` at `pos`.
spec fn has_at(text: Seq<char>, pos: int, word: Seq<char>) -> bool {
    0 <= pos && pos + word.len() <= text.len() && text.subrange(pos, pos + word.len()) == word
}

/// Whether a digit stands in `text` at `pos`.
spec fn digit_at(text: Seq<char>, pos: int) -> bool {
    0 <= pos < text.len() && is_digit(text[pos])
}

/// The number of up to three digits that begins at `pos`, with the position
/// behind it; none where no digit stands there or the number exceeds 255.
#[verifier::opaque]
spec fn number_at(text: Seq<char>, pos: int) -> Option<(u8, int)> {
    if !digit_at(text, pos) {
        None
    } else if !digit_at(text, pos + 1) {
        Some((digit_value(text[pos]) as u8, pos + 1))
    } else if !digit_at(text, pos + 2) {
        Some(((10 * digit_value(text[pos]) + digit_value(text[pos + 1])) as u8, pos + 2))
    } else {
        let value = 100 * digit_value(text[pos]) + 10 * digit_value(text[pos + 1]) + digit_value(
            text[pos + 2],
        );
        if value <= 255 {
            Some((value as u8, pos + 3))
        } else {
            None
        }
    }
}

/// The channel that begins at `pos`, with the position behind it: a stable
/// release where none of the three words stands there.
spec fn suffix_at(text: Seq<char>, pos: int) -> Option<(Suffix, int)> {
    if has_at(text, pos, alpha_text()) {
        match number_at(text, pos + 6) {
            Some((n, end)) => Some((Suffix::Alpha(n), end)),
            None => None,
        }
    } else if has_at(text, pos, beta_text()) {
        match number_at(text, pos + 5) {
            Some((n, end)) => Some((Suffix::Beta(n), end)),
            None => None,
        }
    } else if has_at(text, pos, rc_text()) {
        match number_at(text, pos + 3) {
            Some((n, end)) => Some((Suffix::Rc(n), end)),
            None => None,
        }
    } else {
        Some((Suffix::Stable, pos))
    }
}

/// The three numbers that begin at `pos`, with dots between them, and the
/// position behind them.
spec fn numbers_at(text: Seq<char>, pos: int) -> Option<(u8, u8, u8, int)> {
    match number_at(text, pos) {
        Some((major, a)) => if has_at(text, a, seq!['.']) {
            match number_at(text, a + 1) {
                Some((minor, b)) => if has_at(text, b, seq!['.']) {
                    match number_at(text, b + 1) {
                        Some((patch, c)) => Some((major, minor, patch, c)),
                        None => None,
                    }
                } else {
                    None
                },
                None => None,
            }
        } else {
            None
        },
        None => None,
    }
}

/// The version that a scan of `text` finds, for the given platform.
spec fn scan(text: Seq<char>, platform: Platform) -> Option<Version> {
    if !has_at(text, 0, prefix_text()) {
        None
    } else {
        match numbers_at(text, 7) {
            Some((major, minor, patch, c)) => match suffix_at(text, c) {
                Some((suffix, d)) => if d == text.len() {
                    Some(Version { major, minor, patch, suffix, is_mono: false, platform })
                } else if has_at(text, d, mono_text()) && d + 5 == text.len() {
                    Some(Version { major, minor, patch, suffix, is_mono: true, platform })
                } else {
                    None
                },
                None => None,
            },
            None => None,
        }
    }
}

fn word_at(text: &Vec<char>, pos: usize, word: &str) -> (found: bool)
    ensures
        found == has_at(text@, pos as int, word@),
{
    let w = chars_of(word);
    if pos > text.len() || w.len() > text.len() - pos {
        return false;
    }
    let mut i: usize = 0;
    while i < w.len()
        invariant
            i <= w.len(),
            pos + w.len() <= text.len(),
            w@ == word@,
            forall|k: int| 0 <= k < i ==> text@[pos + k] == w@[k],
        decreases w.len() - i,
    {
        if text[pos + i] != w[i] {
            proof {
                assert(text@.subrange(pos as int, pos + w.len())[i as int] != w@[i as int]);
            }
            return false;
        }
        i += 1;
    }
    proof {
        assert(text@.subrange(pos as int, pos + w.len()) =~= w@);
    }
    true
}

fn digit_of(text: &Vec<char>, pos: usize) -> (digit: Option<u8>)
    ensures
        match digit {
            Some(d) => digit_at(text@, pos as int) && d == digit_value(text@[pos as int]),
            None => !digit_at(text@, pos as int),
        },
{
    if pos >= text.len() {
        return None;
    }
    let c = text[pos];
    if '0' <= c && c <= '9' {
        Some((c as u32 - '0' as u32) as u8)
    } else {
        None
    }
}

fn read_number(text: &Vec<char>, pos: usize) -> (r: Option<(u8, usize)>)
    requires
        pos <= text.len(),
    ensures
        match r {
            Some((n, end)) => number_at(text@, pos as int) == Some((n, end as int)) && end
                <= text.len(),
            None => number_at(text@, pos as int) is None,
        },
{
    proof {
        reveal(number_at);
    }
    let d0 = match digit_of(text, pos) {
        Some(d) => d,
        None => { return None; },
    };
    let d1 = match digit_of(text, pos + 1) {
        Some(d) => d,
        None => { return Some((d0, pos + 1)); },
    };
    let d2 = match digit_of(text, pos + 2) {
        Some(d) => d,
        None => { return Some((10 * d0 + d1, pos + 2)); },
    };
    let value: u16 = 100 * (d0 as u16) + 10 * (d1 as u16) + (d2 as u16);
    if value <= 255 {
        Some((value as u8, pos + 3))
    } else {
        None
    }
}

fn read_suffix(text: &Vec<char>, pos: usize) -> (r: Option<(Suffix, usize)>)
    requires
        pos <= text.len(),
    ensures
        match r {
            Some((suffix, end)) => suffix_at(text@, pos as int) == Some((suffix, end as int))
                && end <= text.len(),
            None => suffix_at(text@, pos as int) is None,
        },
{
    proof {
        reveal_strlit("-alpha");
        reveal_strlit("-beta");
        reveal_strlit("-rc");
        assert("-alpha"@ =~= alpha_text());
        assert("-beta"@ =~= beta_text());
        assert("-rc"@ =~= rc_text());
    }
    if word_at(text, pos, "-alpha") {
        match read_number(text, pos + 6) {
            Some((n, end)) => Some((Suffix::Alpha(n), end)),
            None => None,
        }
    } else if word_at(text, pos, "-beta") {
        match read_number(text, pos + 5) {
            Some((n, end)) => Some((Suffix::Beta(n), end)),
            None => None,
        }
    } else if word_at(text, pos, "-rc") {
        match read_number(text, pos + 3) {
            Some((n, end)) => Some((Suffix::Rc(n), end)),
            None => None,
        }
    } else {
        Some((Suffix::Stable, pos))
    }
}

fn read_numbers(text: &Vec<char>, pos: usize) -> (r: Option<(u8, u8, u8, usize)>)
    requires
        pos <= text.len(),
    ensures
        match r {
            Some((major, minor, patch, end)) => numbers_at(text@, pos as int) == Some(
                (major, minor, patch, end as int),
            ) && end <= text.len(),
            None => numbers_at(text@, pos as int) is None,
        },
{
    proof {
        reveal_strlit(".");
        assert("."@ =~= seq!['.']);
    }
    let (major, a) = match read_number(text, pos) {
        Some(found) => found,
        None => { return None; },
    };
    if !word_at(text, a, ".") {
        return None;
    }
    let (minor, b) = match read_number(text, a + 1) {
        Some(found) => found,
        None => { return None; },
    };
    if !word_at(text, b, ".") {
        return None;
    }
    match read_number(text, b + 1) {
        Some((patch, c)) => Some((major, minor, patch, c)),
        None => None,
    }
}

fn read_version(text: &Vec<char>, platform: Platform) -> (r: Option<Version>)
    ensures
        r == scan(text@, platform),
{
    proof {
        reveal_strlit("Godot_v");
        reveal_strlit("_mono");
        assert("Godot_v"@ =~= prefix_text());
        assert("_mono"@ =~= mono_text());
    }
    if !word_at(text, 0, "Godot_v") {
        return None;
    }
    let (major, minor, patch, c) = match read_numbers(text, 7) {
        Some(found) => found,
        None => { return None; },
    };
    let (suffix, d) = match read_suffix(text, c) {
        Some(found) => found,
        None => { return None; },
    };
    if d == text.len() {
        Some(Version { major, minor, patch, suffix, is_mono: false, platform })
    } else if word_at(text, d, "_mono") && text.len() - d == 5 {
        Some(Version { major, minor, patch, suffix, is_mono: true, platform })
    } else {
        None
    }
}

/// A number written in decimal is read back, whatever stands before it, as
/// long as no digit follows it.
proof fn lemma_number_at(before: Seq<char>, n: u8, after: Seq<char>)
    requires
        after.len() == 0 || !is_digit(after[0]),
    ensures
        number_at(before + decimal_of(n as nat) + after, before.len() as int) == Some(
            (n, (before.len() + decimal_of(n as nat).len()) as int),
        ),
        1 <= decimal_of(n as nat).len() <= 3,
{
    reveal(number_at);
    lemma_decimal_of_byte(n);
    let text = before + decimal_of(n as nat) + after;
    let pos = before.len() as int;
    let digits = decimal_of(n as nat);
    assert forall|i: int| 0 <= i < digits.len() implies text[pos + i] == digits[i] by {}
    if after.len() > 0 {
        assert(text[pos + digits.len()] == after[0]);
    }
    assert forall|d: int| 0 <= d < 10 implies is_digit(#[trigger] digit_char(d)) && digit_value(
        digit_char(d),
    ) == d by {}
    if n < 10 {
        assert(text[pos] == digit_char(n as int));
    } else if n < 100 {
        assert(text[pos] == digit_char(n as int / 10));
        assert(text[pos + 1] == digit_char(n as int % 10));
    } else {
        assert(text[pos] == digit_char(n as int / 100));
        assert(text[pos + 1] == digit_char(n as int / 10 % 10));
        assert(text[pos + 2] == digit_char(n as int % 10));
    }
}

/// The three numbers of a version are read back from their text.
proof fn lemma_numbers_at(before: Seq<char>, v: Version, after: Seq<char>)
    requires
        after.len() == 0 || !is_digit(after[0]),
    ensures
        numbers_at(before + v.number_text() + after, before.len() as int) == Some(
            (v.major, v.minor, v.patch, (before.len() + v.number_text().len()) as int),
        ),
{
    let dot = seq!['.'];
    let text = before + v.number_text() + after;
    let a: int = (before.len() + decimal_of(v.major as nat).len()) as int;
    let b: int = a + 1 + decimal_of(v.minor as nat).len();
    let after_major = dot + decimal_of(v.minor as nat) + dot + decimal_of(v.patch as nat)
        + after;
    let after_minor = dot + decimal_of(v.patch as nat) + after;
    assert(text =~= before + decimal_of(v.major as nat) + after_major);
    lemma_number_at(before, v.major, after_major);
    assert(text.subrange(a, a + 1) =~= dot);
    let to_minor = before + decimal_of(v.major as nat) + dot;
    assert(text =~= to_minor + decimal_of(v.minor as nat) + after_minor);
    lemma_number_at(to_minor, v.minor, after_minor);
    assert(text.subrange(b, b + 1) =~= dot);
    let to_patch = to_minor + decimal_of(v.minor as nat) + dot;
    assert(text =~= to_patch + decimal_of(v.patch as nat) + after);
    lemma_number_at(to_patch, v.patch, after);
}

/// A channel is read back from its text, where the variant mark or nothing
/// follows it.
proof fn lemma_suffix_at(before: Seq<char>, suffix: Suffix, is_mono: bool)
    ensures
        ({
            let after = if is_mono {
                mono_text()
            } else {
                Seq::<char>::empty()
            };
            suffix_at(before + suffix.text() + after, before.len() as int) == Some(
                (suffix, (before.len() + suffix.text().len()) as int),
            )
        }),
{
    let after = if is_mono {
        mono_text()
    } else {
        Seq::<char>::empty()
    };
    let text = before + suffix.text() + after;
    let pos = before.len() as int;
    match suffix {
        Suffix::Stable => {
            if is_mono {
                assert(text[pos] == '_');
            }
            if has_at(text, pos, alpha_text()) {
                assert(text.subrange(pos, pos + 6)[0] == '-');
            }
            if has_at(text, pos, beta_text()) {
                assert(text.subrange(pos, pos + 5)[0] == '-');
            }
            if has_at(text, pos, rc_text()) {
                assert(text.subrange(pos, pos + 3)[0] == '-');
            }
        },
        Suffix::Alpha(n) => {
            assert(text.subrange(pos, pos + 6) =~= alpha_text());
            assert(text =~= (before + alpha_text()) + decimal_of(n as nat) + after);
            lemma_number_at(before + alpha_text(), n, after);
        },
        Suffix::Beta(n) => {
            assert(text[pos + 1] == 'b');
            if has_at(text, pos, alpha_text()) {
                assert(text.subrange(pos, pos + 6)[1] == 'a');
            }
            assert(text.subrange(pos, pos + 5) =~= beta_text());
            assert(text =~= (before + beta_text()) + decimal_of(n as nat) + after);
            lemma_number_at(before + beta_text(), n, after);
        },
        Suffix::Rc(n) => {
            assert(text[pos + 1] == 'r');
            if has_at(text, pos, alpha_text()) {
                assert(text.subrange(pos, pos + 6)[1] == 'a');
            }
            if has_at(text, pos, beta_text()) {
                assert(text.subrange(pos, pos + 5)[1] == 'b');
            }
            assert(text.subrange(pos, pos + 3) =~= rc_text());
            assert(text =~= (before + rc_text()) + decimal_of(n as nat) + after);
            lemma_number_at(before + rc_text(), n, after);
        },
    }
}

/// Scanning the canonical string of a version finds that version.
proof fn lemma_scan_canonical(v: Version, platform: Platform)
    ensures
        scan(v.canonical(), platform) == Some(Version { platform, ..v }),
{
    let text = v.canonical();
    let mono = if v.is_mono {
        mono_text()
    } else {
        Seq::<char>::empty()
    };
    let tail = v.suffix.text() + mono;
    assert(text.subrange(0, 7) =~= prefix_text());
    assert(text =~= prefix_text() + v.number_text() + tail);
    assert(tail.len() == 0 || !is_digit(tail[0])) by {
        match v.suffix {
            Suffix::Stable => {
                assert(tail =~= mono);
            },
            _ => {
                assert(tail[0] == '-');
            },
        }
    }
    lemma_numbers_at(prefix_text(), v, tail);
    let c: int = (7 + v.number_text().len()) as int;
    let head = prefix_text() + v.number_text();
    assert(text =~= head + v.suffix.text() + mono);
    lemma_suffix_at(head, v.suffix, v.is_mono);
    let d: int = c + v.suffix.text().len();
    if v.is_mono {
        assert(text.subrange(d, d + 5) =~= mono_text());
    }
}

/// The canonical string determines every field of a version but the
/// platform, which it does not hold: two versions with the same canonical
/// string differ in nothing else.
pub proof fn lemma_canonical_is_injective(v: Version, w: Version)
    requires
        v.canonical() == w.canonical(),
    ensures
        v == (Version { platform: v.platform, ..w }),
{
    lemma_scan_canonical(v, v.platform);
    lemma_scan_canonical(w, v.platform);
}

impl Version {
    /// Reads the canonical string of a version built for `platform`. It is
    /// the inverse of `format`: every canonical string gives its version
    /// back, and every other text is refused.
    pub fn parse(text: &str, platform: Platform) -> (r: Result<Version, Error>)
        ensures
            forall|v: Version| #[trigger]
                v.canonical() == text@ ==> r == Ok::<Version, Error>(Version { platform, ..v }),
            r is Ok ==> r->Ok_0.canonical() == text@ && r->Ok_0.platform == platform,
            r is Err ==> r->Err_0 == Error::Format && forall|v: Version| #[trigger]
                v.canonical() != text@,
    {
        let chars = chars_of(text);
        let found = read_version(&chars, platform);
        proof {
            assert forall|v: Version| #[trigger] v.canonical() == text@ implies found == Some(
                Version { platform, ..v },
            ) by {
                lemma_scan_canonical(v, platform);
            }
        }
        match found {
            Some(version) => {
                let again = version.format();
                if same_text(again.as_str(), text) {
                    Ok(version)
                } else {
                    Err(Error::Format)
                }
            },
            None => Err(Error::Format),
        }
    }
}

} // verus!
