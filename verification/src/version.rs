//! The identity of one Godot release and its canonical text.

use vstd::prelude::*;
use vstd::string::StringExecFns;
use crate::text::{append_number, decimal_of};

verus! {

/// The host a release artifact is built for.
#[derive(Clone, Copy, Debug, PartialEq, Eq, Hash, Structural)]
pub enum Platform {
    Win32,
    Win64,
    Linux32,
    Linux64,
    Macos,
}

/// The release channel of a version, with the number of the pre-release.
#[derive(Clone, Copy, Debug, PartialEq, Eq, Hash, Structural)]
pub enum Suffix {
    Stable,
    Alpha(u8),
    Beta(u8),
    Rc(u8),
}

/// One buildable artifact: engine version, channel, variant and platform.
/// Two versions are the same only if every field is.
#[derive(Clone, Copy, Debug, PartialEq, Eq, Hash, Structural)]
pub struct Version {
    pub major: u8,
    pub minor: u8,
    pub patch: u8,
    pub suffix: Suffix,
    pub is_mono: bool,
    pub platform: Platform,
}

/// The text `Godot_v` that opens every canonical string.
pub open spec fn prefix_text() -> Seq<char> {
    seq!['G', 'o', 'd', 'o', 't', '_', 'v']
}

/// The text `-alpha` that opens the channel of an alpha release.
pub open spec fn alpha_text() -> Seq<char> {
    seq!['-', 'a', 'l', 'p', 'h', 'a']
}

/// The text `-beta` that opens the channel of a beta release.
pub open spec fn beta_text() -> Seq<char> {
    seq!['-', 'b', 'e', 't', 'a']
}

/// The text `-rc` that opens the channel of a release candidate.
pub open spec fn rc_text() -> Seq<char> {
    seq!['-', 'r', 'c']
}

/// The text `_mono` that marks the Mono variant.
pub open spec fn mono_text() -> Seq<char> {
    seq!['_', 'm', 'o', 'n', 'o']
}

impl Suffix {
    /// The channel as it appears in the canonical string: nothing for a
    /// stable release, else `-alpha`, `-beta` or `-rc` and the number.
    pub open spec fn text(self) -> Seq<char> {
        match self {
            Suffix::Stable => Seq::<char>::empty(),
            Suffix::Alpha(n) => alpha_text() + decimal_of(n as nat),
            Suffix::Beta(n) => beta_text() + decimal_of(n as nat),
            Suffix::Rc(n) => rc_text() + decimal_of(n as nat),
        }
    }

    /// The place of the channel among the four: alpha, beta, release
    /// candidate, stable.
    pub open spec fn rank(self) -> int {
        match self {
            Suffix::Alpha(_) => 0,
            Suffix::Beta(_) => 1,
            Suffix::Rc(_) => 2,
            Suffix::Stable => 3,
        }
    }

    /// The number of the pre-release, zero for a stable release.
    pub open spec fn number(self) -> int {
        match self {
            Suffix::Alpha(n) => n as int,
            Suffix::Beta(n) => n as int,
            Suffix::Rc(n) => n as int,
            Suffix::Stable => 0,
        }
    }
}

impl Suffix {
    fn rank_and_number(&self) -> (r: (u8, u8))
        ensures
            r.0 == self.rank(),
            r.1 == self.number(),
    {
        match *self {
            Suffix::Alpha(n) => (0, n),
            Suffix::Beta(n) => (1, n),
            Suffix::Rc(n) => (2, n),
            Suffix::Stable => (3, 0),
        }
    }
}

impl Version {
    /// The order in which versions are listed: by the three numbers, then by
    /// channel (alpha, beta, release candidate, stable), then by the number
    /// of the pre-release, and last the plain build before the Mono build.
    /// The platform takes no part in it.
    pub open spec fn precedes_spec(self, other: Version) -> bool {
        if self.major != other.major {
            self.major < other.major
        } else if self.minor != other.minor {
            self.minor < other.minor
        } else if self.patch != other.patch {
            self.patch < other.patch
        } else if self.suffix.rank() != other.suffix.rank() {
            self.suffix.rank() < other.suffix.rank()
        } else if self.suffix.number() != other.suffix.number() {
            self.suffix.number() < other.suffix.number()
        } else {
            !self.is_mono && other.is_mono
        }
    }

    /// Whether this version is listed before `other`.
    pub fn precedes(&self, other: &Version) -> (before: bool)
        ensures
            before == self.precedes_spec(*other),
    {
        let (rank, number) = self.suffix.rank_and_number();
        let (other_rank, other_number) = other.suffix.rank_and_number();
        if self.major != other.major {
            self.major < other.major
        } else if self.minor != other.minor {
            self.minor < other.minor
        } else if self.patch != other.patch {
            self.patch < other.patch
        } else if rank != other_rank {
            rank < other_rank
        } else if number != other_number {
            number < other_number
        } else {
            !self.is_mono && other.is_mono
        }
    }

    /// `major.minor.patch` in decimal.
    pub open spec fn number_text(self) -> Seq<char> {
        decimal_of(self.major as nat) + seq!['.'] + decimal_of(self.minor as nat) + seq!['.']
            + decimal_of(self.patch as nat)
    }

    /// The canonical string: `Godot_v`, the three numbers, the channel and
    /// the variant. The platform is not part of it.
    pub open spec fn canonical(self) -> Seq<char> {
        prefix_text() + self.number_text() + self.suffix.text() + if self.is_mono {
            mono_text()
        } else {
            Seq::<char>::empty()
        }
    }

    /// The three numbers of the version, separated by dots.
    pub fn versnum_to_str(&self) -> (s: String)
        ensures
            s@ == self.number_text(),
    {
        let mut s = String::new();
        append_number(&mut s, self.major as u64);
        s.append(".");
        append_number(&mut s, self.minor as u64);
        s.append(".");
        append_number(&mut s, self.patch as u64);
        proof {
            reveal_strlit(".");
            assert("."@ =~= seq!['.']);
            assert(s@ =~= self.number_text());
        }
        s
    }

    /// The canonical string of the version.
    pub fn format(&self) -> (s: String)
        ensures
            s@ == self.canonical(),
    {
        let mut s = String::from_str("Godot_v");
        let number = self.versnum_to_str();
        s.append(number.as_str());
        match self.suffix {
            Suffix::Stable => {},
            Suffix::Alpha(n) => {
                s.append("-alpha");
                append_number(&mut s, n as u64);
            },
            Suffix::Beta(n) => {
                s.append("-beta");
                append_number(&mut s, n as u64);
            },
            Suffix::Rc(n) => {
                s.append("-rc");
                append_number(&mut s, n as u64);
            },
        }
        if self.is_mono {
            s.append("_mono");
        }
        proof {
            reveal_strlit("Godot_v");
            reveal_strlit("-alpha");
            reveal_strlit("-beta");
            reveal_strlit("-rc");
            reveal_strlit("_mono");
            assert("Godot_v"@ =~= prefix_text());
            assert("-alpha"@ =~= alpha_text());
            assert("-beta"@ =~= beta_text());
            assert("-rc"@ =~= rc_text());
            assert("_mono"@ =~= mono_text());
            assert(s@ =~= self.canonical());
        }
        s
    }
}

/// Among versions with the same three numbers the channel decides first:
/// every alpha precedes every beta, every beta every release candidate, and
/// every release candidate the stable release, whatever their pre-release
/// numbers, variants and platforms.
pub proof fn lemma_channel_decides(v: Version, w: Version)
    requires
        v.major == w.major,
        v.minor == w.minor,
        v.patch == w.patch,
        v.suffix.rank() < w.suffix.rank(),
    ensures
        v.precedes_spec(w),
        !w.precedes_spec(v),
{
}

/// The listing order is a strict order: no version precedes itself, and
/// what precedes a predecessor precedes.
pub proof fn lemma_precedes_is_strict(u: Version, v: Version, w: Version)
    ensures
        !v.precedes_spec(v),
        u.precedes_spec(v) && v.precedes_spec(w) ==> u.precedes_spec(w),
        u.precedes_spec(v) ==> !v.precedes_spec(u),
{
}

/// The listing order leaves nothing but the platform undecided: of two
/// versions neither of which precedes the other, all other fields agree.
pub proof fn lemma_precedes_is_total(v: Version, w: Version)
    requires
        !v.precedes_spec(w),
        !w.precedes_spec(v),
    ensures
        v == (Version { platform: v.platform, ..w }),
{
}

} // verus!
