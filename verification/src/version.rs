//! Semantic versions: reading one and holding it against a threshold.

use vstd::prelude::*;
use vstd::string::*;
use crate::text::{
    find_char,
    first_index,
    lines,
    split,
    split_ascii_whitespace,
    split_lines,
    split_on,
    words,
};

verus! {

/// A semantic version, as far as precedence against a release needs it:
/// the three numbers, and whether a pre-release tag follows them.
#[derive(Clone, Copy, Debug, PartialEq, Eq, Structural)]
pub struct Version {
    pub major: u64,
    pub minor: u64,
    pub patch: u64,
    /// A pre-release tag is present; such a version comes before the
    /// release with the same three numbers.
    pub pre_release: bool,
}

pub open spec fn is_digit(c: char) -> bool {
    '0' <= c && c <= '9'
}

/// The number that a digit stands for.
pub open spec fn digit_value(c: char) -> nat {
    (c as int - '0' as int) as nat
}

pub open spec fn all_digits(s: Seq<char>) -> bool {
    forall|i: int| 0 <= i < s.len() ==> is_digit(#[trigger] s[i])
}

/// The number that a sequence of digits writes in base ten.
pub open spec fn decimal(s: Seq<char>) -> nat
    decreases s.len(),
{
    if s.len() == 0 {
        0
    } else {
        decimal(s.drop_last()) * 10 + digit_value(s.last())
    }
}

/// The value of a numeric identifier: digits, not empty, without a leading
/// zero unless it is the single digit zero, and no larger than `u64::MAX`.
pub open spec fn numeric_identifier(s: Seq<char>) -> Option<u64> {
    if s.len() > 0 && all_digits(s) && (s.len() == 1 || s[0] != '0') && decimal(s) <= u64::MAX {
        Some(decimal(s) as u64)
    } else {
        None
    }
}

/// Letters, digits and the hyphen make up identifiers.
pub open spec fn is_identifier_char(c: char) -> bool {
    is_digit(c) || ('a' <= c && c <= 'z') || ('A' <= c && c <= 'Z') || c == '-'
}

/// An identifier of build metadata: not empty, identifier characters only.
pub open spec fn is_build_identifier(s: Seq<char>) -> bool {
    s.len() > 0 && forall|i: int| 0 <= i < s.len() ==> is_identifier_char(#[trigger] s[i])
}

/// An identifier of a pre-release tag: a build identifier that, where it
/// is all digits, has no leading zero.
pub open spec fn is_pre_release_identifier(s: Seq<char>) -> bool {
    is_build_identifier(s) && (all_digits(s) ==> s.len() == 1 || s[0] != '0')
}

/// A tag is a dot-separated list of identifiers.
pub open spec fn is_tag(s: Seq<char>, pre_release: bool) -> bool {
    forall|k: int|
        0 <= k < split(s, '.').len() ==> if pre_release {
            is_pre_release_identifier(#[trigger] split(s, '.')[k])
        } else {
            is_build_identifier(#[trigger] split(s, '.')[k])
        }
}

/// What `s` says as a semantic version: three dot-separated numeric
/// identifiers, then optionally a hyphen and a pre-release tag, then
/// optionally a plus sign and build metadata. `None` where `s` is not of
/// that form.
pub open spec fn parse(s: Seq<char>) -> Option<Version> {
    let plus = first_index(s, '+');
    let main = s.take(plus as int);
    let dash = first_index(main, '-');
    let core = split(main.take(dash as int), '.');
    if (plus < s.len() ==> is_tag(s.skip(plus as int + 1), false)) && (dash < main.len()
        ==> is_tag(main.skip(dash as int + 1), true)) && core.len() == 3 && numeric_identifier(
        core[0],
    ) is Some && numeric_identifier(core[1]) is Some && numeric_identifier(core[2]) is Some {
        Some(
            Version {
                major: numeric_identifier(core[0])->0,
                minor: numeric_identifier(core[1])->0,
                patch: numeric_identifier(core[2])->0,
                pre_release: dash < main.len(),
            },
        )
    } else {
        None
    }
}

impl Version {
    /// The version has the precedence of the release
    /// `major.minor.patch` or a higher one.
    pub open spec fn at_least(self, major: u64, minor: u64, patch: u64) -> bool {
        self.major > major || (self.major == major && (self.minor > minor || (self.minor == minor
            && (self.patch > patch || (self.patch == patch && !self.pre_release)))))
    }

    /// Whether the version is the release `major.minor.patch` or comes
    /// after it in precedence.
    pub fn is_at_least(&self, major: u64, minor: u64, patch: u64) -> (yes: bool)
        ensures
            yes == self.at_least(major, minor, patch),
    {
        if self.major != major {
            self.major > major
        } else if self.minor != minor {
            self.minor > minor
        } else if self.patch != patch {
            self.patch > patch
        } else {
            !self.pre_release
        }
    }
}

/// A longer sequence of digits writes no smaller number than its prefix.
pub proof fn lemma_decimal_grows(s: Seq<char>, i: int)
    requires
        0 <= i <= s.len(),
    ensures
        decimal(s.take(i)) <= decimal(s),
    decreases s.len() - i,
{
    if i == s.len() {
        assert(s.take(i) =~= s);
    } else {
        lemma_decimal_grows(s, i + 1);
        assert(s.take(i + 1).drop_last() =~= s.take(i));
    }
}

/// The value of the digit `c`, or `None` where `c` is no digit.
pub fn digit_of(c: char) -> (d: Option<u64>)
    ensures
        d is Some <==> is_digit(c),
        is_digit(c) ==> d == Some(digit_value(c) as u64) && digit_value(c) <= 9,
{
    if c >= '0' && c <= '9' {
        Some((c as u32 - '0' as u32) as u64)
    } else {
        None
    }
}

/// Reads a numeric identifier.
pub fn parse_number(s: &str) -> (value: Option<u64>)
    ensures
        value == numeric_identifier(s@),
{
    let n: usize = s.unicode_len();
    if n == 0 {
        return None;
    }
    if n > 1 && s.get_char(0) == '0' {
        return None;
    }
    let mut acc: u64 = 0;
    let mut i: usize = 0;
    assert(s@.take(0) =~= Seq::<char>::empty());
    while i < n
        invariant
            i <= n,
            n == s@.len(),
            all_digits(s@.take(i as int)),
            acc == decimal(s@.take(i as int)),
        decreases n - i,
    {
        let c: char = s.get_char(i);
        let ghost next = s@.take(i + 1);
        proof {
            assert(next.drop_last() =~= s@.take(i as int));
            assert(next.last() == c);
            lemma_decimal_grows(s@, i + 1);
        }
        match digit_of(c) {
            None => {
                assert(!is_digit(s@[i as int]));
                return None;
            },
            Some(d) => {
                match acc.checked_mul(10) {
                    None => {
                        return None;
                    },
                    Some(tens) => {
                        match tens.checked_add(d) {
                            None => {
                                return None;
                            },
                            Some(sum) => {
                                acc = sum;
                            },
                        }
                    },
                }
                assert forall|j: int| 0 <= j < next.len() implies is_digit(#[trigger] next[j]) by {
                    if j < i {
                        assert(next[j] == s@.take(i as int)[j]);
                    }
                }
            },
        }
        i = i + 1;
    }
    assert(s@.take(n as int) =~= s@);
    Some(acc)
}

/// Whether `c` may stand in an identifier.
pub fn is_identifier(c: char) -> (yes: bool)
    ensures
        yes == is_identifier_char(c),
{
    (c >= '0' && c <= '9') || (c >= 'a' && c <= 'z') || (c >= 'A' && c <= 'Z') || c == '-'
}

/// Checks one identifier of a tag.
pub fn check_identifier(s: &str, pre_release: bool) -> (ok: bool)
    ensures
        ok == if pre_release {
            is_pre_release_identifier(s@)
        } else {
            is_build_identifier(s@)
        },
{
    let n: usize = s.unicode_len();
    if n == 0 {
        return false;
    }
    let mut digits_only: bool = true;
    let mut i: usize = 0;
    while i < n
        invariant
            i <= n,
            n == s@.len(),
            forall|j: int| 0 <= j < i ==> is_identifier_char(#[trigger] s@[j]),
            digits_only <==> forall|j: int| 0 <= j < i ==> is_digit(#[trigger] s@[j]),
        decreases n - i,
    {
        let c: char = s.get_char(i);
        if !is_identifier(c) {
            return false;
        }
        if !(c >= '0' && c <= '9') {
            digits_only = false;
        }
        i = i + 1;
    }
    if pre_release && digits_only && n > 1 && s.get_char(0) == '0' {
        return false;
    }
    true
}

/// Checks a dot-separated list of identifiers.
pub fn check_tag(s: &str, pre_release: bool) -> (ok: bool)
    ensures
        ok == is_tag(s@, pre_release),
{
    let parts: Vec<String> = split_on(s, '.');
    let mut k: usize = 0;
    while k < parts.len()
        invariant
            k <= parts.len(),
            parts.deep_view() == split(s@, '.'),
            forall|j: int|
                0 <= j < k ==> if pre_release {
                    is_pre_release_identifier(#[trigger] split(s@, '.')[j])
                } else {
                    is_build_identifier(#[trigger] split(s@, '.')[j])
                },
        decreases parts.len() - k,
    {
        assert(parts.deep_view()[k as int] == parts@[k as int]@);
        if !check_identifier(parts[k].as_str(), pre_release) {
            return false;
        }
        k = k + 1;
    }
    true
}

/// Reads a semantic version.
pub fn parse_version(s: &str) -> (version: Option<Version>)
    ensures
        version == parse(s@),
{
    let n: usize = s.unicode_len();
    assert(s@.skip(0) =~= s@);
    let plus: usize = find_char(s, 0, '+');
    let main: &str = s.substring_char(0, plus);
    assert(main@ =~= s@.take(plus as int));
    if plus < n {
        let build: &str = s.substring_char(plus + 1, n);
        assert(build@ =~= s@.skip(plus + 1));
        if !check_tag(build, false) {
            return None;
        }
    }
    let m: usize = main.unicode_len();
    assert(main@.skip(0) =~= main@);
    let dash: usize = find_char(main, 0, '-');
    let numbers: &str = main.substring_char(0, dash);
    assert(numbers@ =~= main@.take(dash as int));
    if dash < m {
        let tag: &str = main.substring_char(dash + 1, m);
        assert(tag@ =~= main@.skip(dash + 1));
        if !check_tag(tag, true) {
            return None;
        }
    }
    let core: Vec<String> = split_on(numbers, '.');
    if core.len() != 3 {
        return None;
    }
    assert(core.deep_view()[0] == core@[0]@);
    assert(core.deep_view()[1] == core@[1]@);
    assert(core.deep_view()[2] == core@[2]@);
    let major: Option<u64> = parse_number(core[0].as_str());
    let minor: Option<u64> = parse_number(core[1].as_str());
    let patch: Option<u64> = parse_number(core[2].as_str());
    match (major, minor, patch) {
        (Some(major), Some(minor), Some(patch)) => Some(
            Version { major, minor, patch, pre_release: dash < m },
        ),
        _ => None,
    }
}

/// The version that a tool names when asked for it: the last word of
/// the first line of its report, as in `nix (Nix) 2.18.1`. `None` where
/// the report has no first line or that line has no word.
pub open spec fn reported_version(report: Seq<char>) -> Option<Seq<char>> {
    if lines(report).len() == 0 {
        None
    } else if words(lines(report)[0]).len() == 0 {
        None
    } else {
        Some(words(lines(report)[0]).last())
    }
}

/// Picks the version out of a tool's report.
pub fn version_in_report(report: &str) -> (version: Option<String>)
    ensures
        version.deep_view() == reported_version(report@),
{
    let all: Vec<String> = split_lines(report);
    if all.len() == 0 {
        return None;
    }
    assert(all.deep_view()[0] == all@[0]@);
    let mut first: Vec<String> = split_ascii_whitespace(all[0].as_str());
    let ghost found = first.deep_view();
    match first.pop() {
        Some(word) => {
            assert(found.last() == word@);
            Some(word)
        },
        None => None,
    }
}

} // verus!
