//! The numeric semantic version of the MCSMP management protocol.

use vstd::prelude::*;

use crate::text::{
    all_digits, is_digit, lemma_decimal_digits, lemma_parse_decimal_u64, lemma_split_concat,
    lemma_split_without_separator, trim_end, trim_start, chars_of, decimal, is_white_space, parse_u64, parse_u64_spec, push_char, split_chars, split_spec,
    trim, trim_chars,
    u64_to_decimal,
};

verus! {

/// Numeric semantic version of the MCSMP protocol. Pre-release and build
/// suffixes are accepted while parsing but are not retained.
#[derive(Clone, Copy, Debug, Default, PartialEq, Eq, PartialOrd, Ord, Hash, Structural)]
pub struct ProtocolVersion {
    /// Major protocol version component.
    pub major: u64,
    /// Minor protocol version component.
    pub minor: u64,
    /// Patch protocol version component.
    pub patch: u64,
}

/// A parse error returned when a text is not a semantic version in
/// `major.minor.patch` form.
#[derive(Clone, Copy, Debug, PartialEq, Eq, Structural)]
pub struct ProtocolVersionParseError;

/// `a` is the same version as `b` or a later one.
pub open spec fn at_least(a: ProtocolVersion, b: ProtocolVersion) -> bool {
    ||| a.major > b.major
    ||| (a.major == b.major && a.minor > b.minor)
    ||| (a.major == b.major && a.minor == b.minor && a.patch >= b.patch)
}

pub open spec fn is_sign(c: char) -> bool {
    c == '-' || c == '+'
}

/// Index of the first `-` or `+`, or the length when there is none.
pub open spec fn first_sign_index(s: Seq<char>) -> nat
    decreases s.len(),
{
    if s.len() == 0 {
        0
    } else if is_sign(s[0]) {
        0
    } else {
        1 + first_sign_index(s.drop_first())
    }
}

/// The text before any pre-release (`-`) or build (`+`) suffix.
pub open spec fn numeric_part(s: Seq<char>) -> Seq<char> {
    s.take(first_sign_index(s) as int)
}

/// The version written by `text`: optional surrounding whitespace, exactly
/// three dot-separated unsigned integers, then an optional suffix starting
/// with `-` or `+`.
pub open spec fn parse_version_spec(text: Seq<char>) -> Option<ProtocolVersion> {
    let parts = split_spec(numeric_part(trim(text)), '.');
    if parts.len() == 3 && parse_u64_spec(parts[0]) is Some && parse_u64_spec(parts[1]) is Some
        && parse_u64_spec(parts[2]) is Some {
        Some(
            ProtocolVersion {
                major: parse_u64_spec(parts[0]).unwrap(),
                minor: parse_u64_spec(parts[1]).unwrap(),
                patch: parse_u64_spec(parts[2]).unwrap(),
            },
        )
    } else {
        None
    }
}

/// The `major.minor.patch` rendering of a version.
pub open spec fn render_spec(v: ProtocolVersion) -> Seq<char> {
    decimal(v.major as nat) + seq!['.'] + decimal(v.minor as nat) + seq!['.'] + decimal(
        v.patch as nat,
    )
}

proof fn lemma_first_sign_index(s: Seq<char>, i: int)
    requires
        0 <= i <= s.len(),
        forall|j: int| 0 <= j < i ==> !is_sign(#[trigger] s[j]),
        i == s.len() || is_sign(s[i]),
    ensures
        first_sign_index(s) == i,
    decreases i,
{
    if i > 0 {
        let t = s.drop_first();
        assert forall|j: int| 0 <= j < i - 1 implies !is_sign(#[trigger] t[j]) by {
            assert(t[j] == s[j + 1]);
        }
        if i < s.len() {
            assert(t[i - 1] == s[i]);
        }
        lemma_first_sign_index(t, i - 1);
        assert(!is_sign(s[0]));
    }
}

impl ProtocolVersion {
    /// Creates a numeric protocol version.
    pub fn new(major: u64, minor: u64, patch: u64) -> (r: ProtocolVersion)
        ensures
            r == (ProtocolVersion { major, minor, patch }),
    {
        ProtocolVersion { major, minor, patch }
    }

    /// The first known version of MCSMP.
    #[allow(non_snake_case)]
    pub fn V1_0_0() -> (r: ProtocolVersion)
        ensures
            r == (ProtocolVersion { major: 1, minor: 0, patch: 0 }),
    {
        ProtocolVersion::new(1, 0, 0)
    }

    /// The version that added `server/activity` notifications.
    #[allow(non_snake_case)]
    pub fn V1_1_0() -> (r: ProtocolVersion)
        ensures
            r == (ProtocolVersion { major: 1, minor: 1, patch: 0 }),
    {
        ProtocolVersion::new(1, 1, 0)
    }

    /// The version that introduced typed gamerule scalars.
    #[allow(non_snake_case)]
    pub fn V2_0_0() -> (r: ProtocolVersion)
        ensures
            r == (ProtocolVersion { major: 2, minor: 0, patch: 0 }),
    {
        ProtocolVersion::new(2, 0, 0)
    }

    /// The version that made discovery usable before server startup completes.
    #[allow(non_snake_case)]
    pub fn V3_0_0() -> (r: ProtocolVersion)
        ensures
            r == (ProtocolVersion { major: 3, minor: 0, patch: 0 }),
    {
        ProtocolVersion::new(3, 0, 0)
    }

    /// The version that introduced world-upgrade notifications.
    #[allow(non_snake_case)]
    pub fn V3_1_0() -> (r: ProtocolVersion)
        ensures
            r == (ProtocolVersion { major: 3, minor: 1, patch: 0 }),
    {
        ProtocolVersion::new(3, 1, 0)
    }

    /// Returns whether this version is at least `minimum`.
    pub fn is_at_least(self, minimum: ProtocolVersion) -> (r: bool)
        ensures
            r == at_least(self, minimum),
    {
        self.major > minimum.major || (self.major == minimum.major && self.minor > minimum.minor)
            || (self.major == minimum.major && self.minor == minimum.minor && self.patch
            >= minimum.patch)
    }

    /// Parses a semantic version, ignoring surrounding whitespace and an
    /// optional pre-release or build suffix. Returns `None` for an invalid
    /// version string.
    pub fn parse(value: &str) -> (r: Option<ProtocolVersion>)
        ensures
            r == parse_version_spec(value@),
    {
        let cs = chars_of(value);
        let t = trim_chars(cs.as_slice());
        let mut k: usize = 0;
        while k < t.len() && t[k] != '-' && t[k] != '+'
            invariant
                k <= t.len(),
                forall|j: int| 0 <= j < k ==> !is_sign(#[trigger] t@[j]),
            decreases t.len() - k,
        {
            k += 1;
        }
        proof {
            lemma_first_sign_index(t@, k as int);
        }
        let numeric = vstd::slice::slice_subrange(t.as_slice(), 0, k);
        assert(numeric@ =~= numeric_part(trim(value@)));
        let parts = split_chars(numeric, '.');
        if parts.len() != 3 {
            return None;
        }
        let major = parse_u64(parts[0].as_slice());
        let minor = parse_u64(parts[1].as_slice());
        let patch = parse_u64(parts[2].as_slice());
        match (major, minor, patch) {
            (Some(major), Some(minor), Some(patch)) => Some(ProtocolVersion { major, minor, patch }),
            _ => None,
        }
    }

    /// Parses a semantic version, reporting a parse error for an invalid
    /// version string.
    pub fn parse_strict(value: &str) -> (r: Result<ProtocolVersion, ProtocolVersionParseError>)
        ensures
            match r {
                Ok(v) => parse_version_spec(value@) == Some(v),
                Err(_) => parse_version_spec(value@) is None,
            },
    {
        match ProtocolVersion::parse(value) {
            Some(v) => Ok(v),
            None => Err(ProtocolVersionParseError),
        }
    }

    /// Renders the version as `major.minor.patch`.
    pub fn to_text(&self) -> (r: String)
        ensures
            r@ == render_spec(*self),
    {
        let mut r = u64_to_decimal(self.major);
        push_char(&mut r, '.');
        let minor = u64_to_decimal(self.minor);
        crate::text::push_str(&mut r, minor.as_str());
        push_char(&mut r, '.');
        let patch = u64_to_decimal(self.patch);
        crate::text::push_str(&mut r, patch.as_str());
        r
    }
}

impl core::str::FromStr for ProtocolVersion {
    type Err = ProtocolVersionParseError;

    fn from_str(value: &str) -> (r: Result<ProtocolVersion, ProtocolVersionParseError>)
        ensures
            match r {
                Ok(v) => parse_version_spec(value@) == Some(v),
                Err(_) => parse_version_spec(value@) is None,
            },
    {
        ProtocolVersion::parse_strict(value)
    }
}

/// Every version is at least itself.
pub proof fn lemma_at_least_reflexive(a: ProtocolVersion)
    ensures
        at_least(a, a),
{
}

/// "At least" chains: a version at least as new as one at least as new as a
/// third is at least as new as the third.
pub proof fn lemma_at_least_transitive(a: ProtocolVersion, b: ProtocolVersion, c: ProtocolVersion)
    requires
        at_least(a, b),
        at_least(b, c),
    ensures
        at_least(a, c),
{
}

/// Any two versions are comparable, and two versions each at least the other
/// are equal.
pub proof fn lemma_at_least_total(a: ProtocolVersion, b: ProtocolVersion)
    ensures
        at_least(a, b) || at_least(b, a),
        at_least(a, b) && at_least(b, a) ==> a == b,
{
}

proof fn lemma_digits_have_no_dot_or_sign(a: Seq<char>)
    requires
        all_digits(a),
    ensures
        !a.contains('.'),
        forall|j: int| 0 <= j < a.len() ==> !is_sign(#[trigger] a[j]) && !is_white_space(a[j]),
{
    if a.contains('.') {
        let k = choose|k: int| 0 <= k < a.len() && a[k] == '.';
        assert(is_digit(a[k]));
    }
}

/// Reading back the `major.minor.patch` rendering of a version gives the
/// version.
pub proof fn lemma_render_parse_round_trip(v: ProtocolVersion)
    ensures
        parse_version_spec(render_spec(v)) == Some(v),
{
    let a = decimal(v.major as nat);
    let b = decimal(v.minor as nat);
    let c = decimal(v.patch as nat);
    lemma_decimal_digits(v.major as nat);
    lemma_decimal_digits(v.minor as nat);
    lemma_decimal_digits(v.patch as nat);
    lemma_parse_decimal_u64(v.major);
    lemma_parse_decimal_u64(v.minor);
    lemma_parse_decimal_u64(v.patch);
    lemma_digits_have_no_dot_or_sign(a);
    lemma_digits_have_no_dot_or_sign(b);
    lemma_digits_have_no_dot_or_sign(c);
    let r = render_spec(v);
    let ab = a + seq!['.'] + b;
    assert(r =~= ab + seq!['.'] + c);
    assert(r[0] == a[0]);
    assert(r.last() == c.last()) by {
        assert(r[r.len() - 1] == c[c.len() - 1]);
    }
    assert(!is_white_space(a[0]));
    assert(!is_white_space(c[c.len() - 1]));
    assert(trim_start(r) == r);
    assert(trim_end(r) == r);
    assert(trim(r) == r);
    assert forall|j: int| 0 <= j < r.len() implies !is_sign(#[trigger] r[j]) by {
        if j < a.len() {
            assert(r[j] == a[j]);
        } else if j == a.len() {
            assert(r[j] == '.');
        } else if j < a.len() + 1 + b.len() {
            assert(r[j] == b[j - a.len() - 1]);
        } else if j == a.len() + 1 + b.len() {
            assert(r[j] == '.');
        } else {
            assert(r[j] == c[j - a.len() - 2 - b.len()]);
        }
    }
    lemma_first_sign_index(r, r.len() as int);
    assert(numeric_part(r) =~= r);
    lemma_split_concat(ab, c, '.');
    lemma_split_concat(a, b, '.');
    lemma_split_without_separator(a, '.');
    lemma_split_without_separator(b, '.');
    lemma_split_without_separator(c, '.');
    assert(split_spec(r, '.') =~= seq![a, b, c]);
}

} // verus!
