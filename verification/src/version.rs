//! Version handling for the updater: normalising version strings,
//! parsing them through the semver grammar, and comparing them by
//! semantic-versioning precedence (build metadata plays no part in
//! precedence).

use vstd::prelude::*;
use crate::strutil::{spec_dec, spec_lower, spec_match_at, spec_starts_with};
use crate::update_types::{GitHubRelease, UpdateStorage};

verus! {

/// Why a version operation failed.
#[derive(Debug)]
pub enum VersionError {
    /// The text is not a version in any accepted form, described.
    InvalidFormat(String),
    /// The semver grammar refused the text, described.
    SemverParseError(String),
    /// Two versions could not be compared, described.
    ComparisonFailed(String),
}

/// A version parsed into its semver parts: the numeric triple and the
/// pre-release identifiers (empty for a stable release). Build metadata
/// is dropped: it has no precedence.
pub struct SemVerParts {
    pub major: u64,
    pub minor: u64,
    pub patch: u64,
    pub pre: String,
}

/// What the semver grammar makes of a version string: its numeric
/// triple and pre-release text, or nothing. A pure function of the
/// string.
pub uninterp spec fn spec_semver_key(s: Seq<char>) -> Option<(u64, u64, u64, Seq<char>)>;

/// Relies on `semver::Version::parse`: the parse is a pure function of
/// the text, and the `major`, `minor`, `patch` and `pre` components are
/// taken verbatim from the parsed version.
#[verifier::external_body]
fn parse_semver_str(s: &str) -> (r: Option<SemVerParts>)
    ensures
        match r {
            None => spec_semver_key(s@) is None,
            Some(p) => spec_semver_key(s@) == Some((p.major, p.minor, p.patch, p.pre@)),
        },
{
    semver::Version::parse(s).ok().map(
        |v| SemVerParts {
            major: v.major,
            minor: v.minor,
            patch: v.patch,
            pre: v.pre.as_str().to_string(),
        },
    )
}

/// ASCII whitespace, as trimming recognises it.
pub open spec fn spec_ws(c: char) -> bool {
    c == ' ' || c == '\t' || c == '\n' || c == '\r'
}

/// The first index at or after `i` that is not whitespace.
pub open spec fn spec_trim_start(s: Seq<char>, i: int) -> int
    decreases s.len() - i when 0 <= i <= s.len()
{
    if i < s.len() && spec_ws(s[i]) {
        spec_trim_start(s, i + 1)
    } else {
        i
    }
}

/// The last index at or before `i` above which everything is whitespace.
pub open spec fn spec_trim_end(s: Seq<char>, i: int) -> int
    decreases i when 0 <= i <= s.len()
{
    if i > 0 && spec_ws(s[i - 1]) {
        spec_trim_end(s, i - 1)
    } else {
        i
    }
}

/// The first position at or after `i` holding the character, if any.
pub open spec fn spec_find(s: Seq<char>, c: char, i: int) -> Option<int>
    decreases s.len() - i when 0 <= i <= s.len()
{
    if i >= s.len() {
        None
    } else if s[i] == c {
        Some(i)
    } else {
        spec_find(s, c, i + 1)
    }
}

fn find_char(s: &[char], c: char, i: usize) -> (r: Option<usize>)
    requires
        i <= s@.len(),
    ensures
        match r {
            None => spec_find(s@, c, i as int) is None,
            Some(k) => spec_find(s@, c, i as int) == Some(k as int) && i <= k < s@.len(),
        },
    decreases s@.len() - i,
{
    if i >= s.len() {
        None
    } else if s[i] == c {
        Some(i)
    } else {
        find_char(s, c, i + 1)
    }
}

/// Every occurrence of `from` replaced by `to`, scanning left to right
/// without overlap, from index `i` on.
pub open spec fn spec_replace_from(s: Seq<char>, from: Seq<char>, to: Seq<char>, i: int) -> Seq<
    char,
>
    decreases s.len() - i when 0 <= i <= s.len() && from.len() > 0
{
    if i >= s.len() {
        Seq::empty()
    } else if spec_match_at(s, i, from) {
        to + spec_replace_from(s, from, to, i + from.len())
    } else {
        seq![s[i]] + spec_replace_from(s, from, to, i + 1)
    }
}

fn push_replaced(s: &[char], from: &[char], to: &[char], i: usize, out: &mut Vec<char>)
    requires
        i <= s@.len(),
        from@.len() > 0,
    ensures
        final(out)@ == old(out)@ + spec_replace_from(s@, from@, to@, i as int),
    decreases s@.len() - i,
{
    if i >= s.len() {
        proof {
            assert(final(out)@ =~= old(out)@ + spec_replace_from(s@, from@, to@, i as int));
        }
    } else {
        let slen: usize = s.len();
        let matched = if from.len() <= slen - i {
            crate::strutil::chars_match_at(s, i, from)
        } else {
            proof {
                assert(!spec_match_at(s@, i as int, from@));
            }
            false
        };
        if matched {
            let mut t: Vec<char> = Vec::new();
            t.extend_from_slice(to);
            out.append(&mut t);
            push_replaced(s, from, to, i + from.len(), out);
            proof {
                assert(final(out)@ =~= old(out)@ + spec_replace_from(s@, from@, to@, i as int));
            }
        } else {
            out.push(s[i]);
            push_replaced(s, from, to, i + 1, out);
            proof {
                assert(final(out)@ =~= old(out)@ + spec_replace_from(s@, from@, to@, i as int));
            }
        }
    }
}

/// The suffix part of normalisation: dashes become dots, then the bare
/// `beta`/`alpha`/`rc` words (case folded) gain a `.1`, dotted ones get
/// their leading dot turned back into a dash.
pub open spec fn spec_normalize_suffix(dotted: Seq<char>) -> Seq<char> {
    let lower = spec_lower(dotted);
    if lower == ".beta"@ {
        "-beta.1"@
    } else if lower == ".alpha"@ {
        "-alpha.1"@
    } else if lower == ".rc"@ {
        "-rc.1"@
    } else if spec_starts_with(lower, ".beta."@) {
        spec_replace_from(lower, ".beta."@, "-beta."@, 0)
    } else if spec_starts_with(lower, ".alpha."@) {
        spec_replace_from(lower, ".alpha."@, "-alpha."@, 0)
    } else if spec_starts_with(lower, ".rc."@) {
        spec_replace_from(lower, ".rc."@, "-rc."@, 0)
    } else {
        dotted
    }
}

/// The normalised form of a version string: trimmed, a leading `v` or
/// `V` dropped, and from the first dash on, the suffix normalised.
pub open spec fn spec_normalize(s: Seq<char>) -> Seq<char> {
    let a = spec_trim_start(s, 0);
    let b = spec_trim_end(s, s.len() as int);
    let t = if a <= b {
        s.subrange(a, b)
    } else {
        Seq::empty()
    };
    let u = if t.len() > 0 && (t[0] == 'v' || t[0] == 'V') {
        t.drop_first()
    } else {
        t
    };
    match spec_find(u, '-', 0) {
        None => u,
        Some(d) => u.subrange(0, d) + spec_normalize_suffix(spec_replace_from(u, "-"@, "."@, d)),
    }
}

/// Manages version parsing and comparison.
pub struct VersionManager {
}

impl VersionManager {
    /// Normalises a version string into semver-compatible form.
    pub fn normalize_version(version: &str) -> (r: String)
        ensures
            r@ == spec_normalize(version@),
    {
        let cs = crate::strutil::str_to_chars(version);
        let s = cs.as_slice();
        let slen: usize = s.len();
        let mut a: usize = 0;
        while a < slen && (s[a] == ' ' || s[a] == '\t' || s[a] == '\n' || s[a] == '\r')
            invariant
                slen == s@.len(),
                a <= slen,
                spec_trim_start(s@, 0) == spec_trim_start(s@, a as int),
            decreases slen - a,
        {
            a = a + 1;
        }
        let mut b: usize = slen;
        while b > 0 && (s[b - 1] == ' ' || s[b - 1] == '\t' || s[b - 1] == '\n' || s[b - 1] == '\r')
            invariant
                slen == s@.len(),
                b <= slen,
                spec_trim_end(s@, slen as int) == spec_trim_end(s@, b as int),
            decreases b,
        {
            b = b - 1;
        }
        proof {
            assert(spec_trim_start(s@, a as int) == a);
            assert(spec_trim_end(s@, b as int) == b);
        }
        let mut t: Vec<char> = Vec::new();
        if a <= b {
            let mut i: usize = a;
            while i < b
                invariant
                    a <= b <= s@.len(),
                    a <= i <= b,
                    slen == s@.len(),
                    t@ == s@.subrange(a as int, i as int),
                decreases b - i,
            {
                t.push(s[i]);
                proof {
                    assert(t@ =~= s@.subrange(a as int, i + 1));
                }
                i = i + 1;
            }
        }
        let trimmed_is_v = t.len() > 0 && (t[0] == 'v' || t[0] == 'V');
        let mut u: Vec<char> = Vec::new();
        if trimmed_is_v {
            let mut i: usize = 1;
            while i < t.len()
                invariant
                    1 <= i <= t@.len(),
                    u@ == t@.subrange(1, i as int),
                decreases t@.len() - i,
            {
                u.push(t[i]);
                proof {
                    assert(u@ =~= t@.subrange(1, i + 1));
                }
                i = i + 1;
            }
            proof {
                assert(u@ =~= t@.drop_first());
            }
        } else {
            let mut i: usize = 0;
            while i < t.len()
                invariant
                    i <= t@.len(),
                    u@ == t@.subrange(0, i as int),
                decreases t@.len() - i,
            {
                u.push(t[i]);
                proof {
                    assert(u@ =~= t@.subrange(0, i + 1));
                }
                i = i + 1;
            }
            proof {
                assert(u@ =~= t@);
            }
        }
        match find_char(u.as_slice(), '-', 0) {
            None => crate::strutil::chars_to_string(&u),
            Some(d) => {
                let mut base: Vec<char> = Vec::new();
                let mut i: usize = 0;
                while i < d
                    invariant
                        d < u@.len(),
                        i <= d,
                        base@ == u@.subrange(0, i as int),
                    decreases d - i,
                {
                    base.push(u[i]);
                    proof {
                        assert(base@ =~= u@.subrange(0, i + 1));
                    }
                    i = i + 1;
                }
                let dash = ['-'];
                let dot = ['.'];
                let mut dotted: Vec<char> = Vec::new();
                push_replaced(u.as_slice(), &dash, &dot, d, &mut dotted);
                proof {
                    assert(dash@ =~= "-"@) by {
                        reveal_strlit("-");
                    }
                    assert(dot@ =~= "."@) by {
                        reveal_strlit(".");
                    }
                    assert(dotted@ == spec_replace_from(u@, "-"@, "."@, d as int));
                }
                let suffix = Self::normalize_suffix(&dotted);
                let mut out = base;
                let mut sfx = suffix;
                out.append(&mut sfx);
                crate::strutil::chars_to_string(&out)
            },
        }
    }

    fn normalize_suffix(dotted: &Vec<char>) -> (r: Vec<char>)
        ensures
            r@ == spec_normalize_suffix(dotted@),
    {
        proof {
            reveal_strlit(".beta.");
            reveal_strlit(".alpha.");
            reveal_strlit(".rc.");
        }
        let lower = crate::strutil::lower_chars(dotted.as_slice());
        let beta = crate::strutil::str_to_chars(".beta");
        let alpha = crate::strutil::str_to_chars(".alpha");
        let rc = crate::strutil::str_to_chars(".rc");
        let beta_dot = crate::strutil::str_to_chars(".beta.");
        let alpha_dot = crate::strutil::str_to_chars(".alpha.");
        let rc_dot = crate::strutil::str_to_chars(".rc.");
        if Self::chars_eq(lower.as_slice(), beta.as_slice()) {
            crate::strutil::str_to_chars("-beta.1")
        } else if Self::chars_eq(lower.as_slice(), alpha.as_slice()) {
            crate::strutil::str_to_chars("-alpha.1")
        } else if Self::chars_eq(lower.as_slice(), rc.as_slice()) {
            crate::strutil::str_to_chars("-rc.1")
        } else if crate::strutil::chars_start_with(lower.as_slice(), beta_dot.as_slice()) {
            let to = crate::strutil::str_to_chars("-beta.");
            let mut out: Vec<char> = Vec::new();
            push_replaced(lower.as_slice(), beta_dot.as_slice(), to.as_slice(), 0, &mut out);
            out
        } else if crate::strutil::chars_start_with(lower.as_slice(), alpha_dot.as_slice()) {
            let to = crate::strutil::str_to_chars("-alpha.");
            let mut out: Vec<char> = Vec::new();
            push_replaced(lower.as_slice(), alpha_dot.as_slice(), to.as_slice(), 0, &mut out);
            out
        } else if crate::strutil::chars_start_with(lower.as_slice(), rc_dot.as_slice()) {
            let to = crate::strutil::str_to_chars("-rc.");
            let mut out: Vec<char> = Vec::new();
            push_replaced(lower.as_slice(), rc_dot.as_slice(), to.as_slice(), 0, &mut out);
            out
        } else {
            let mut out: Vec<char> = Vec::new();
            out.extend_from_slice(dotted.as_slice());
            out
        }
    }

    fn chars_eq(a: &[char], b: &[char]) -> (r: bool)
        ensures
            r == (a@ == b@),
    {
        if a.len() != b.len() {
            return false;
        }
        let r = crate::strutil::chars_match_at(a, 0, b);
        proof {
            if r {
                assert(a@.subrange(0, b@.len() as int) =~= a@);
            }
            if a@ == b@ {
                assert(a@.subrange(0, b@.len() as int) =~= b@);
            }
        }
        r
    }
}

/// A decimal digit.
pub open spec fn spec_digit(c: char) -> bool {
    '0' <= c && c <= '9'
}

/// A numeric pre-release identifier: non-empty, digits only.
pub open spec fn spec_numeric_ident(s: Seq<char>) -> bool {
    s.len() > 0 && forall|k: int| 0 <= k < s.len() ==> spec_digit(#[trigger] s[k])
}

fn is_numeric_ident(s: &[char]) -> (r: bool)
    ensures
        r == spec_numeric_ident(s@),
{
    if s.len() == 0 {
        return false;
    }
    let n: usize = s.len();
    let mut i: usize = 0;
    while i < n
        invariant
            n == s@.len(),
            i <= n,
            forall|k: int| 0 <= k < i ==> spec_digit(#[trigger] s@[k]),
        decreases n - i,
    {
        if !('0' <= s[i] && s[i] <= '9') {
            return false;
        }
        i = i + 1;
    }
    true
}

/// Lexicographic order on character sequences, by character code, from
/// position `i` on.
pub open spec fn spec_lex_lt_from(a: Seq<char>, b: Seq<char>, i: int) -> bool
    decreases b.len() - i when 0 <= i
{
    if i >= b.len() {
        false
    } else if i >= a.len() {
        true
    } else if a[i] != b[i] {
        (a[i] as u32) < (b[i] as u32)
    } else {
        spec_lex_lt_from(a, b, i + 1)
    }
}

fn lex_lt_from(a: &[char], b: &[char], i: usize) -> (r: bool)
    ensures
        r == spec_lex_lt_from(a@, b@, i as int),
    decreases b@.len() - i,
{
    if i >= b.len() {
        false
    } else if i >= a.len() {
        true
    } else if a[i] != b[i] {
        (a[i] as u32) < (b[i] as u32)
    } else {
        lex_lt_from(a, b, i + 1)
    }
}

/// Order on single pre-release identifiers: numeric identifiers compare
/// numerically (no leading zeros, so by length then lexicographically),
/// numeric ones rank below alphanumeric ones, and alphanumeric ones
/// compare lexicographically by character code.
pub open spec fn spec_ident_lt(a: Seq<char>, b: Seq<char>) -> bool {
    if spec_numeric_ident(a) && spec_numeric_ident(b) {
        a.len() < b.len() || (a.len() == b.len() && spec_lex_lt_from(a, b, 0))
    } else if spec_numeric_ident(a) {
        true
    } else if spec_numeric_ident(b) {
        false
    } else {
        spec_lex_lt_from(a, b, 0)
    }
}

fn ident_lt(a: &[char], b: &[char]) -> (r: bool)
    ensures
        r == spec_ident_lt(a@, b@),
{
    let na = is_numeric_ident(a);
    let nb = is_numeric_ident(b);
    if na && nb {
        a.len() < b.len() || (a.len() == b.len() && lex_lt_from(a, b, 0))
    } else if na {
        true
    } else if nb {
        false
    } else {
        lex_lt_from(a, b, 0)
    }
}

/// The dot-separated identifiers of a pre-release string, accumulating
/// the current identifier while scanning from `i`.
pub open spec fn spec_split_acc(s: Seq<char>, i: int, cur: Seq<char>) -> Seq<Seq<char>>
    decreases s.len() - i when 0 <= i <= s.len()
{
    if i >= s.len() {
        seq![cur]
    } else if s[i] == '.' {
        seq![cur] + spec_split_acc(s, i + 1, Seq::empty())
    } else {
        spec_split_acc(s, i + 1, cur.push(s[i]))
    }
}

/// The dot-separated identifiers of a pre-release string.
pub open spec fn spec_dot_split(s: Seq<char>) -> Seq<Seq<char>> {
    spec_split_acc(s, 0, Seq::empty())
}

fn dot_split(s: &[char]) -> (r: Vec<Vec<char>>)
    ensures
        Seq::new(r@.len(), |k: int| r@[k]@) == spec_dot_split(s@),
{
    let n: usize = s.len();
    let mut done: Vec<Vec<char>> = Vec::new();
    let mut cur: Vec<char> = Vec::new();
    let mut i: usize = 0;
    while i < n
        invariant
            n == s@.len(),
            i <= n,
            Seq::new(done@.len(), |k: int| done@[k]@) + spec_split_acc(s@, i as int, cur@)
                == spec_dot_split(s@),
        decreases n - i,
    {
        if s[i] == '.' {
            let finished = cur;
            cur = Vec::new();
            done.push(finished);
            proof {
                assert(Seq::new(done@.len(), |k: int| done@[k]@) =~= Seq::new(
                    (done@.len() - 1) as nat,
                    |k: int| done@[k]@,
                ).push(done@[done@.len() - 1]@));
                assert(Seq::new((done@.len() - 1) as nat, |k: int| done@[k]@) + (seq![done@[done@.len()
                    - 1]@] + spec_split_acc(s@, i + 1, Seq::empty())) =~= Seq::new(
                    done@.len(),
                    |k: int| done@[k]@,
                ) + spec_split_acc(s@, i + 1, Seq::empty()));
            }
        } else {
            cur.push(s[i]);
        }
        i = i + 1;
    }
    done.push(cur);
    proof {
        assert(Seq::new(done@.len(), |k: int| done@[k]@) =~= Seq::new(
            (done@.len() - 1) as nat,
            |k: int| done@[k]@,
        ) + seq![done@[done@.len() - 1]@]);
    }
    done
}

/// Order on pre-release identifier lists, from position `i` on: compare
/// identifier by identifier; when one list is exhausted first, the
/// shorter ranks lower.
pub open spec fn spec_ids_lt_from(a: Seq<Seq<char>>, b: Seq<Seq<char>>, i: int) -> bool
    decreases b.len() - i when 0 <= i
{
    if i >= b.len() {
        false
    } else if i >= a.len() {
        true
    } else if spec_ident_lt(a[i], b[i]) {
        true
    } else if spec_ident_lt(b[i], a[i]) {
        false
    } else {
        spec_ids_lt_from(a, b, i + 1)
    }
}

fn ids_lt_from(a: &Vec<Vec<char>>, b: &Vec<Vec<char>>, i: usize) -> (r: bool)
    ensures
        r == spec_ids_lt_from(
            Seq::new(a@.len(), |k: int| a@[k]@),
            Seq::new(b@.len(), |k: int| b@[k]@),
            i as int,
        ),
    decreases b@.len() - i,
{
    if i >= b.len() {
        false
    } else if i >= a.len() {
        true
    } else if ident_lt(a[i].as_slice(), b[i].as_slice()) {
        true
    } else if ident_lt(b[i].as_slice(), a[i].as_slice()) {
        false
    } else {
        ids_lt_from(a, b, i + 1)
    }
}

/// Semantic-versioning precedence: the numeric triple compares first;
/// with equal triples a pre-release ranks below the stable release, and
/// two pre-releases compare by their identifier lists. Build metadata
/// plays no part.
pub open spec fn spec_precedes(a: (u64, u64, u64, Seq<char>), b: (u64, u64, u64, Seq<char>)) -> bool {
    if a.0 != b.0 {
        a.0 < b.0
    } else if a.1 != b.1 {
        a.1 < b.1
    } else if a.2 != b.2 {
        a.2 < b.2
    } else if a.3.len() > 0 && b.3.len() == 0 {
        true
    } else if a.3.len() == 0 {
        false
    } else if b.3.len() == 0 {
        false
    } else {
        spec_ids_lt_from(spec_dot_split(a.3), spec_dot_split(b.3), 0)
    }
}

/// The mathematical value of parsed version parts.
pub open spec fn view_parts(p: SemVerParts) -> (u64, u64, u64, Seq<char>) {
    (p.major, p.minor, p.patch, p.pre@)
}

/// Whether `a` precedes `b` in semantic-versioning precedence.
pub fn parts_precede(a: &SemVerParts, b: &SemVerParts) -> (r: bool)
    ensures
        r == spec_precedes(view_parts(*a), view_parts(*b)),
{
    if a.major != b.major {
        a.major < b.major
    } else if a.minor != b.minor {
        a.minor < b.minor
    } else if a.patch != b.patch {
        a.patch < b.patch
    } else {
        let ap = crate::strutil::str_to_chars(a.pre.as_str());
        let bp = crate::strutil::str_to_chars(b.pre.as_str());
        if ap.len() > 0 && bp.len() == 0 {
            true
        } else if ap.len() == 0 {
            false
        } else if bp.len() == 0 {
            false
        } else {
            let asplit = dot_split(ap.as_slice());
            let bsplit = dot_split(bp.as_slice());
            ids_lt_from(&asplit, &bsplit, 0)
        }
    }
}

/// What parsing a version string (with the two rescue attempts that
/// append missing `.0` components) concludes.
pub open spec fn spec_parsed(v: Seq<char>) -> Option<(u64, u64, u64, Seq<char>)> {
    let norm = spec_normalize(v);
    match spec_semver_key(norm) {
        Some(k) => Some(k),
        None => match spec_semver_key(norm + ".0"@) {
            Some(k) => Some(k),
            None => spec_semver_key(norm + ".0.0"@),
        },
    }
}

impl VersionManager {
    /// Parses a version string, after normalising it; a missing patch
    /// (or minor and patch) component is tolerated by appending zeros.
    pub fn parse_version(version: &str) -> (r: Result<SemVerParts, VersionError>)
        ensures
            match r {
                Ok(p) => spec_parsed(version@) == Some(view_parts(p)),
                Err(e) => spec_parsed(version@) is None && e is InvalidFormat,
            },
    {
        let normalized = Self::normalize_version(version);
        match parse_semver_str(normalized.as_str()) {
            Some(p) => Ok(p),
            None => {
                let with_patch = normalized.as_str().to_owned().concat(".0");
                match parse_semver_str(with_patch.as_str()) {
                    Some(p) => Ok(p),
                    None => {
                        let with_minor = normalized.as_str().to_owned().concat(".0.0");
                        match parse_semver_str(with_minor.as_str()) {
                            Some(p) => Ok(p),
                            None => {
                                let mut msg: Vec<char> = crate::strutil::str_to_chars(
                                    "Cannot parse '",
                                );
                                let mut v = crate::strutil::str_to_chars(version);
                                msg.append(&mut v);
                                let mut mid = crate::strutil::str_to_chars("' (normalized: '");
                                msg.append(&mut mid);
                                let mut nn = crate::strutil::str_to_chars(normalized.as_str());
                                msg.append(&mut nn);
                                let mut end = crate::strutil::str_to_chars("')");
                                msg.append(&mut end);
                                Err(
                                    VersionError::InvalidFormat(
                                        crate::strutil::chars_to_string(&msg),
                                    ),
                                )
                            },
                        }
                    },
                }
            },
        }
    }

    /// Whether the remote version is strictly newer than the current
    /// one, by semantic-versioning precedence.
    pub fn is_newer_version(current: &str, remote: &str) -> (r: Result<bool, VersionError>)
        ensures
            match r {
                Ok(b) => spec_parsed(current@) matches Some(c) && (spec_parsed(remote@)
                    matches Some(rm) && b == spec_precedes(c, rm)),
                Err(_) => spec_parsed(current@) is None || spec_parsed(remote@) is None,
            },
    {
        let c = Self::parse_version(current);
        let rm = Self::parse_version(remote);
        match (c, rm) {
            (Ok(cp), Ok(rp)) => Ok(parts_precede(&cp, &rp)),
            (Err(e), _) => Err(e),
            (_, Err(e)) => Err(e),
        }
    }

    /// How the remote version compares to the current one: `Less` when
    /// it is older, `Equal` with identical precedence, `Greater` when it
    /// is newer.
    pub fn compare_versions(current: &str, remote: &str) -> (r: Result<
        core::cmp::Ordering,
        VersionError,
    >)
        ensures
            match r {
                Ok(o) => spec_parsed(current@) matches Some(c) && (spec_parsed(remote@)
                    matches Some(rm) && o == (if spec_precedes(rm, c) {
                    core::cmp::Ordering::Less
                } else if spec_precedes(c, rm) {
                    core::cmp::Ordering::Greater
                } else {
                    core::cmp::Ordering::Equal
                })),
                Err(_) => spec_parsed(current@) is None || spec_parsed(remote@) is None,
            },
    {
        let c = Self::parse_version(current);
        let rm = Self::parse_version(remote);
        match (c, rm) {
            (Ok(cp), Ok(rp)) => {
                if parts_precede(&rp, &cp) {
                    Ok(core::cmp::Ordering::Less)
                } else if parts_precede(&cp, &rp) {
                    Ok(core::cmp::Ordering::Greater)
                } else {
                    Ok(core::cmp::Ordering::Equal)
                }
            },
            (Err(e), _) => Err(e),
            (_, Err(e)) => Err(e),
        }
    }

    /// Whether the remote version is compatible with the current one:
    /// updates are offered only within one major version.
    pub fn is_compatible_version(current: &str, remote: &str) -> (r: Result<bool, VersionError>)
        ensures
            match r {
                Ok(b) => spec_parsed(current@) matches Some(c) && (spec_parsed(remote@)
                    matches Some(rm) && b == (c.0 == rm.0)),
                Err(_) => spec_parsed(current@) is None || spec_parsed(remote@) is None,
            },
    {
        let c = Self::parse_version(current);
        let rm = Self::parse_version(remote);
        match (c, rm) {
            (Ok(cp), Ok(rp)) => Ok(cp.major == rp.major),
            (Err(e), _) => Err(e),
            (_, Err(e)) => Err(e),
        }
    }

    /// Whether the release should be offered at time `now`: only a
    /// strictly newer version, never one the user already ignored, and
    /// not again within the hour for a version already seen at the last
    /// check. (A check timestamp in the future counts as just checked.)
    pub open spec fn spec_should_offer(
        current: Seq<char>,
        tag: Seq<char>,
        storage: UpdateStorage,
        now: u64,
    ) -> bool
        recommends
            spec_parsed(current) is Some,
            spec_parsed(tag) is Some,
    {
        if !spec_precedes(spec_parsed(current)->Some_0, spec_parsed(tag)->Some_0) {
            false
        } else if storage.last_ignored_version matches Some(ig) && ig@ == tag {
            false
        } else if storage.last_checked_version matches Some(lc) && lc@ == tag && (if now
            >= storage.last_check_timestamp {
            now - storage.last_check_timestamp
        } else {
            0int
        }) < 3600 {
            false
        } else {
            true
        }
    }

    /// Decides, for the clock reading `now`, whether the release should
    /// be offered.
    pub fn should_offer_update_at(
        current_version: &str,
        release: &GitHubRelease,
        storage: &UpdateStorage,
        now: u64,
    ) -> (r: Result<bool, VersionError>)
        ensures
            match r {
                Ok(b) => spec_parsed(current_version@) is Some && spec_parsed(
                    release.tag_name@,
                ) is Some && b == Self::spec_should_offer(
                    current_version@,
                    release.tag_name@,
                    *storage,
                    now,
                ),
                Err(_) => spec_parsed(current_version@) is None || spec_parsed(
                    release.tag_name@,
                ) is None,
            },
    {
        let newer = Self::is_newer_version(current_version, release.tag_name.as_str());
        match newer {
            Err(e) => Err(e),
            Ok(false) => Ok(false),
            Ok(true) => {
                let ignored = match &storage.last_ignored_version {
                    Some(ig) => crate::strutil::str_eq(ig.as_str(), release.tag_name.as_str()),
                    None => false,
                };
                if ignored {
                    return Ok(false);
                }
                let checked_recently = match &storage.last_checked_version {
                    Some(lc) => crate::strutil::str_eq(lc.as_str(), release.tag_name.as_str())
                        && now.saturating_sub(storage.last_check_timestamp) < 3600,
                    None => false,
                };
                if checked_recently {
                    Ok(false)
                } else {
                    Ok(true)
                }
            },
        }
    }

    /// Decides, against the clock, whether the release should be
    /// offered: a strictly newer, not-ignored version, re-offered at
    /// most once per hour.
    pub fn should_offer_update(
        current_version: &str,
        release: &GitHubRelease,
        storage: &UpdateStorage,
    ) -> (r: Result<bool, VersionError>)
        ensures
            (r is Ok) <==> spec_parsed(current_version@) is Some && spec_parsed(
                release.tag_name@,
            ) is Some,
            match r {
                Ok(b) => !spec_precedes(
                    spec_parsed(current_version@)->Some_0,
                    spec_parsed(release.tag_name@)->Some_0,
                ) ==> !b,
                Err(_) => true,
            },
            match r {
                Ok(b) => (storage.last_ignored_version matches Some(ig) && ig@
                    == release.tag_name@) ==> !b,
                Err(_) => true,
            },
    {
        let now = crate::hostinfo::current_timestamp();
        Self::should_offer_update_at(current_version, release, storage, now)
    }

    /// The detailed reading of a version string.
    pub fn get_version_info(version: &str) -> (r: Result<VersionInfo, VersionError>)
        ensures
            match r {
                Ok(i) => {
                    &&& i.original@ == version@
                    &&& i.normalized@ == spec_normalize(version@)
                    &&& spec_parsed(spec_normalize(version@)) == Some(
                        (i.major, i.minor, i.patch, i.pre_release@),
                    )
                    &&& i.is_prerelease == (i.pre_release@.len() > 0)
                    &&& i.is_stable == (i.pre_release@.len() == 0)
                },
                Err(_) => spec_parsed(spec_normalize(version@)) is None,
            },
    {
        let normalized = Self::normalize_version(version);
        match Self::parse_version(normalized.as_str()) {
            Err(e) => Err(e),
            Ok(p) => {
                let is_prerelease = !p.pre.as_str().is_empty();
                Ok(
                    VersionInfo {
                        original: version.to_owned(),
                        normalized,
                        major: p.major,
                        minor: p.minor,
                        patch: p.patch,
                        pre_release: p.pre,
                        is_prerelease,
                        is_stable: !is_prerelease,
                    },
                )
            },
        }
    }

    /// A short description of what changed between two versions: the
    /// changed components coarsest first, a note when stability changed,
    /// and a generic line when nothing visible did.
    pub fn generate_version_diff(from: &str, to: &str) -> (r: Result<String, VersionError>)
        ensures
            match r {
                Ok(s) => spec_parsed(spec_normalize(from@)) matches Some(f) && (spec_parsed(
                    spec_normalize(to@),
                ) matches Some(t) && s@ == spec_version_diff(f, t)),
                Err(_) => spec_parsed(spec_normalize(from@)) is None || spec_parsed(
                    spec_normalize(to@),
                ) is None,
            },
    {
        let fi = Self::get_version_info(from);
        let ti = Self::get_version_info(to);
        match (fi, ti) {
            (Ok(f), Ok(t)) => {
                let mut pieces: Vec<Vec<char>> = Vec::new();
                if f.major != t.major {
                    let mut p: Vec<char> = crate::strutil::str_to_chars("Major update: ");
                    let mut a = crate::strutil::dec_chars(f.major);
                    p.append(&mut a);
                    let mut arrow = crate::strutil::str_to_chars(" \u{2192} ");
                    p.append(&mut arrow);
                    let mut b = crate::strutil::dec_chars(t.major);
                    p.append(&mut b);
                    pieces.push(p);
                }
                if f.minor != t.minor {
                    let mut p: Vec<char> = crate::strutil::str_to_chars("Minor update: ");
                    let mut a = crate::strutil::dec_chars(f.minor);
                    p.append(&mut a);
                    let mut arrow = crate::strutil::str_to_chars(" \u{2192} ");
                    p.append(&mut arrow);
                    let mut b = crate::strutil::dec_chars(t.minor);
                    p.append(&mut b);
                    pieces.push(p);
                }
                if f.patch != t.patch {
                    let mut p: Vec<char> = crate::strutil::str_to_chars("Patch update: ");
                    let mut a = crate::strutil::dec_chars(f.patch);
                    p.append(&mut a);
                    let mut arrow = crate::strutil::str_to_chars(" \u{2192} ");
                    p.append(&mut arrow);
                    let mut b = crate::strutil::dec_chars(t.patch);
                    p.append(&mut b);
                    pieces.push(p);
                }
                if f.is_prerelease != t.is_prerelease {
                    if t.is_stable {
                        pieces.push(crate::strutil::str_to_chars("Upgraded to stable release"));
                    } else {
                        pieces.push(
                            crate::strutil::str_to_chars("This is a pre-release version"),
                        );
                    }
                }
                let ghost gf = (f.major, f.minor, f.patch, f.pre_release@);
                let ghost gt = (t.major, t.minor, t.patch, t.pre_release@);
                proof {
                    assert(Seq::new(pieces@.len(), |k: int| pieces@[k]@) =~= spec_diff_pieces(
                        gf,
                        gt,
                    ));
                }
                if pieces.len() == 0 {
                    let s = "Version update".to_owned();
                    proof {
                        assert(spec_diff_pieces(gf, gt).len() == 0);
                    }
                    Ok(s)
                } else {
                    let mut out: Vec<char> = Vec::new();
                    push_joined(&pieces, 0, &mut out);
                    proof {
                        assert(out@ =~= spec_joined(spec_diff_pieces(gf, gt), 0));
                    }
                    Ok(crate::strutil::chars_to_string(&out))
                }
            },
            (Err(e), _) => Err(e),
            (_, Err(e)) => Err(e),
        }
    }
}

/// The change-description pieces for a pair of parsed versions, in
/// order: major, minor, patch, stability.
pub open spec fn spec_diff_pieces(
    f: (u64, u64, u64, Seq<char>),
    t: (u64, u64, u64, Seq<char>),
) -> Seq<Seq<char>> {
    (if f.0 != t.0 {
        seq!["Major update: "@ + spec_dec(f.0 as int) + " \u{2192} "@ + spec_dec(t.0 as int)]
    } else {
        Seq::empty()
    }) + (if f.1 != t.1 {
        seq!["Minor update: "@ + spec_dec(f.1 as int) + " \u{2192} "@ + spec_dec(t.1 as int)]
    } else {
        Seq::empty()
    }) + (if f.2 != t.2 {
        seq!["Patch update: "@ + spec_dec(f.2 as int) + " \u{2192} "@ + spec_dec(t.2 as int)]
    } else {
        Seq::empty()
    }) + (if (f.3.len() > 0) != (t.3.len() > 0) {
        if t.3.len() == 0 {
            seq!["Upgraded to stable release"@]
        } else {
            seq!["This is a pre-release version"@]
        }
    } else {
        Seq::empty()
    })
}

/// The pieces joined with a bullet separator, from index `i` on.
pub open spec fn spec_joined(pieces: Seq<Seq<char>>, i: int) -> Seq<char>
    decreases pieces.len() - i when 0 <= i <= pieces.len()
{
    if i >= pieces.len() {
        Seq::empty()
    } else if i + 1 < pieces.len() {
        pieces[i] + " \u{2022} "@ + spec_joined(pieces, i + 1)
    } else {
        pieces[i]
    }
}

/// The whole description for a pair of parsed versions.
pub open spec fn spec_version_diff(
    f: (u64, u64, u64, Seq<char>),
    t: (u64, u64, u64, Seq<char>),
) -> Seq<char> {
    let pieces = spec_diff_pieces(f, t);
    if pieces.len() == 0 {
        "Version update"@
    } else {
        spec_joined(pieces, 0)
    }
}

fn push_joined(pieces: &Vec<Vec<char>>, i: usize, out: &mut Vec<char>)
    requires
        i <= pieces@.len(),
    ensures
        final(out)@ == old(out)@ + spec_joined(Seq::new(pieces@.len(), |k: int| pieces@[k]@), i as int),
    decreases pieces@.len() - i,
{
    let ghost gp = Seq::new(pieces@.len(), |k: int| pieces@[k]@);
    if i >= pieces.len() {
        proof {
            assert(final(out)@ =~= old(out)@ + spec_joined(gp, i as int));
        }
    } else if i + 1 < pieces.len() {
        let mut p: Vec<char> = Vec::new();
        p.extend_from_slice(pieces[i].as_slice());
        out.append(&mut p);
        let mut sep = crate::strutil::str_to_chars(" \u{2022} ");
        out.append(&mut sep);
        push_joined(pieces, i + 1, out);
        proof {
            assert(final(out)@ =~= old(out)@ + spec_joined(gp, i as int));
        }
    } else {
        let mut p: Vec<char> = Vec::new();
        p.extend_from_slice(pieces[i].as_slice());
        out.append(&mut p);
        proof {
            assert(final(out)@ =~= old(out)@ + spec_joined(gp, i as int));
        }
    }
}

/// The detailed reading of one version string.
pub struct VersionInfo {
    pub original: String,
    pub normalized: String,
    pub major: u64,
    pub minor: u64,
    pub patch: u64,
    pub pre_release: String,
    pub is_prerelease: bool,
    pub is_stable: bool,
}

/// How a version renders for display: the `v`-prefixed triple, with the
/// pre-release identifiers when there are any.
pub open spec fn spec_display_version(
    major: u64,
    minor: u64,
    patch: u64,
    pre: Seq<char>,
    is_prerelease: bool,
) -> Seq<char> {
    let base = "v"@ + spec_dec(major as int) + "."@ + spec_dec(minor as int) + "."@ + spec_dec(
        patch as int,
    );
    if is_prerelease {
        base + "-"@ + pre
    } else {
        base
    }
}

impl VersionInfo {
    /// The display form of the version.
    pub fn display_version(&self) -> (r: String)
        ensures
            r@ == spec_display_version(
                self.major,
                self.minor,
                self.patch,
                self.pre_release@,
                self.is_prerelease,
            ),
    {
        let mut out: Vec<char> = crate::strutil::str_to_chars("v");
        let mut ma = crate::strutil::dec_chars(self.major);
        out.append(&mut ma);
        let mut d1 = crate::strutil::str_to_chars(".");
        out.append(&mut d1);
        let mut mi = crate::strutil::dec_chars(self.minor);
        out.append(&mut mi);
        let mut d2 = crate::strutil::str_to_chars(".");
        out.append(&mut d2);
        let mut pa = crate::strutil::dec_chars(self.patch);
        out.append(&mut pa);
        if self.is_prerelease {
            let mut da = crate::strutil::str_to_chars("-");
            out.append(&mut da);
            let mut pr = crate::strutil::str_to_chars(self.pre_release.as_str());
            out.append(&mut pr);
        }
        proof {
            assert(out@ =~= spec_display_version(
                self.major,
                self.minor,
                self.patch,
                self.pre_release@,
                self.is_prerelease,
            ));
        }
        crate::strutil::chars_to_string(&out)
    }

    /// The kind of step another version is from this one: the coarsest
    /// component that differs, or a pre-release-only change.
    pub fn update_type(&self, other: &VersionInfo) -> (r: UpdateType)
        ensures
            self.major != other.major ==> (r is Major),
            self.major == other.major && self.minor != other.minor ==> (r is Minor),
            self.major == other.major && self.minor == other.minor && self.patch != other.patch
                ==> (r is Patch),
            self.major == other.major && self.minor == other.minor && self.patch == other.patch
                ==> (r is PreRelease),
    {
        if self.major != other.major {
            UpdateType::Major
        } else if self.minor != other.minor {
            UpdateType::Minor
        } else if self.patch != other.patch {
            UpdateType::Patch
        } else {
            UpdateType::PreRelease
        }
    }
}

/// The kinds of update step.
#[derive(Clone, Copy, PartialEq, Eq, Structural, Debug)]
pub enum UpdateType {
    Major,
    Minor,
    Patch,
    PreRelease,
}

impl UpdateType {
    /// A sentence describing the step.
    pub fn description(&self) -> (r: &'static str)
        ensures
            match self {
                UpdateType::Major => r@
                    == "Major version update with potential breaking changes"@,
                UpdateType::Minor => r@ == "Minor version update with new features"@,
                UpdateType::Patch => r@ == "Patch update with bug fixes and improvements"@,
                UpdateType::PreRelease => r@ == "Pre-release version update"@,
            },
    {
        match self {
            UpdateType::Major => "Major version update with potential breaking changes",
            UpdateType::Minor => "Minor version update with new features",
            UpdateType::Patch => "Patch update with bug fixes and improvements",
            UpdateType::PreRelease => "Pre-release version update",
        }
    }

    /// A pictogram for the step.
    pub fn icon(&self) -> (r: &'static str)
        ensures
            match self {
                UpdateType::Major => r@ == "\u{1f680}"@,
                UpdateType::Minor => r@ == "\u{2728}"@,
                UpdateType::Patch => r@ == "\u{1f527}"@,
                UpdateType::PreRelease => r@ == "\u{1f9ea}"@,
            },
    {
        match self {
            UpdateType::Major => "\u{1f680}",
            UpdateType::Minor => "\u{2728}",
            UpdateType::Patch => "\u{1f527}",
            UpdateType::PreRelease => "\u{1f9ea}",
        }
    }
}

} // verus!
