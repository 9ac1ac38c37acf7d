//! Wire codec for the protocol's JSON text lines: the offer header, the
//! ack, the discovery heartbeat, and the persisted settings and trust
//! list.
//!
//! Messages are flat JSON objects of string, unsigned-number, boolean and
//! null fields (the trust list is an array of strings). The decoder
//! accepts any key order and whitespace, the eight single-character
//! escapes (`\"`, `\\`, `\/`, `\b`, `\f`, `\n`, `\r`, `\t`), and ignores
//! unknown keys, using the first occurrence of each key; `\u` escapes and
//! nested structures are not part of these schemas and are refused. The
//! encoder emits a fixed key order with `\u00XX` for the remaining
//! control characters.

use vstd::prelude::*;

verus! {

/// One JSON scalar as the schemas use them, in specification form.
pub enum GScalar {
    GStr(Seq<char>),
    GNum(u64),
    GBool(bool),
    GNull,
}

/// One JSON scalar as the decoder materialises it.
pub enum JsonScalar {
    Str(Vec<char>),
    Num(u64),
    Bool(bool),
    Null,
}

impl JsonScalar {
    /// The scalar's mathematical value.
    pub open spec fn view_scalar(&self) -> GScalar {
        match self {
            JsonScalar::Str(v) => GScalar::GStr(v@),
            JsonScalar::Num(n) => GScalar::GNum(*n),
            JsonScalar::Bool(b) => GScalar::GBool(*b),
            JsonScalar::Null => GScalar::GNull,
        }
    }
}

/// JSON whitespace.
pub open spec fn spec_is_ws(c: char) -> bool {
    c == ' ' || c == '\t' || c == '\n' || c == '\r'
}

fn is_ws(c: char) -> (r: bool)
    ensures
        r == spec_is_ws(c),
{
    c == ' ' || c == '\t' || c == '\n' || c == '\r'
}

/// A decimal digit.
pub open spec fn spec_is_digit(c: char) -> bool {
    '0' <= c && c <= '9'
}

fn is_digit(c: char) -> (r: bool)
    ensures
        r == spec_is_digit(c),
{
    '0' <= c && c <= '9'
}

/// The value of a decimal digit character.
pub open spec fn spec_digit_val(c: char) -> int {
    (c as u32) - ('0' as u32)
}

fn digit_val(c: char) -> (d: u64)
    requires
        spec_is_digit(c),
    ensures
        d == spec_digit_val(c),
        d < 10,
{
    ((c as u32) - ('0' as u32)) as u64
}

/// The first position at or after `i` holding a non-whitespace character.
pub open spec fn spec_skip_ws(s: Seq<char>, i: int) -> int
    decreases s.len() - i when 0 <= i <= s.len()
{
    if i < s.len() && spec_is_ws(s[i]) {
        spec_skip_ws(s, i + 1)
    } else {
        i
    }
}

fn skip_ws(s: &[char], i: usize) -> (r: usize)
    requires
        i <= s@.len(),
    ensures
        r == spec_skip_ws(s@, i as int),
        i <= r <= s@.len(),
    decreases s@.len() - i,
{
    if i < s.len() && is_ws(s[i]) {
        skip_ws(s, i + 1)
    } else {
        i
    }
}

/// What a backslash escape maps to; `None` for escapes outside the
/// supported set (including `\u`).
pub open spec fn spec_unescape(c: char) -> Option<char> {
    if c == '"' {
        Some('"')
    } else if c == '\\' {
        Some('\\')
    } else if c == '/' {
        Some('/')
    } else if c == 'b' {
        Some('\u{8}')
    } else if c == 'f' {
        Some('\u{c}')
    } else if c == 'n' {
        Some('\n')
    } else if c == 'r' {
        Some('\r')
    } else if c == 't' {
        Some('\t')
    } else {
        None
    }
}

fn unescape(c: char) -> (r: Option<char>)
    ensures
        r == spec_unescape(c),
{
    if c == '"' {
        Some('"')
    } else if c == '\\' {
        Some('\\')
    } else if c == '/' {
        Some('/')
    } else if c == 'b' {
        Some('\u{8}')
    } else if c == 'f' {
        Some('\u{c}')
    } else if c == 'n' {
        Some('\n')
    } else if c == 'r' {
        Some('\r')
    } else if c == 't' {
        Some('\t')
    } else {
        None
    }
}

/// The body of a string value, starting after the opening quote:
/// the decoded characters and the position after the closing quote.
pub open spec fn spec_string_body(s: Seq<char>, i: int) -> Option<(Seq<char>, int)>
    decreases s.len() - i when 0 <= i <= s.len()
{
    if i >= s.len() {
        None
    } else if s[i] == '"' {
        Some((Seq::empty(), i + 1))
    } else if s[i] == '\\' {
        if i + 1 >= s.len() {
            None
        } else {
            match spec_unescape(s[i + 1]) {
                None => None,
                Some(c) => match spec_string_body(s, i + 2) {
                    None => None,
                    Some(rest) => Some((seq![c] + rest.0, rest.1)),
                },
            }
        }
    } else {
        match spec_string_body(s, i + 1) {
            None => None,
            Some(rest) => Some((seq![s[i]] + rest.0, rest.1)),
        }
    }
}

fn string_body(s: &[char], i: usize) -> (r: Option<(Vec<char>, usize)>)
    requires
        i <= s@.len(),
    ensures
        match r {
            None => spec_string_body(s@, i as int) is None,
            Some(p) => spec_string_body(s@, i as int) == Some((p.0@, p.1 as int)) && i < p.1
                <= s@.len(),
        },
    decreases s@.len() - i,
{
    if i >= s.len() {
        None
    } else if s[i] == '"' {
        Some((Vec::new(), i + 1))
    } else if s[i] == '\\' {
        if i + 1 >= s.len() {
            None
        } else {
            match unescape(s[i + 1]) {
                None => None,
                Some(c) => match string_body(s, i + 2) {
                    None => None,
                    Some(rest) => {
                        let mut v: Vec<char> = Vec::new();
                        v.push(c);
                        let mut tail = rest.0;
                        v.append(&mut tail);
                        proof {
                            assert(v@ =~= seq![c] + rest.0@);
                        }
                        Some((v, rest.1))
                    },
                },
            }
        }
    } else {
        let c = s[i];
        match string_body(s, i + 1) {
            None => None,
            Some(rest) => {
                let mut v: Vec<char> = Vec::new();
                v.push(c);
                let mut tail = rest.0;
                v.append(&mut tail);
                proof {
                    assert(v@ =~= seq![s@[i as int]] + rest.0@);
                }
                Some((v, rest.1))
            },
        }
    }
}

/// A string value at `i` (the opening quote included).
pub open spec fn spec_parse_string(s: Seq<char>, i: int) -> Option<(Seq<char>, int)> {
    if 0 <= i < s.len() && s[i] == '"' {
        spec_string_body(s, i + 1)
    } else {
        None
    }
}

fn parse_string(s: &[char], i: usize) -> (r: Option<(Vec<char>, usize)>)
    requires
        i <= s@.len(),
    ensures
        match r {
            None => spec_parse_string(s@, i as int) is None,
            Some(p) => spec_parse_string(s@, i as int) == Some((p.0@, p.1 as int)) && i < p.1
                <= s@.len(),
        },
{
    if i < s.len() && s[i] == '"' {
        string_body(s, i + 1)
    } else {
        None
    }
}

/// The largest value a `u64` holds.
pub const U64_MAX: u64 = 0xffff_ffff_ffff_ffff;

/// Digits from `i` accumulated onto `acc`; `None` past `u64` range.
pub open spec fn spec_number_body(s: Seq<char>, i: int, acc: u64) -> Option<(u64, int)>
    decreases s.len() - i when 0 <= i <= s.len()
{
    if i < s.len() && spec_is_digit(s[i]) {
        let d = spec_digit_val(s[i]);
        if acc > (U64_MAX - d) / 10 {
            None
        } else {
            spec_number_body(s, i + 1, (acc * 10 + d) as u64)
        }
    } else {
        Some((acc, i))
    }
}

fn number_body(s: &[char], i: usize, acc: u64) -> (r: Option<(u64, usize)>)
    requires
        i <= s@.len(),
    ensures
        match r {
            None => spec_number_body(s@, i as int, acc) is None,
            Some(p) => spec_number_body(s@, i as int, acc) == Some((p.0, p.1 as int)) && i <= p.1
                <= s@.len(),
        },
    decreases s@.len() - i,
{
    if i < s.len() && is_digit(s[i]) {
        let d = digit_val(s[i]);
        if acc > (U64_MAX - d) / 10 {
            None
        } else {
            proof {
                assert(acc * 10 + d <= U64_MAX) by (nonlinear_arith)
                    requires
                        d < 10,
                        acc <= (U64_MAX - d) / 10,
                ;
            }
            number_body(s, i + 1, acc * 10 + d)
        }
    } else {
        Some((acc, i))
    }
}

/// An unsigned decimal number at `i`: at least one digit, no leading
/// zero (except the number zero itself), within `u64` range.
pub open spec fn spec_parse_number(s: Seq<char>, i: int) -> Option<(u64, int)> {
    if 0 <= i < s.len() && spec_is_digit(s[i]) {
        if s[i] == '0' {
            Some((0, i + 1))
        } else {
            spec_number_body(s, i, 0)
        }
    } else {
        None
    }
}

fn parse_number(s: &[char], i: usize) -> (r: Option<(u64, usize)>)
    requires
        i <= s@.len(),
    ensures
        match r {
            None => spec_parse_number(s@, i as int) is None,
            Some(p) => spec_parse_number(s@, i as int) == Some((p.0, p.1 as int)) && i <= p.1
                <= s@.len(),
        },
{
    if i < s.len() && is_digit(s[i]) {
        if s[i] == '0' {
            Some((0, i + 1))
        } else {
            match number_body(s, i, 0) {
                None => None,
                Some(p) => {
                    proof {
                        assert(spec_number_body(s@, i as int, 0) == Some((p.0, p.1 as int)));
                    }
                    Some(p)
                },
            }
        }
    } else {
        None
    }
}

/// Whether the literal occurs verbatim at `i`.
pub open spec fn spec_lit_at(s: Seq<char>, i: int, lit: Seq<char>) -> bool {
    crate::strutil::spec_match_at(s, i, lit)
}

/// One scalar value at `i`: a string, an unsigned number, `true`,
/// `false` or `null`. Nested structures are outside the schemas.
pub open spec fn spec_parse_scalar(s: Seq<char>, i: int) -> Option<(GScalar, int)> {
    if 0 <= i < s.len() {
        if s[i] == '"' {
            match spec_parse_string(s, i) {
                None => None,
                Some(p) => Some((GScalar::GStr(p.0), p.1)),
            }
        } else if spec_is_digit(s[i]) {
            match spec_parse_number(s, i) {
                None => None,
                Some(p) => Some((GScalar::GNum(p.0), p.1)),
            }
        } else if spec_lit_at(s, i, "true"@) {
            Some((GScalar::GBool(true), i + 4))
        } else if spec_lit_at(s, i, "false"@) {
            Some((GScalar::GBool(false), i + 5))
        } else if spec_lit_at(s, i, "null"@) {
            Some((GScalar::GNull, i + 4))
        } else {
            None
        }
    } else {
        None
    }
}

fn lit_at(s: &[char], i: usize, lit: &str) -> (r: bool)
    requires
        i <= s@.len(),
    ensures
        r == spec_lit_at(s@, i as int, lit@),
{
    let l = crate::strutil::str_to_chars(lit);
    let slen: usize = s.len();
    if l.len() > slen - i {
        proof {
            assert(!crate::strutil::spec_match_at(s@, i as int, lit@));
        }
        return false;
    }
    crate::strutil::chars_match_at(s, i, l.as_slice())
}

fn parse_scalar(s: &[char], i: usize) -> (r: Option<(JsonScalar, usize)>)
    requires
        i <= s@.len(),
    ensures
        match r {
            None => spec_parse_scalar(s@, i as int) is None,
            Some(p) => spec_parse_scalar(s@, i as int) == Some((p.0.view_scalar(), p.1 as int)) && i
                <= p.1 <= s@.len(),
        },
{
    if i < s.len() {
        if s[i] == '"' {
            match parse_string(s, i) {
                None => None,
                Some(p) => Some((JsonScalar::Str(p.0), p.1)),
            }
        } else if is_digit(s[i]) {
            match parse_number(s, i) {
                None => None,
                Some(p) => Some((JsonScalar::Num(p.0), p.1)),
            }
        } else if lit_at(s, i, "true") {
            proof {
                reveal_strlit("true");
            }
            Some((JsonScalar::Bool(true), i + 4))
        } else if lit_at(s, i, "false") {
            proof {
                reveal_strlit("false");
            }
            Some((JsonScalar::Bool(false), i + 5))
        } else if lit_at(s, i, "null") {
            proof {
                reveal_strlit("null");
            }
            Some((JsonScalar::Null, i + 4))
        } else {
            None
        }
    } else {
        None
    }
}

/// The members of an object, after the first key's opening position:
/// `key : value (, key : value)* }`, with the position after `}`.
pub open spec fn spec_members(s: Seq<char>, i: int) -> Option<(Seq<(Seq<char>, GScalar)>, int)>
    decreases s.len() - i when 0 <= i <= s.len()
{
    match spec_parse_string(s, spec_skip_ws(s, i)) {
        None => None,
        Some(kp) => {
            let ci = spec_skip_ws(s, kp.1);
            if !(0 <= ci < s.len() && s[ci] == ':') {
                None
            } else {
                match spec_parse_scalar(s, spec_skip_ws(s, ci + 1)) {
                    None => None,
                    Some(vp) => {
                        let ni = spec_skip_ws(s, vp.1);
                        if 0 <= ni < s.len() && s[ni] == ',' {
                            if i < ni + 1 <= s.len() {
                                match spec_members(s, ni + 1) {
                                    None => None,
                                    Some(rest) => Some(
                                        (seq![(kp.0, vp.0)] + rest.0, rest.1),
                                    ),
                                }
                            } else {
                                None
                            }
                        } else if 0 <= ni < s.len() && s[ni] == '}' {
                            Some((seq![(kp.0, vp.0)], ni + 1))
                        } else {
                            None
                        }
                    },
                }
            }
        },
    }
}

/// The members list the decoder materialises.
pub struct Members {
    pub keys: Vec<Vec<char>>,
    pub vals: Vec<JsonScalar>,
}

impl Members {
    /// The members as key/value pairs.
    pub open spec fn view_members(&self) -> Seq<(Seq<char>, GScalar)> {
        Seq::new(self.keys@.len(), |k: int| (self.keys@[k]@, self.vals@[k].view_scalar()))
    }

    pub open spec fn consistent(&self) -> bool {
        self.keys@.len() == self.vals@.len()
    }
}

fn members(s: &[char], i: usize) -> (r: Option<(Members, usize)>)
    requires
        i <= s@.len(),
    ensures
        match r {
            None => spec_members(s@, i as int) is None,
            Some(p) => p.0.consistent() && spec_members(s@, i as int) == Some(
                (p.0.view_members(), p.1 as int),
            ) && i < p.1 <= s@.len(),
        },
    decreases s@.len() - i,
{
    let ki = skip_ws(s, i);
    match parse_string(s, ki) {
        None => None,
        Some(kp) => {
            let ci = skip_ws(s, kp.1);
            if !(ci < s.len() && s[ci] == ':') {
                None
            } else {
                let vi = skip_ws(s, ci + 1);
                match parse_scalar(s, vi) {
                    None => None,
                    Some(vp) => {
                        let ni = skip_ws(s, vp.1);
                        if ni < s.len() && s[ni] == ',' {
                            match members(s, ni + 1) {
                                None => None,
                                Some(rest) => {
                                    let mut ms = rest.0;
                                    let mut keys: Vec<Vec<char>> = Vec::new();
                                    keys.push(kp.0);
                                    keys.append(&mut ms.keys);
                                    let mut vals: Vec<JsonScalar> = Vec::new();
                                    vals.push(vp.0);
                                    vals.append(&mut ms.vals);
                                    let out = Members { keys, vals };
                                    proof {
                                        assert(out.view_members() =~= seq![
                                            (kp.0@, vp.0.view_scalar()),
                                        ] + rest.0.view_members());
                                    }
                                    Some((out, rest.1))
                                },
                            }
                        } else if ni < s.len() && s[ni] == '}' {
                            let mut keys: Vec<Vec<char>> = Vec::new();
                            keys.push(kp.0);
                            let mut vals: Vec<JsonScalar> = Vec::new();
                            vals.push(vp.0);
                            let out = Members { keys, vals };
                            proof {
                                assert(out.view_members() =~= seq![(kp.0@, vp.0.view_scalar())]);
                            }
                            Some((out, ni + 1))
                        } else {
                            None
                        }
                    },
                }
            }
        },
    }
}

/// A whole document that is one flat object: optional whitespace, `{`,
/// members (or none), `}`, optional whitespace, end of input.
pub open spec fn spec_parse_object(s: Seq<char>) -> Option<Seq<(Seq<char>, GScalar)>> {
    let oi = spec_skip_ws(s, 0);
    if !(0 <= oi < s.len() && s[oi] == '{') {
        None
    } else {
        let first = spec_skip_ws(s, oi + 1);
        if 0 <= first < s.len() && s[first] == '}' {
            if spec_skip_ws(s, first + 1) == s.len() {
                Some(Seq::empty())
            } else {
                None
            }
        } else {
            match spec_members(s, oi + 1) {
                None => None,
                Some(p) => if spec_skip_ws(s, p.1) == s.len() {
                    Some(p.0)
                } else {
                    None
                },
            }
        }
    }
}

/// Parses one flat JSON object document.
pub fn parse_object(s: &[char]) -> (r: Option<Members>)
    ensures
        match r {
            None => spec_parse_object(s@) is None,
            Some(m) => m.consistent() && spec_parse_object(s@) == Some(m.view_members()),
        },
{
    let oi = skip_ws(s, 0);
    if !(oi < s.len() && s[oi] == '{') {
        None
    } else {
        let first = skip_ws(s, oi + 1);
        if first < s.len() && s[first] == '}' {
            if skip_ws(s, first + 1) == s.len() {
                let out = Members { keys: Vec::new(), vals: Vec::new() };
                proof {
                    assert(out.view_members() =~= Seq::<(Seq<char>, GScalar)>::empty());
                }
                Some(out)
            } else {
                None
            }
        } else {
            match members(s, oi + 1) {
                None => None,
                Some(p) => {
                    if skip_ws(s, p.1) == s.len() {
                        Some(p.0)
                    } else {
                        None
                    }
                },
            }
        }
    }
}

/// The value of the first member with the given key, if any.
pub open spec fn spec_field(ms: Seq<(Seq<char>, GScalar)>, key: Seq<char>) -> Option<GScalar>
    decreases ms.len(),
{
    if ms.len() == 0 {
        None
    } else if ms[0].0 == key {
        Some(ms[0].1)
    } else {
        spec_field(ms.drop_first(), key)
    }
}

/// Looks up the first member with the given key; the scalar is handed
/// back by index into the member list.
fn field_index(ms: &Members, key: &str) -> (r: Option<usize>)
    requires
        ms.consistent(),
    ensures
        match r {
            None => spec_field(ms.view_members(), key@) is None,
            Some(k) => k < ms.vals@.len() && spec_field(ms.view_members(), key@) == Some(
                ms.vals@[k as int].view_scalar(),
            ),
        },
{
    let n: usize = ms.keys.len();
    let mut i: usize = 0;
    proof {
        assert(ms.view_members().skip(0) =~= ms.view_members());
    }
    while i < n
        invariant
            ms.consistent(),
            n == ms.keys@.len(),
            i <= n,
            spec_field(ms.view_members().skip(i as int), key@) == spec_field(
                ms.view_members(),
                key@,
            ),
            forall|k: int| 0 <= k < i ==> ms.keys@[k]@ != key@,
        decreases n - i,
    {
        let kv = crate::strutil::chars_to_string(&ms.keys[i]);
        if crate::strutil::str_eq(kv.as_str(), key) {
            proof {
                let tail = ms.view_members().skip(i as int);
                assert(tail[0] == (ms.keys@[i as int]@, ms.vals@[i as int].view_scalar()));
            }
            return Some(i);
        }
        proof {
            let tail = ms.view_members().skip(i as int);
            assert(tail[0] == (ms.keys@[i as int]@, ms.vals@[i as int].view_scalar()));
            assert(tail.drop_first() =~= ms.view_members().skip(i + 1));
        }
        i = i + 1;
    }
    proof {
        assert(ms.view_members().skip(n as int) =~= Seq::<(Seq<char>, GScalar)>::empty());
    }
    None
}

/// A field that must be a string.
pub open spec fn spec_str_field(ms: Seq<(Seq<char>, GScalar)>, key: Seq<char>) -> Option<
    Seq<char>,
> {
    match spec_field(ms, key) {
        Some(GScalar::GStr(v)) => Some(v),
        _ => None,
    }
}

fn str_field(ms: &Members, key: &str) -> (r: Option<String>)
    requires
        ms.consistent(),
    ensures
        match r {
            None => spec_str_field(ms.view_members(), key@) is None,
            Some(v) => spec_str_field(ms.view_members(), key@) == Some(v@),
        },
{
    match field_index(ms, key) {
        None => None,
        Some(k) => match &ms.vals[k] {
            JsonScalar::Str(v) => Some(crate::strutil::chars_to_string(v)),
            _ => None,
        },
    }
}

/// A field that must be an unsigned number.
pub open spec fn spec_num_field(ms: Seq<(Seq<char>, GScalar)>, key: Seq<char>) -> Option<u64> {
    match spec_field(ms, key) {
        Some(GScalar::GNum(n)) => Some(n),
        _ => None,
    }
}

fn num_field(ms: &Members, key: &str) -> (r: Option<u64>)
    requires
        ms.consistent(),
    ensures
        r == spec_num_field(ms.view_members(), key@),
{
    match field_index(ms, key) {
        None => None,
        Some(k) => match &ms.vals[k] {
            JsonScalar::Num(n) => Some(*n),
            _ => None,
        },
    }
}

/// A field that must be a boolean.
pub open spec fn spec_bool_field(ms: Seq<(Seq<char>, GScalar)>, key: Seq<char>) -> Option<bool> {
    match spec_field(ms, key) {
        Some(GScalar::GBool(b)) => Some(b),
        _ => None,
    }
}

fn bool_field(ms: &Members, key: &str) -> (r: Option<bool>)
    requires
        ms.consistent(),
    ensures
        r == spec_bool_field(ms.view_members(), key@),
{
    match field_index(ms, key) {
        None => None,
        Some(k) => match &ms.vals[k] {
            JsonScalar::Bool(b) => Some(*b),
            _ => None,
        },
    }
}

/// An optional string field: absent or `null` count as absent; present
/// but of another shape is an error.
pub open spec fn spec_opt_str_field(ms: Seq<(Seq<char>, GScalar)>, key: Seq<char>) -> Option<
    Option<Seq<char>>,
> {
    match spec_field(ms, key) {
        None => Some(None),
        Some(GScalar::GNull) => Some(None),
        Some(GScalar::GStr(v)) => Some(Some(v)),
        _ => None,
    }
}

fn opt_str_field(ms: &Members, key: &str) -> (r: Option<Option<String>>)
    requires
        ms.consistent(),
    ensures
        match r {
            None => spec_opt_str_field(ms.view_members(), key@) is None,
            Some(None) => spec_opt_str_field(ms.view_members(), key@) == Some(
                Option::<Seq<char>>::None,
            ),
            Some(Some(v)) => spec_opt_str_field(ms.view_members(), key@) == Some(Some(v@)),
        },
{
    match field_index(ms, key) {
        None => Some(None),
        Some(k) => match &ms.vals[k] {
            JsonScalar::Null => Some(None),
            JsonScalar::Str(v) => Some(Some(crate::strutil::chars_to_string(v))),
            _ => None,
        },
    }
}

/// The hexadecimal digit character for a value below sixteen, lower case.
pub open spec fn spec_hex_char(d: int) -> char {
    if d < 10 {
        crate::strutil::spec_digit_char(d)
    } else if d == 10 {
        'a'
    } else if d == 11 {
        'b'
    } else if d == 12 {
        'c'
    } else if d == 13 {
        'd'
    } else if d == 14 {
        'e'
    } else {
        'f'
    }
}

fn hex_char(d: u32) -> (c: char)
    requires
        d < 16,
    ensures
        c == spec_hex_char(d as int),
{
    match d {
        0 => '0',
        1 => '1',
        2 => '2',
        3 => '3',
        4 => '4',
        5 => '5',
        6 => '6',
        7 => '7',
        8 => '8',
        9 => '9',
        10 => 'a',
        11 => 'b',
        12 => 'c',
        13 => 'd',
        14 => 'e',
        _ => 'f',
    }
}

/// How one character is written inside a JSON string: the quote and the
/// backslash get their escapes, the named control characters their short
/// forms, the remaining control characters a `\u00XX` escape, and every
/// other character stands for itself.
pub open spec fn spec_esc_char(c: char) -> Seq<char> {
    if c == '"' {
        seq!['\\', '"']
    } else if c == '\\' {
        seq!['\\', '\\']
    } else if c == '\u{8}' {
        seq!['\\', 'b']
    } else if c == '\u{c}' {
        seq!['\\', 'f']
    } else if c == '\n' {
        seq!['\\', 'n']
    } else if c == '\r' {
        seq!['\\', 'r']
    } else if c == '\t' {
        seq!['\\', 't']
    } else if (c as u32) < 32 {
        seq![
            '\\',
            'u',
            '0',
            '0',
            spec_hex_char((c as u32) as int / 16),
            spec_hex_char((c as u32) as int % 16),
        ]
    } else {
        seq![c]
    }
}

/// A whole character sequence escaped for a JSON string body.
pub open spec fn spec_escape(s: Seq<char>) -> Seq<char>
    decreases s.len(),
{
    if s.len() == 0 {
        Seq::empty()
    } else {
        spec_esc_char(s[0]) + spec_escape(s.drop_first())
    }
}

/// Escaping distributes over appending one character at the end.
proof fn lemma_escape_snoc(s: Seq<char>, c: char)
    ensures
        spec_escape(s.push(c)) == spec_escape(s) + spec_esc_char(c),
    decreases s.len(),
{
    if s.len() == 0 {
        reveal_with_fuel(spec_escape, 3);
        assert(s.push(c)[0] == c);
        assert(s.push(c).drop_first() =~= Seq::<char>::empty());
        assert(spec_escape(s.push(c)) == spec_esc_char(c) + spec_escape(s.push(c).drop_first()));
        assert(spec_escape(s.push(c)) =~= spec_escape(s) + spec_esc_char(c));
    } else {
        assert(s.push(c).drop_first() =~= s.drop_first().push(c));
        lemma_escape_snoc(s.drop_first(), c);
        assert(s.push(c)[0] == s[0]);
        assert(spec_escape(s.push(c)) =~= spec_escape(s) + spec_esc_char(c));
    }
}

fn push_esc_char(out: &mut Vec<char>, c: char)
    ensures
        final(out)@ == old(out)@ + spec_esc_char(c),
{
    if c == '"' {
        out.push('\\');
        out.push('"');
    } else if c == '\\' {
        out.push('\\');
        out.push('\\');
    } else if c == '\u{8}' {
        out.push('\\');
        out.push('b');
    } else if c == '\u{c}' {
        out.push('\\');
        out.push('f');
    } else if c == '\n' {
        out.push('\\');
        out.push('n');
    } else if c == '\r' {
        out.push('\\');
        out.push('r');
    } else if c == '\t' {
        out.push('\\');
        out.push('t');
    } else if (c as u32) < 32 {
        out.push('\\');
        out.push('u');
        out.push('0');
        out.push('0');
        out.push(hex_char((c as u32) / 16));
        out.push(hex_char((c as u32) % 16));
    } else {
        out.push(c);
    }
    proof {
        assert(final(out)@ =~= old(out)@ + spec_esc_char(c));
    }
}

/// Appends the literal's characters.
fn push_lit(out: &mut Vec<char>, lit: &str)
    ensures
        final(out)@ == old(out)@ + lit@,
{
    let mut l = crate::strutil::str_to_chars(lit);
    out.append(&mut l);
}

/// A JSON string: quote, escaped body, quote.
pub open spec fn spec_json_str(s: Seq<char>) -> Seq<char> {
    seq!['"'] + spec_escape(s) + seq!['"']
}

fn push_json_str(out: &mut Vec<char>, s: &str)
    ensures
        final(out)@ == old(out)@ + spec_json_str(s@),
{
    out.push('"');
    let cs = crate::strutil::str_to_chars(s);
    let n: usize = cs.len();
    let mut i: usize = 0;
    while i < n
        invariant
            n == cs@.len(),
            cs@ == s@,
            i <= n,
            out@ == old(out)@ + seq!['"'] + spec_escape(s@.take(i as int)),
        decreases n - i,
    {
        push_esc_char(out, cs[i]);
        proof {
            assert(s@.take(i + 1) =~= s@.take(i as int).push(s@[i as int]));
            lemma_escape_snoc(s@.take(i as int), s@[i as int]);
        }
        i = i + 1;
    }
    proof {
        assert(s@.take(n as int) =~= s@);
    }
    out.push('"');
    proof {
        assert(final(out)@ =~= old(out)@ + spec_json_str(s@));
    }
}

/// A JSON string or `null`, for optional fields.
pub open spec fn spec_json_opt(o: Option<Seq<char>>) -> Seq<char> {
    match o {
        Some(v) => spec_json_str(v),
        None => "null"@,
    }
}

fn push_json_opt(out: &mut Vec<char>, o: &Option<String>)
    ensures
        final(out)@ == old(out)@ + spec_json_opt(match o {
            Some(v) => Some(v@),
            None => None,
        }),
{
    match o {
        Some(v) => push_json_str(out, v.as_str()),
        None => push_lit(out, "null"),
    }
}

/// The offer in mathematical form.
pub struct GOffer {
    pub transfer_id: Seq<char>,
    pub file_name: Seq<char>,
    pub file_size: u64,
    pub mime: Seq<char>,
    pub sha256: Option<Seq<char>>,
    pub batch_id: Option<Seq<char>>,
}

/// The mathematical value of an offer.
pub open spec fn view_offer(o: crate::transfer::FileOffer) -> GOffer {
    GOffer {
        transfer_id: o.transfer_id@,
        file_name: o.file_name@,
        file_size: o.file_size,
        mime: o.mime@,
        sha256: match o.sha256 {
            Some(s) => Some(s@),
            None => None,
        },
        batch_id: match o.batch_id {
            Some(b) => Some(b@),
            None => None,
        },
    }
}

/// The canonical encoding of an offer header line (without the
/// terminating newline): all six keys in fixed order, absent options as
/// `null`.
pub open spec fn spec_offer_line(o: GOffer) -> Seq<char> {
    "{\"transfer_id\":"@ + spec_json_str(o.transfer_id) + ",\"file_name\":"@ + spec_json_str(
        o.file_name,
    ) + ",\"file_size\":"@ + crate::strutil::spec_dec(o.file_size as int) + ",\"mime\":"@
        + spec_json_str(o.mime) + ",\"sha256\":"@ + spec_json_opt(o.sha256) + ",\"batch_id\":"@
        + spec_json_opt(o.batch_id) + "}"@
}

/// Encodes an offer as its header line (without the newline).
pub fn encode_offer(o: &crate::transfer::FileOffer) -> (r: String)
    ensures
        r@ == spec_offer_line(view_offer(*o)),
{
    let mut out: Vec<char> = Vec::new();
    push_lit(&mut out, "{\"transfer_id\":");
    push_json_str(&mut out, o.transfer_id.as_str());
    push_lit(&mut out, ",\"file_name\":");
    push_json_str(&mut out, o.file_name.as_str());
    push_lit(&mut out, ",\"file_size\":");
    let mut d = crate::strutil::dec_chars(o.file_size);
    out.append(&mut d);
    push_lit(&mut out, ",\"mime\":");
    push_json_str(&mut out, o.mime.as_str());
    push_lit(&mut out, ",\"sha256\":");
    push_json_opt(&mut out, &o.sha256);
    push_lit(&mut out, ",\"batch_id\":");
    push_json_opt(&mut out, &o.batch_id);
    push_lit(&mut out, "}");
    proof {
        assert(out@ =~= spec_offer_line(view_offer(*o)));
    }
    crate::strutil::chars_to_string(&out)
}

/// What an offer header line means: the object fields under the offer
/// schema. `transfer_id`, `file_name`, `file_size` and `mime` are
/// required; `sha256` and `batch_id` may be absent or `null`; unknown
/// keys are ignored.
pub open spec fn spec_parse_offer(s: Seq<char>) -> Option<GOffer> {
    match spec_parse_object(s) {
        None => None,
        Some(ms) => {
            if spec_str_field(ms, "transfer_id"@) is Some && spec_str_field(ms, "file_name"@)
                is Some && spec_num_field(ms, "file_size"@) is Some && spec_str_field(ms, "mime"@)
                is Some && spec_opt_str_field(ms, "sha256"@) is Some && spec_opt_str_field(
                ms,
                "batch_id"@,
            ) is Some {
                Some(
                    GOffer {
                        transfer_id: spec_str_field(ms, "transfer_id"@)->Some_0,
                        file_name: spec_str_field(ms, "file_name"@)->Some_0,
                        file_size: spec_num_field(ms, "file_size"@)->Some_0,
                        mime: spec_str_field(ms, "mime"@)->Some_0,
                        sha256: spec_opt_str_field(ms, "sha256"@)->Some_0,
                        batch_id: spec_opt_str_field(ms, "batch_id"@)->Some_0,
                    },
                )
            } else {
                None
            }
        },
    }
}

/// Decodes an offer header line.
pub fn parse_offer(line: &str) -> (r: Option<crate::transfer::FileOffer>)
    ensures
        match r {
            None => spec_parse_offer(line@) is None,
            Some(o) => spec_parse_offer(line@) == Some(view_offer(o)),
        },
{
    let cs = crate::strutil::str_to_chars(line);
    match parse_object(cs.as_slice()) {
        None => None,
        Some(ms) => {
            let transfer_id = str_field(&ms, "transfer_id");
            let file_name = str_field(&ms, "file_name");
            let file_size = num_field(&ms, "file_size");
            let mime = str_field(&ms, "mime");
            let sha256 = opt_str_field(&ms, "sha256");
            let batch_id = opt_str_field(&ms, "batch_id");
            match (transfer_id, file_name, file_size, mime, sha256, batch_id) {
                (Some(t), Some(f), Some(n), Some(m), Some(sh), Some(b)) => Some(
                    crate::transfer::FileOffer {
                        transfer_id: t,
                        file_name: f,
                        file_size: n,
                        mime: m,
                        sha256: sh,
                        batch_id: b,
                    },
                ),
                _ => None,
            }
        },
    }
}

/// The ack in mathematical form.
pub open spec fn view_ack(a: crate::transfer::AckMessage) -> (bool, Option<Seq<char>>) {
    (
        a.accept,
        match a.error {
            Some(e) => Some(e@),
            None => None,
        },
    )
}

/// The canonical encoding of an ack line (without the newline): a plain
/// acceptance, or a refusal with its reason.
pub open spec fn spec_ack_line(accept: bool, error: Option<Seq<char>>) -> Seq<char> {
    if accept {
        "{\"accept\":true}"@
    } else {
        "{\"accept\":false,\"error\":"@ + spec_json_opt(error) + "}"@
    }
}

/// Encodes an ack line (without the newline).
pub fn encode_ack(a: &crate::transfer::AckMessage) -> (r: String)
    ensures
        r@ == spec_ack_line(view_ack(*a).0, view_ack(*a).1),
{
    let mut out: Vec<char> = Vec::new();
    if a.accept {
        push_lit(&mut out, "{\"accept\":true}");
    } else {
        push_lit(&mut out, "{\"accept\":false,\"error\":");
        push_json_opt(&mut out, &a.error);
        push_lit(&mut out, "}");
    }
    proof {
        assert(out@ =~= spec_ack_line(view_ack(*a).0, view_ack(*a).1));
    }
    crate::strutil::chars_to_string(&out)
}

/// What an ack line means: `accept` is required; `error` may be absent
/// or `null`.
pub open spec fn spec_parse_ack(s: Seq<char>) -> Option<(bool, Option<Seq<char>>)> {
    match spec_parse_object(s) {
        None => None,
        Some(ms) => {
            if spec_bool_field(ms, "accept"@) is Some && spec_opt_str_field(ms, "error"@)
                is Some {
                Some(
                    (spec_bool_field(ms, "accept"@)->Some_0, spec_opt_str_field(ms, "error"@)->Some_0),
                )
            } else {
                None
            }
        },
    }
}

/// Decodes an ack line.
pub fn parse_ack(line: &str) -> (r: Option<crate::transfer::AckMessage>)
    ensures
        match r {
            None => spec_parse_ack(line@) is None,
            Some(a) => spec_parse_ack(line@) == Some(view_ack(a)),
        },
{
    let cs = crate::strutil::str_to_chars(line);
    match parse_object(cs.as_slice()) {
        None => None,
        Some(ms) => {
            let accept = bool_field(&ms, "accept");
            let error = opt_str_field(&ms, "error");
            match (accept, error) {
                (Some(ac), Some(e)) => Some(crate::transfer::AckMessage { accept: ac, error: e }),
                _ => None,
            }
        },
    }
}

/// The heartbeat in mathematical form.
pub struct GDevice {
    pub name: Seq<char>,
    pub ip: Seq<char>,
    pub port: u16,
    pub status: Seq<char>,
    pub last_seen: u64,
    pub mac: Option<Seq<char>>,
}

/// The mathematical value of a device record.
pub open spec fn view_device(d: crate::registry::Device) -> GDevice {
    GDevice {
        name: d.name@,
        ip: d.ip@,
        port: d.port,
        status: d.status@,
        last_seen: d.last_seen,
        mac: match d.mac {
            Some(m) => Some(m@),
            None => None,
        },
    }
}

/// The canonical encoding of a discovery heartbeat datagram.
pub open spec fn spec_device_line(d: GDevice) -> Seq<char> {
    "{\"name\":"@ + spec_json_str(d.name) + ",\"ip\":"@ + spec_json_str(d.ip) + ",\"port\":"@
        + crate::strutil::spec_dec(d.port as int) + ",\"status\":"@ + spec_json_str(d.status)
        + ",\"last_seen\":"@ + crate::strutil::spec_dec(d.last_seen as int) + ",\"mac\":"@
        + spec_json_opt(d.mac) + "}"@
}

/// Encodes a heartbeat datagram.
pub fn encode_device(d: &crate::registry::Device) -> (r: String)
    ensures
        r@ == spec_device_line(view_device(*d)),
{
    let mut out: Vec<char> = Vec::new();
    push_lit(&mut out, "{\"name\":");
    push_json_str(&mut out, d.name.as_str());
    push_lit(&mut out, ",\"ip\":");
    push_json_str(&mut out, d.ip.as_str());
    push_lit(&mut out, ",\"port\":");
    let mut p = crate::strutil::dec_chars(d.port as u64);
    out.append(&mut p);
    push_lit(&mut out, ",\"status\":");
    push_json_str(&mut out, d.status.as_str());
    push_lit(&mut out, ",\"last_seen\":");
    let mut ls = crate::strutil::dec_chars(d.last_seen);
    out.append(&mut ls);
    push_lit(&mut out, ",\"mac\":");
    push_json_opt(&mut out, &d.mac);
    push_lit(&mut out, "}");
    proof {
        assert(out@ =~= spec_device_line(view_device(*d)));
    }
    crate::strutil::chars_to_string(&out)
}

/// What a heartbeat datagram means: `name`, `ip`, `port`, `status` and
/// `last_seen` are required, `mac` may be absent or `null`; a `port`
/// above 65535 makes the datagram malformed.
pub open spec fn spec_parse_device(s: Seq<char>) -> Option<GDevice> {
    match spec_parse_object(s) {
        None => None,
        Some(ms) => {
            if spec_str_field(ms, "name"@) is Some && spec_str_field(ms, "ip"@) is Some
                && spec_num_field(ms, "port"@) is Some && spec_num_field(ms, "port"@)->Some_0
                <= 0xffff && spec_str_field(ms, "status"@) is Some && spec_num_field(
                ms,
                "last_seen"@,
            ) is Some && spec_opt_str_field(ms, "mac"@) is Some {
                Some(
                    GDevice {
                        name: spec_str_field(ms, "name"@)->Some_0,
                        ip: spec_str_field(ms, "ip"@)->Some_0,
                        port: spec_num_field(ms, "port"@)->Some_0 as u16,
                        status: spec_str_field(ms, "status"@)->Some_0,
                        last_seen: spec_num_field(ms, "last_seen"@)->Some_0,
                        mac: spec_opt_str_field(ms, "mac"@)->Some_0,
                    },
                )
            } else {
                None
            }
        },
    }
}

/// Decodes a heartbeat datagram.
pub fn parse_device(line: &str) -> (r: Option<crate::registry::Device>)
    ensures
        match r {
            None => spec_parse_device(line@) is None,
            Some(d) => spec_parse_device(line@) == Some(view_device(d)),
        },
{
    let cs = crate::strutil::str_to_chars(line);
    match parse_object(cs.as_slice()) {
        None => None,
        Some(ms) => {
            let name = str_field(&ms, "name");
            let ip = str_field(&ms, "ip");
            let port = num_field(&ms, "port");
            let status = str_field(&ms, "status");
            let last_seen = num_field(&ms, "last_seen");
            let mac = opt_str_field(&ms, "mac");
            match (name, ip, port, status, last_seen, mac) {
                (Some(n), Some(i), Some(p), Some(st), Some(ls), Some(m)) => {
                    if p <= 0xffff {
                        Some(
                            crate::registry::Device {
                                name: n,
                                ip: i,
                                port: p as u16,
                                status: st,
                                last_seen: ls,
                                mac: m,
                            },
                        )
                    } else {
                        None
                    }
                },
                _ => None,
            }
        },
    }
}

/// The canonical encoding of the settings file.
pub open spec fn spec_settings_line(auto_accept_trusted: bool) -> Seq<char> {
    if auto_accept_trusted {
        "{\"auto_accept_trusted\":true}"@
    } else {
        "{\"auto_accept_trusted\":false}"@
    }
}

/// Encodes the settings file.
pub fn encode_settings(s: &crate::batch::AppSettings) -> (r: String)
    ensures
        r@ == spec_settings_line(s.auto_accept_trusted),
{
    if s.auto_accept_trusted {
        let mut out: Vec<char> = Vec::new();
        push_lit(&mut out, "{\"auto_accept_trusted\":true}");
        proof {
            assert(out@ =~= spec_settings_line(true));
        }
        crate::strutil::chars_to_string(&out)
    } else {
        let mut out: Vec<char> = Vec::new();
        push_lit(&mut out, "{\"auto_accept_trusted\":false}");
        proof {
            assert(out@ =~= spec_settings_line(false));
        }
        crate::strutil::chars_to_string(&out)
    }
}

/// What the settings file means: a missing `auto_accept_trusted` field
/// counts as `false`; any shape other than a flat object with at most
/// that boolean is malformed (and the caller falls back to defaults).
pub open spec fn spec_parse_settings(s: Seq<char>) -> Option<bool> {
    match spec_parse_object(s) {
        None => None,
        Some(ms) => match spec_field(ms, "auto_accept_trusted"@) {
            None => Some(false),
            Some(GScalar::GBool(b)) => Some(b),
            Some(_) => None,
        },
    }
}

/// Decodes the settings file.
pub fn parse_settings(text: &str) -> (r: Option<crate::batch::AppSettings>)
    ensures
        match r {
            None => spec_parse_settings(text@) is None,
            Some(s) => spec_parse_settings(text@) == Some(s.auto_accept_trusted),
        },
{
    let cs = crate::strutil::str_to_chars(text);
    match parse_object(cs.as_slice()) {
        None => None,
        Some(ms) => match field_index(&ms, "auto_accept_trusted") {
            None => Some(crate::batch::AppSettings { auto_accept_trusted: false }),
            Some(k) => match &ms.vals[k] {
                JsonScalar::Bool(b) => Some(crate::batch::AppSettings { auto_accept_trusted: *b }),
                _ => None,
            },
        },
    }
}

/// The elements of a string array, from the position after `[` or `,`:
/// `str (, str)* ]`, with the position after `]`.
pub open spec fn spec_list_elems(s: Seq<char>, i: int) -> Option<(Seq<Seq<char>>, int)>
    decreases s.len() - i when 0 <= i <= s.len()
{
    match spec_parse_string(s, spec_skip_ws(s, i)) {
        None => None,
        Some(ep) => {
            let ni = spec_skip_ws(s, ep.1);
            if 0 <= ni < s.len() && s[ni] == ',' {
                if i < ni + 1 <= s.len() {
                    match spec_list_elems(s, ni + 1) {
                        None => None,
                        Some(rest) => Some((seq![ep.0] + rest.0, rest.1)),
                    }
                } else {
                    None
                }
            } else if 0 <= ni < s.len() && s[ni] == ']' {
                Some((seq![ep.0], ni + 1))
            } else {
                None
            }
        },
    }
}

fn list_elems(s: &[char], i: usize) -> (r: Option<(Vec<String>, usize)>)
    requires
        i <= s@.len(),
    ensures
        match r {
            None => spec_list_elems(s@, i as int) is None,
            Some(p) => spec_list_elems(s@, i as int) == Some(
                (Seq::new(p.0@.len(), |k: int| p.0@[k]@), p.1 as int),
            ) && i < p.1 <= s@.len(),
        },
    decreases s@.len() - i,
{
    let ei = skip_ws(s, i);
    match parse_string(s, ei) {
        None => None,
        Some(ep) => {
            let ni = skip_ws(s, ep.1);
            if ni < s.len() && s[ni] == ',' {
                match list_elems(s, ni + 1) {
                    None => None,
                    Some(rest) => {
                        let mut out: Vec<String> = Vec::new();
                        out.push(crate::strutil::chars_to_string(&ep.0));
                        let mut tail = rest.0;
                        out.append(&mut tail);
                        proof {
                            assert(Seq::new(out@.len(), |k: int| out@[k]@) =~= seq![ep.0@]
                                + Seq::new(rest.0@.len(), |k: int| rest.0@[k]@));
                        }
                        Some((out, rest.1))
                    },
                }
            } else if ni < s.len() && s[ni] == ']' {
                let mut out: Vec<String> = Vec::new();
                out.push(crate::strutil::chars_to_string(&ep.0));
                proof {
                    assert(Seq::new(out@.len(), |k: int| out@[k]@) =~= seq![ep.0@]);
                }
                Some((out, ni + 1))
            } else {
                None
            }
        },
    }
}

/// What the trust list file means: one flat JSON array of strings.
pub open spec fn spec_parse_str_list(s: Seq<char>) -> Option<Seq<Seq<char>>> {
    let oi = spec_skip_ws(s, 0);
    if !(0 <= oi < s.len() && s[oi] == '[') {
        None
    } else {
        let first = spec_skip_ws(s, oi + 1);
        if 0 <= first < s.len() && s[first] == ']' {
            if spec_skip_ws(s, first + 1) == s.len() {
                Some(Seq::empty())
            } else {
                None
            }
        } else {
            match spec_list_elems(s, oi + 1) {
                None => None,
                Some(p) => if spec_skip_ws(s, p.1) == s.len() {
                    Some(p.0)
                } else {
                    None
                },
            }
        }
    }
}

/// Decodes the trust list file.
pub fn parse_str_list(text: &str) -> (r: Option<Vec<String>>)
    ensures
        match r {
            None => spec_parse_str_list(text@) is None,
            Some(l) => spec_parse_str_list(text@) == Some(
                Seq::new(l@.len(), |k: int| l@[k]@),
            ),
        },
{
    let s = crate::strutil::str_to_chars(text);
    let oi = skip_ws(s.as_slice(), 0);
    if !(oi < s.len() && s[oi] == '[') {
        None
    } else {
        let first = skip_ws(s.as_slice(), oi + 1);
        if first < s.len() && s[first] == ']' {
            if skip_ws(s.as_slice(), first + 1) == s.len() {
                let out: Vec<String> = Vec::new();
                proof {
                    assert(Seq::new(out@.len(), |k: int| out@[k]@) =~= Seq::<Seq<char>>::empty());
                }
                Some(out)
            } else {
                None
            }
        } else {
            match list_elems(s.as_slice(), oi + 1) {
                None => None,
                Some(p) => {
                    if skip_ws(s.as_slice(), p.1) == s.len() {
                        Some(p.0)
                    } else {
                        None
                    }
                },
            }
        }
    }
}

/// The canonical encoding of the elements of the trust list from
/// position `i` on, comma separated.
pub open spec fn spec_list_tail(l: Seq<Seq<char>>, i: int) -> Seq<char>
    decreases l.len() - i when 0 <= i <= l.len()
{
    if i >= l.len() {
        Seq::empty()
    } else if i + 1 < l.len() {
        spec_json_str(l[i]) + seq![','] + spec_list_tail(l, i + 1)
    } else {
        spec_json_str(l[i])
    }
}

fn push_list_tail(out: &mut Vec<char>, l: &Vec<String>, i: usize)
    requires
        i <= l@.len(),
    ensures
        final(out)@ == old(out)@ + spec_list_tail(Seq::new(l@.len(), |k: int| l@[k]@), i as int),
    decreases l@.len() - i,
{
    let ghost gl = Seq::new(l@.len(), |k: int| l@[k]@);
    if i >= l.len() {
        proof {
            assert(final(out)@ =~= old(out)@ + spec_list_tail(gl, i as int));
        }
    } else if i + 1 < l.len() {
        push_json_str(out, l[i].as_str());
        out.push(',');
        push_list_tail(out, l, i + 1);
        proof {
            assert(final(out)@ =~= old(out)@ + spec_list_tail(gl, i as int));
        }
    } else {
        push_json_str(out, l[i].as_str());
        proof {
            assert(final(out)@ =~= old(out)@ + spec_list_tail(gl, i as int));
        }
    }
}

/// The canonical encoding of the trust list file.
pub open spec fn spec_str_list_line(l: Seq<Seq<char>>) -> Seq<char> {
    seq!['['] + spec_list_tail(l, 0) + seq![']']
}

/// Encodes the trust list file.
pub fn encode_str_list(l: &Vec<String>) -> (r: String)
    ensures
        r@ == spec_str_list_line(Seq::new(l@.len(), |k: int| l@[k]@)),
{
    let mut out: Vec<char> = Vec::new();
    out.push('[');
    push_list_tail(&mut out, l, 0);
    out.push(']');
    proof {
        assert(out@ =~= spec_str_list_line(Seq::new(l@.len(), |k: int| l@[k]@)));
    }
    crate::strutil::chars_to_string(&out)
}

} // verus!
