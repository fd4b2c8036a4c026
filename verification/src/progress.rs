//! Progress event decoder.
//!
//! The child process emits one record per line: a flat object with a `stage`
//! string, a `progress` number and an optional `message` string, interleaved
//! with free diagnostic text. The grammar below defines exactly which lines
//! count as progress records; every other line is "not a progress event".
//! The number is kept as its raw text: the runner only forwards it, never
//! computes with it.

use vstd::prelude::*;
use vstd::string::StrSliceExecFns;
use vstd::string::StringExecFns;

verus! {

/// A decoded progress record: pipeline stage, progress fraction (the raw
/// numeric text of the record), optional free-text message.
pub struct ProgressEvent {
    pub stage: String,
    pub progress: String,
    pub message: Option<String>,
}

/// Mathematical image of a progress record.
pub struct ProgressRec {
    pub stage: Seq<char>,
    pub progress: Seq<char>,
    pub message: Option<Seq<char>>,
}

impl View for ProgressEvent {
    type V = ProgressRec;

    open spec fn view(&self) -> ProgressRec {
        ProgressRec {
            stage: self.stage@,
            progress: self.progress@,
            message: self.message.deep_view(),
        }
    }
}

impl DeepView for ProgressEvent {
    type V = ProgressRec;

    open spec fn deep_view(&self) -> ProgressRec {
        self.view()
    }
}

/// A scalar member value: a string, a number kept as raw text, a boolean,
/// or null. Records are flat, so nothing deeper occurs.
pub enum JsonScalar {
    JStr(Seq<char>),
    JNum(Seq<char>),
    JBool,
    JNull,
}

/// The fields gathered while walking the members of a record.
pub struct PartialRec {
    pub stage: Option<Seq<char>>,
    pub progress: Option<Seq<char>>,
    pub message: Option<Option<Seq<char>>>,
}

pub open spec fn empty_partial() -> PartialRec {
    PartialRec { stage: None, progress: None, message: None }
}

pub open spec fn is_ws(c: char) -> bool {
    c == ' ' || c == '\t' || c == '\r' || c == '\n'
}

pub open spec fn is_digit(c: char) -> bool {
    48 <= c as u32 && c as u32 <= 57
}

/// First index at or after `i` holding no whitespace.
pub open spec fn skip_ws(s: Seq<char>, i: int) -> int
    decreases s.len() - i,
{
    if 0 <= i < s.len() && is_ws(s[i]) {
        skip_ws(s, i + 1)
    } else {
        i
    }
}

/// First index at or after `i` holding no digit.
pub open spec fn scan_digits(s: Seq<char>, i: int) -> int
    decreases s.len() - i,
{
    if 0 <= i < s.len() && is_digit(s[i]) {
        scan_digits(s, i + 1)
    } else {
        i
    }
}

/// Numeric value of a hex digit; 16 for any other character.
pub open spec fn hex_val(c: char) -> int {
    let u = c as u32;
    if 48 <= u && u <= 57 {
        u - 48
    } else if 97 <= u && u <= 102 {
        u - 87
    } else if 65 <= u && u <= 70 {
        u - 55
    } else {
        16
    }
}

pub open spec fn is_hex(c: char) -> bool {
    hex_val(c) < 16
}

/// Whether a code is a Unicode scalar value (no surrogates, in range).
pub open spec fn is_scalar_code(v: int) -> bool {
    (0 <= v < 0xD800) || (0xE000 <= v < 0x110000)
}

/// The character with the given code, for codes that are scalar values.
pub open spec fn char_from_code(v: int) -> char {
    choose|c: char| #[trigger] (c as u32) as int == v
}

/// Every character is the one `char_from_code` picks for its own code.
pub proof fn lemma_char_from_code_of(c: char)
    ensures
        char_from_code((c as u32) as int) == c,
{
    let v = (c as u32) as int;
    assert((c as u32) as int == v);
    assert(char_from_code(v) == c);
}

/// The character an escape stands for, if the escape is recognised.
pub open spec fn unescape(c: char) -> Option<char> {
    if c == '"' {
        Some('"')
    } else if c == '\\' {
        Some('\\')
    } else if c == '/' {
        Some('/')
    } else if c == 'b' {
        Some('\u{8}')
    } else if c == 'f' {
        Some('\u{c}')
    } else if c == 'n' {
        Some('\n')
    } else if c == 'r' {
        Some('\r')
    } else if c == 't' {
        Some('\t')
    } else {
        None
    }
}

/// Scan the body of a string token from `i` (just past the opening quote),
/// accumulating the decoded characters; yields the decoded text and the index
/// just past the closing quote.
pub open spec fn scan_string_rest(s: Seq<char>, i: int, acc: Seq<char>) -> Option<(Seq<char>, int)>
    decreases s.len() - i,
{
    if i < 0 || i >= s.len() {
        None
    } else if s[i] == '"' {
        Some((acc, i + 1))
    } else if s[i] == '\\' {
        if i + 1 < s.len() {
            if s[i + 1] == 'u' {
                if i + 5 < s.len() && is_hex(s[i + 2]) && is_hex(s[i + 3]) && is_hex(s[i + 4])
                    && is_hex(s[i + 5]) {
                    let v = hex_val(s[i + 2]) * 4096 + hex_val(s[i + 3]) * 256 + hex_val(
                        s[i + 4],
                    ) * 16 + hex_val(s[i + 5]);
                    if is_scalar_code(v) {
                        scan_string_rest(s, i + 6, acc.push(char_from_code(v)))
                    } else {
                        None
                    }
                } else {
                    None
                }
            } else {
                match unescape(s[i + 1]) {
                    Some(c) => scan_string_rest(s, i + 2, acc.push(c)),
                    None => None,
                }
            }
        } else {
            None
        }
    } else if (s[i] as u32) < 32 {
        None
    } else {
        scan_string_rest(s, i + 1, acc.push(s[i]))
    }
}

/// Scan a string token starting at `i`.
pub open spec fn scan_string(s: Seq<char>, i: int) -> Option<(Seq<char>, int)> {
    if 0 <= i < s.len() && s[i] == '"' {
        scan_string_rest(s, i + 1, Seq::empty())
    } else {
        None
    }
}

/// Scan an optional fraction part at `i`; yields the index past it.
pub open spec fn scan_frac(s: Seq<char>, i: int) -> Option<int> {
    if 0 <= i < s.len() && s[i] == '.' {
        let d = scan_digits(s, i + 1);
        if d == i + 1 {
            None
        } else {
            Some(d)
        }
    } else {
        Some(i)
    }
}

/// Scan an optional exponent part at `i`; yields the index past it.
pub open spec fn scan_exp(s: Seq<char>, i: int) -> Option<int> {
    if 0 <= i < s.len() && (s[i] == 'e' || s[i] == 'E') {
        let j = if i + 1 < s.len() && (s[i + 1] == '+' || s[i + 1] == '-') {
            i + 2
        } else {
            i + 1
        };
        let d = scan_digits(s, j);
        if d == j {
            None
        } else {
            Some(d)
        }
    } else {
        Some(i)
    }
}

/// Scan a number token at `i`; yields its raw text and the index past it.
pub open spec fn scan_number(s: Seq<char>, i: int) -> Option<(Seq<char>, int)> {
    if i < 0 || i >= s.len() {
        None
    } else {
        let i1 = if s[i] == '-' {
            i + 1
        } else {
            i
        };
        if !(i1 < s.len() && is_digit(s[i1])) {
            None
        } else {
            let i2 = if s[i1] == '0' {
                i1 + 1
            } else {
                scan_digits(s, i1)
            };
            match scan_frac(s, i2) {
                None => None,
                Some(i3) => match scan_exp(s, i3) {
                    None => None,
                    Some(i4) => Some((s.subrange(i, i4), i4)),
                },
            }
        }
    }
}

/// Scan a scalar member value at `i`.
pub open spec fn scan_value(s: Seq<char>, i: int) -> Option<(JsonScalar, int)> {
    if i < 0 || i >= s.len() {
        None
    } else if s[i] == '"' {
        match scan_string(s, i) {
            Some((v, j)) => Some((JsonScalar::JStr(v), j)),
            None => None,
        }
    } else if s[i] == '-' || is_digit(s[i]) {
        match scan_number(s, i) {
            Some((v, j)) => Some((JsonScalar::JNum(v), j)),
            None => None,
        }
    } else if i + 4 <= s.len() && s[i] == 't' && s[i + 1] == 'r' && s[i + 2] == 'u' && s[i + 3]
        == 'e' {
        Some((JsonScalar::JBool, i + 4))
    } else if i + 5 <= s.len() && s[i] == 'f' && s[i + 1] == 'a' && s[i + 2] == 'l' && s[i + 3]
        == 's' && s[i + 4] == 'e' {
        Some((JsonScalar::JBool, i + 5))
    } else if i + 4 <= s.len() && s[i] == 'n' && s[i + 1] == 'u' && s[i + 2] == 'l' && s[i + 3]
        == 'l' {
        Some((JsonScalar::JNull, i + 4))
    } else {
        None
    }
}

/// Record one member into the gathered fields. A second `stage`, `progress`
/// or `message`, or one of them with the wrong value kind, rejects the line;
/// a `message` of null counts as absent; unknown keys are ignored.
pub open spec fn apply_member(p: PartialRec, key: Seq<char>, v: JsonScalar) -> Option<PartialRec> {
    if key == "stage"@ {
        if p.stage is Some {
            None
        } else {
            match v {
                JsonScalar::JStr(t) => Some(
                    PartialRec { stage: Some(t), progress: p.progress, message: p.message },
                ),
                _ => None,
            }
        }
    } else if key == "progress"@ {
        if p.progress is Some {
            None
        } else {
            match v {
                JsonScalar::JNum(t) => Some(
                    PartialRec { stage: p.stage, progress: Some(t), message: p.message },
                ),
                _ => None,
            }
        }
    } else if key == "message"@ {
        if p.message is Some {
            None
        } else {
            match v {
                JsonScalar::JStr(t) => Some(
                    PartialRec { stage: p.stage, progress: p.progress, message: Some(Some(t)) },
                ),
                JsonScalar::JNull => Some(
                    PartialRec { stage: p.stage, progress: p.progress, message: Some(None) },
                ),
                _ => None,
            }
        }
    } else {
        Some(p)
    }
}

/// Walk the members of a record from `i` (at the first member's key),
/// consuming the closing brace; yields the gathered fields and the index just
/// past the brace.
pub open spec fn scan_members(s: Seq<char>, i: int, p: PartialRec) -> Option<(PartialRec, int)>
    decreases s.len() - i,
{
    match scan_string(s, i) {
        None => None,
        Some((key, j1)) => {
            let j2 = skip_ws(s, j1);
            if !(j2 < s.len() && s[j2] == ':') {
                None
            } else {
                match scan_value(s, skip_ws(s, j2 + 1)) {
                    None => None,
                    Some((v, j3)) => match apply_member(p, key, v) {
                        None => None,
                        Some(p2) => {
                            let j4 = skip_ws(s, j3);
                            if j4 < s.len() && s[j4] == ',' {
                                let j5 = skip_ws(s, j4 + 1);
                                if i < j5 && j5 <= s.len() {
                                    scan_members(s, j5, p2)
                                } else {
                                    None
                                }
                            } else if j4 < s.len() && s[j4] == '}' {
                                Some((p2, j4 + 1))
                            } else {
                                None
                            }
                        },
                    },
                }
            }
        },
    }
}

/// Parse one whole record object starting at `i`.
pub open spec fn parse_object(s: Seq<char>, i: int) -> Option<(PartialRec, int)> {
    if !(0 <= i && i < s.len() && s[i] == '{') {
        None
    } else {
        let j = skip_ws(s, i + 1);
        if j < s.len() && s[j] == '}' {
            Some((empty_partial(), j + 1))
        } else {
            scan_members(s, j, empty_partial())
        }
    }
}

/// What one line of child output decodes to: a progress record when the whole
/// line is a record object carrying a `stage` string and a `progress` number,
/// nothing otherwise.
pub open spec fn spec_decode(s: Seq<char>) -> Option<ProgressRec> {
    match parse_object(s, skip_ws(s, 0)) {
        None => None,
        Some((p, j)) => {
            if skip_ws(s, j) == s.len() {
                match p.stage {
                    None => None,
                    Some(st) => match p.progress {
                        None => None,
                        Some(pr) => Some(
                            ProgressRec {
                                stage: st,
                                progress: pr,
                                message: match p.message {
                                    Some(m) => m,
                                    None => None,
                                },
                            },
                        ),
                    },
                }
            } else {
                None
            }
        },
    }
}

/// The fields gathered while walking the members, in executable form.
struct PartialEvent {
    stage: Option<String>,
    progress: Option<String>,
    message: Option<Option<String>>,
}

spec fn pview(p: PartialEvent) -> PartialRec {
    PartialRec {
        stage: p.stage.deep_view(),
        progress: p.progress.deep_view(),
        message: p.message.deep_view(),
    }
}

/// A scalar member value, in executable form.
enum JsonValue {
    Str(String),
    Num(String),
    Bool,
    Null,
}

spec fn jview(v: JsonValue) -> JsonScalar {
    match v {
        JsonValue::Str(t) => JsonScalar::JStr(t@),
        JsonValue::Num(t) => JsonScalar::JNum(t@),
        JsonValue::Bool => JsonScalar::JBool,
        JsonValue::Null => JsonScalar::JNull,
    }
}

/// Relies on `String`'s `FromIterator` impl: collecting characters yields the
/// string of exactly those characters.
#[verifier::external_body]
fn chars_to_string(v: &Vec<char>) -> (r: String)
    ensures
        r@ == v@,
{
    v.iter().collect()
}

fn ws_char(c: char) -> (r: bool)
    ensures
        r == is_ws(c),
{
    c == ' ' || c == '\t' || c == '\r' || c == '\n'
}

fn digit_char(c: char) -> (r: bool)
    ensures
        r == is_digit(c),
{
    let u = c as u32;
    48 <= u && u <= 57
}

fn hex_digit(c: char) -> (r: Option<u32>)
    ensures
        r is Some <==> is_hex(c),
        r matches Some(v) ==> v as int == hex_val(c) && v < 16,
{
    let u = c as u32;
    if 48 <= u && u <= 57 {
        Some(u - 48)
    } else if 97 <= u && u <= 102 {
        Some(u - 87)
    } else if 65 <= u && u <= 70 {
        Some(u - 55)
    } else {
        None
    }
}

/// Relies on `char::from_u32`: yields the character with exactly the given
/// code point, and nothing exactly for surrogate codes and codes past the
/// Unicode maximum.
#[verifier::external_body]
fn char_of_u32(u: u32) -> (r: Option<char>)
    ensures
        r matches Some(c) ==> c as u32 == u,
        r is None <==> (0xD800 <= u < 0xE000 || 0x110000 <= u),
{
    char::from_u32(u)
}

fn unescape_char(c: char) -> (r: Option<char>)
    ensures
        r == unescape(c),
{
    if c == '"' {
        Some('"')
    } else if c == '\\' {
        Some('\\')
    } else if c == '/' {
        Some('/')
    } else if c == 'b' {
        Some('\u{8}')
    } else if c == 'f' {
        Some('\u{c}')
    } else if c == 'n' {
        Some('\n')
    } else if c == 'r' {
        Some('\r')
    } else if c == 't' {
        Some('\t')
    } else {
        None
    }
}

fn skip_ws_x(s: &str, n: usize, i: usize) -> (r: usize)
    requires
        n == s@.len(),
        i <= n,
    ensures
        r as int == skip_ws(s@, i as int),
        i <= r <= n,
{
    let mut k: usize = i;
    while k < n && ws_char(s.get_char(k))
        invariant
            i <= k <= n,
            n == s@.len(),
            skip_ws(s@, k as int) == skip_ws(s@, i as int),
        decreases n - k,
    {
        k = k + 1;
    }
    k
}

fn scan_digits_x(s: &str, n: usize, i: usize) -> (r: usize)
    requires
        n == s@.len(),
        i <= n,
    ensures
        r as int == scan_digits(s@, i as int),
        i <= r <= n,
{
    let mut k: usize = i;
    while k < n && digit_char(s.get_char(k))
        invariant
            i <= k <= n,
            n == s@.len(),
            scan_digits(s@, k as int) == scan_digits(s@, i as int),
        decreases n - k,
    {
        k = k + 1;
    }
    k
}

fn scan_string_x(s: &str, n: usize, i: usize) -> (r: Option<(String, usize)>)
    requires
        n == s@.len(),
        i <= n,
    ensures
        r is None <==> scan_string(s@, i as int) is None,
        r matches Some((v, j)) ==> scan_string(s@, i as int) == Some((v@, j as int)) && i < j <= n,
{
    if !(i < n && s.get_char(i) == '"') {
        return None;
    }
    let mut k: usize = i + 1;
    let mut acc: Vec<char> = Vec::new();
    loop
        invariant
            i < n,
            i + 1 <= k <= n,
            n == s@.len(),
            s@[i as int] == '"',
            scan_string_rest(s@, k as int, acc@) == scan_string_rest(
                s@,
                i as int + 1,
                Seq::empty(),
            ),
        decreases n - k,
    {
        if k >= n {
            return None;
        }
        let c = s.get_char(k);
        if c == '"' {
            let v = chars_to_string(&acc);
            return Some((v, k + 1));
        } else if c == '\\' {
            if k + 1 >= n {
                return None;
            }
            let e = s.get_char(k + 1);
            if e == 'u' {
                if n - k < 6 {
                    return None;
                }
                let h0 = match hex_digit(s.get_char(k + 2)) {
                    Some(x) => x,
                    None => {
                        return None;
                    },
                };
                let h1 = match hex_digit(s.get_char(k + 3)) {
                    Some(x) => x,
                    None => {
                        return None;
                    },
                };
                let h2 = match hex_digit(s.get_char(k + 4)) {
                    Some(x) => x,
                    None => {
                        return None;
                    },
                };
                let h3 = match hex_digit(s.get_char(k + 5)) {
                    Some(x) => x,
                    None => {
                        return None;
                    },
                };
                let v: u32 = h0 * 4096 + h1 * 256 + h2 * 16 + h3;
                match char_of_u32(v) {
                    Some(u) => {
                        proof {
                            lemma_char_from_code_of(u);
                            assert((u as u32) as int == v as int);
                            assert(char_from_code(v as int) == u);
                        }
                        acc.push(u);
                        k = k + 6;
                    },
                    None => {
                        return None;
                    },
                }
            } else {
                match unescape_char(e) {
                    Some(u) => {
                        acc.push(u);
                        k = k + 2;
                    },
                    None => {
                        return None;
                    },
                }
            }
        } else if (c as u32) < 32 {
            return None;
        } else {
            acc.push(c);
            k = k + 1;
        }
    }
}

fn scan_frac_x(s: &str, n: usize, i: usize) -> (r: Option<usize>)
    requires
        n == s@.len(),
        i <= n,
    ensures
        r is None <==> scan_frac(s@, i as int) is None,
        r matches Some(j) ==> scan_frac(s@, i as int) == Some(j as int) && i <= j <= n,
{
    if i < n && s.get_char(i) == '.' {
        let d = scan_digits_x(s, n, i + 1);
        if d == i + 1 {
            None
        } else {
            Some(d)
        }
    } else {
        Some(i)
    }
}

fn scan_exp_x(s: &str, n: usize, i: usize) -> (r: Option<usize>)
    requires
        n == s@.len(),
        i <= n,
    ensures
        r is None <==> scan_exp(s@, i as int) is None,
        r matches Some(j) ==> scan_exp(s@, i as int) == Some(j as int) && i <= j <= n,
{
    if i < n && (s.get_char(i) == 'e' || s.get_char(i) == 'E') {
        let j: usize = if i + 1 < n && (s.get_char(i + 1) == '+' || s.get_char(i + 1) == '-') {
            i + 2
        } else {
            i + 1
        };
        let d = scan_digits_x(s, n, j);
        if d == j {
            None
        } else {
            Some(d)
        }
    } else {
        Some(i)
    }
}

fn scan_number_x(s: &str, n: usize, i: usize) -> (r: Option<(String, usize)>)
    requires
        n == s@.len(),
        i <= n,
    ensures
        r is None <==> scan_number(s@, i as int) is None,
        r matches Some((v, j)) ==> scan_number(s@, i as int) == Some((v@, j as int)) && i <= j
            <= n,
{
    if i >= n {
        return None;
    }
    let i1: usize = if s.get_char(i) == '-' {
        i + 1
    } else {
        i
    };
    if !(i1 < n && digit_char(s.get_char(i1))) {
        return None;
    }
    let i2: usize = if s.get_char(i1) == '0' {
        i1 + 1
    } else {
        scan_digits_x(s, n, i1)
    };
    let i3: usize = match scan_frac_x(s, n, i2) {
        None => {
            return None;
        },
        Some(j) => j,
    };
    let i4: usize = match scan_exp_x(s, n, i3) {
        None => {
            return None;
        },
        Some(j) => j,
    };
    let raw = s.substring_char(i, i4);
    Some((String::from_str(raw), i4))
}

fn scan_value_x(s: &str, n: usize, i: usize) -> (r: Option<(JsonValue, usize)>)
    requires
        n == s@.len(),
        i <= n,
    ensures
        r is None <==> scan_value(s@, i as int) is None,
        r matches Some((v, j)) ==> scan_value(s@, i as int) == Some((jview(v), j as int)) && i <= j
            <= n,
{
    if i >= n {
        return None;
    }
    let c = s.get_char(i);
    if c == '"' {
        match scan_string_x(s, n, i) {
            Some((v, j)) => Some((JsonValue::Str(v), j)),
            None => None,
        }
    } else if c == '-' || digit_char(c) {
        match scan_number_x(s, n, i) {
            Some((v, j)) => Some((JsonValue::Num(v), j)),
            None => None,
        }
    } else if c == 't' {
        if n - i >= 4 && s.get_char(i + 1) == 'r' && s.get_char(i + 2) == 'u' && s.get_char(i + 3)
            == 'e' {
            Some((JsonValue::Bool, i + 4))
        } else {
            None
        }
    } else if c == 'f' {
        if n - i >= 5 && s.get_char(i + 1) == 'a' && s.get_char(i + 2) == 'l' && s.get_char(i + 3)
            == 's' && s.get_char(i + 4) == 'e' {
            Some((JsonValue::Bool, i + 5))
        } else {
            None
        }
    } else if c == 'n' {
        if n - i >= 4 && s.get_char(i + 1) == 'u' && s.get_char(i + 2) == 'l' && s.get_char(i + 3)
            == 'l' {
            Some((JsonValue::Null, i + 4))
        } else {
            None
        }
    } else {
        None
    }
}

fn apply_member_x(p: PartialEvent, key: &String, v: JsonValue) -> (r: Option<PartialEvent>)
    ensures
        r is None <==> apply_member(pview(p), key@, jview(v)) is None,
        r matches Some(q) ==> apply_member(pview(p), key@, jview(v)) == Some(pview(q)),
{
    if *key == String::from_str("stage") {
        if p.stage.is_some() {
            return None;
        }
        match v {
            JsonValue::Str(t) => Some(
                PartialEvent { stage: Some(t), progress: p.progress, message: p.message },
            ),
            _ => None,
        }
    } else if *key == String::from_str("progress") {
        if p.progress.is_some() {
            return None;
        }
        match v {
            JsonValue::Num(t) => Some(
                PartialEvent { stage: p.stage, progress: Some(t), message: p.message },
            ),
            _ => None,
        }
    } else if *key == String::from_str("message") {
        if p.message.is_some() {
            return None;
        }
        match v {
            JsonValue::Str(t) => Some(
                PartialEvent { stage: p.stage, progress: p.progress, message: Some(Some(t)) },
            ),
            JsonValue::Null => Some(
                PartialEvent { stage: p.stage, progress: p.progress, message: Some(None) },
            ),
            _ => None,
        }
    } else {
        Some(p)
    }
}

fn scan_members_x(s: &str, n: usize, start: usize, p0: PartialEvent) -> (r: Option<
    (PartialEvent, usize),
>)
    requires
        n == s@.len(),
        start <= n,
    ensures
        r is None <==> scan_members(s@, start as int, pview(p0)) is None,
        r matches Some((q, j)) ==> scan_members(s@, start as int, pview(p0)) == Some(
            (pview(q), j as int),
        ) && j <= n,
{
    let mut i: usize = start;
    let mut p = p0;
    loop
        invariant
            i <= n,
            n == s@.len(),
            scan_members(s@, i as int, pview(p)) == scan_members(s@, start as int, pview(p0)),
        decreases n - i,
    {
        let (key, j1) = match scan_string_x(s, n, i) {
            None => {
                return None;
            },
            Some(x) => x,
        };
        let j2 = skip_ws_x(s, n, j1);
        if !(j2 < n && s.get_char(j2) == ':') {
            return None;
        }
        let j2b = skip_ws_x(s, n, j2 + 1);
        let (v, j3) = match scan_value_x(s, n, j2b) {
            None => {
                return None;
            },
            Some(x) => x,
        };
        let p2 = match apply_member_x(p, &key, v) {
            None => {
                return None;
            },
            Some(x) => x,
        };
        let j4 = skip_ws_x(s, n, j3);
        if j4 < n && s.get_char(j4) == ',' {
            let j5 = skip_ws_x(s, n, j4 + 1);
            if i < j5 && j5 <= n {
                i = j5;
                p = p2;
            } else {
                return None;
            }
        } else if j4 < n && s.get_char(j4) == '}' {
            return Some((p2, j4 + 1));
        } else {
            return None;
        }
    }
}

/// Decode one line of child output. Yields the progress record the line
/// carries, or nothing when the line is not a well-formed record; decoding
/// never fails the job.
pub fn decode_line(s: &str) -> (r: Option<ProgressEvent>)
    ensures
        r is None <==> spec_decode(s@) is None,
        r matches Some(ev) ==> spec_decode(s@) == Some(ev@),
{
    let n = s.unicode_len();
    let i = skip_ws_x(s, n, 0);
    if !(i < n && s.get_char(i) == '{') {
        return None;
    }
    let j = skip_ws_x(s, n, i + 1);
    let (p, jend) = if j < n && s.get_char(j) == '}' {
        (PartialEvent { stage: None, progress: None, message: None }, j + 1)
    } else {
        match scan_members_x(s, n, j, PartialEvent { stage: None, progress: None, message: None }) {
            None => {
                return None;
            },
            Some(x) => x,
        }
    };
    let k = skip_ws_x(s, n, jend);
    if k != n {
        return None;
    }
    let st = match p.stage {
        None => {
            return None;
        },
        Some(t) => t,
    };
    let pr = match p.progress {
        None => {
            return None;
        },
        Some(t) => t,
    };
    let msg = match p.message {
        Some(m) => m,
        None => None,
    };
    Some(ProgressEvent { stage: st, progress: pr, message: msg })
}

} // verus!
