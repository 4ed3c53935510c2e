//! Parsing the canonical textual form back into an error value: the inverse
//! of rendering, total on every input.
//!
//! The structured form is
//! `[code=<alphanumerics>,error_type=<letters-and-hyphens>]<one space><message>`
//! with a non-empty code token, a non-empty type token, a single white-space
//! character after the bracket, and a non-empty message free of line breaks.
//! Anything else degrades to an unclassified error carrying the whole input.

use vstd::prelude::*;

use crate::codes::normalize_code;
use crate::error_type::{lemma_name_of_type_chars, lemma_type_name_bijective, name_of,
    type_of_name, ErrorType};
use crate::mapped::{rendered, MappedErrors};
use crate::text::{code_char, has_at, is_code_char, is_space_char, is_type_char, space_char,
    type_char};

verus! {

/// The end of the run of code characters that starts at `i`.
pub open spec fn code_run_end(s: Seq<char>, i: int) -> int
    decreases s.len() - i,
        when 0 <= i <= s.len()
{
    if i < s.len() && is_code_char(s[i]) {
        code_run_end(s, i + 1)
    } else {
        i
    }
}

/// The end of the run of type characters that starts at `i`.
pub open spec fn type_run_end(s: Seq<char>, i: int) -> int
    decreases s.len() - i,
        when 0 <= i <= s.len()
{
    if i < s.len() && is_type_char(s[i]) {
        type_run_end(s, i + 1)
    } else {
        i
    }
}

/// A code run is delimited exactly by its first non-code position.
pub proof fn lemma_code_run_is(s: Seq<char>, i: int, j: int)
    requires
        0 <= i <= j <= s.len(),
        forall|k: int| i <= k < j ==> is_code_char(#[trigger] s[k]),
        j == s.len() || !is_code_char(s[j]),
    ensures
        code_run_end(s, i) == j,
    decreases j - i,
{
    if i < j {
        lemma_code_run_is(s, i + 1, j);
    }
}

/// A type run is delimited exactly by its first non-type position.
pub proof fn lemma_type_run_is(s: Seq<char>, i: int, j: int)
    requires
        0 <= i <= j <= s.len(),
        forall|k: int| i <= k < j ==> is_type_char(#[trigger] s[k]),
        j == s.len() || !is_type_char(s[j]),
    ensures
        type_run_end(s, i) == j,
    decreases j - i,
{
    if i < j {
        lemma_type_run_is(s, i + 1, j);
    }
}

/// Where the code token of a structured string ends: the code characters run
/// from position 6, just after `[code=`.
pub open spec fn code_end(s: Seq<char>) -> int {
    code_run_end(s, 6)
}

/// Where the type token of a structured string ends: the type characters run
/// from just after `,error_type=`.
pub open spec fn ty_end(s: Seq<char>) -> int {
    type_run_end(s, code_end(s) + 12)
}

/// Whether a string is in the structured canonical form.
pub open spec fn structured(s: Seq<char>) -> bool {
    let n = s.len() as int;
    let ce = code_end(s);
    let te = ty_end(s);
    &&& n >= 6
    &&& s.subrange(0, 6) == "[code="@
    &&& ce > 6
    &&& ce + 12 <= n
    &&& s.subrange(ce, ce + 12) == ",error_type="@
    &&& te > ce + 12
    &&& te + 2 < n
    &&& s[te] == ']'
    &&& is_space_char(s[te + 1])
    &&& forall|k: int| te + 2 <= k < n ==> s[k] != '\n'
}

/// The code token of a structured string.
pub open spec fn code_token(s: Seq<char>) -> Seq<char> {
    s.subrange(6, code_end(s))
}

/// The type token of a structured string.
pub open spec fn ty_token(s: Seq<char>) -> Seq<char> {
    s.subrange(code_end(s) + 12, ty_end(s))
}

/// The message of a structured string: everything after the white-space
/// character that follows the bracketed header.
pub open spec fn tail_of(s: Seq<char>) -> Seq<char> {
    s.subrange(ty_end(s) + 2, s.len() as int)
}

/// The classification a parse yields: the type token resolved strictly, with
/// unrecognized tokens and unstructured input falling back to unclassified.
pub open spec fn parsed_type(s: Seq<char>) -> ErrorType {
    if structured(s) {
        match type_of_name(ty_token(s)) {
            Some(t) => t,
            None => ErrorType::UndefinedError,
        }
    } else {
        ErrorType::UndefinedError
    }
}

/// The message a parse yields: the tail of a structured string, the whole
/// input otherwise.
pub open spec fn parsed_msg(s: Seq<char>) -> Seq<char> {
    if structured(s) {
        tail_of(s)
    } else {
        s
    }
}

/// The code a parse yields: the code token of a structured string, with the
/// reserved literal normalized away; no code otherwise.
pub open spec fn parsed_code(s: Seq<char>) -> Option<Seq<char>> {
    if structured(s) {
        normalize_code(code_token(s))
    } else {
        None
    }
}

/// Splits a structured string into its code token, type token, and message;
/// yields nothing on any other input.
#[verifier::loop_isolation(false)]
fn scan(s: &str) -> (r: Option<(String, String, String)>)
    ensures
        r is Some <==> structured(s@),
        r matches Some(p) ==> ({
            &&& p.0@ == code_token(s@)
            &&& p.1@ == ty_token(s@)
            &&& p.2@ == tail_of(s@)
        }),
{
    proof {
        reveal_strlit("[code=");
        reveal_strlit(",error_type=");
        assert("[code="@.len() == 6);
        assert(",error_type="@.len() == 12);
    }
    let n: usize = s.unicode_len();
    if !has_at(s, 0, "[code=") {
        return None;
    }
    let mut i: usize = 6;
    while i < n && code_char(s.get_char(i))
        invariant
            6 <= i <= n,
            forall|k: int| 6 <= k < i ==> is_code_char(#[trigger] s@[k]),
        decreases n - i,
    {
        i = i + 1;
    }
    proof {
        lemma_code_run_is(s@, 6, i as int);
    }
    if i == 6 {
        return None;
    }
    if !has_at(s, i, ",error_type=") {
        return None;
    }
    let t0: usize = i + 12;
    let mut j: usize = t0;
    while j < n && type_char(s.get_char(j))
        invariant
            t0 <= j <= n,
            forall|k: int| t0 <= k < j ==> is_type_char(#[trigger] s@[k]),
        decreases n - j,
    {
        j = j + 1;
    }
    proof {
        lemma_type_run_is(s@, t0 as int, j as int);
    }
    if j == t0 {
        return None;
    }
    if n - j < 3 {
        return None;
    }
    if s.get_char(j) != ']' {
        return None;
    }
    if !space_char(s.get_char(j + 1)) {
        return None;
    }
    let mut k: usize = j + 2;
    while k < n
        invariant
            j + 2 <= k <= n,
            forall|t: int| j + 2 <= t < k ==> s@[t] != '\n',
        decreases n - k,
    {
        if s.get_char(k) == '\n' {
            return None;
        }
        k = k + 1;
    }
    let code = s.substring_char(6, i).to_owned();
    let ty = s.substring_char(t0, j).to_owned();
    let tail = s.substring_char(j + 2, n).to_owned();
    Some((code, ty, tail))
}

impl MappedErrors {
    /// Parses the canonical textual form back into an error value. Total:
    /// a structured input yields its message, classification, and code, with
    /// an unrecognized type token degrading to the unclassified type; any
    /// other input is kept whole as the message of an unclassified error.
    pub fn from_str_msg(msg: String) -> (r: MappedErrors)
        ensures
            r.spec_error_type() == parsed_type(msg@),
            r.msg@ == parsed_msg(msg@),
            r.spec_code() == parsed_code(msg@),
    {
        match scan(msg.as_str()) {
            Some((code, ty_tok, tail)) => {
                let error_type = match ErrorType::from_name(ty_tok.as_str()) {
                    Some(t) => t,
                    None => ErrorType::UndefinedError,
                };
                MappedErrors::new(tail, None, None, error_type).with_code(code)
            },
            None => MappedErrors::new(msg, None, None, ErrorType::UndefinedError),
        }
    }
}

/// Round-trip law: rendering an error whose message is non-empty and free of
/// line breaks, whose classification is any of the nine, and whose code was
/// stored from any non-empty alphanumeric string through the normalization
/// `with_code` applies, yields a structured string that parses back to the
/// same message, the same classification, and the same code.
pub proof fn lemma_render_parse_round_trip(m: Seq<char>, t: ErrorType, c: Seq<char>)
    requires
        m.len() > 0,
        forall|i: int| 0 <= i < m.len() ==> m[i] != '\n',
        c.len() > 0,
        forall|i: int| 0 <= i < c.len() ==> is_code_char(#[trigger] c[i]),
    ensures
        structured(rendered(m, t, normalize_code(c))),
        parsed_msg(rendered(m, t, normalize_code(c))) == m,
        parsed_type(rendered(m, t, normalize_code(c))) == t,
        parsed_code(rendered(m, t, normalize_code(c))) == normalize_code(c),
{
    reveal_strlit("[code=");
    reveal_strlit(",error_type=");
    reveal_strlit("] ");
    let s = rendered(m, t, normalize_code(c));
    let d = name_of(t);
    let lc = c.len() as int;
    let ld = d.len() as int;
    lemma_name_of_type_chars(t);
    assert("[code="@.len() == 6);
    assert(",error_type="@.len() == 12);
    assert("] "@.len() == 2);
    assert("] "@[0] == ']');
    assert("] "@[1] == ' ');
    // Whichever way the code normalized, the rendered code token is `c`
    // itself: a stored code renders verbatim, and a code that collapsed to
    // `Unmapped` was the literal `none`, which is what an absent code renders
    // as.
    assert((match normalize_code(c) {
        Some(x) => x,
        None => "none"@,
    }) == c);
    assert(s == "[code="@ + c + ",error_type="@ + d + "] "@ + m);
    assert(s.len() == 20 + lc + ld + m.len());
    assert(forall|k: int| 0 <= k < 6 ==> s[k] == "[code="@[k]);
    assert(forall|k: int| 6 <= k < 6 + lc ==> s[k] == c[k - 6]);
    assert(forall|k: int| 6 + lc <= k < 18 + lc ==> s[k] == ",error_type="@[k - 6 - lc]);
    assert(forall|k: int| 18 + lc <= k < 18 + lc + ld ==> s[k] == d[k - 18 - lc]);
    assert(forall|k: int| 18 + lc + ld <= k < 20 + lc + ld ==> s[k] == "] "@[k - 18 - lc - ld]);
    assert(forall|k: int| 20 + lc + ld <= k < s.len() ==> s[k] == m[k - 20 - lc - ld]);
    assert(s[6 + lc] == ',');
    lemma_code_run_is(s, 6, 6 + lc);
    assert(s[18 + lc + ld] == ']');
    lemma_type_run_is(s, 18 + lc, 18 + lc + ld);
    assert(s.subrange(0, 6) =~= "[code="@);
    assert(s.subrange(6 + lc, 18 + lc) =~= ",error_type="@);
    assert(is_space_char(s[19 + lc + ld]));
    assert(structured(s));
    assert(code_token(s) =~= c);
    assert(ty_token(s) =~= d);
    assert(tail_of(s) =~= m);
    lemma_type_name_bijective(t);
}

/// Round-trip law on an error value: rendering and re-parsing preserves all
/// three fields, for every value whose message is non-empty and free of line
/// breaks and whose code, if present, is non-empty, alphanumeric, and not
/// the reserved literal — the only codes `with_code` ever stores.
pub proof fn lemma_value_round_trip(e: MappedErrors)
    requires
        e.msg@.len() > 0,
        forall|i: int| 0 <= i < e.msg@.len() ==> e.msg@[i] != '\n',
        (e.spec_code() matches Some(c) ==> c.len() > 0 && c != "none"@ && forall|i: int|
            0 <= i < c.len() ==> is_code_char(#[trigger] c[i])),
    ensures
        parsed_msg(e.render()) == e.msg@,
        parsed_type(e.render()) == e.spec_error_type(),
        parsed_code(e.render()) == e.spec_code(),
{
    match e.spec_code() {
        Some(c) => {
            lemma_render_parse_round_trip(e.msg@, e.spec_error_type(), c);
            assert(normalize_code(c) == Some(c));
        },
        None => {
            reveal_strlit("none");
            assert("none"@.len() == 4);
            assert(is_code_char("none"@[0]) && is_code_char("none"@[1])
                && is_code_char("none"@[2]) && is_code_char("none"@[3]));
            lemma_render_parse_round_trip(e.msg@, e.spec_error_type(), "none"@);
            assert(normalize_code("none"@) is None);
        },
    }
}

} // verus!
