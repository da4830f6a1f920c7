use vstd::prelude::*;
use vstd::string::{StrSliceExecFns, StringExecFns};

use crate::env_eval::{find_char_from, lemma_find_char_from};
use crate::error::{ErrorKind, SpecError, SpecResult};

verus! {

/// The lexer's mutually exclusive scanning states.
#[derive(Clone, Copy, Debug)]
pub enum YmlStatus {
    Comment,
    Code,
    StringDouble,
    StringSingle,
    BlockData,
}

/// The characters that end a plain code run.
pub open spec fn is_code_delim(c: char) -> bool {
    c == '"' || c == '\'' || c == '|' || c == '#' || c == '\n'
}

/// Horizontal whitespace, as far as a comment-only line is concerned.
pub open spec fn is_blank_char(c: char) -> bool {
    c == ' ' || c == '\t' || c == '\r'
}

pub open spec fn all_blank(s: Seq<char>) -> bool {
    forall|k: int| 0 <= k < s.len() ==> is_blank_char(s[k])
}

/// First position at or after `i` holding a code delimiter, or the length.
pub open spec fn delim_end(s: Seq<char>, i: int) -> int
    decreases s.len() - i,
{
    if i < 0 || i >= s.len() {
        s.len() as int
    } else if is_code_delim(s[i]) {
        i
    } else {
        delim_end(s, i + 1)
    }
}

pub proof fn lemma_delim_end(s: Seq<char>, i: int)
    requires
        0 <= i <= s.len(),
    ensures
        i <= delim_end(s, i) <= s.len(),
        delim_end(s, i) < s.len() ==> is_code_delim(s[delim_end(s, i)]),
        forall|j: int| i <= j < delim_end(s, i) ==> !is_code_delim(s[j]),
    decreases s.len() - i,
{
    if i < s.len() && !is_code_delim(s[i]) {
        lemma_delim_end(s, i + 1);
    }
}

/// First position at or after `i` holding a newline, or the length.
pub open spec fn line_end(s: Seq<char>, i: int) -> int {
    if find_char_from(s, i, '\n') < 0 {
        s.len() as int
    } else {
        find_char_from(s, i, '\n')
    }
}

pub proof fn lemma_line_end(s: Seq<char>, i: int)
    requires
        0 <= i <= s.len(),
    ensures
        i <= line_end(s, i) <= s.len(),
        line_end(s, i) < s.len() ==> s[line_end(s, i)] == '\n',
        forall|j: int| i <= j < line_end(s, i) ==> s[j] != '\n',
{
    lemma_find_char_from(s, i, '\n');
}

/// Prepend already-emitted text to the outcome of the rest of the scan.
pub open spec fn opt_prepend(p: Seq<char>, o: Option<Seq<char>>) -> Option<Seq<char>> {
    match o {
        Some(t) => Some(p + t),
        None => None,
    }
}

pub proof fn lemma_opt_prepend_assoc(a: Seq<char>, b: Seq<char>, o: Option<Seq<char>>)
    ensures
        opt_prepend(a, opt_prepend(b, o)) == opt_prepend(a + b, o),
{
    match o {
        Some(t) => {
            assert(a + (b + t) =~= (a + b) + t);
        }
        None => {}
    }
}

/// One pass of the comment lexer from position `i` in state `st`: the text
/// it emits, or `None` when the input is malformed (a quote left open at
/// the end of the input).
///
/// In `Code`, a run of plain characters is emitted up to the next
/// delimiter.  `#` starts a comment and drops the run when the run is all
/// blank, so a comment-only line collapses to an empty line.  `|` directly
/// before a newline opens a block literal; any other `|` stays plain code.
/// Quotes switch to the matching quoted state.  A quoted span is emitted
/// verbatim up to its closing quote, with no escape awareness.  A comment
/// is dropped up to its line end; the newline itself survives.  A block
/// literal emits whole lines verbatim until a blank line, which ends it and
/// is still emitted as the separator.
pub open spec fn spec_lex(st: YmlStatus, s: Seq<char>, i: int) -> Option<Seq<char>>
    decreases s.len() - i,
    when 0 <= i <= s.len()
    via spec_lex_decreases
{
    if i >= s.len() {
        match st {
            YmlStatus::StringDouble => None,
            YmlStatus::StringSingle => None,
            _ => Some(Seq::empty()),
        }
    } else {
        match st {
            YmlStatus::Code => {
                let e = delim_end(s, i);
                if e >= s.len() {
                    Some(s.subrange(i, e))
                } else if s[e] == '\n' {
                    opt_prepend(s.subrange(i, e + 1), spec_lex(YmlStatus::Code, s, e + 1))
                } else if s[e] == '#' {
                    opt_prepend(
                        if all_blank(s.subrange(i, e)) {
                            Seq::empty()
                        } else {
                            s.subrange(i, e)
                        },
                        spec_lex(YmlStatus::Comment, s, e + 1),
                    )
                } else if s[e] == '|' {
                    if e + 1 < s.len() && s[e + 1] == '\n' {
                        opt_prepend(s.subrange(i, e + 2), spec_lex(YmlStatus::BlockData, s, e + 2))
                    } else {
                        opt_prepend(s.subrange(i, e + 1), spec_lex(YmlStatus::Code, s, e + 1))
                    }
                } else if s[e] == '"' {
                    opt_prepend(s.subrange(i, e + 1), spec_lex(YmlStatus::StringDouble, s, e + 1))
                } else {
                    opt_prepend(s.subrange(i, e + 1), spec_lex(YmlStatus::StringSingle, s, e + 1))
                }
            }
            YmlStatus::StringDouble => {
                let q = find_char_from(s, i, '"');
                if q < 0 {
                    None
                } else {
                    opt_prepend(s.subrange(i, q + 1), spec_lex(YmlStatus::Code, s, q + 1))
                }
            }
            YmlStatus::StringSingle => {
                let q = find_char_from(s, i, '\'');
                if q < 0 {
                    None
                } else {
                    opt_prepend(s.subrange(i, q + 1), spec_lex(YmlStatus::Code, s, q + 1))
                }
            }
            YmlStatus::Comment => {
                let e = line_end(s, i);
                if e >= s.len() {
                    Some(Seq::empty())
                } else {
                    opt_prepend(seq!['\n'], spec_lex(YmlStatus::Code, s, e + 1))
                }
            }
            YmlStatus::BlockData => {
                let e = line_end(s, i);
                if e >= s.len() {
                    Some(s.subrange(i, e))
                } else if all_blank(s.subrange(i, e)) {
                    opt_prepend(s.subrange(i, e + 1), spec_lex(YmlStatus::Code, s, e + 1))
                } else {
                    opt_prepend(s.subrange(i, e + 1), spec_lex(YmlStatus::BlockData, s, e + 1))
                }
            }
        }
    }
}

#[via_fn]
proof fn spec_lex_decreases(st: YmlStatus, s: Seq<char>, i: int) {
    if 0 <= i < s.len() {
        match st {
            YmlStatus::Code => {
                lemma_delim_end(s, i);
            }
            YmlStatus::StringDouble => {
                lemma_find_char_from(s, i, '"');
            }
            YmlStatus::StringSingle => {
                lemma_find_char_from(s, i, '\'');
            }
            YmlStatus::Comment => {
                lemma_line_end(s, i);
            }
            YmlStatus::BlockData => {
                lemma_line_end(s, i);
            }
        }
    }
}

fn is_delim(c: char) -> (r: bool)
    ensures
        r == is_code_delim(c),
{
    c == '"' || c == '\'' || c == '|' || c == '#' || c == '\n'
}

proof fn lemma_delim_end_skip(s: Seq<char>, i: int, k: int)
    requires
        0 <= i <= k <= s.len(),
        forall|j: int| i <= j < k ==> !is_code_delim(s[j]),
    ensures
        delim_end(s, i) == delim_end(s, k),
    decreases k - i,
{
    if i < k {
        lemma_delim_end_skip(s, i + 1, k);
    }
}

fn scan_delim(s: &str, from: usize) -> (e: usize)
    requires
        from as int <= s@.len(),
    ensures
        e as int == delim_end(s@, from as int),
{
    let n = s.unicode_len();
    let mut k: usize = from;
    while k < n
        invariant
            from <= k <= n,
            n == s@.len(),
            forall|j: int| from <= j < k ==> !is_code_delim(s@[j]),
        decreases n - k,
    {
        if is_delim(s.get_char(k)) {
            proof {
                lemma_delim_end_skip(s@, from as int, k as int);
            }
            return k;
        }
        k += 1;
    }
    proof {
        lemma_delim_end_skip(s@, from as int, n as int);
    }
    n
}

proof fn lemma_line_end_skip(s: Seq<char>, i: int, k: int)
    requires
        0 <= i <= k <= s.len(),
        forall|j: int| i <= j < k ==> s[j] != '\n',
    ensures
        line_end(s, i) == line_end(s, k),
    decreases k - i,
{
    if i < k {
        lemma_line_end_skip(s, i + 1, k);
    }
}

fn scan_line_end(s: &str, from: usize) -> (e: usize)
    requires
        from as int <= s@.len(),
    ensures
        e as int == line_end(s@, from as int),
{
    let n = s.unicode_len();
    let mut k: usize = from;
    while k < n
        invariant
            from <= k <= n,
            n == s@.len(),
            forall|j: int| from <= j < k ==> s@[j] != '\n',
        decreases n - k,
    {
        if s.get_char(k) == '\n' {
            proof {
                lemma_line_end_skip(s@, from as int, k as int);
            }
            return k;
        }
        k += 1;
    }
    proof {
        lemma_line_end_skip(s@, from as int, n as int);
    }
    n
}

fn is_blank(c: char) -> (r: bool)
    ensures
        r == is_blank_char(c),
{
    c == ' ' || c == '\t' || c == '\r'
}

fn blank_range(s: &str, from: usize, to: usize) -> (r: bool)
    requires
        from <= to,
        to as int <= s@.len(),
    ensures
        r == all_blank(s@.subrange(from as int, to as int)),
{
    let mut k: usize = from;
    while k < to
        invariant
            from <= k <= to,
            to as int <= s@.len(),
            forall|j: int| from <= j < k ==> is_blank_char(s@[j]),
        decreases to - k,
    {
        if !is_blank(s.get_char(k)) {
            proof {
                let sub = s@.subrange(from as int, to as int);
                assert(sub[k - from] == s@[k as int]);
            }
            return false;
        }
        k += 1;
    }
    proof {
        let sub = s@.subrange(from as int, to as int);
        assert forall|j: int| 0 <= j < sub.len() implies is_blank_char(sub[j]) by {
            assert(sub[j] == s@[from + j]);
        }
    }
    true
}

/// Strip comments from structured text, leaving quoted strings and block
/// literals untouched.  Fails with a malformed-input error exactly when a
/// quote is still open at the end of the input.
pub fn remove_comment(code: &str) -> (r: SpecResult<String>)
    ensures
        match spec_lex(YmlStatus::Code, code@, 0) {
            Some(t) => r matches Ok(o) && o@ == t,
            None => r matches Err(e) && e.spec_kind() == ErrorKind::MalformedInput,
        },
{
    let ghost s = code@;
    let n = code.unicode_len();
    let mut out = String::new();
    let mut st = YmlStatus::Code;
    let mut i: usize = 0;
    while i < n
        invariant
            0 <= i <= n,
            n == s.len(),
            s == code@,
            spec_lex(YmlStatus::Code, s, 0) == opt_prepend(out@, spec_lex(st, s, i as int)),
        decreases n - i,
    {
        let ghost prev_out = out@;
        let ghost st0 = st;
        let ghost i0 = i as int;
        match st {
            YmlStatus::Code => {
                let e = scan_delim(code, i);
                proof {
                    lemma_delim_end(s, i as int);
                }
                if e == n {
                    let piece = code.substring_char(i, n);
                    out.append(piece);
                    proof {
                        assert(spec_lex(st0, s, i0) == Some(s.subrange(i0, n as int)));
                        assert(prev_out + s.subrange(i0, n as int) == out@);
                        lemma_opt_prepend_assoc(prev_out, s.subrange(i0, n as int), Some(Seq::empty()));
                        assert(s.subrange(i0, n as int) + Seq::<char>::empty() =~= s.subrange(
                            i0,
                            n as int,
                        ));
                    }
                    i = n;
                } else {
                    let d = code.get_char(e);
                    if d == '\n' {
                        let piece = code.substring_char(i, e + 1);
                        out.append(piece);
                        proof {
                            lemma_opt_prepend_assoc(
                                prev_out,
                                s.subrange(i0, e + 1),
                                spec_lex(YmlStatus::Code, s, e + 1),
                            );
                        }
                        i = e + 1;
                    } else if d == '#' {
                        if !blank_range(code, i, e) {
                            let piece = code.substring_char(i, e);
                            out.append(piece);
                        }
                        proof {
                            let kept: Seq<char> = if all_blank(s.subrange(i0, e as int)) {
                                Seq::empty()
                            } else {
                                s.subrange(i0, e as int)
                            };
                            assert(out@ == prev_out + kept);
                            lemma_opt_prepend_assoc(
                                prev_out,
                                kept,
                                spec_lex(YmlStatus::Comment, s, e + 1),
                            );
                        }
                        st = YmlStatus::Comment;
                        i = e + 1;
                    } else if d == '|' && e + 1 < n && code.get_char(e + 1) == '\n' {
                        let piece = code.substring_char(i, e + 2);
                        out.append(piece);
                        proof {
                            lemma_opt_prepend_assoc(
                                prev_out,
                                s.subrange(i0, e + 2),
                                spec_lex(YmlStatus::BlockData, s, e + 2),
                            );
                        }
                        st = YmlStatus::BlockData;
                        i = e + 2;
                    } else if d == '|' {
                        let piece = code.substring_char(i, e + 1);
                        out.append(piece);
                        proof {
                            lemma_opt_prepend_assoc(
                                prev_out,
                                s.subrange(i0, e + 1),
                                spec_lex(YmlStatus::Code, s, e + 1),
                            );
                        }
                        i = e + 1;
                    } else if d == '"' {
                        let piece = code.substring_char(i, e + 1);
                        out.append(piece);
                        proof {
                            lemma_opt_prepend_assoc(
                                prev_out,
                                s.subrange(i0, e + 1),
                                spec_lex(YmlStatus::StringDouble, s, e + 1),
                            );
                        }
                        st = YmlStatus::StringDouble;
                        i = e + 1;
                    } else {
                        let piece = code.substring_char(i, e + 1);
                        out.append(piece);
                        proof {
                            assert(d == '\'');
                            lemma_opt_prepend_assoc(
                                prev_out,
                                s.subrange(i0, e + 1),
                                spec_lex(YmlStatus::StringSingle, s, e + 1),
                            );
                        }
                        st = YmlStatus::StringSingle;
                        i = e + 1;
                    }
                }
            }
            YmlStatus::StringDouble => {
                match crate::env_eval::find_char(code, i, '"') {
                    Some(q) => {
                        proof {
                            lemma_find_char_from(s, i as int, '"');
                        }
                        let piece = code.substring_char(i, q + 1);
                        out.append(piece);
                        proof {
                            lemma_opt_prepend_assoc(
                                prev_out,
                                s.subrange(i0, q + 1),
                                spec_lex(YmlStatus::Code, s, q + 1),
                            );
                        }
                        st = YmlStatus::Code;
                        i = q + 1;
                    }
                    None => {
                        return Err(SpecError::new(ErrorKind::MalformedInput));
                    }
                }
            }
            YmlStatus::StringSingle => {
                match crate::env_eval::find_char(code, i, '\'') {
                    Some(q) => {
                        proof {
                            lemma_find_char_from(s, i as int, '\'');
                        }
                        let piece = code.substring_char(i, q + 1);
                        out.append(piece);
                        proof {
                            lemma_opt_prepend_assoc(
                                prev_out,
                                s.subrange(i0, q + 1),
                                spec_lex(YmlStatus::Code, s, q + 1),
                            );
                        }
                        st = YmlStatus::Code;
                        i = q + 1;
                    }
                    None => {
                        return Err(SpecError::new(ErrorKind::MalformedInput));
                    }
                }
            }
            YmlStatus::Comment => {
                let e = scan_line_end(code, i);
                proof {
                    lemma_line_end(s, i as int);
                }
                if e == n {
                    proof {
                        assert(spec_lex(st0, s, i0) == Some(Seq::<char>::empty()));
                        lemma_opt_prepend_assoc(prev_out, Seq::empty(), Some(Seq::<char>::empty()));
                        assert(Seq::<char>::empty() + Seq::<char>::empty() =~= Seq::<char>::empty());
                        assert(prev_out + Seq::<char>::empty() =~= prev_out);
                    }
                    i = n;
                } else {
                    let piece = code.substring_char(e, e + 1);
                    out.append(piece);
                    proof {
                        assert(piece@ =~= seq!['\n']);
                        lemma_opt_prepend_assoc(
                            prev_out,
                            seq!['\n'],
                            spec_lex(YmlStatus::Code, s, e + 1),
                        );
                    }
                    st = YmlStatus::Code;
                    i = e + 1;
                }
            }
            YmlStatus::BlockData => {
                let e = scan_line_end(code, i);
                proof {
                    lemma_line_end(s, i as int);
                }
                if e == n {
                    let piece = code.substring_char(i, n);
                    out.append(piece);
                    proof {
                        assert(spec_lex(st0, s, i0) == Some(s.subrange(i0, n as int)));
                        lemma_opt_prepend_assoc(
                            prev_out,
                            s.subrange(i0, n as int),
                            Some(Seq::<char>::empty()),
                        );
                        assert(s.subrange(i0, n as int) + Seq::<char>::empty() =~= s.subrange(
                            i0,
                            n as int,
                        ));
                    }
                    i = n;
                } else {
                    let blank = blank_range(code, i, e);
                    let piece = code.substring_char(i, e + 1);
                    out.append(piece);
                    proof {
                        if all_blank(s.subrange(i0, e as int)) {
                            lemma_opt_prepend_assoc(
                                prev_out,
                                s.subrange(i0, e + 1),
                                spec_lex(YmlStatus::Code, s, e + 1),
                            );
                        } else {
                            lemma_opt_prepend_assoc(
                                prev_out,
                                s.subrange(i0, e + 1),
                                spec_lex(YmlStatus::BlockData, s, e + 1),
                            );
                        }
                    }
                    if blank {
                        st = YmlStatus::Code;
                    }
                    i = e + 1;
                }
            }
        }
    }
    match st {
        YmlStatus::StringDouble => Err(SpecError::new(ErrorKind::MalformedInput)),
        YmlStatus::StringSingle => Err(SpecError::new(ErrorKind::MalformedInput)),
        _ => {
            proof {
                assert(spec_lex(st, s, n as int) == Some(Seq::<char>::empty()));
                assert(out@ + Seq::<char>::empty() =~= out@);
            }
            Ok(out)
        }
    }
}

/// A scan that starts outside a comment, on input free of `#` from `i` on,
/// can only reproduce the rest of the input verbatim.
proof fn lemma_lex_identity_from(st: YmlStatus, s: Seq<char>, i: int)
    requires
        0 <= i <= s.len(),
        !(st is Comment),
        forall|k: int| i <= k < s.len() ==> s[k] != '#',
    ensures
        spec_lex(st, s, i) matches Some(t) ==> t == s.subrange(i, s.len() as int),
    decreases s.len() - i,
{
    let n = s.len() as int;
    if i >= n {
        assert(s.subrange(i, n) =~= Seq::<char>::empty());
    } else {
        match st {
            YmlStatus::Code => {
                lemma_delim_end(s, i);
                let e = delim_end(s, i);
                if e >= n {
                } else if s[e] == '\n' {
                    lemma_lex_identity_from(YmlStatus::Code, s, e + 1);
                    assert(s.subrange(i, e + 1) + s.subrange(e + 1, n) =~= s.subrange(i, n));
                } else if s[e] == '#' {
                    assert(false);
                } else if s[e] == '|' {
                    if e + 1 < n && s[e + 1] == '\n' {
                        lemma_lex_identity_from(YmlStatus::BlockData, s, e + 2);
                        assert(s.subrange(i, e + 2) + s.subrange(e + 2, n) =~= s.subrange(i, n));
                    } else {
                        lemma_lex_identity_from(YmlStatus::Code, s, e + 1);
                        assert(s.subrange(i, e + 1) + s.subrange(e + 1, n) =~= s.subrange(i, n));
                    }
                } else if s[e] == '"' {
                    lemma_lex_identity_from(YmlStatus::StringDouble, s, e + 1);
                    assert(s.subrange(i, e + 1) + s.subrange(e + 1, n) =~= s.subrange(i, n));
                } else {
                    lemma_lex_identity_from(YmlStatus::StringSingle, s, e + 1);
                    assert(s.subrange(i, e + 1) + s.subrange(e + 1, n) =~= s.subrange(i, n));
                }
            }
            YmlStatus::StringDouble => {
                lemma_find_char_from(s, i, '"');
                let q = find_char_from(s, i, '"');
                if q >= 0 {
                    lemma_lex_identity_from(YmlStatus::Code, s, q + 1);
                    assert(s.subrange(i, q + 1) + s.subrange(q + 1, n) =~= s.subrange(i, n));
                }
            }
            YmlStatus::StringSingle => {
                lemma_find_char_from(s, i, '\'');
                let q = find_char_from(s, i, '\'');
                if q >= 0 {
                    lemma_lex_identity_from(YmlStatus::Code, s, q + 1);
                    assert(s.subrange(i, q + 1) + s.subrange(q + 1, n) =~= s.subrange(i, n));
                }
            }
            YmlStatus::Comment => {}
            YmlStatus::BlockData => {
                lemma_line_end(s, i);
                let e = line_end(s, i);
                if e >= n {
                } else if all_blank(s.subrange(i, e)) {
                    lemma_lex_identity_from(YmlStatus::Code, s, e + 1);
                    assert(s.subrange(i, e + 1) + s.subrange(e + 1, n) =~= s.subrange(i, n));
                } else {
                    lemma_lex_identity_from(YmlStatus::BlockData, s, e + 1);
                    assert(s.subrange(i, e + 1) + s.subrange(e + 1, n) =~= s.subrange(i, n));
                }
            }
        }
    }
}

/// Law: whatever the lexer accepts, it only ever removes text — the output
/// is never longer than the rest of the input.
pub proof fn lemma_lex_output_no_longer(st: YmlStatus, s: Seq<char>, i: int)
    requires
        0 <= i <= s.len(),
    ensures
        spec_lex(st, s, i) matches Some(t) ==> t.len() <= s.len() - i,
    decreases s.len() - i,
{
    let n = s.len() as int;
    if i < n {
        match st {
            YmlStatus::Code => {
                lemma_delim_end(s, i);
                let e = delim_end(s, i);
                if e >= n {
                } else if s[e] == '\n' {
                    lemma_lex_output_no_longer(YmlStatus::Code, s, e + 1);
                } else if s[e] == '#' {
                    lemma_lex_output_no_longer(YmlStatus::Comment, s, e + 1);
                } else if s[e] == '|' {
                    if e + 1 < n && s[e + 1] == '\n' {
                        lemma_lex_output_no_longer(YmlStatus::BlockData, s, e + 2);
                    } else {
                        lemma_lex_output_no_longer(YmlStatus::Code, s, e + 1);
                    }
                } else if s[e] == '"' {
                    lemma_lex_output_no_longer(YmlStatus::StringDouble, s, e + 1);
                } else {
                    lemma_lex_output_no_longer(YmlStatus::StringSingle, s, e + 1);
                }
            }
            YmlStatus::StringDouble => {
                lemma_find_char_from(s, i, '"');
                if find_char_from(s, i, '"') >= 0 {
                    lemma_lex_output_no_longer(YmlStatus::Code, s, find_char_from(s, i, '"') + 1);
                }
            }
            YmlStatus::StringSingle => {
                lemma_find_char_from(s, i, '\'');
                if find_char_from(s, i, '\'') >= 0 {
                    lemma_lex_output_no_longer(YmlStatus::Code, s, find_char_from(s, i, '\'') + 1);
                }
            }
            YmlStatus::Comment => {
                lemma_line_end(s, i);
                let e = line_end(s, i);
                if e < n {
                    lemma_lex_output_no_longer(YmlStatus::Code, s, e + 1);
                }
            }
            YmlStatus::BlockData => {
                lemma_line_end(s, i);
                let e = line_end(s, i);
                if e < n {
                    if all_blank(s.subrange(i, e)) {
                        lemma_lex_output_no_longer(YmlStatus::Code, s, e + 1);
                    } else {
                        lemma_lex_output_no_longer(YmlStatus::BlockData, s, e + 1);
                    }
                }
            }
        }
    }
}

/// Law: on input holding no `#` the lexer, when it accepts the input at
/// all, returns it unchanged — comment removal touches nothing but
/// comments.
pub proof fn lemma_comment_free_identity(s: Seq<char>)
    requires
        forall|k: int| 0 <= k < s.len() ==> s[k] != '#',
    ensures
        spec_lex(YmlStatus::Code, s, 0) matches Some(t) ==> t == s,
{
    lemma_lex_identity_from(YmlStatus::Code, s, 0);
    assert(s.subrange(0, s.len() as int) =~= s);
}

/// The comment-stripping entry point for structured text.
pub struct YmlComment {}

impl YmlComment {
    /// Remove comments from the given text; see [`remove_comment`].
    pub fn remove(code: &str) -> (r: SpecResult<String>)
        ensures
            match spec_lex(YmlStatus::Code, code@, 0) {
                Some(t) => r matches Ok(o) && o@ == t,
                None => r matches Err(e) && e.spec_kind() == ErrorKind::MalformedInput,
            },
    {
        remove_comment(code)
    }
}

} // verus!
