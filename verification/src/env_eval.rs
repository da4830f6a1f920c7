use vstd::prelude::*;
use vstd::string::{StrSliceExecFns, StringExecFns};

use crate::keyed::{keyed_at, keyed_has};
use crate::vars::{EnvDict, ValueType, VarValue};

verus! {

/// Position of the first occurrence of `c` at or after `i`, or -1.
pub open spec fn find_char_from(s: Seq<char>, i: int, c: char) -> int
    decreases s.len() - i,
{
    if i < 0 || i >= s.len() {
        -1
    } else if s[i] == c {
        i
    } else {
        find_char_from(s, i + 1, c)
    }
}

pub proof fn lemma_find_char_from(s: Seq<char>, i: int, c: char)
    requires
        0 <= i <= s.len(),
    ensures
        find_char_from(s, i, c) == -1 ==> forall|j: int| i <= j < s.len() ==> s[j] != c,
        find_char_from(s, i, c) != -1 ==> {
            &&& i <= find_char_from(s, i, c) < s.len()
            &&& s[find_char_from(s, i, c)] == c
            &&& forall|j: int| i <= j < find_char_from(s, i, c) ==> s[j] != c
        },
    decreases s.len() - i,
{
    if i < s.len() && s[i] != c {
        lemma_find_char_from(s, i + 1, c);
    }
}

/// The single left-to-right pass of environment expansion, starting at
/// position `i`.  On `${`, the name up to the next `}` is looked up: a hit
/// substitutes the value, a miss leaves the original `${name}` text.  With
/// no closing brace the rest of the input is emitted verbatim and expansion
/// stops.  All other text is copied unchanged.
pub open spec fn spec_expand(s: Seq<char>, i: int, env: Seq<(String, String)>) -> Seq<char>
    decreases s.len() - i,
    when 0 <= i <= s.len()
    via spec_expand_decreases
{
    if i >= s.len() {
        Seq::empty()
    } else if s[i] == '$' && i + 1 < s.len() && s[i + 1] == '{' {
        let j = find_char_from(s, i + 2, '}');
        if j < 0 {
            s.subrange(i, s.len() as int)
        } else {
            let name = s.subrange(i + 2, j);
            (if keyed_has(env, name) {
                keyed_at(env, name)@
            } else {
                s.subrange(i, j + 1)
            }) + spec_expand(s, j + 1, env)
        }
    } else {
        seq![s[i]] + spec_expand(s, i + 1, env)
    }
}

#[via_fn]
proof fn spec_expand_decreases(s: Seq<char>, i: int, env: Seq<(String, String)>) {
    if i < s.len() && s[i] == '$' && i + 1 < s.len() && s[i + 1] == '{' {
        lemma_find_char_from(s, i + 2, '}');
    }
}

/// Scanning that has ruled out positions `[i, k)` may continue from `k`.
proof fn lemma_find_char_skip(s: Seq<char>, i: int, k: int, c: char)
    requires
        0 <= i <= k <= s.len(),
        forall|j: int| i <= j < k ==> s[j] != c,
    ensures
        find_char_from(s, i, c) == find_char_from(s, k, c),
    decreases k - i,
{
    if i < k {
        lemma_find_char_skip(s, i + 1, k, c);
    }
}

/// Find the first occurrence of `c` at or after `from`.
pub(crate) fn find_char(s: &str, from: usize, c: char) -> (r: Option<usize>)
    requires
        from as int <= s@.len(),
    ensures
        match r {
            Some(j) => find_char_from(s@, from as int, c) == j as int,
            None => find_char_from(s@, from as int, c) == -1,
        },
{
    let n = s.unicode_len();
    let mut k: usize = from;
    while k < n
        invariant
            from <= k <= n,
            n == s@.len(),
            forall|j: int| from <= j < k ==> s@[j] != c,
        decreases n - k,
    {
        if s.get_char(k) == c {
            proof {
                lemma_find_char_skip(s@, from as int, k as int, c);
            }
            return Some(k);
        }
        k += 1;
    }
    proof {
        lemma_find_char_skip(s@, from as int, n as int, c);
    }
    None
}

/// Expand `${name}` references against the given environment, in one pass.
/// A name the environment lacks stays as written; an unclosed `${` leaves
/// the rest of the input untouched.
pub fn expand_env_vars(input: &str, env: &EnvDict) -> (r: String)
    ensures
        r@ == spec_expand(input@, 0, env.spec_entries()),
{
    let n = input.unicode_len();
    let mut out = String::new();
    let mut i: usize = 0;
    while i < n
        invariant
            0 <= i <= n,
            n == input@.len(),
            spec_expand(input@, 0, env.spec_entries()) == out@ + spec_expand(
                input@,
                i as int,
                env.spec_entries(),
            ),
        decreases n - i,
    {
        let ghost prev_out = out@;
        let ghost s = input@;
        let ghost es = env.spec_entries();
        let c = input.get_char(i);
        if c == '$' && i + 1 < n && input.get_char(i + 1) == '{' {
            match find_char(input, i + 2, '}') {
                None => {
                    let rest = input.substring_char(i, n);
                    out.append(rest);
                    proof {
                        assert(spec_expand(s, i as int, es) == s.subrange(i as int, n as int));
                        assert(out@ + spec_expand(s, n as int, es) =~= prev_out + spec_expand(
                            s,
                            i as int,
                            es,
                        ));
                    }
                    i = n;
                }
                Some(j) => {
                    proof {
                        lemma_find_char_from(s, i + 2, '}');
                    }
                    let name = input.substring_char(i + 2, j);
                    match env.get(name) {
                        Some(v) => {
                            out.append(v);
                        }
                        None => {
                            let orig = input.substring_char(i, j + 1);
                            out.append(orig);
                        }
                    }
                    proof {
                        assert(out@ + spec_expand(s, j + 1, es) =~= prev_out + spec_expand(
                            s,
                            i as int,
                            es,
                        ));
                    }
                    i = j + 1;
                }
            }
        } else {
            let piece = input.substring_char(i, i + 1);
            out.append(piece);
            proof {
                assert(piece@ =~= seq![s[i as int]]);
                assert(spec_expand(s, i as int, es) == seq![s[i as int]] + spec_expand(
                    s,
                    i + 1,
                    es,
                ));
                assert(out@ + spec_expand(s, i + 1, es) =~= prev_out + spec_expand(s, i as int, es));
            }
            i += 1;
        }
    }
    proof {
        assert(spec_expand(input@, n as int, env.spec_entries()) =~= Seq::<char>::empty());
        assert(out@ =~= out@ + Seq::<char>::empty());
    }
    out
}

/// Things whose textual parts can be expanded against an environment.
pub trait EnvEvalable<T> {
    fn env_eval(self, env: &EnvDict) -> T;
}

impl EnvEvalable<String> for String {
    fn env_eval(self, env: &EnvDict) -> String {
        expand_env_vars(self.as_str(), env)
    }
}

impl EnvEvalable<Option<String>> for Option<String> {
    fn env_eval(self, env: &EnvDict) -> Option<String> {
        match self {
            Some(s) => Some(expand_env_vars(s.as_str(), env)),
            None => None,
        }
    }
}

impl EnvEvalable<ValueType> for ValueType {
    fn env_eval(self, env: &EnvDict) -> ValueType {
        expand_value(self, env)
    }
}

impl EnvEvalable<VarValue<String>> for VarValue<String> {
    fn env_eval(self, env: &EnvDict) -> VarValue<String> {
        VarValue::new(expand_env_vars(self.value().as_str(), env))
    }
}

/// Expansion acts on the string kind alone; the other kinds pass through
/// unchanged, textual interpolation being undefined for them.
pub fn expand_value(v: ValueType, env: &EnvDict) -> (r: ValueType)
    ensures
        v matches ValueType::Str(s) ==> r.spec_str_value() == Some(
            spec_expand(s.spec_value()@, 0, env.spec_entries()),
        ),
        !(v is Str) ==> r == v,
{
    match v {
        ValueType::Str(s) => {
            let expanded = expand_env_vars(s.value().as_str(), env);
            ValueType::of_str(expanded)
        }
        other => other,
    }
}

} // verus!
