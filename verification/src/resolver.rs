//! Path expansion: a target path string may start with `~` (the home
//! directory) and may contain `$VAR` or `${VAR}` references to environment
//! values. Expansion is a pure string transformation over an explicit home
//! value and an explicit list of environment (name, value) pairs; a
//! reference to a name that the list does not hold, or an unterminated or
//! empty `${}` form, fails. A `$` that no variable name follows is kept
//! literally.

use vstd::prelude::*;

verus! {

/// Expansion failed; carries the original string for diagnostics.
#[derive(Debug)]
pub struct ExpansionError {
    pub input: String,
}

/// Whether `c` can appear in a variable name: ASCII letters, digits, `_`.
pub open spec fn is_var_char(c: char) -> bool {
    (('a' as u32) <= (c as u32) && (c as u32) <= ('z' as u32)) || (('A' as u32) <= (c as u32) && (
    c as u32) <= ('Z' as u32)) || (('0' as u32) <= (c as u32) && (c as u32) <= ('9' as u32)) || c
        == '_'
}

/// The first index `>= from` where `c` occurs in `s`, or `-1`.
pub open spec fn first_index_from(s: Seq<char>, from: int, c: char) -> int
    decreases s.len() - from,
{
    if !(0 <= from < s.len()) {
        -1
    } else if s[from] == c {
        from
    } else {
        first_index_from(s, from + 1, c)
    }
}

/// The index just past the run of variable-name characters starting at
/// `from` (so `s.len()` when the run reaches the end).
pub open spec fn var_run_end(s: Seq<char>, from: int) -> int
    decreases s.len() - from,
{
    if !(0 <= from < s.len()) {
        s.len() as int
    } else if !is_var_char(s[from]) {
        from
    } else {
        var_run_end(s, from + 1)
    }
}

/// The value of the first pair of `env` named `name`, or `None`.
pub open spec fn spec_env_lookup(env: Seq<(String, String)>, name: Seq<char>) -> Option<Seq<char>>
    decreases env.len(),
{
    if env.len() == 0 {
        None
    } else if env[0].0@ == name {
        Some(env[0].1@)
    } else {
        spec_env_lookup(env.skip(1), name)
    }
}

/// Environment-variable expansion of `s` over `env`: `$NAME` and `${NAME}`
/// become the looked-up value, everything else is kept. `None` when a
/// referenced name is absent, a `${` is unterminated, or a `${}` name is
/// empty. The index bounds in the branch conditions hold of every result of
/// the helper functions; they are spelled out for the termination check.
pub open spec fn spec_expand_vars(s: Seq<char>, env: Seq<(String, String)>) -> Option<Seq<char>>
    decreases s.len(),
{
    if s.len() == 0 {
        Some(s)
    } else if s[0] == '$' {
        if s.len() >= 2 && s[1] == '{' {
            let j = first_index_from(s, 2, '}');
            if !(2 < j && j < s.len()) {
                None
            } else {
                match spec_env_lookup(env, s.subrange(2, j)) {
                    None => None,
                    Some(v) => match spec_expand_vars(s.skip(j + 1), env) {
                        None => None,
                        Some(rest) => Some(v + rest),
                    },
                }
            }
        } else {
            let k = var_run_end(s, 1);
            if !(1 < k && k <= s.len()) {
                match spec_expand_vars(s.skip(1), env) {
                    None => None,
                    Some(rest) => Some(seq!['$'] + rest),
                }
            } else {
                match spec_env_lookup(env, s.subrange(1, k)) {
                    None => None,
                    Some(v) => match spec_expand_vars(s.skip(k), env) {
                        None => None,
                        Some(rest) => Some(v + rest),
                    },
                }
            }
        }
    } else {
        match spec_expand_vars(s.skip(1), env) {
            None => None,
            Some(rest) => Some(s.take(1) + rest),
        }
    }
}

/// Full expansion: a leading `~` (alone or before `/`) becomes `home`, and
/// the remainder gets environment-variable expansion.
pub open spec fn spec_expand_path(
    s: Seq<char>,
    home: Seq<char>,
    env: Seq<(String, String)>,
) -> Option<Seq<char>> {
    if s.len() >= 1 && s[0] == '~' && (s.len() == 1 || s[1] == '/') {
        match spec_expand_vars(s.skip(1), env) {
            None => None,
            Some(rest) => Some(home + rest),
        }
    } else {
        spec_expand_vars(s, env)
    }
}

/// Whether `c` can appear in a variable name.
fn is_var_char_exec(c: char) -> (r: bool)
    ensures
        r == is_var_char(c),
{
    let u = c as u32;
    (97 <= u && u <= 122) || (65 <= u && u <= 90) || (48 <= u && u <= 57) || c == '_'
}

/// The first occurrence of `c` at or after `from`, as `first_index_from`
/// describes it.
fn find_char_from(s: &str, from: usize, c: char) -> (r: Option<usize>)
    ensures
        match r {
            Some(k) => from <= k < s@.len() && first_index_from(s@, from as int, c) == k as int,
            None => first_index_from(s@, from as int, c) == -1,
        },
{
    let n = s.unicode_len();
    let mut i: usize = from;
    while i < n
        invariant
            from <= i,
            n == s@.len(),
            i <= n || (from > n && i == from),
            first_index_from(s@, from as int, c) == first_index_from(s@, i as int, c),
        decreases n - i,
    {
        if s.get_char(i) == c {
            return Some(i);
        }
        i = i + 1;
    }
    None
}

/// The end of the variable-name run starting at `from`, as `var_run_end`
/// describes it.
fn scan_var_run(s: &str, from: usize) -> (r: usize)
    requires
        from <= s@.len(),
    ensures
        r == var_run_end(s@, from as int),
        from <= r <= s@.len(),
{
    let n = s.unicode_len();
    let mut i: usize = from;
    while i < n
        invariant
            from <= i <= n,
            n == s@.len(),
            var_run_end(s@, from as int) == var_run_end(s@, i as int),
        decreases n - i,
    {
        if !is_var_char_exec(s.get_char(i)) {
            return i;
        }
        i = i + 1;
    }
    n
}

/// The value of the first pair of `env` named `name`, as `spec_env_lookup`
/// describes it.
fn env_lookup(env: &Vec<(String, String)>, name: &str) -> (r: Option<String>)
    ensures
        match r {
            Some(v) => spec_env_lookup(env@, name@) == Some(v@),
            None => spec_env_lookup(env@, name@) is None,
        },
{
    let name_s: String = name.to_owned();
    let mut i: usize = 0;
    proof {
        assert(env@.skip(0) =~= env@);
    }
    while i < env.len()
        invariant
            i <= env@.len(),
            name_s@ == name@,
            spec_env_lookup(env@, name@) == spec_env_lookup(env@.skip(i as int), name@),
        decreases env@.len() - i,
    {
        proof {
            assert(env@.skip(i as int).skip(1) =~= env@.skip(i + 1));
            assert(env@.skip(i as int)[0] == env@[i as int]);
        }
        if env[i].0 == name_s {
            return Some(env[i].1.clone());
        }
        i = i + 1;
    }
    None
}

/// Environment-variable expansion of `s`, as `spec_expand_vars` describes
/// it.
fn expand_vars(s: &str, env: &Vec<(String, String)>) -> (r: Option<String>)
    ensures
        match r {
            Some(x) => spec_expand_vars(s@, env@) == Some(x@),
            None => spec_expand_vars(s@, env@) is None,
        },
    decreases s@.len(),
{
    let n = s.unicode_len();
    if n == 0 {
        proof {
            assert(s@ =~= Seq::<char>::empty());
        }
        return Some(String::new());
    }
    if s.get_char(0) == '$' {
        if n >= 2 && s.get_char(1) == '{' {
            match find_char_from(s, 2, '}') {
                None => None,
                Some(j) => {
                    if j == 2 {
                        None
                    } else {
                        let name = s.substring_char(2, j);
                        match env_lookup(env, name) {
                            None => None,
                            Some(v) => {
                                let rest = s.substring_char(j + 1, n);
                                proof {
                                    assert(rest@ =~= s@.skip(j + 1));
                                }
                                match expand_vars(rest, env) {
                                    None => None,
                                    Some(r2) => {
                                        let out = v.concat(r2.as_str());
                                        proof {
                                            assert(out@ =~= v@ + r2@);
                                        }
                                        Some(out)
                                    },
                                }
                            },
                        }
                    }
                },
            }
        } else {
            let k = scan_var_run(s, 1);
            if k == 1 {
                let rest = s.substring_char(1, n);
                proof {
                    assert(rest@ =~= s@.skip(1));
                }
                match expand_vars(rest, env) {
                    None => None,
                    Some(r2) => {
                        let mut out = "$".to_owned();
                        out.append(r2.as_str());
                        proof {
                            reveal_strlit("$");
                            assert(out@ =~= seq!['$'] + r2@);
                        }
                        Some(out)
                    },
                }
            } else {
                let name = s.substring_char(1, k);
                match env_lookup(env, name) {
                    None => None,
                    Some(v) => {
                        let rest = s.substring_char(k, n);
                        proof {
                            assert(rest@ =~= s@.skip(k as int));
                        }
                        match expand_vars(rest, env) {
                            None => None,
                            Some(r2) => {
                                let out = v.concat(r2.as_str());
                                proof {
                                    assert(out@ =~= v@ + r2@);
                                }
                                Some(out)
                            },
                        }
                    },
                }
            }
        }
    } else {
        let rest = s.substring_char(1, n);
        proof {
            assert(rest@ =~= s@.skip(1));
        }
        match expand_vars(rest, env) {
            None => None,
            Some(r2) => {
                let mut out = s.substring_char(0, 1).to_owned();
                out.append(r2.as_str());
                proof {
                    assert(out@ =~= s@.take(1) + r2@);
                }
                Some(out)
            },
        }
    }
}

/// Expands a path string over the given home value and environment pairs,
/// exactly as `spec_expand_path` describes; the error carries the original
/// string.
pub fn expand_path(path: &str, home: &String, env: &Vec<(String, String)>) -> (r: Result<
    String,
    ExpansionError,
>)
    ensures
        match r {
            Ok(x) => spec_expand_path(path@, home@, env@) == Some(x@),
            Err(e) => spec_expand_path(path@, home@, env@) is None && e.input@ == path@,
        },
{
    let n = path.unicode_len();
    if n >= 1 && path.get_char(0) == '~' && (n == 1 || path.get_char(1) == '/') {
        let rest = path.substring_char(1, n);
        proof {
            assert(rest@ =~= path@.skip(1));
        }
        match expand_vars(rest, env) {
            None => Err(ExpansionError { input: path.to_owned() }),
            Some(r2) => {
                let out = home.clone().concat(r2.as_str());
                proof {
                    assert(out@ =~= home@ + r2@);
                }
                Ok(out)
            },
        }
    } else {
        match expand_vars(path, env) {
            None => Err(ExpansionError { input: path.to_owned() }),
            Some(r2) => Ok(r2),
        }
    }
}

} // verus!
