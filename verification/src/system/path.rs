//! Expanding `~` to the user's home directory and `$NAME` or `${NAME}` to
//! the value of an environment variable.
use vstd::prelude::*;
use crate::error::AppError;
use crate::text::{concat_str, str_eq};
use crate::infrastructure::path::home_dir;
use crate::models::path::{
    expand_tilde_with_home, path_starts_with_tilde, spec_expand_tilde, starts_with_tilde,
};

verus! {

/// A character of a variable name: an ASCII letter or digit, or `_`.
pub open spec fn is_name_char(c: char) -> bool {
    let n = c as u32;
    (0x61 <= n && n <= 0x7a) || (0x41 <= n && n <= 0x5a) || (0x30 <= n && n <= 0x39) || n == 0x5f
}

/// How many name characters a text starts with.
pub open spec fn name_run(s: Seq<char>) -> int
    decreases s.len(),
{
    if s.len() > 0 && is_name_char(s[0]) {
        1 + name_run(s.skip(1))
    } else {
        0
    }
}

/// The value of the first variable named `name`.
pub open spec fn lookup_var(vars: Seq<(Seq<char>, Seq<char>)>, name: Seq<char>) -> Option<Seq<char>>
    decreases vars.len(),
{
    if vars.len() == 0 {
        None
    } else if vars[0].0 == name {
        Some(vars[0].1)
    } else {
        lookup_var(vars.skip(1), name)
    }
}

/// The names and values of a list of variables.
pub open spec fn vars_view(vars: Seq<(String, String)>) -> Seq<(Seq<char>, Seq<char>)> {
    vars.map_values(|v: (String, String)| (v.0@, v.1@))
}

/// A text with each `${NAME}` and `$NAME` (the longest run of name
/// characters) of a defined variable replaced by its value, read left to
/// right; a `$` that starts no such reference stays as it is.
pub open spec fn spec_expand_variables(s: Seq<char>, vars: Seq<(Seq<char>, Seq<char>)>) -> Seq<char>
    decreases s.len(),
{
    if s.len() == 0 {
        Seq::empty()
    } else if s[0] == '$' && s.len() > 1 && s[1] == '{' && name_run(s.skip(2)) > 0 && 2 + name_run(
        s.skip(2),
    ) < s.len() && s[2 + name_run(s.skip(2))] == '}' && lookup_var(
        vars,
        s.subrange(2, 2 + name_run(s.skip(2))),
    ) is Some {
        lookup_var(vars, s.subrange(2, 2 + name_run(s.skip(2)))).unwrap() + spec_expand_variables(
            s.skip(3 + name_run(s.skip(2))),
            vars,
        )
    } else if s[0] == '$' && name_run(s.skip(1)) > 0 && 1 + name_run(s.skip(1)) <= s.len()
        && lookup_var(vars, s.subrange(1, 1 + name_run(s.skip(1)))) is Some {
        lookup_var(vars, s.subrange(1, 1 + name_run(s.skip(1)))).unwrap() + spec_expand_variables(
            s.skip(1 + name_run(s.skip(1))),
            vars,
        )
    } else {
        seq![s[0]] + spec_expand_variables(s.skip(1), vars)
    }
}

fn is_name_char_exec(c: char) -> (res: bool)
    ensures
        res == is_name_char(c),
{
    let n = c as u32;
    (0x61 <= n && n <= 0x7a) || (0x41 <= n && n <= 0x5a) || (0x30 <= n && n <= 0x39) || n == 0x5f
}

/// How many name characters `s` holds from `start` on.
fn name_run_at(s: &str, start: usize) -> (res: usize)
    requires
        start <= s@.len(),
    ensures
        res == name_run(s@.skip(start as int)),
        start + res <= s@.len(),
{
    let n = s.unicode_len();
    let mut j: usize = start;
    while j < n && is_name_char_exec(s.get_char(j))
        invariant
            n == s@.len(),
            start <= j <= n,
            name_run(s@.skip(start as int)) == (j - start) + name_run(s@.skip(j as int)),
        decreases n - j,
    {
        assert(s@.skip(j as int)[0] == s@[j as int]);
        assert(s@.skip(j as int).skip(1) =~= s@.skip(j + 1));
        j = j + 1;
    }
    if j < n {
        assert(s@.skip(j as int)[0] == s@[j as int]);
    }
    j - start
}

fn lookup_var_exec(vars: &Vec<(String, String)>, name: &str) -> (res: Option<String>)
    ensures
        crate::models::path::opt_string_view(res) == lookup_var(vars_view(vars@), name@),
{
    let ghost vv = vars_view(vars@);
    let mut i: usize = 0;
    assert(vv.skip(0) =~= vv);
    while i < vars.len()
        invariant
            vv == vars_view(vars@),
            i <= vars@.len(),
            lookup_var(vv, name@) == lookup_var(vv.skip(i as int), name@),
        decreases vars@.len() - i,
    {
        assert(vv.skip(i as int)[0] == (vars@[i as int].0@, vars@[i as int].1@));
        assert(vv.skip(i as int).skip(1) =~= vv.skip(i + 1));
        if str_eq(vars[i].0.as_str(), name) {
            return Some(vars[i].1.clone());
        }
        i = i + 1;
    }
    None
}

/// Expands and manipulates file system paths.
#[derive(Debug)]
pub struct PathExpander;

impl PathExpander {
    /// Creates a new `PathExpander`.
    pub fn new() -> (res: Self) {
        PathExpander
    }

    /// A path whose first component is `~` gets the home directory in its
    /// place (`HomeDirectoryNotFound` where there is none, or where its name
    /// is not valid UTF-8); every other path
    /// is returned as it is.
    pub fn expand_home(&self, path: &str) -> (res: Result<String, AppError>)
        ensures
            !starts_with_tilde(path@) ==> (res matches Ok(r) && r@ == path@),
            starts_with_tilde(path@) ==> match res {
                Ok(r) => exists|h: Seq<char>| #[trigger] spec_expand_tilde(path@, h) == r@,
                Err(e) => e is HomeDirectoryNotFound,
            },
    {
        if !path_starts_with_tilde(path) {
            return Ok(String::from_str(path));
        }
        match home_dir() {
            Some(home) => {
                let r = expand_tilde_with_home(path, home.as_str());
                assert(spec_expand_tilde(path@, home@) == r@);
                Ok(r)
            },
            None => Err(AppError::HomeDirectoryNotFound),
        }
    }


    /// Replaces each `${NAME}` and `$NAME` of a defined variable in `path`
    /// by its value, as `vars` (the environment) gives them.
    pub fn expand_variables(&self, path: &str, vars: &Vec<(String, String)>) -> (res: String)
        ensures
            res@ == spec_expand_variables(path@, vars_view(vars@)),
    {
        let ghost vv = vars_view(vars@);
        let n = path.unicode_len();
        let mut out = String::new();
        let mut i: usize = 0;
        assert(path@.skip(0) =~= path@);
        while i < n
            invariant
                vv == vars_view(vars@),
                n == path@.len(),
                i <= n,
                out@ + spec_expand_variables(path@.skip(i as int), vv) == spec_expand_variables(
                    path@,
                    vv,
                ),
            decreases n - i,
        {
            let ghost rest = path@.skip(i as int);
            let c = path.get_char(i);
            assert(rest[0] == c);
            if c == '$' {
                if i + 1 < n && path.get_char(i + 1) == '{' {
                    assert(rest[1] == path@[i + 1]);
                    let m = name_run_at(path, i + 2);
                    assert(rest.skip(2) =~= path@.skip(i + 2));
                    if m > 0 && i + 2 + m < n && path.get_char(i + 2 + m) == '}' {
                        assert(rest[2 + m] == path@[i + 2 + m]);
                        let name = path.substring_char(i + 2, i + 2 + m);
                        assert(rest.subrange(2, 2 + m as int) =~= name@);
                        match lookup_var_exec(vars, name) {
                            Some(v) => {
                                assert(rest.skip(3 + m as int) =~= path@.skip(i + 3 + m));
                                let ghost before = out@;
                                out = out.concat(v.as_str());
                                assert(out@ + spec_expand_variables(path@.skip(i + 3 + m), vv)
                                    =~= before + spec_expand_variables(rest, vv));
                                i = i + 3 + m;
                                continue;
                            },
                            None => {},
                        }
                    }
                }
                let m = name_run_at(path, i + 1);
                assert(rest.skip(1) =~= path@.skip(i + 1));
                if i + 1 < n {
                    assert(rest[1] == path@[i + 1]);
                }
                if m > 0 {
                    let name = path.substring_char(i + 1, i + 1 + m);
                    assert(rest.subrange(1, 1 + m as int) =~= name@);
                    match lookup_var_exec(vars, name) {
                        Some(v) => {
                            assert(rest.skip(1 + m as int) =~= path@.skip(i + 1 + m));
                            let ghost before = out@;
                            out = out.concat(v.as_str());
                            assert(out@ + spec_expand_variables(path@.skip(i + 1 + m), vv)
                                =~= before + spec_expand_variables(rest, vv));
                            i = i + 1 + m;
                            continue;
                        },
                        None => {},
                    }
                }
            }
            let ch = path.substring_char(i, i + 1);
            assert(ch@ =~= seq![c]);
            assert(rest.skip(1) =~= path@.skip(i + 1));
            let ghost before = out@;
            out = out.concat(ch);
            assert(out@ + spec_expand_variables(path@.skip(i + 1), vv) =~= before
                + spec_expand_variables(rest, vv));
            i = i + 1;
        }
        assert(path@.skip(n as int) =~= Seq::<char>::empty());
        assert(out@ + Seq::<char>::empty() =~= out@);
        out
    }
}

impl Default for PathExpander {
    /// An expander; it holds no state.
    fn default() -> (res: Self)
        ensures
            res == PathExpander,
    {
        PathExpander::new()
    }
}

} // verus!
