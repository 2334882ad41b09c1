use vstd::prelude::*;
use vstd::string::{StrSliceExecFns, StringExecFns};

verus! {

/// The first position at or after `j` that holds `}`, or -1 when none does.
pub open spec fn find_close(t: Seq<char>, j: int) -> int
    decreases t.len() - j,
{
    if j < 0 || j >= t.len() {
        -1
    } else if t[j] == '}' {
        j
    } else {
        find_close(t, j + 1)
    }
}

/// The value of the first variable named `name` from position `k` on.
pub open spec fn lookup_from(vars: Seq<(Seq<char>, Seq<char>)>, name: Seq<char>, k: int) -> Option<
    Seq<char>,
>
    decreases vars.len() - k,
{
    if k < 0 || k >= vars.len() {
        None
    } else if vars[k].0 == name {
        Some(vars[k].1)
    } else {
        lookup_from(vars, name, k + 1)
    }
}

/// `t` from position `i` on with each `${name}` replaced by the value of the
/// variable `name`; a placeholder naming no variable, and a `${` never
/// closed, stay as they are.
pub open spec fn subst_from(t: Seq<char>, i: int, vars: Seq<(Seq<char>, Seq<char>)>) -> Seq<char>
    decreases t.len() - i,
{
    if i < 0 || i >= t.len() {
        Seq::empty()
    } else if i + 1 < t.len() && t[i] == '$' && t[i + 1] == '{' && i < find_close(t, i + 2) < t.len() {
        let c = find_close(t, i + 2);
        let name = t.subrange(i + 2, c);
        let replaced = match lookup_from(vars, name, 0) {
            Some(v) => v,
            None => t.subrange(i, c + 1),
        };
        replaced + subst_from(t, c + 1, vars)
    } else {
        seq![t[i]] + subst_from(t, i + 1, vars)
    }
}

pub open spec fn vars_view(vars: Seq<(String, String)>) -> Seq<(Seq<char>, Seq<char>)> {
    vars.map_values(|p: (String, String)| (p.0@, p.1@))
}

proof fn lemma_find_close_bounds(t: Seq<char>, j: int)
    ensures
        find_close(t, j) == -1 || (j <= find_close(t, j) < t.len() && t[find_close(t, j)] == '}'),
    decreases t.len() - j,
{
    if 0 <= j < t.len() && t[j] != '}' {
        lemma_find_close_bounds(t, j + 1);
    }
}

fn find_close_exec(t: &str, n: usize, j: usize) -> (r: Option<usize>)
    requires
        n == t@.len(),
        j <= n,
    ensures
        r is None ==> find_close(t@, j as int) == -1,
        r is Some ==> find_close(t@, j as int) == r->Some_0 as int && j <= r->Some_0 < n,
{
    let mut k: usize = j;
    while k < n && t.get_char(k) != '}'
        invariant
            n == t@.len(),
            j <= k <= n,
            find_close(t@, j as int) == find_close(t@, k as int),
        decreases n - k,
    {
        k = k + 1;
    }
    if k < n {
        Some(k)
    } else {
        None
    }
}

fn lookup(vars: &Vec<(String, String)>, name: &str) -> (r: Option<usize>)
    ensures
        r is None ==> lookup_from(vars_view(vars@), name@, 0) is None,
        r is Some ==> r->Some_0 < vars@.len() && lookup_from(vars_view(vars@), name@, 0) == Some(
            vars@[r->Some_0 as int].1@,
        ),
{
    let ghost vv = vars_view(vars@);
    let key = String::from_str(name);
    let mut k: usize = 0;
    while k < vars.len()
        invariant
            0 <= k <= vars@.len(),
            vv == vars_view(vars@),
            key@ == name@,
            lookup_from(vv, name@, 0) == lookup_from(vv, name@, k as int),
        decreases vars@.len() - k,
    {
        assert(vv[k as int] == (vars@[k as int].0@, vars@[k as int].1@));
        let same = vars[k].0 == key;
        if same {
            return Some(k);
        }
        k = k + 1;
    }
    None
}

/// Fills the `${name}` placeholders of a command template with the values of
/// the variables `vars` (the first of a name wins).
pub fn substitute_vars(template: &str, vars: &Vec<(String, String)>) -> (r: String)
    ensures
        r@ == subst_from(template@, 0, vars_view(vars@)),
{
    let ghost t = template@;
    let ghost vv = vars_view(vars@);
    let n = template.unicode_len();
    let mut out = String::new();
    let mut i: usize = 0;
    while i < n
        invariant
            n == t.len(),
            t == template@,
            vv == vars_view(vars@),
            0 <= i <= n,
            out@ + subst_from(t, i as int, vv) == subst_from(t, 0, vv),
        decreases n - i,
    {
        let ghost before = out@;
        let mut advanced = false;
        if i + 1 < n && template.get_char(i) == '$' && template.get_char(i + 1) == '{' {
            if let Some(c) = find_close_exec(template, n, i + 2) {
                let name = template.substring_char(i + 2, c);
                match lookup(vars, name) {
                    Some(k) => out.append(vars[k].1.as_str()),
                    None => out.append(template.substring_char(i, c + 1)),
                }
                proof {
                    assert(subst_from(t, i as int, vv) == (match lookup_from(vv, t.subrange(i + 2, c as int), 0) {
                        Some(v) => v,
                        None => t.subrange(i as int, c + 1),
                    }) + subst_from(t, c + 1, vv));
                    assert(out@ + subst_from(t, c + 1, vv) =~= before + subst_from(t, i as int, vv));
                }
                i = c + 1;
                advanced = true;
            }
        }
        if !advanced {
            out.append(template.substring_char(i, i + 1));
            proof {
                assert(template@.subrange(i as int, i + 1) =~= seq![t[i as int]]);
                lemma_find_close_bounds(t, i + 2);
                assert(out@ + subst_from(t, i + 1, vv) =~= before + subst_from(t, i as int, vv));
            }
            i = i + 1;
        }
    }
    proof {
        assert(out@ + subst_from(t, n as int, vv) =~= out@);
    }
    out
}

} // verus!
