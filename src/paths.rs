use vstd::prelude::*;
use vstd::string::StrSliceExecFns;

verus! {

pub open spec fn is_absolute(s: Seq<char>) -> bool {
    s.len() > 0 && s[0] == '/'
}

/// Whether a `..` component starts at position `i` of a `/`-separated path.
pub open spec fn parent_component_at(s: Seq<char>, i: int) -> bool {
    &&& 0 <= i
    &&& i + 2 <= s.len()
    &&& s[i] == '.'
    &&& s[i + 1] == '.'
    &&& (i == 0 || s[i - 1] == '/')
    &&& (i + 2 == s.len() || s[i + 2] == '/')
}

pub open spec fn has_parent_component(s: Seq<char>) -> bool {
    exists|i: int| parent_component_at(s, i)
}

/// A path that stays below the directory it is read from: relative, and with
/// no `..` component.
pub open spec fn spec_is_child_path(s: Seq<char>) -> bool {
    !is_absolute(s) && !has_parent_component(s)
}

pub fn is_child_path(path: &str) -> (r: bool)
    ensures
        r == spec_is_child_path(path@),
{
    let n = path.unicode_len();
    if n > 0 && path.get_char(0) == '/' {
        return false;
    }
    let mut i: usize = 0;
    while i < n
        invariant
            n == path@.len(),
            0 <= i <= n,
            forall|j: int| 0 <= j < i ==> !parent_component_at(path@, j),
        decreases n - i,
    {
        if i + 1 < n && path.get_char(i) == '.' && path.get_char(i + 1) == '.' && (i == 0 || path.get_char(
            i - 1,
        ) == '/') && (i + 2 == n || path.get_char(i + 2) == '/') {
            assert(parent_component_at(path@, i as int));
            return false;
        }
        i = i + 1;
    }
    proof {
        assert forall|j: int| !parent_component_at(path@, j) by {
            if 0 <= j < i {
            }
        }
    }
    true
}

} // verus!
