//! Which archive entry paths may be written under the destination directory.
use vstd::prelude::*;

verus! {

/// A `..` component starts at index `i` of `p`.
pub open spec fn parent_component_at(p: Seq<char>, i: int) -> bool {
    &&& 0 <= i
    &&& i + 1 < p.len()
    &&& p[i] == '.'
    &&& p[i + 1] == '.'
    &&& (i == 0 || p[i - 1] == '/' || p[i - 1] == '\\')
    &&& (i + 2 == p.len() || p[i + 2] == '/' || p[i + 2] == '\\')
}

/// Relative, non-empty, and without a `..` component, so that the entry
/// stays inside the destination.
pub open spec fn is_safe_entry(p: Seq<char>) -> bool {
    &&& p.len() > 0
    &&& p[0] != '/'
    &&& p[0] != '\\'
    &&& forall|i: int| !#[trigger] parent_component_at(p, i)
}

/// Whether an archive entry with this path may be unpacked.
pub fn is_safe_entry_path(path: &str) -> (r: bool)
    ensures
        r == is_safe_entry(path@),
{
    let n = path.unicode_len();
    if n == 0 {
        return false;
    }
    let first = path.get_char(0);
    if first == '/' || first == '\\' {
        return false;
    }
    let mut i: usize = 0;
    while i + 1 < n
        invariant
            n == path@.len(),
            i < n,
            forall|j: int| 0 <= j < i ==> !#[trigger] parent_component_at(path@, j),
        decreases n - i,
    {
        let starts = i == 0 || path.get_char(i - 1) == '/' || path.get_char(i - 1) == '\\';
        let ends = i + 2 == n || path.get_char(i + 2) == '/' || path.get_char(i + 2) == '\\';
        if starts && ends && path.get_char(i) == '.' && path.get_char(i + 1) == '.' {
            assert(parent_component_at(path@, i as int));
            return false;
        }
        i = i + 1;
    }
    assert forall|j: int| !#[trigger] parent_component_at(path@, j) by {
        if 0 <= j < i {
        }
    }
    true
}

} // verus!
