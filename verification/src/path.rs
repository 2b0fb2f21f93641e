//! Filesystem paths as sequences of components.
//!
//! The launcher never parses path syntax; it only builds paths by appending
//! fixed components to roots handed in by the driver. A path is therefore a
//! `Vec<String>` of components, whose mathematical model is its deep view,
//! a `Seq<Seq<char>>`. The driver joins the components with the platform
//! separator when it touches the real filesystem.

use vstd::prelude::*;

verus! {

/// Copies a path; the copy has the same components.
pub fn path_clone(p: &Vec<String>) -> (r: Vec<String>)
    ensures
        r.deep_view() == p.deep_view(),
{
    let r = p.clone();
    proof {
        assert(r.deep_view() =~= p.deep_view());
    }
    r
}

/// Appends one fixed component to a path.
pub fn path_push(p: &mut Vec<String>, seg: &str)
    ensures
        final(p).deep_view() == old(p).deep_view().push(seg@),
{
    p.push(String::from_str(seg));
    proof {
        assert(p.deep_view() =~= old(p).deep_view().push(seg@));
    }
}

/// A clone of `p` with one more fixed component at the end.
pub fn path_join(p: &Vec<String>, seg: &str) -> (r: Vec<String>)
    ensures
        r.deep_view() == p.deep_view().push(seg@),
{
    let mut r = path_clone(p);
    path_push(&mut r, seg);
    r
}

/// A clone of `p` with its last component removed; `None` at a root.
pub fn path_parent(p: &Vec<String>) -> (r: Option<Vec<String>>)
    ensures
        p.deep_view().len() == 0 <==> r is None,
        r matches Some(q) ==> q.deep_view() == p.deep_view().take(
            p.deep_view().len() - 1,
        ),
{
    if p.len() == 0 {
        None
    } else {
        let mut q = path_clone(p);
        proof {
            assert(q@.len() == q.deep_view().len());
            assert(p@.len() == p.deep_view().len());
        }
        let n = q.len();
        q.truncate(n - 1);
        proof {
            assert(q.deep_view() =~= p.deep_view().take(p.deep_view().len() - 1));
        }
        Some(q)
    }
}

} // verus!
