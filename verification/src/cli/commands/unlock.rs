//! `recoil unlock`: authenticated removal of the immutable flag, limited to
//! the shadow directory.

use vstd::prelude::*;

use crate::error::RecoilError;
use crate::utils::os_detect::split_state;
use crate::utils::text::{chars_of, has_prefix, text_starts_with};

verus! {

/// The arguments of `recoil unlock`.
#[derive(Debug, Clone)]
pub struct UnlockArgs {
    /// Shadow layer path to unlock, e.g. /.recoil-debian/vault/
    pub path: Option<String>,
}

/// The prefix every path inside a shadow directory begins with.
pub const SHADOW_MARKER: &'static str = "/.recoil-";

/// The components of a path: the pieces between its `/` characters (the
/// first is empty for an absolute path).
pub open spec fn path_components(p: Seq<char>) -> Seq<Seq<char>> {
    split_state(p, '/').0.push(split_state(p, '/').1)
}

/// Where one component leads a walk from depth `d` below `/`: `..` goes
/// up, never above `/`; an empty component or `.` stays; any other goes
/// down.
pub open spec fn step_depth(d: int, c: Seq<char>) -> int {
    if c.len() == 2 && c[0] == '.' && c[1] == '.' {
        if d > 0 { d - 1 } else { 0 }
    } else if c.len() == 0 || (c.len() == 1 && c[0] == '.') {
        d
    } else {
        d + 1
    }
}

/// The depth below `/` after walking the components `cs`.
pub open spec fn walk_depth(cs: Seq<Seq<char>>) -> int
    decreases cs.len(),
{
    if cs.len() == 0 {
        0
    } else {
        step_depth(walk_depth(cs.drop_last()), cs.last())
    }
}

/// Once the walk through `cs` has entered the top-level directory named by
/// the first components, it never climbs back to `/`.
pub open spec fn stays_below_top(cs: Seq<Seq<char>>) -> bool
    decreases cs.len(),
{
    if cs.len() <= 1 {
        true
    } else {
        stays_below_top(cs.drop_last()) && walk_depth(cs) >= 1
    }
}

/// The path lies inside a shadow directory: it begins with `/.recoil-`, and
/// no `..` component leads out of that directory.
pub open spec fn inside_shadow(p: Seq<char>) -> bool {
    has_prefix(p, SHADOW_MARKER@) && stays_below_top(path_components(p))
}

/// The depth after walking `v[from..to]` from depth `d`.
fn next_depth(v: &Vec<char>, from: usize, to: usize, d: u128) -> (r: u128)
    requires
        from <= to <= v@.len(),
        d < u128::MAX,
    ensures
        r == step_depth(d as int, v@.subrange(from as int, to as int)),
{
    let len = to - from;
    if len == 2 && v[from] == '.' && v[from + 1] == '.' {
        if d > 0 { d - 1 } else { 0 }
    } else if len == 0 || (len == 1 && v[from] == '.') {
        d
    } else {
        d + 1
    }
}

/// Only paths inside a shadow directory may be unlocked: a path must begin
/// with `/.recoil-`, and may use `..` only where it stays inside that
/// directory. Any other path is refused.
pub fn check_unlock_target(path: &str) -> (r: Result<(), RecoilError>)
    ensures
        inside_shadow(path@) <==> r is Ok,
        r matches Err(e) ==> (e matches RecoilError::Other(m) && m@ == "path outside shadow directory"@),
{
    if !text_starts_with(path, SHADOW_MARKER) {
        return Err(RecoilError::Other(String::from_str("path outside shadow directory")));
    }
    let v = chars_of(path);
    let n = v.len();
    let mut start: usize = 0;
    let mut i: usize = 0;
    let mut depth: u128 = 0;
    let mut count: usize = 0;
    let mut ok = true;
    let ghost mut done: Seq<Seq<char>> = seq![];
    assert(v@.take(0) =~= seq![]);
    while i < n
        invariant
            start <= i <= n,
            n == v@.len(),
            v@ == path@,
            split_state(v@.take(i as int), '/') == (done, v@.subrange(start as int, i as int)),
            depth == walk_depth(done),
            count == done.len(),
            depth <= i,
            count <= i,
            ok == stays_below_top(done),
        decreases n - i,
    {
        assert(v@.take(i + 1).drop_last() =~= v@.take(i as int));
        if v[i] == '/' {
            let ghost c = v@.subrange(start as int, i as int);
            depth = next_depth(&v, start, i, depth);
            count = count + 1;
            proof {
                assert(done.push(c).drop_last() =~= done);
                done = done.push(c);
            }
            ok = ok && (count <= 1 || depth >= 1);
            start = i + 1;
            assert(v@.subrange(start as int, i + 1) =~= seq![]);
        } else {
            assert(v@.subrange(start as int, i + 1) =~= v@.subrange(start as int, i as int).push(
                v@[i as int],
            ));
        }
        i = i + 1;
    }
    assert(v@.take(n as int) =~= v@);
    let ghost last = v@.subrange(start as int, n as int);
    let final_depth = next_depth(&v, start, n, depth);
    assert(done.push(last).drop_last() =~= done);
    assert(path_components(path@) == done.push(last));
    if ok && (count == 0 || final_depth >= 1) {
        Ok(())
    } else {
        Err(RecoilError::Other(String::from_str("path outside shadow directory")))
    }
}

} // verus!
