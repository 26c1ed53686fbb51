//! The decoded source bundle: a mapping of relative path to file content.
//! Keys are non-empty, distinct, slash-separated relative paths; a key must
//! not escape the source root, so a `..` segment or a leading slash is
//! rejected before anything is materialized.

use vstd::prelude::*;
use crate::chars::{chars_of, str_eq};
use crate::errors::CloneError;

verus! {

/// One decoded source file: its relative path and its raw content.
pub struct SourceUnit {
    pub path: String,
    pub content: String,
}

impl View for SourceUnit {
    type V = (Seq<char>, Seq<char>);

    open spec fn view(&self) -> (Seq<char>, Seq<char>) {
        (self.path@, self.content@)
    }
}

/// Whether `p` has a `..` path segment starting at position `i`: two dots
/// bounded on each side by a slash or by the ends of the path.
pub open spec fn dotdot_at(p: Seq<char>, i: int) -> bool {
    &&& 0 <= i
    &&& i + 2 <= p.len()
    &&& p[i] == '.'
    &&& p[i + 1] == '.'
    &&& (i == 0 || p[i - 1] == '/')
    &&& (i + 2 == p.len() || p[i + 2] == '/')
}

/// Whether any segment of `p` is exactly `..`.
pub open spec fn has_dotdot_segment(p: Seq<char>) -> bool {
    exists|i: int| dotdot_at(p, i)
}

/// A safe relative path: non-empty, not anchored at the root, and with no
/// `..` segment, so it cannot escape the source root.
pub open spec fn spec_path_ok(p: Seq<char>) -> bool {
    &&& p.len() > 0
    &&& p[0] != '/'
    &&& !has_dotdot_segment(p)
}

/// Decides whether `p` is a safe relative path.
pub fn path_ok(p: &Vec<char>) -> (r: bool)
    ensures
        r == spec_path_ok(p@),
{
    let n = p.len();
    if n == 0 {
        return false;
    }
    if p[0] == '/' {
        return false;
    }
    let mut i: usize = 0;
    while i < n
        invariant
            i <= n == p@.len(),
            forall|j: int| 0 <= j < i ==> !dotdot_at(p@, j),
        decreases n - i,
    {
        if n - i >= 2 && p[i] == '.' && p[i + 1] == '.' && (i == 0 || p[i - 1] == '/') && (n - i
            == 2 || p[i + 2] == '/') {
            proof {
                assert(dotdot_at(p@, i as int));
            }
            return false;
        }
        i = i + 1;
    }
    proof {
        assert(forall|j: int| dotdot_at(p@, j) ==> 0 <= j < p@.len());
    }
    true
}

/// Whether a sequence of (path, content) pairs forms a valid bundle: every
/// path safe, all paths distinct.
pub open spec fn spec_bundle_ok(es: Seq<(Seq<char>, Seq<char>)>) -> bool {
    &&& forall|i: int| 0 <= i < es.len() ==> spec_path_ok(#[trigger] es[i].0)
    &&& forall|i: int, j: int| 0 <= i < j < es.len() ==> es[i].0 != es[j].0
}

/// The decoded mapping of relative path to source content. Order is
/// irrelevant to its meaning; the invariant holds the keys safe and distinct.
pub struct SourceBundle {
    units: Vec<SourceUnit>,
}

impl View for SourceBundle {
    type V = Seq<(Seq<char>, Seq<char>)>;

    closed spec fn view(&self) -> Seq<(Seq<char>, Seq<char>)> {
        self.units@.map(|i: int, u: SourceUnit| u@)
    }
}

impl SourceBundle {
    /// The bundle invariant: safe, distinct keys.
    pub open spec fn wf(&self) -> bool {
        spec_bundle_ok(self@)
    }

    /// Validates and wraps a list of source units: `Ok` exactly when every
    /// path is safe and no two are equal; otherwise the source object is
    /// malformed.
    pub fn new(units: Vec<SourceUnit>) -> (r: Result<SourceBundle, CloneError>)
        ensures
            r matches Ok(b) ==> b@ == units@.map(|i: int, u: SourceUnit| u@) && b.wf(),
            r is Ok <==> spec_bundle_ok(units@.map(|i: int, u: SourceUnit| u@)),
            r matches Err(e) ==> e == CloneError::MalformedSourceObject,
    {
        let ghost es = units@.map(|i: int, u: SourceUnit| u@);
        let n = units.len();
        let mut i: usize = 0;
        while i < n
            invariant
                i <= n == units@.len(),
                es == units@.map(|i: int, u: SourceUnit| u@),
                forall|j: int| 0 <= j < i ==> spec_path_ok(#[trigger] es[j].0),
                forall|j: int, k: int| 0 <= j < k < i ==> es[j].0 != es[k].0,
            decreases n - i,
        {
            let pv = chars_of(units[i].path.as_str());
            if !path_ok(&pv) {
                proof {
                    assert(es[i as int] == units@[i as int]@);
                    assert(!spec_path_ok(es[i as int].0));
                }
                return Err(CloneError::MalformedSourceObject);
            }
            let mut j: usize = 0;
            while j < i
                invariant
                    j <= i < n == units@.len(),
                    es == units@.map(|i: int, u: SourceUnit| u@),
                    forall|k: int| 0 <= k < j ==> es[k].0 != es[i as int].0,
                decreases i - j,
            {
                if str_eq(units[j].path.as_str(), units[i].path.as_str()) {
                    proof {
                        assert(es[j as int] == units@[j as int]@);
                        assert(es[i as int] == units@[i as int]@);
                        assert(es[j as int].0 == es[i as int].0);
                    }
                    return Err(CloneError::MalformedSourceObject);
                }
                j = j + 1;
            }
            i = i + 1;
        }
        Ok(SourceBundle { units })
    }

    /// The units of the bundle, in decode order.
    pub fn units(&self) -> (r: &Vec<SourceUnit>)
        ensures
            r@.map(|i: int, u: SourceUnit| u@) == self@,
    {
        &self.units
    }

    /// How many files the bundle holds.
    pub fn len(&self) -> (r: usize)
        ensures
            r == self@.len(),
    {
        self.units.len()
    }
}

} // verus!
