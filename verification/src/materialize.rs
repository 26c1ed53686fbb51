//! Materialization planning: turns the flat path → content mapping into the
//! exact directory chains and file paths to create under `{root}/src/`.
//! The filesystem work itself is done by the caller from the returned plan;
//! directory creation is idempotent there, and file creation overwrites.

use vstd::prelude::*;
use crate::bundle::{SourceBundle, SourceUnit};
use crate::chars::chars_of;
use crate::chars::string_from_chars;

verus! {

/// The positions of every `/` in `s`, in increasing order.
pub open spec fn slash_positions(s: Seq<char>) -> Seq<int>
    decreases s.len(),
{
    if s.len() == 0 {
        Seq::empty()
    } else if s.last() == '/' {
        slash_positions(s.drop_last()).push(s.len() - 1)
    } else {
        slash_positions(s.drop_last())
    }
}

/// Every slash position indexes a `/` inside `s`.
pub proof fn lemma_slash_positions_in_range(s: Seq<char>)
    ensures
        forall|k: int|
            0 <= k < slash_positions(s).len() ==> 0 <= #[trigger] slash_positions(s)[k] < s.len()
                && s[slash_positions(s)[k]] == '/',
    decreases s.len(),
{
    if s.len() > 0 {
        lemma_slash_positions_in_range(s.drop_last());
        assert(forall|k: int|
            0 <= k < slash_positions(s.drop_last()).len() ==> s.drop_last()[#[trigger] slash_positions(
                s.drop_last(),
            )[k]] == s[slash_positions(s.drop_last())[k]]);
    }
}

/// The source root under the project root.
pub open spec fn spec_base(root: Seq<char>) -> Seq<char> {
    root + "/src/"@
}

/// Where a bundle entry's file is written.
pub open spec fn spec_file_path(root: Seq<char>, path: Seq<char>) -> Seq<char> {
    spec_base(root) + path
}

/// The directory chain entry for the slash at position `pos` of `path`:
/// everything up to and including that slash, under the source root.
pub open spec fn spec_dir_path(root: Seq<char>, path: Seq<char>, pos: int) -> Seq<char> {
    spec_base(root) + path.take(pos + 1)
}

/// The plan for one source unit: the directories to create (in order, each
/// ending in `/`, the source root first) and the file to write.
pub struct UnitPlan {
    pub dirs: Vec<String>,
    pub file_path: String,
    pub content: String,
}

/// Whether `p` is exactly the plan for bundle entry `entry` under `root`.
pub open spec fn plan_matches(root: Seq<char>, entry: (Seq<char>, Seq<char>), p: UnitPlan) -> bool {
    &&& p.file_path@ == spec_file_path(root, entry.0)
    &&& p.content@ == entry.1
    &&& p.dirs@.len() == slash_positions(entry.0).len() + 1
    &&& p.dirs@[0]@ == spec_base(root)
    &&& forall|k: int|
        0 <= k < slash_positions(entry.0).len() ==> p.dirs@[k + 1]@ == spec_dir_path(
            root,
            entry.0,
            #[trigger] slash_positions(entry.0)[k],
        )
}

/// The first `k` characters of `v`.
fn prefix_chars(v: &Vec<char>, k: usize) -> (r: Vec<char>)
    requires
        k <= v@.len(),
    ensures
        r@ == v@.take(k as int),
{
    let mut r: Vec<char> = Vec::new();
    let mut i: usize = 0;
    while i < k
        invariant
            i <= k <= v@.len(),
            r@ == v@.take(i as int),
        decreases k - i,
    {
        r.push(v[i]);
        i = i + 1;
        proof {
            assert(r@ =~= v@.take(i as int));
        }
    }
    r
}

/// Plans one source unit under `root`: the directory chain, one entry per
/// slash of the relative path after the source root itself, and the file.
pub fn plan_unit(root: &str, unit: &SourceUnit) -> (p: UnitPlan)
    ensures
        plan_matches(root@, unit@, p),
{
    let mut base = root.to_owned();
    base.append("/src/");
    let pv = chars_of(unit.path.as_str());
    let n = pv.len();
    let mut dirs: Vec<String> = Vec::new();
    dirs.push(base.clone());
    let mut i: usize = 0;
    proof {
        assert(pv@.take(0) =~= Seq::<char>::empty());
    }
    while i < n
        invariant
            i <= n == pv@.len(),
            pv@ == unit.path@,
            base@ == spec_base(root@),
            dirs@.len() == slash_positions(pv@.take(i as int)).len() + 1,
            dirs@[0]@ == spec_base(root@),
            forall|k: int|
                0 <= k < slash_positions(pv@.take(i as int)).len() ==> dirs@[k + 1]@
                    == spec_dir_path(
                    root@,
                    pv@,
                    #[trigger] slash_positions(pv@.take(i as int))[k],
                ),
        decreases n - i,
    {
        let ghost oldpos = slash_positions(pv@.take(i as int));
        proof {
            assert(pv@.take(i + 1).drop_last() =~= pv@.take(i as int));
            assert(pv@.take(i + 1).last() == pv@[i as int]);
        }
        if pv[i] == '/' {
            let pre = prefix_chars(&pv, i + 1);
            let pre_s = string_from_chars(&pre);
            let mut d = base.clone();
            d.append(pre_s.as_str());
            dirs.push(d);
            proof {
                assert(slash_positions(pv@.take(i + 1)) =~= oldpos.push(i as int));
                assert(dirs@[oldpos.len() as int + 1]@ == spec_dir_path(root@, pv@, i as int));
            }
        } else {
            proof {
                assert(slash_positions(pv@.take(i + 1)) =~= oldpos);
            }
        }
        i = i + 1;
    }
    proof {
        assert(pv@.take(n as int) =~= pv@);
    }
    let mut f = base;
    f.append(unit.path.as_str());
    let content = unit.content.clone();
    UnitPlan { dirs, file_path: f, content }
}

/// Plans a whole bundle: one unit plan per entry, in bundle order.
pub fn plan_bundle(root: &str, bundle: &SourceBundle) -> (r: Vec<UnitPlan>)
    ensures
        r@.len() == bundle@.len(),
        forall|k: int| 0 <= k < bundle@.len() ==> plan_matches(root@, bundle@[k], #[trigger] r@[k]),
{
    let units = bundle.units();
    let n = units.len();
    let mut r: Vec<UnitPlan> = Vec::new();
    let mut i: usize = 0;
    while i < n
        invariant
            i <= n == units@.len(),
            units@.map(|q: int, u: SourceUnit| u@) == bundle@,
            r@.len() == i,
            forall|k: int| 0 <= k < i ==> plan_matches(root@, bundle@[k], #[trigger] r@[k]),
        decreases n - i,
    {
        let p = plan_unit(root, &units[i]);
        proof {
            assert(bundle@[i as int] == units@[i as int]@);
        }
        r.push(p);
        i = i + 1;
    }
    r
}

} // verus!
