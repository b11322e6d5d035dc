use vstd::prelude::*;

verus! {

/// A branch as shown to the user: its name, whether it is a remote-tracking
/// branch, and whether it is the branch checked out in the repository.
#[derive(Debug)]
pub struct BranchInfo {
    pub name: String,
    pub is_remote: bool,
    pub is_current: bool,
}

/// What git reports of a branch: its name (absent when it is not valid
/// UTF-8) and whether it is a remote-tracking branch.
#[derive(Debug)]
pub struct BranchEntry {
    pub name: Option<String>,
    pub is_remote: bool,
}

pub type BranchView = (Seq<char>, bool, bool);

impl View for BranchInfo {
    type V = BranchView;

    open spec fn view(&self) -> BranchView {
        (self.name@, self.is_remote, self.is_current)
    }
}

pub open spec fn branch_views(v: Seq<BranchInfo>) -> Seq<BranchView> {
    v.map_values(|b: BranchInfo| b@)
}

/// A local branch is current when it carries the name of the checked-out
/// branch; a remote-tracking branch never is.
pub open spec fn is_current_branch(name: Seq<char>, is_remote: bool, current: Option<String>) -> bool {
    !is_remote && (current matches Some(c) && c@ == name)
}

/// The branches shown for the entries, in order: one for each entry with a
/// name.
pub open spec fn branches_of(entries: Seq<BranchEntry>, current: Option<String>) -> Seq<BranchView>
    decreases entries.len(),
{
    if entries.len() == 0 {
        Seq::empty()
    } else {
        let e = entries.last();
        let rest = branches_of(entries.drop_last(), current);
        match e.name {
            Some(n) => rest.push((n@, e.is_remote, is_current_branch(n@, e.is_remote, current))),
            None => rest,
        }
    }
}

/// The branches of a repository from what git reports of them and the name
/// of the checked-out branch, if any.
pub fn branch_infos(entries: &Vec<BranchEntry>, current: &Option<String>) -> (r: Vec<BranchInfo>)
    ensures
        branch_views(r@) == branches_of(entries@, *current),
{
    let mut r: Vec<BranchInfo> = Vec::new();
    let mut i: usize = 0;
    assert(branch_views(r@) =~= branches_of(entries@.subrange(0, 0), *current));
    while i < entries.len()
        invariant
            i <= entries@.len(),
            branch_views(r@) == branches_of(entries@.subrange(0, i as int), *current),
        decreases entries@.len() - i,
    {
        let e = &entries[i];
        let ghost before = branch_views(r@);
        match &e.name {
            Some(name) => {
                let is_current = !e.is_remote && match current {
                    Some(c) => *c == *name,
                    None => false,
                };
                r.push(BranchInfo { name: name.clone(), is_remote: e.is_remote, is_current });
                assert(branch_views(r@) =~= before.push(
                    (name@, e.is_remote, is_current_branch(name@, e.is_remote, *current)),
                ));
            },
            None => {},
        }
        assert(entries@.subrange(0, i + 1).drop_last() =~= entries@.subrange(0, i as int));
        i = i + 1;
    }
    assert(entries@.subrange(0, i as int) =~= entries@);
    r
}

} // verus!
