use vstd::prelude::*;
use vstd::string::*;

verus! {

/// What git reports of one path: the change staged in the index and the
/// change in the working tree, each as flags.
#[derive(Clone, Copy, Debug)]
pub struct StatusFlags {
    pub index_new: bool,
    pub index_modified: bool,
    pub index_deleted: bool,
    pub index_renamed: bool,
    pub index_typechange: bool,
    pub wt_new: bool,
    pub wt_modified: bool,
    pub wt_deleted: bool,
    pub wt_renamed: bool,
    pub wt_typechange: bool,
    pub conflicted: bool,
}

/// One entry of a repository's status: a path (absent when it is not
/// valid UTF-8) and its flags.
#[derive(Debug)]
pub struct StatusEntry {
    pub path: Option<String>,
    pub flags: StatusFlags,
}

/// A changed file as shown to the user: its path, a label for the kind of
/// change, and whether the change is staged.
#[derive(Debug)]
pub struct FileStatus {
    pub path: String,
    pub status: String,
    pub staged: bool,
}

/// The status of a worktree: the current branch, the changed files, and how
/// far the branch is ahead of and behind its upstream.
#[derive(Debug)]
pub struct GitStatusResult {
    pub branch: Option<String>,
    pub files: Vec<FileStatus>,
    pub ahead: u32,
    pub behind: u32,
}

pub type FileStatusView = (Seq<char>, Seq<char>, bool);

impl View for FileStatus {
    type V = FileStatusView;

    open spec fn view(&self) -> FileStatusView {
        (self.path@, self.status@, self.staged)
    }
}

pub open spec fn file_views(v: Seq<FileStatus>) -> Seq<FileStatusView> {
    v.map_values(|f: FileStatus| f@)
}

/// The label of the staged change, the first that applies of: new,
/// modified, deleted, renamed, type changed.
pub open spec fn staged_label(f: StatusFlags) -> Option<Seq<char>> {
    if f.index_new {
        Some("added"@)
    } else if f.index_modified {
        Some("modified"@)
    } else if f.index_deleted {
        Some("deleted"@)
    } else if f.index_renamed {
        Some("renamed"@)
    } else if f.index_typechange {
        Some("typechange"@)
    } else {
        None
    }
}

/// The label of the change in the working tree, the first that applies of:
/// untracked, modified, deleted, renamed, type changed.
pub open spec fn unstaged_label(f: StatusFlags) -> Option<Seq<char>> {
    if f.wt_new {
        Some("untracked"@)
    } else if f.wt_modified {
        Some("modified"@)
    } else if f.wt_deleted {
        Some("deleted"@)
    } else if f.wt_renamed {
        Some("renamed"@)
    } else if f.wt_typechange {
        Some("typechange"@)
    } else {
        None
    }
}

pub open spec fn labelled(label: Option<Seq<char>>, path: Seq<char>, staged: bool) -> Seq<
    FileStatusView,
> {
    match label {
        Some(l) => seq![(path, l, staged)],
        None => Seq::empty(),
    }
}

pub open spec fn entry_path(e: StatusEntry) -> Seq<char> {
    match e.path {
        Some(p) => p@,
        None => ""@,
    }
}

/// The files that one status entry shows: its staged change, then its
/// unstaged change, then a conflict, each where there is one.
pub open spec fn entry_files(e: StatusEntry) -> Seq<FileStatusView> {
    let p = entry_path(e);
    labelled(staged_label(e.flags), p, true) + labelled(unstaged_label(e.flags), p, false) + (
    if e.flags.conflicted {
        seq![(p, "conflicted"@, false)]
    } else {
        Seq::empty()
    })
}

/// The files that a list of status entries shows, entry after entry.
pub open spec fn files_of(entries: Seq<StatusEntry>) -> Seq<FileStatusView>
    decreases entries.len(),
{
    if entries.len() == 0 {
        Seq::empty()
    } else {
        files_of(entries.drop_last()) + entry_files(entries.last())
    }
}

/// Ahead and behind counts as reported, each cut to 32 bits; zero when the
/// branch has no upstream.
pub open spec fn counts_of(counts: Option<(usize, usize)>) -> (u32, u32) {
    match counts {
        Some((a, b)) => (a as u32, b as u32),
        None => (0u32, 0u32),
    }
}

pub open spec fn label_view(label: Option<&str>) -> Option<Seq<char>> {
    match label {
        Some(l) => Some(l@),
        None => None,
    }
}

fn staged_label_of(f: &StatusFlags) -> (r: Option<&'static str>)
    ensures
        label_view(r) == staged_label(*f),
{
    if f.index_new {
        Some("added")
    } else if f.index_modified {
        Some("modified")
    } else if f.index_deleted {
        Some("deleted")
    } else if f.index_renamed {
        Some("renamed")
    } else if f.index_typechange {
        Some("typechange")
    } else {
        None
    }
}

fn unstaged_label_of(f: &StatusFlags) -> (r: Option<&'static str>)
    ensures
        label_view(r) == unstaged_label(*f),
{
    if f.wt_new {
        Some("untracked")
    } else if f.wt_modified {
        Some("modified")
    } else if f.wt_deleted {
        Some("deleted")
    } else if f.wt_renamed {
        Some("renamed")
    } else if f.wt_typechange {
        Some("typechange")
    } else {
        None
    }
}

fn push_file(files: &mut Vec<FileStatus>, path: &String, label: &str, staged: bool)
    ensures
        file_views(final(files)@) == file_views(old(files)@) + seq![(path@, label@, staged)],
{
    files.push(FileStatus { path: path.clone(), status: String::from_str(label), staged });
    assert(file_views(final(files)@) =~= file_views(old(files)@) + seq![(path@, label@, staged)]);
}

fn push_labelled(files: &mut Vec<FileStatus>, path: &String, label: Option<&str>, staged: bool)
    ensures
        file_views(final(files)@) == file_views(old(files)@) + labelled(label_view(label), path@, staged),
{
    match label {
        Some(l) => push_file(files, path, l, staged),
        None => {
            assert(file_views(final(files)@) =~= file_views(old(files)@) + labelled(label_view(label), path@, staged));
        },
    }
}

/// Appends the files that one status entry shows.
fn push_entry_files(files: &mut Vec<FileStatus>, entry: &StatusEntry)
    ensures
        file_views(final(files)@) == file_views(old(files)@) + entry_files(*entry),
{
    let path = match &entry.path {
        Some(p) => p.clone(),
        None => String::new(),
    };
    proof {
        reveal_strlit("");
    }
    assert(path@ == entry_path(*entry));
    let ghost start = file_views(files@);
    push_labelled(files, &path, staged_label_of(&entry.flags), true);
    push_labelled(files, &path, unstaged_label_of(&entry.flags), false);
    if entry.flags.conflicted {
        push_file(files, &path, "conflicted", false);
    }
    assert(file_views(files@) =~= start + entry_files(*entry));
}

/// The changed files of a worktree, from its status entries: for each entry
/// in order, its staged change, its unstaged change and a conflict.
pub fn status_files(entries: &Vec<StatusEntry>) -> (r: Vec<FileStatus>)
    ensures
        file_views(r@) == files_of(entries@),
{
    let mut files: Vec<FileStatus> = Vec::new();
    let mut i: usize = 0;
    assert(file_views(files@) =~= files_of(entries@.subrange(0, 0)));
    while i < entries.len()
        invariant
            i <= entries.len(),
            file_views(files@) == files_of(entries@.subrange(0, i as int)),
        decreases entries.len() - i,
    {
        push_entry_files(&mut files, &entries[i]);
        assert(entries@.subrange(0, i + 1).drop_last() =~= entries@.subrange(0, i as int));
        i = i + 1;
    }
    assert(entries@.subrange(0, i as int) =~= entries@);
    files
}

/// The ahead and behind counts to show: each count cut to 32 bits, or zero
/// for both when the branch has no upstream.
pub fn ahead_behind(counts: Option<(usize, usize)>) -> (r: (u32, u32))
    ensures
        r == counts_of(counts),
{
    match counts {
        Some((a, b)) => (a as u32, b as u32),
        None => (0, 0),
    }
}

/// The status of a worktree from its current branch, its status entries and
/// the ahead/behind counts against its upstream, if it has one.
pub fn status_result(
    branch: Option<String>,
    entries: &Vec<StatusEntry>,
    counts: Option<(usize, usize)>,
) -> (r: GitStatusResult)
    ensures
        r.branch == branch,
        file_views(r.files@) == files_of(entries@),
        (r.ahead, r.behind) == counts_of(counts),
{
    let files = status_files(entries);
    let shown: (u32, u32) = ahead_behind(counts);
    GitStatusResult { branch, files, ahead: shown.0, behind: shown.1 }
}

} // verus!
