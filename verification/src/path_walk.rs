//! Finding the path of a directory or file of a Filen drive by walking up
//! its chain of parent directories.
//!
//! Fetching a directory is network work that the caller performs: the walk
//! says which directory to fetch next (`WalkStep::FetchParent`) and takes
//! the fetched directory in `PathWalk::step`, until it is done or fails.

use vstd::prelude::*;
use crate::text::concat;

verus! {

/// What the walk reads of a directory.
pub struct DirEntry {
    /// The directory's identifier.
    pub uuid: String,
    /// The identifier of its parent; `None` where the directory does not
    /// lie in the regular file tree (trash, recents and the like).
    pub parent: Option<String>,
    /// The directory's name, where its metadata could be read.
    pub name: Option<String>,
}

/// What the walk reads of a file.
pub struct FileEntry {
    /// The identifier of its parent directory; `None` where the file does
    /// not lie in the regular file tree.
    pub parent: Option<String>,
    /// The file's name, where its metadata could be read.
    pub name: Option<String>,
}

/// Why a path could not be found.
#[derive(PartialEq, Eq, Structural, Clone, Copy, Debug)]
pub enum WalkError {
    /// A directory on the way up has no regular parent.
    DirNotInFileTree,
    /// The file has no regular parent.
    FileNotInFileTree,
}

pub open spec fn spec_walk_error_message(e: WalkError) -> Seq<char> {
    match e {
        WalkError::DirNotInFileTree => "Failed to get parent UUID for directory not inside regular file tree"@,
        WalkError::FileNotInFileTree => "Failed to get parent UUID for file not inside regular file tree"@,
    }
}

impl WalkError {
    pub fn message(&self) -> (m: &'static str)
        ensures
            m@ == spec_walk_error_message(*self),
    {
        match self {
            WalkError::DirNotInFileTree => "Failed to get parent UUID for directory not inside regular file tree",
            WalkError::FileNotInFileTree => "Failed to get parent UUID for file not inside regular file tree",
        }
    }
}

/// What the walk asks for next.
#[derive(Debug)]
pub enum WalkStep {
    /// The path is found.
    Done(String),
    /// Fetch the directory with this identifier and pass it to `step`.
    FetchParent(String),
    /// The walk failed.
    Failed(WalkError),
}

/// The name a path uses for an entry: its own name, or `INVALID_NAME`
/// where the name could not be read.
pub open spec fn spec_entry_name(name: Option<String>) -> Seq<char> {
    match name {
        Some(n) => n@,
        None => "INVALID_NAME"@,
    }
}

/// The path made of `names`, given from the entry itself up to the topmost
/// directory below the root: `["c", "b", "a"]` gives `/a/b/c`.
pub open spec fn spec_path_of(names: Seq<Seq<char>>) -> Seq<char>
    decreases names.len(),
{
    if names.len() == 0 {
        Seq::empty()
    } else {
        spec_path_of(names.drop_first()) + "/"@ + names[0]
    }
}

/// The state of a walk: the root directory and the names collected so far,
/// from the entry itself upwards.
pub struct PathWalk {
    root_uuid: String,
    names: Vec<String>,
}

impl PathWalk {
    /// The identifier of the drive's root directory.
    pub closed spec fn root(&self) -> Seq<char> {
        self.root_uuid@
    }

    /// The names collected so far, from the entry itself upwards.
    pub closed spec fn names(&self) -> Seq<Seq<char>> {
        self.names@.map_values(|s: String| s@)
    }

    /// A walk that has collected no name yet.
    fn empty(root_uuid: &str) -> (w: PathWalk)
        ensures
            w.root() == root_uuid@,
            w.names() == Seq::<Seq<char>>::empty(),
    {
        let w = PathWalk { root_uuid: String::from_str(root_uuid), names: Vec::new() };
        assert(w.names() =~= Seq::<Seq<char>>::empty());
        w
    }

    /// The path of the names collected so far.
    fn current_path(&self) -> (p: String)
        ensures
            p@ == spec_path_of(self.names()),
    {
        let mut p = String::new();
        let mut i: usize = self.names.len();
        while i > 0
            invariant
                i <= self.names@.len(),
                p@ == spec_path_of(self.names().subrange(i as int, self.names@.len() as int)),
            decreases i,
        {
            let ghost rest = self.names().subrange(i as int, self.names@.len() as int);
            i = i - 1;
            let ghost longer = self.names().subrange(i as int, self.names@.len() as int);
            assert(longer.drop_first() =~= rest);
            assert(longer[0] == self.names@[i as int]@);
            let with_slash = concat(p.as_str(), "/");
            p = concat(with_slash.as_str(), self.names[i].as_str());
        }
        assert(self.names().subrange(0, self.names@.len() as int) =~= self.names());
        p
    }

    /// Takes the next directory of the walk: the entry itself for a
    /// directory, or the parent fetched after `FetchParent`.
    /// A directory that is the root ends the walk; one without a regular
    /// parent fails it; otherwise its name is added, and the walk ends if
    /// its parent is the root, or asks for the parent.
    pub fn step(&mut self, dir: DirEntry) -> (s: WalkStep)
        ensures
            final(self).root() == old(self).root(),
            dir.uuid@ == old(self).root() ==> {
                &&& final(self).names() == old(self).names()
                &&& s matches WalkStep::Done(p) && p@ == spec_path_of(old(self).names())
            },
            dir.uuid@ != old(self).root() && dir.parent is None ==> {
                &&& final(self).names() == old(self).names()
                &&& s == WalkStep::Failed(WalkError::DirNotInFileTree)
            },
            dir.uuid@ != old(self).root() && dir.parent is Some ==> {
                &&& final(self).names() == old(self).names().push(spec_entry_name(dir.name))
                &&& dir.parent->0@ == old(self).root() ==> (s matches WalkStep::Done(p) && p@
                    == spec_path_of(final(self).names()))
                &&& dir.parent->0@ != old(self).root() ==> (s matches WalkStep::FetchParent(u) && u@
                    == dir.parent->0@)
            },
    {
        if dir.uuid == self.root_uuid {
            return WalkStep::Done(self.current_path());
        }
        match dir.parent {
            None => WalkStep::Failed(WalkError::DirNotInFileTree),
            Some(parent) => {
                let name = match dir.name {
                    Some(n) => n,
                    None => String::from_str("INVALID_NAME"),
                };
                let ghost before = self.names();
                self.names.push(name);
                assert(self.names() =~= before.push(spec_entry_name(dir.name)));
                if parent == self.root_uuid {
                    WalkStep::Done(self.current_path())
                } else {
                    WalkStep::FetchParent(parent)
                }
            },
        }
    }

    /// Starts the walk for a directory: the root directory has the empty
    /// path; any other directory is taken as the first `step`.
    pub fn for_dir(root_uuid: &str, dir: DirEntry) -> (r: (PathWalk, WalkStep))
        ensures
            r.0.root() == root_uuid@,
            dir.uuid@ == root_uuid@ ==> (r.1 matches WalkStep::Done(p) && p@ == Seq::<char>::empty()),
            dir.uuid@ != root_uuid@ && dir.parent is None ==> r.1 == WalkStep::Failed(
                WalkError::DirNotInFileTree,
            ),
            dir.uuid@ != root_uuid@ && dir.parent is Some ==> {
                &&& r.0.names() == seq![spec_entry_name(dir.name)]
                &&& dir.parent->0@ == root_uuid@ ==> (r.1 matches WalkStep::Done(p) && p@ == "/"@
                    + spec_entry_name(dir.name))
                &&& dir.parent->0@ != root_uuid@ ==> (r.1 matches WalkStep::FetchParent(u) && u@
                    == dir.parent->0@)
            },
    {
        let mut w = PathWalk::empty(root_uuid);
        let s = w.step(dir);
        proof {
            let names = seq![spec_entry_name(dir.name)];
            assert(Seq::<Seq<char>>::empty().push(spec_entry_name(dir.name)) =~= names);
            assert(names.drop_first() =~= Seq::<Seq<char>>::empty());
            assert(spec_path_of(Seq::<Seq<char>>::empty()) =~= Seq::<char>::empty());
            assert(spec_path_of(names) =~= "/"@ + spec_entry_name(dir.name));
        }
        (w, s)
    }

    /// Starts the walk for a file: a file without a regular parent fails;
    /// otherwise its name is collected and its parent is asked for (also
    /// where the parent is the root, whose path is empty).
    pub fn for_file(root_uuid: &str, file: FileEntry) -> (r: (PathWalk, WalkStep))
        ensures
            r.0.root() == root_uuid@,
            file.parent is None ==> r.1 == WalkStep::Failed(WalkError::FileNotInFileTree),
            file.parent is Some ==> {
                &&& r.0.names() == seq![spec_entry_name(file.name)]
                &&& r.1 matches WalkStep::FetchParent(u) && u@ == file.parent->0@
            },
    {
        let mut w = PathWalk::empty(root_uuid);
        match file.parent {
            None => (w, WalkStep::Failed(WalkError::FileNotInFileTree)),
            Some(parent) => {
                let name = match file.name {
                    Some(n) => n,
                    None => String::from_str("INVALID_NAME"),
                };
                w.names.push(name);
                assert(w.names() =~= seq![spec_entry_name(file.name)]);
                (w, WalkStep::FetchParent(parent))
            },
        }
    }
}

/// Each step up the tree puts the parent's segment in front of the path
/// found so far.
pub proof fn lemma_parent_prefixes_path(names: Seq<Seq<char>>, parent: Seq<char>)
    ensures
        spec_path_of(names.push(parent)) == "/"@ + parent + spec_path_of(names),
    decreases names.len(),
{
    if names.len() == 0 {
        let one = names.push(parent);
        assert(one.drop_first().len() == 0);
        assert(spec_path_of(one.drop_first()) == Seq::<char>::empty());
        assert(one[0] == parent);
        assert(spec_path_of(one) == Seq::<char>::empty() + "/"@ + parent);
        assert(spec_path_of(names) == Seq::<char>::empty());
        assert(Seq::<char>::empty() + "/"@ + parent =~= "/"@ + parent + Seq::<char>::empty());
    } else {
        lemma_parent_prefixes_path(names.drop_first(), parent);
        let longer = names.push(parent);
        assert(longer.drop_first() =~= names.drop_first().push(parent));
        assert(longer[0] == names[0]);
        let tail = spec_path_of(names.drop_first());
        assert(spec_path_of(longer) == ("/"@ + parent + tail) + "/"@ + names[0]);
        assert(spec_path_of(names) == tail + "/"@ + names[0]);
        assert(("/"@ + parent + tail) + "/"@ + names[0] =~= "/"@ + parent + (tail + "/"@ + names[0]));
    }
}

} // verus!
