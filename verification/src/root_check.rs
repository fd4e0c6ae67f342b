//! Checking the root a user gives for a new share, and turning it into the
//! path that the share will serve.
//!
//! A root is either the identifier of a directory or file, or a path. An
//! identifier is looked up as a directory first and as a file second; a
//! path is normalized and looked up once. The lookups are network work
//! that the caller performs: `RootCheck` says which lookup comes next and
//! takes its outcome in `advance`, until it is `Finished`.

use vstd::prelude::*;
use crate::ids::{parse_uuid, parsed_uuid};
use crate::text::{
    concat, spec_trim_end_slashes, spec_trim_slashes, spec_trim_start_slashes, trim_slashes,
};

verus! {

/// What kind of item a share's root is.
#[derive(PartialEq, Eq, Structural, Clone, Copy, Debug)]
pub enum ShareRootType {
    /// The drive's root directory.
    Root,
    File,
    Dir,
}

/// A checked root: the path of the item and its kind.
#[derive(Debug)]
pub struct CheckedShareRoot {
    pub path: String,
    pub item_type: ShareRootType,
}

/// The form in which a path root is looked up: a slash followed by the
/// given text without its leading and trailing slashes.
pub open spec fn spec_normalized_root(root: Seq<char>) -> Seq<char> {
    "/"@ + spec_trim_slashes(root)
}

/// The path a share root given as text is looked up at.
pub fn normalize_root_path(root: &str) -> (p: String)
    ensures
        p@ == spec_normalized_root(root@),
{
    concat("/", trim_slashes(root))
}

/// How a root given as text is looked up.
#[derive(Debug)]
pub enum RootQuery {
    /// The text is an identifier (with this 128-bit value).
    ById(u128),
    /// The text is a path; it is looked up at this normalized path.
    ByPath(String),
}

impl RootQuery {
    /// Decides how `root` is looked up, given what the identifier parser
    /// made of it: an identifier where it parsed, a normalized path
    /// otherwise.
    pub fn decide(root: &str, parsed: Option<u128>) -> (q: RootQuery)
        ensures
            match parsed {
                Some(n) => q == RootQuery::ById(n),
                None => q matches RootQuery::ByPath(p) && p@ == spec_normalized_root(root@),
            },
    {
        match parsed {
            Some(n) => RootQuery::ById(n),
            None => RootQuery::ByPath(normalize_root_path(root)),
        }
    }

    /// Decides how `root` is looked up: as an identifier where the `uuid`
    /// crate parses it as one, as a normalized path otherwise.
    pub fn of(root: &str) -> (q: RootQuery)
        ensures
            match parsed_uuid(root@) {
                Some(n) => q == RootQuery::ById(n),
                None => q matches RootQuery::ByPath(p) && p@ == spec_normalized_root(root@),
            },
    {
        RootQuery::decide(root, parse_uuid(root))
    }
}

/// The state of a root check: the lookup it waits for, or its result
/// (the checked root, or an error message).
#[derive(Debug)]
pub enum RootCheck {
    /// Look the identifier up as a directory.
    LookupDir(u128),
    /// Look the identifier up as a file; the directory lookup failed with
    /// this message.
    LookupFile(u128, String),
    /// Look up the item at this normalized path.
    LookupPath(String),
    /// The check is over.
    Finished(Result<CheckedShareRoot, String>),
}

/// The outcome of the lookup a `RootCheck` asked for.
#[derive(Debug)]
pub enum RootEvent {
    /// The directory exists; this is its path.
    DirResolved(String),
    /// No such directory; the lookup failed with this message.
    DirMissing(String),
    /// The file exists; this is its path.
    FileResolved(String),
    /// No such file; the lookup failed with this message.
    FileMissing(String),
    /// The path lookup answered: the kind of item found there, if any.
    PathItem(Option<ShareRootType>),
    /// The path lookup failed with this message.
    PathLookupFailed(String),
}

/// A `RootCheck` with its texts as character sequences.
pub enum RootCheckView {
    LookupDir(u128),
    LookupFile(u128, Seq<char>),
    LookupPath(Seq<char>),
    Finished(Result<(Seq<char>, ShareRootType), Seq<char>>),
}

/// A `RootEvent` with its texts as character sequences.
pub enum RootEventView {
    DirResolved(Seq<char>),
    DirMissing(Seq<char>),
    FileResolved(Seq<char>),
    FileMissing(Seq<char>),
    PathItem(Option<ShareRootType>),
    PathLookupFailed(Seq<char>),
}

impl View for RootCheck {
    type V = RootCheckView;

    open spec fn view(&self) -> RootCheckView {
        match self {
            RootCheck::LookupDir(n) => RootCheckView::LookupDir(*n),
            RootCheck::LookupFile(n, e) => RootCheckView::LookupFile(*n, e@),
            RootCheck::LookupPath(p) => RootCheckView::LookupPath(p@),
            RootCheck::Finished(Ok(c)) => RootCheckView::Finished(Ok((c.path@, c.item_type))),
            RootCheck::Finished(Err(e)) => RootCheckView::Finished(Err(e@)),
        }
    }
}

impl View for RootEvent {
    type V = RootEventView;

    open spec fn view(&self) -> RootEventView {
        match self {
            RootEvent::DirResolved(p) => RootEventView::DirResolved(p@),
            RootEvent::DirMissing(e) => RootEventView::DirMissing(e@),
            RootEvent::FileResolved(p) => RootEventView::FileResolved(p@),
            RootEvent::FileMissing(e) => RootEventView::FileMissing(e@),
            RootEvent::PathItem(k) => RootEventView::PathItem(*k),
            RootEvent::PathLookupFailed(e) => RootEventView::PathLookupFailed(e@),
        }
    }
}

/// The message for an identifier that names neither a directory nor a file.
pub open spec fn spec_id_not_found_message(dir_error: Seq<char>, file_error: Seq<char>) -> Seq<char> {
    "Failed to find dir ("@ + dir_error + "), also failed to find file ("@ + file_error
        + "), for provided UUID"@
}

/// The message for a path whose lookup failed.
pub open spec fn spec_path_lookup_failed_message(error: Seq<char>) -> Seq<char> {
    "Failed to find dir at path ("@ + error + "), also failed to find file at path ("@ + error
        + "), for provided path"@
}

/// The message for a path at which there is no item.
pub open spec fn spec_no_item_message() -> Seq<char> {
    "No item found at provided path"@
}

/// Whether `e` answers the lookup that `s` asked for.
pub open spec fn spec_accepts(s: RootCheckView, e: RootEventView) -> bool {
    match s {
        RootCheckView::LookupDir(_) => e is DirResolved || e is DirMissing,
        RootCheckView::LookupFile(_, _) => e is FileResolved || e is FileMissing,
        RootCheckView::LookupPath(_) => e is PathItem || e is PathLookupFailed,
        RootCheckView::Finished(_) => false,
    }
}

/// The state after `s` takes the answer `e` to its lookup.
pub open spec fn spec_advance(s: RootCheckView, e: RootEventView) -> RootCheckView {
    match (s, e) {
        (RootCheckView::LookupDir(_), RootEventView::DirResolved(p)) => RootCheckView::Finished(
            Ok((p, ShareRootType::Dir)),
        ),
        (RootCheckView::LookupDir(n), RootEventView::DirMissing(err)) => RootCheckView::LookupFile(
            n,
            err,
        ),
        (RootCheckView::LookupFile(_, _), RootEventView::FileResolved(p)) => RootCheckView::Finished(
            Ok((p, ShareRootType::File)),
        ),
        (RootCheckView::LookupFile(_, dir_err), RootEventView::FileMissing(file_err)) => {
            RootCheckView::Finished(Err(spec_id_not_found_message(dir_err, file_err)))
        },
        (RootCheckView::LookupPath(p), RootEventView::PathItem(Some(kind))) => RootCheckView::Finished(
            Ok((p, kind)),
        ),
        (RootCheckView::LookupPath(_), RootEventView::PathItem(None)) => RootCheckView::Finished(
            Err(spec_no_item_message()),
        ),
        (RootCheckView::LookupPath(_), RootEventView::PathLookupFailed(err)) => {
            RootCheckView::Finished(Err(spec_path_lookup_failed_message(err)))
        },
        _ => s,
    }
}

impl RootCheck {
    /// The first lookup for a root given as text.
    pub fn start(query: RootQuery) -> (s: RootCheck)
        ensures
            match query {
                RootQuery::ById(n) => s@ == RootCheckView::LookupDir(n),
                RootQuery::ByPath(p) => s@ == RootCheckView::LookupPath(p@),
            },
    {
        match query {
            RootQuery::ById(n) => RootCheck::LookupDir(n),
            RootQuery::ByPath(p) => RootCheck::LookupPath(p),
        }
    }

    /// Whether the check is over.
    pub fn is_finished(&self) -> (b: bool)
        ensures
            b == self@ is Finished,
    {
        match self {
            RootCheck::Finished(_) => true,
            _ => false,
        }
    }

    /// Takes the answer to the lookup the check asked for.
    pub fn advance(self, event: RootEvent) -> (s: RootCheck)
        requires
            spec_accepts(self@, event@),
        ensures
            s@ == spec_advance(self@, event@),
    {
        match (self, event) {
            (RootCheck::LookupDir(_), RootEvent::DirResolved(p)) => RootCheck::Finished(
                Ok(CheckedShareRoot { path: p, item_type: ShareRootType::Dir }),
            ),
            (RootCheck::LookupDir(n), RootEvent::DirMissing(err)) => RootCheck::LookupFile(n, err),
            (RootCheck::LookupFile(_, _), RootEvent::FileResolved(p)) => RootCheck::Finished(
                Ok(CheckedShareRoot { path: p, item_type: ShareRootType::File }),
            ),
            (RootCheck::LookupFile(_, dir_err), RootEvent::FileMissing(file_err)) => {
                let a = concat("Failed to find dir (", dir_err.as_str());
                let b = concat(a.as_str(), "), also failed to find file (");
                let c = concat(b.as_str(), file_err.as_str());
                let d = concat(c.as_str(), "), for provided UUID");
                assert(d@ == spec_id_not_found_message(dir_err@, file_err@));
                RootCheck::Finished(Err(d))
            },
            (RootCheck::LookupPath(p), RootEvent::PathItem(Some(kind))) => RootCheck::Finished(
                Ok(CheckedShareRoot { path: p, item_type: kind }),
            ),
            (RootCheck::LookupPath(_), RootEvent::PathItem(None)) => RootCheck::Finished(
                Err(String::from_str("No item found at provided path")),
            ),
            (RootCheck::LookupPath(_), RootEvent::PathLookupFailed(err)) => {
                let a = concat("Failed to find dir at path (", err.as_str());
                let b = concat(a.as_str(), "), also failed to find file at path (");
                let c = concat(b.as_str(), err.as_str());
                let d = concat(c.as_str(), "), for provided path");
                assert(d@ == spec_path_lookup_failed_message(err@));
                RootCheck::Finished(Err(d))
            },
            (s, _) => s,
        }
    }

    /// The result of a finished check.
    pub fn into_result(self) -> (r: Result<CheckedShareRoot, String>)
        requires
            self@ is Finished,
        ensures
            match (self@, r) {
                (RootCheckView::Finished(Ok((p, k))), Ok(c)) => c.path@ == p && c.item_type == k,
                (RootCheckView::Finished(Err(e)), Err(m)) => m@ == e,
                _ => false,
            },
    {
        match self {
            RootCheck::Finished(r) => r,
            _ => {
                assert(false);
                Err(String::new())
            },
        }
    }
}

/// What each answer does to a check, with the resulting state written out:
/// a directory found ends the check with that directory's path; a
/// directory lookup that fails moves on to a file lookup of the same
/// identifier, keeping the directory's error; a file found ends the check
/// with the file's path; a file lookup that fails too ends it with both
/// errors; and a path lookup ends it with the item found at that same path,
/// or with the matching error.
pub proof fn lemma_transitions(
    n: u128,
    path: Seq<char>,
    dir_err: Seq<char>,
    file_err: Seq<char>,
    found: Seq<char>,
    kind: ShareRootType,
)
    ensures
        spec_advance(RootCheckView::LookupDir(n), RootEventView::DirResolved(found))
            == RootCheckView::Finished(Ok((found, ShareRootType::Dir))),
        spec_advance(RootCheckView::LookupDir(n), RootEventView::DirMissing(dir_err))
            == RootCheckView::LookupFile(n, dir_err),
        spec_advance(RootCheckView::LookupFile(n, dir_err), RootEventView::FileResolved(found))
            == RootCheckView::Finished(Ok((found, ShareRootType::File))),
        spec_advance(RootCheckView::LookupFile(n, dir_err), RootEventView::FileMissing(file_err))
            == RootCheckView::Finished(
            Err(
                "Failed to find dir ("@ + dir_err + "), also failed to find file ("@ + file_err
                    + "), for provided UUID"@,
            ),
        ),
        spec_advance(RootCheckView::LookupPath(path), RootEventView::PathItem(Some(kind)))
            == RootCheckView::Finished(Ok((path, kind))),
        spec_advance(RootCheckView::LookupPath(path), RootEventView::PathItem(None))
            == RootCheckView::Finished(Err::<(Seq<char>, ShareRootType), Seq<char>>("No item found at provided path"@)),
        spec_advance(RootCheckView::LookupPath(path), RootEventView::PathLookupFailed(file_err))
            == RootCheckView::Finished(
            Err(
                "Failed to find dir at path ("@ + file_err + "), also failed to find file at path ("@
                    + file_err + "), for provided path"@,
            ),
        ),
{
}

/// A check that has not finished yet finishes after at most two more
/// answered lookups: an identifier is tried as a directory, then as a file;
/// a path is looked up once.
pub proof fn lemma_at_most_two_lookups(s: RootCheckView, e1: RootEventView, e2: RootEventView)
    requires
        spec_accepts(s, e1),
    ensures
        spec_advance(s, e1) is Finished || (spec_advance(s, e1) is LookupFile && (spec_accepts(
            spec_advance(s, e1),
            e2,
        ) ==> spec_advance(spec_advance(s, e1), e2) is Finished)),
        spec_advance(s, e1) is Finished ==> !spec_accepts(spec_advance(s, e1), e2),
{
}

proof fn lemma_trim_start_no_leading_slash(s: Seq<char>)
    ensures
        spec_trim_start_slashes(s).len() > 0 ==> spec_trim_start_slashes(s)[0] != '/',
    decreases s.len(),
{
    if s.len() > 0 && s[0] == '/' {
        lemma_trim_start_no_leading_slash(s.drop_first());
    }
}

proof fn lemma_trim_end_is_prefix(s: Seq<char>)
    ensures
        spec_trim_end_slashes(s).len() <= s.len(),
        spec_trim_end_slashes(s) == s.take(spec_trim_end_slashes(s).len() as int),
        spec_trim_end_slashes(s).len() > 0 ==> spec_trim_end_slashes(s).last() != '/',
    decreases s.len(),
{
    if s.len() > 0 && s.last() == '/' {
        lemma_trim_end_is_prefix(s.drop_last());
        let t = spec_trim_end_slashes(s.drop_last());
        assert(s.drop_last().take(t.len() as int) =~= s.take(t.len() as int));
    } else {
        assert(s.take(s.len() as int) =~= s);
    }
}

/// Trimmed text has no slash at either end.
pub proof fn lemma_trimmed_has_no_outer_slash(s: Seq<char>)
    ensures
        spec_trim_slashes(s).len() > 0 ==> spec_trim_slashes(s)[0] != '/'
            && spec_trim_slashes(s).last() != '/',
{
    let a = spec_trim_start_slashes(s);
    lemma_trim_start_no_leading_slash(s);
    lemma_trim_end_is_prefix(a);
    let t = spec_trim_end_slashes(a);
    if t.len() > 0 {
        assert(t[0] == a[0]);
    }
}

/// A normalized root starts with a slash, ends with one only when it is
/// `/` itself, and normalizing it again changes nothing.
pub proof fn lemma_normalization_is_idempotent(root: Seq<char>)
    ensures
        spec_normalized_root(root)[0] == '/',
        spec_normalized_root(root).len() > 1 ==> spec_normalized_root(root).last() != '/',
        spec_normalized_root(spec_normalized_root(root)) == spec_normalized_root(root),
{
    let t = spec_trim_slashes(root);
    lemma_trimmed_has_no_outer_slash(root);
    let n = "/"@ + t;
    reveal_strlit("/");
    assert(n[0] == '/');
    assert(n.drop_first() =~= t);
    assert(spec_trim_start_slashes(n) == spec_trim_start_slashes(t));
    assert(spec_trim_start_slashes(t) == t);
    assert(spec_trim_end_slashes(t) == t);
    assert(spec_trim_slashes(n) == t);
    if n.len() > 1 {
        assert(n.last() == t.last());
    }
}

} // verus!
