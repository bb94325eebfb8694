//! Listing the subdirectories of a directory from what was observed of it.

use vstd::prelude::*;

verus! {

/// One immediate child of a directory, as it was observed.
#[derive(Clone, Debug)]
pub enum Child {
    /// The child could not be inspected: it vanished, or access was denied.
    Unreadable,
    /// The child was inspected. `name` is its file name, or `None` where that name is
    /// not valid Unicode; `is_dir` tells whether it is a directory or a link to one.
    Found { name: Option<String>, is_dir: bool },
}

/// What reading a directory gave.
#[derive(Clone, Debug)]
pub enum Scan {
    /// The path does not exist or is not a directory.
    Absent,
    /// The directory exists but could not be read.
    Failed,
    /// The directory was read; its children in the order the file system gave them.
    Listed(Vec<Child>),
}

/// Why a query could not be answered.
#[derive(Clone, Copy, Debug, PartialEq, Eq, Structural)]
pub enum ErrorKind {
    /// The directory asked for does not exist.
    NotFound,
    /// The directory exists, but reading it failed.
    Io,
}

impl Child {
    /// The name under which the child is listed: that of a directory whose name is
    /// valid Unicode. Any other child is not listed.
    pub open spec fn listed_name(self) -> Option<Seq<char>> {
        match self {
            Child::Found { name: Some(n), is_dir: true } => Some(n@),
            _ => None,
        }
    }

    /// Tells whether the child is a directory with a name that can be listed.
    pub fn is_listed(&self) -> (listed: bool)
        ensures
            listed == (self.listed_name() is Some),
    {
        match self {
            Child::Found { name: Some(_), is_dir: true } => true,
            _ => false,
        }
    }
}

/// The names of the listed children, in the order of the children.
pub open spec fn subdirectories(children: Seq<Child>) -> Seq<Seq<char>>
    decreases children.len(),
{
    if children.len() == 0 {
        Seq::empty()
    } else {
        let before = subdirectories(children.drop_last());
        match children.last().listed_name() {
            Some(n) => before.push(n),
            None => before,
        }
    }
}

/// The texts of a sequence of strings.
pub open spec fn texts(names: Seq<String>) -> Seq<Seq<char>> {
    Seq::new(names.len(), |i: int| names[i]@)
}

/// What listing a scanned directory gives: its subdirectories, or the reason why
/// there is no listing.
pub open spec fn listing(scan: Scan) -> Result<Seq<Seq<char>>, ErrorKind> {
    match scan {
        Scan::Absent => Err(ErrorKind::NotFound),
        Scan::Failed => Err(ErrorKind::Io),
        Scan::Listed(children) => Ok(subdirectories(children@)),
    }
}

/// Lists the names of the immediate children of a scanned directory that are
/// themselves directories, in the order in which they were observed. Children that
/// are not directories, that could not be inspected, or whose name is not valid
/// Unicode are left out.
pub fn list_subdirectories(scan: &Scan) -> (names: Result<Vec<String>, ErrorKind>)
    ensures
        match names {
            Ok(v) => listing(*scan) == Ok::<Seq<Seq<char>>, ErrorKind>(texts(v@)),
            Err(e) => listing(*scan) == Err::<Seq<Seq<char>>, ErrorKind>(e),
        },
{
    match scan {
        Scan::Absent => Err(ErrorKind::NotFound),
        Scan::Failed => Err(ErrorKind::Io),
        Scan::Listed(children) => {
            let mut names: Vec<String> = Vec::new();
            let mut i: usize = 0;
            assert(children@.take(0) =~= Seq::<Child>::empty());
            while i < children.len()
                invariant
                    i <= children.len(),
                    texts(names@) =~= subdirectories(children@.take(i as int)),
                decreases children.len() - i,
            {
                assert(children@.take(i + 1).drop_last() =~= children@.take(i as int));
                match &children[i] {
                    Child::Found { name: Some(n), is_dir: true } => {
                        names.push(n.clone());
                    },
                    _ => {},
                }
                i += 1;
            }
            assert(children@.take(i as int) =~= children@);
            Ok(names)
        },
    }
}

/// A name is among the subdirectories exactly if some child is listed under it.
pub proof fn subdirectories_are_the_listed_children(children: Seq<Child>, name: Seq<char>)
    ensures
        subdirectories(children).contains(name) <==> exists|k: int|
            0 <= k < children.len() && #[trigger] children[k].listed_name() == Some(name),
    decreases children.len(),
{
    if children.len() == 0 {
    } else {
        let front = children.drop_last();
        let before = subdirectories(front);
        subdirectories_are_the_listed_children(front, name);
        if subdirectories(children).contains(name) {
            let at = choose|j: int|
                0 <= j < subdirectories(children).len() && subdirectories(children)[j] == name;
            if at < before.len() {
                assert(before[at] == name);
                let k = choose|k: int|
                    0 <= k < front.len() && #[trigger] front[k].listed_name() == Some(name);
                assert(children[k].listed_name() == Some(name));
            } else {
                assert(children[children.len() - 1].listed_name() == Some(name));
            }
        }
        if exists|k: int|
            0 <= k < children.len() && #[trigger] children[k].listed_name() == Some(name) {
            let k = choose|k: int|
                0 <= k < children.len() && #[trigger] children[k].listed_name() == Some(name);
            if k < front.len() {
                assert(front[k].listed_name() == Some(name));
                let at = choose|j: int| 0 <= j < before.len() && before[j] == name;
                assert(subdirectories(children)[at] == name);
            } else {
                assert(subdirectories(children)[before.len() as int] == name);
            }
        }
    }
}

/// A directory without a listed child has no subdirectories.
pub proof fn nothing_listed_gives_empty(children: Seq<Child>)
    requires
        forall|k: int| 0 <= k < children.len() ==> #[trigger] children[k].listed_name() is None,
    ensures
        subdirectories(children) == Seq::<Seq<char>>::empty(),
    decreases children.len(),
{
    if children.len() > 0 {
        nothing_listed_gives_empty(children.drop_last());
        assert(children.last() == children[children.len() - 1]);
    }
}

} // verus!
