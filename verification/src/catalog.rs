//! The three queries of the catalog: the tenants, the run folders of a tenant, and
//! the most recent run folder of a tenant.

use crate::enumerate::{list_subdirectories, listing, texts, ErrorKind, Scan};
use crate::parser::{parse, parse_outcome};
use crate::timestamp::Timestamp;
use vstd::prelude::*;

verus! {

/// Why a query of the catalog failed.
#[derive(Clone, Copy, Debug, PartialEq, Eq, Structural)]
pub enum CatalogError {
    /// The root directory, under which the tenants live, does not exist.
    RootNotFound,
    /// The directory of the tenant does not exist.
    TenantNotFound,
    /// The tenant has no run folder whose name reads as a timestamp.
    NoRunFolder,
    /// A directory exists but could not be read.
    Io,
}

impl CatalogError {
    /// The kind of the error: every error but `Io` is a "not found".
    pub open spec fn kind_of(self) -> ErrorKind {
        match self {
            CatalogError::Io => ErrorKind::Io,
            _ => ErrorKind::NotFound,
        }
    }

    /// The line that tells a caller what went wrong.
    pub open spec fn message_text(self) -> Seq<char> {
        match self {
            CatalogError::RootNotFound => "Target folder does not exist"@,
            CatalogError::TenantNotFound => "Tenant folder does not exist"@,
            CatalogError::NoRunFolder => "No valid datetime folders found"@,
            CatalogError::Io => "Failed to read directory"@,
        }
    }

    /// The kind of the error.
    pub fn kind(&self) -> (kind: ErrorKind)
        ensures
            kind == self.kind_of(),
    {
        match self {
            CatalogError::Io => ErrorKind::Io,
            _ => ErrorKind::NotFound,
        }
    }

    /// The line that tells a caller what went wrong.
    pub fn message(&self) -> (line: &'static str)
        ensures
            line@ == self.message_text(),
    {
        match self {
            CatalogError::RootNotFound => "Target folder does not exist",
            CatalogError::TenantNotFound => "Tenant folder does not exist",
            CatalogError::NoRunFolder => "No valid datetime folders found",
            CatalogError::Io => "Failed to read directory",
        }
    }
}

/// The error of a query whose directory could not be listed: `missing` where the
/// directory does not exist, `Io` where reading it failed.
pub open spec fn listing_error(kind: ErrorKind, missing: CatalogError) -> CatalogError {
    match kind {
        ErrorKind::NotFound => missing,
        ErrorKind::Io => CatalogError::Io,
    }
}

/// The timestamps of a sequence of run-folder names, name by name.
pub open spec fn outcomes(names: Seq<Seq<char>>) -> Seq<Option<Timestamp>> {
    Seq::new(names.len(), |i: int| parse_outcome(names[i]))
}

/// No entry of `stamps` holds a timestamp.
pub open spec fn none_eligible(stamps: Seq<Option<Timestamp>>) -> bool {
    forall|j: int| 0 <= j < stamps.len() ==> stamps[j] is None
}

/// Entry `i` of `stamps` is the most recent one: it holds a timestamp, no entry holds
/// a later one, and every entry in front of it holds an earlier one or none. Among
/// entries with the same greatest timestamp the first is the most recent.
pub open spec fn is_most_recent(stamps: Seq<Option<Timestamp>>, i: int) -> bool {
    &&& 0 <= i < stamps.len()
    &&& stamps[i] is Some
    &&& forall|j: int|
        0 <= j < stamps.len() && stamps[j] is Some ==> !stamps[i]->0.precedes(
            #[trigger] stamps[j]->0,
        )
    &&& forall|j: int|
        0 <= j < i && stamps[j] is Some ==> (#[trigger] stamps[j]->0).precedes(stamps[i]->0)
}

/// `folder` is the answer to the question for the most recent of the run folders
/// `names`: the name of the most recent one, or `NoRunFolder` where no name reads as
/// a timestamp.
pub open spec fn picks_most_recent(
    names: Seq<Seq<char>>,
    folder: Result<String, CatalogError>,
) -> bool {
    match folder {
        Ok(name) => exists|i: int|
            is_most_recent(outcomes(names), i) && #[trigger] names[i] == name@,
        Err(e) => e == CatalogError::NoRunFolder && none_eligible(outcomes(names)),
    }
}

/// Picks the entry with the greatest timestamp; among equal ones, the first. Gives
/// `None` exactly if no entry holds a timestamp.
pub fn select_most_recent(stamps: &Vec<Option<Timestamp>>) -> (winner: Option<usize>)
    ensures
        match winner {
            Some(i) => is_most_recent(stamps@, i as int),
            None => none_eligible(stamps@),
        },
{
    let mut best: Option<usize> = None;
    let mut i: usize = 0;
    while i < stamps.len()
        invariant
            i <= stamps.len(),
            match best {
                Some(b) => b < i && is_most_recent(stamps@.take(i as int), b as int),
                None => none_eligible(stamps@.take(i as int)),
            },
        decreases stamps.len() - i,
    {
        let ghost seen = stamps@.take(i as int);
        let ghost next = stamps@.take(i + 1);
        assert(forall|j: int| 0 <= j < i ==> next[j] == seen[j]);
        match stamps[i] {
            Some(t) => {
                let replace = match best {
                    Some(b) => {
                        match stamps[b] {
                            Some(held) => t.is_after(&held),
                            None => true,
                        }
                    },
                    None => true,
                };
                if replace {
                    proof {
                        if let Some(b) = best {
                            let held = seen[b as int]->0;
                            assert forall|j: int|
                                0 <= j < i && next[j] is Some implies (#[trigger] next[j]->0).precedes(
                                t,
                            ) by {
                                assert(!held.precedes(seen[j]->0));
                                crate::timestamp::precedes_is_total(seen[j]->0, held);
                                if seen[j]->0 != held {
                                    crate::timestamp::precedes_is_transitive(seen[j]->0, held, t);
                                }
                            }
                        }
                    }
                    best = Some(i);
                }
            },
            None => {},
        }
        i += 1;
    }
    assert(stamps@.take(i as int) =~= stamps@);
    best
}

/// Reads the timestamp of each name.
pub fn parse_all(names: &Vec<String>) -> (stamps: Vec<Option<Timestamp>>)
    ensures
        stamps@ == outcomes(texts(names@)),
        forall|j: int| 0 <= j < stamps.len() && stamps[j] is Some ==> (#[trigger] stamps[j]->0).in_range(),
{
    let mut stamps: Vec<Option<Timestamp>> = Vec::new();
    let mut i: usize = 0;
    while i < names.len()
        invariant
            i <= names.len(),
            stamps.len() == i,
            forall|j: int| 0 <= j < i ==> #[trigger] stamps[j] == parse_outcome(names[j]@),
            forall|j: int| 0 <= j < i && stamps[j] is Some ==> (#[trigger] stamps[j]->0).in_range(),
        decreases names.len() - i,
    {
        stamps.push(parse(names[i].as_str()));
        i += 1;
    }
    assert(stamps@ =~= outcomes(texts(names@)));
    stamps
}

/// At most one entry is the most recent one.
pub proof fn most_recent_is_unique(stamps: Seq<Option<Timestamp>>, i: int, j: int)
    requires
        is_most_recent(stamps, i),
        is_most_recent(stamps, j),
    ensures
        i == j,
{
    if i < j {
        assert((stamps[i]->0).precedes(stamps[j]->0));
        assert(!stamps[i]->0.precedes(stamps[j]->0));
    } else if j < i {
        assert((stamps[j]->0).precedes(stamps[i]->0));
        assert(!stamps[j]->0.precedes(stamps[i]->0));
    }
}

/// An entry without a timestamp is never the most recent one.
pub proof fn unreadable_names_are_no_candidates(stamps: Seq<Option<Timestamp>>, i: int)
    requires
        0 <= i < stamps.len(),
        stamps[i] is None,
    ensures
        !is_most_recent(stamps, i),
{
}

/// Where at least one entry holds a timestamp, the answer is a folder and never
/// `NoRunFolder`; where none does, it is `NoRunFolder`.
pub proof fn most_recent_exists_iff_eligible(
    names: Seq<Seq<char>>,
    folder: Result<String, CatalogError>,
)
    requires
        picks_most_recent(names, folder),
    ensures
        folder is Ok <==> !none_eligible(outcomes(names)),
{
    if let Ok(name) = folder {
        let i = choose|i: int| is_most_recent(outcomes(names), i) && #[trigger] names[i] == name@;
        assert(outcomes(names)[i] is Some);
    }
}

/// A name that does not read as a timestamp is never the answer for the most recent
/// run folder unless the same name stands for another, readable folder; it is still
/// part of the listing of run folders, which leaves no subdirectory out.
pub proof fn unreadable_name_is_listed_not_picked(
    names: Seq<Seq<char>>,
    folder: Result<String, CatalogError>,
    k: int,
)
    requires
        picks_most_recent(names, folder),
        0 <= k < names.len(),
        parse_outcome(names[k]) is None,
    ensures
        names.contains(names[k]),
        folder matches Ok(name) ==> name@ != names[k],
{
    if let Ok(name) = folder {
        let i = choose|i: int| is_most_recent(outcomes(names), i) && #[trigger] names[i] == name@;
        assert(outcomes(names)[i] is Some);
        assert(outcomes(names)[i] == parse_outcome(names[i]));
    }
}

/// The catalog of tenants and their run folders. It holds no state: every query is
/// answered from the scan handed to it.
#[derive(Clone, Copy, Debug)]
pub struct MyTenantManager;

impl Default for MyTenantManager {
    fn default() -> (manager: MyTenantManager)
        ensures
            manager == MyTenantManager,
    {
        MyTenantManager
    }
}

impl MyTenantManager {
    /// The tenants: the names of the subdirectories of the root directory, in the
    /// order in which they were observed. Fails with `RootNotFound` exactly if the
    /// root does not exist, and with `Io` exactly if reading it failed.
    pub fn list_tenants(&self, root: &Scan) -> (tenants: Result<Vec<String>, CatalogError>)
        ensures
            match listing(*root) {
                Ok(names) => tenants matches Ok(v) && texts(v@) == names,
                Err(kind) => tenants == Err::<Vec<String>, CatalogError>(
                    listing_error(kind, CatalogError::RootNotFound),
                ),
            },
    {
        match list_subdirectories(root) {
            Ok(names) => Ok(names),
            Err(ErrorKind::NotFound) => Err(CatalogError::RootNotFound),
            Err(ErrorKind::Io) => Err(CatalogError::Io),
        }
    }

    /// The run folders of a tenant: the names of all subdirectories of the tenant's
    /// directory, whether they read as a timestamp or not, in the order in which
    /// they were observed. Fails with `TenantNotFound` exactly if the directory does
    /// not exist, and with `Io` exactly if reading it failed.
    pub fn list_datetime_folders(&self, tenant_dir: &Scan) -> (folders: Result<
        Vec<String>,
        CatalogError,
    >)
        ensures
            match listing(*tenant_dir) {
                Ok(names) => folders matches Ok(v) && texts(v@) == names,
                Err(kind) => folders == Err::<Vec<String>, CatalogError>(
                    listing_error(kind, CatalogError::TenantNotFound),
                ),
            },
    {
        match list_subdirectories(tenant_dir) {
            Ok(names) => Ok(names),
            Err(ErrorKind::NotFound) => Err(CatalogError::TenantNotFound),
            Err(ErrorKind::Io) => Err(CatalogError::Io),
        }
    }

    /// The most recent run folder of a tenant: among the subdirectories of the
    /// tenant's directory whose name reads as a timestamp, the name of the one with
    /// the greatest timestamp, and of the first of them where several share it.
    /// Fails with `TenantNotFound` exactly if the directory does not exist, with `Io`
    /// exactly if reading it failed, and with `NoRunFolder` exactly if the directory
    /// was read and no subdirectory name reads as a timestamp.
    pub fn get_most_recent_datetime_folder(&self, tenant_dir: &Scan) -> (folder: Result<
        String,
        CatalogError,
    >)
        ensures
            listing(*tenant_dir) matches Err(kind) ==> folder == Err::<String, CatalogError>(
                listing_error(kind, CatalogError::TenantNotFound),
            ),
            listing(*tenant_dir) matches Ok(names) ==> picks_most_recent(names, folder),
    {
        match list_subdirectories(tenant_dir) {
            Ok(names) => {
                let ghost listed = texts(names@);
                assert(listing(*tenant_dir) == Ok::<Seq<Seq<char>>, ErrorKind>(listed));
                let stamps = parse_all(&names);
                let folder = match select_most_recent(&stamps) {
                    Some(i) => {
                        let name = names[i].clone();
                        assert(is_most_recent(outcomes(listed), i as int));
                        assert(listed[i as int] == name@);
                        Ok(name)
                    },
                    None => Err(CatalogError::NoRunFolder),
                };
                assert(picks_most_recent(listed, folder));
                folder
            },
            Err(ErrorKind::NotFound) => Err(CatalogError::TenantNotFound),
            Err(ErrorKind::Io) => Err(CatalogError::Io),
        }
    }
}

} // verus!
