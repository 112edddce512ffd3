use vstd::prelude::*;

use crate::error::PaletteError;
use crate::repo::CheckOutInfo;

verus! {

/// A tracked repository: its identity, whether a local clone exists, and
/// what that clone has checked out.
#[derive(Debug, Clone)]
pub struct Repository {
    /// The local directory name, and the key by which the store finds it.
    pub name: String,
    pub organization: String,
    pub cloned_locally: bool,
    pub checkout_info: CheckOutInfo,
}

/// The tracked repositories, in the order in which they were added, and the
/// file that holds them.
#[derive(Clone)]
pub struct Configuration {
    pub configuration_path: String,
    pub configuration_file_name: String,
    pub configuration_full_path: String,
    pub repository: Vec<Repository>,
}

/// What was found at the store's path when it was loaded.
pub enum StoredFile {
    /// No file exists there.
    Absent,
    /// A file exists and holds this store.
    Present(Configuration),
    /// A file exists but does not hold a valid store.
    Malformed,
    /// The file system could not tell, or the file could not be read.
    Unreadable,
}

/// What a successful load leaves for the caller to do.
#[derive(Debug, Clone, Copy, PartialEq, Eq, Structural)]
pub enum LoadOutcome {
    /// No file existed: the (empty) store must now be written to its path.
    Created,
    /// The store was replaced by the content of the file.
    Loaded,
}

/// Whether some record of `repos` carries the name `name`.
pub open spec fn has_name(repos: Seq<Repository>, name: Seq<char>) -> bool {
    exists|i: int| 0 <= i < repos.len() && #[trigger] repos[i].name@ == name
}

/// `i` is the position of the first record of `repos` named `name`.
pub open spec fn is_first_named(repos: Seq<Repository>, name: Seq<char>, i: int) -> bool {
    &&& 0 <= i < repos.len()
    &&& repos[i].name@ == name
    &&& forall|j: int| 0 <= j < i ==> #[trigger] repos[j].name@ != name
}

/// No two records of `repos` share a name.
pub open spec fn names_unique(repos: Seq<Repository>) -> bool {
    forall|i: int, j: int|
        0 <= i < repos.len() && 0 <= j < repos.len() && i != j ==> #[trigger] repos[i].name@
            != #[trigger] repos[j].name@
}

/// The record `r` once a clone of it has checked out `info`.
pub open spec fn cloned_record(r: Repository, info: CheckOutInfo) -> Repository {
    Repository { cloned_locally: true, checkout_info: info, ..r }
}

/// Once a record is added under a name that no record carried, looking that
/// name up finds exactly the added record, at the end of the list, and every
/// other name is found where it was before.
pub proof fn lemma_added_record_is_found(repos: Seq<Repository>, r: Repository)
    requires
        !has_name(repos, r.name@),
    ensures
        is_first_named(repos.push(r), r.name@, repos.len() as int),
        repos.push(r)[repos.len() as int] == r,
        forall|name: Seq<char>, i: int|
            name != r.name@ ==> (is_first_named(repos, name, i) <==> #[trigger] is_first_named(
                repos.push(r),
                name,
                i,
            )),
{
    assert forall|j: int| 0 <= j < repos.len() implies #[trigger] repos.push(r)[j].name@
        != r.name@ by {
        assert(repos.push(r)[j] == repos[j]);
    }
    assert forall|name: Seq<char>, i: int| name != r.name@ implies (is_first_named(
        repos,
        name,
        i,
    ) <==> #[trigger] is_first_named(repos.push(r), name, i)) by {
        if 0 <= i < repos.len() {
            assert(repos.push(r)[i] == repos[i]);
            if is_first_named(repos, name, i) {
                assert forall|j: int| 0 <= j < i implies #[trigger] repos.push(r)[j].name@
                    != name by {
                    assert(repos.push(r)[j] == repos[j]);
                }
            }
            if is_first_named(repos.push(r), name, i) {
                assert forall|j: int| 0 <= j < i implies #[trigger] repos[j].name@ != name by {
                    assert(repos.push(r)[j] == repos[j]);
                }
            }
        } else if i == repos.len() {
            assert(repos.push(r)[i] == r);
        }
    }
}

/// `r` tracks `name` of `organization`, has no clone yet and an empty
/// checkout.
pub open spec fn is_fresh_record(r: Repository, organization: Seq<char>, name: Seq<char>) -> bool {
    &&& r.name@ == name
    &&& r.organization@ == organization
    &&& !r.cloned_locally
    &&& r.checkout_info.branch_name@ == Seq::<char>::empty()
    &&& r.checkout_info.commit_sha@ == Seq::<char>::empty()
}

/// A store seen as plain values: where it is kept, and its records in
/// insertion order.
pub struct ConfigView {
    pub path: Seq<char>,
    pub file_name: Seq<char>,
    pub full_path: Seq<char>,
    pub records: Seq<Repository>,
}

impl View for Configuration {
    type V = ConfigView;

    open spec fn view(&self) -> ConfigView {
        ConfigView {
            path: self.configuration_path@,
            file_name: self.configuration_file_name@,
            full_path: self.configuration_full_path@,
            records: self.repository@,
        }
    }
}

/// The store that a load of `stored` leaves in place of `before`, and what
/// that load returns.
pub open spec fn load_result(before: ConfigView, stored: StoredFile) -> (ConfigView, Result<
    LoadOutcome,
    PaletteError,
>) {
    match stored {
        StoredFile::Absent => (
            ConfigView { records: Seq::empty(), ..before },
            Ok(LoadOutcome::Created),
        ),
        StoredFile::Present(c) => (c@, Ok(LoadOutcome::Loaded)),
        StoredFile::Malformed => (before, Err(PaletteError::ConfigParseError)),
        StoredFile::Unreadable => (before, Err(PaletteError::ConfigIOError)),
    }
}

/// Loading a file that holds a saved store gives back that store, wholly:
/// its records in the same order, each with the same fields, and the same
/// location, whatever was in memory before.
pub proof fn lemma_load_gives_back_saved(before: ConfigView, saved: Configuration)
    ensures
        load_result(before, StoredFile::Present(saved)) == (saved@, Ok::<
            LoadOutcome,
            PaletteError,
        >(LoadOutcome::Loaded)),
        load_result(before, StoredFile::Present(saved)).0.records == saved.repository@,
{
}

/// Loading where no file exists leaves an empty store at the same location
/// and asks for it to be written there, so that the file then holds an empty
/// store.
pub proof fn lemma_load_bootstraps(before: ConfigView)
    ensures
        load_result(before, StoredFile::Absent).1 == Ok::<LoadOutcome, PaletteError>(
            LoadOutcome::Created,
        ),
        load_result(before, StoredFile::Absent).0.records == Seq::<Repository>::empty(),
        load_result(before, StoredFile::Absent).0.path == before.path,
        load_result(before, StoredFile::Absent).0.file_name == before.file_name,
        load_result(before, StoredFile::Absent).0.full_path == before.full_path,
{
}

impl Configuration {
    /// Takes in what was found at the store's path. With no file there, the
    /// records are cleared and the caller is told to write the store out;
    /// with a valid file, the store becomes its content, wholesale; on a
    /// malformed or unreadable file the store is left as it was.
    pub fn load(&mut self, stored: StoredFile) -> (r: Result<LoadOutcome, PaletteError>)
        ensures
            (final(self)@, r) == load_result(old(self)@, stored),
    {
        match stored {
            StoredFile::Absent => {
                self.repository = Vec::new();
                Ok(LoadOutcome::Created)
            },
            StoredFile::Present(c) => {
                *self = c;
                Ok(LoadOutcome::Loaded)
            },
            StoredFile::Malformed => Err(PaletteError::ConfigParseError),
            StoredFile::Unreadable => Err(PaletteError::ConfigIOError),
        }
    }
}

impl Default for Configuration {
    /// An empty store kept at `./config.palette`.
    fn default() -> (r: Configuration)
        ensures
            r.configuration_path@ == "."@,
            r.configuration_file_name@ == "config.palette"@,
            r.configuration_full_path@ == "./config.palette"@,
            r@.records == Seq::<Repository>::empty(),
    {
        Configuration {
            configuration_path: String::from_str("."),
            configuration_file_name: String::from_str("config.palette"),
            configuration_full_path: String::from_str("./config.palette"),
            repository: Vec::new(),
        }
    }
}

impl Default for Repository {
    /// A record with empty names, not cloned, with an empty checkout.
    fn default() -> (r: Repository)
        ensures
            r.name@ == Seq::<char>::empty(),
            r.organization@ == Seq::<char>::empty(),
            !r.cloned_locally,
            r.checkout_info.branch_name@ == Seq::<char>::empty(),
            r.checkout_info.commit_sha@ == Seq::<char>::empty(),
    {
        Repository {
            name: String::new(),
            organization: String::new(),
            cloned_locally: false,
            checkout_info: CheckOutInfo::default(),
        }
    }
}

impl Configuration {
    /// The position of the first record named `name`, if any.
    pub fn position(&self, name: &String) -> (r: Option<usize>)
        ensures
            match r {
                Some(i) => is_first_named(self@.records, name@, i as int),
                None => !has_name(self@.records, name@),
            },
    {
        let mut i: usize = 0;
        while i < self.repository.len()
            invariant
                0 <= i <= self.repository@.len(),
                forall|j: int| 0 <= j < i ==> #[trigger] self.repository@[j].name@ != name@,
            decreases self.repository@.len() - i,
        {
            if self.repository[i].name == *name {
                return Some(i);
            }
            i = i + 1;
        }
        None
    }

    /// Appends `repository`, unless a record of the same name is already
    /// tracked: then the store is left as it was.
    pub fn add_repository(&mut self, repository: Repository) -> (r: Result<(), PaletteError>)
        ensures
            has_name(old(self)@.records, repository.name@) ==> r == Err::<(), PaletteError>(
                PaletteError::DuplicateRepository,
            ) && final(self)@ == old(self)@,
            !has_name(old(self)@.records, repository.name@) ==> r == Ok::<(), PaletteError>(())
                && final(self)@ == (ConfigView {
                records: old(self)@.records.push(repository),
                ..old(self)@
            }),
            names_unique(old(self)@.records) ==> names_unique(final(self)@.records),
    {
        match self.position(&repository.name) {
            Some(_) => Err(PaletteError::DuplicateRepository),
            None => {
                self.repository.push(repository);
                Ok(())
            },
        }
    }

    /// The first record named `name`.
    pub fn find(&self, name: &String) -> (r: Result<&Repository, PaletteError>)
        ensures
            match r {
                Ok(rec) => exists|i: int|
                    is_first_named(self@.records, name@, i) && *rec == self@.records[i],
                Err(e) => e == PaletteError::RepositoryNotFound && !has_name(
                    self@.records,
                    name@,
                ),
            },
    {
        match self.position(name) {
            Some(i) => Ok(&self.repository[i]),
            None => Err(PaletteError::RepositoryNotFound),
        }
    }

    /// The first record named `name`, to be changed in place.
    pub fn get_repository_mut(&mut self, name: String) -> (r: Result<
        &mut Repository,
        PaletteError,
    >)
        ensures
            match r {
                Ok(rec) => exists|i: int|
                    is_first_named(old(self)@.records, name@, i) && *rec == old(self)@.records[i]
                        && final(self)@ == (ConfigView {
                        records: old(self)@.records.update(i, *final(rec)),
                        ..old(self)@
                    }),
                Err(e) => e == PaletteError::RepositoryNotFound && !has_name(
                    old(self)@.records,
                    name@,
                ) && final(self)@ == old(self)@,
            },
    {
        match self.position(&name) {
            Some(i) => Ok(&mut self.repository[i]),
            None => Err(PaletteError::RepositoryNotFound),
        }
    }

    /// Starts tracking `name` of `organization`, not yet cloned, unless a
    /// record of that name is already tracked.
    pub fn track_repository(&mut self, organization: String, name: String) -> (r: Result<
        (),
        PaletteError,
    >)
        ensures
            has_name(old(self)@.records, name@) ==> r == Err::<(), PaletteError>(
                PaletteError::DuplicateRepository,
            ) && final(self)@ == old(self)@,
            !has_name(old(self)@.records, name@) ==> r == Ok::<(), PaletteError>(())
                && final(self)@.records.len() == old(self)@.records.len() + 1
                && final(self)@ == (ConfigView {
                records: old(self)@.records.push(final(self)@.records.last()),
                ..old(self)@
            }) && is_fresh_record(final(self)@.records.last(), organization@, name@),
    {
        let mut repository = Repository::default();
        repository.name = name;
        repository.organization = organization;
        self.add_repository(repository)
    }

    /// Records that the first repository named `name` now has a local clone
    /// with `info` checked out.
    pub fn record_clone(&mut self, name: &String, info: CheckOutInfo) -> (r: Result<
        (),
        PaletteError,
    >)
        ensures
            match r {
                Ok(_) => exists|i: int|
                    is_first_named(old(self)@.records, name@, i) && final(self)@ == (ConfigView {
                        records: old(self)@.records.update(
                            i,
                            cloned_record(old(self)@.records[i], info),
                        ),
                        ..old(self)@
                    }),
                Err(e) => e == PaletteError::RepositoryNotFound && !has_name(
                    old(self)@.records,
                    name@,
                ) && final(self)@ == old(self)@,
            },
    {
        match self.position(name) {
            Some(i) => {
                let rec = &mut self.repository[i];
                rec.cloned_locally = true;
                rec.checkout_info = info;
                Ok(())
            },
            None => Err(PaletteError::RepositoryNotFound),
        }
    }

    /// The tracked records, in insertion order.
    pub fn get_repository(&self) -> (r: &Vec<Repository>)
        ensures
            r@ == self@.records,
    {
        &self.repository
    }
}

} // verus!
