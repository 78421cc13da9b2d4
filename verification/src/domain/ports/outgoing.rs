//! What the services ask of their surroundings.

use crate::domain::model::errors::ServiceError;
use crate::domain::model::secrets::SecretRequestDto;
use crate::domain::ports::incoming::WithName;
use vstd::prelude::*;

verus! {

/// The characters of an optional text.
pub open spec fn optional_text(text: Option<&str>) -> Option<Seq<char>> {
    match text {
        Some(t) => Some(t@),
        None => None,
    }
}

/// The characters of pairs of texts.
pub open spec fn pairs_text(pairs: Seq<(String, String)>) -> Seq<(Seq<char>, Seq<char>)> {
    pairs.map_values(|pair: (String, String)| (pair.0@, pair.1@))
}

/// Records of one kind kept elsewhere, found by name.
///
/// What a repository answers is for the repository to say: `finds` and
/// `finds_all` are the answers that it may give. One that does not say may
/// give any answer.
pub trait Repository<K> {
    /// Whether `found` is an answer that the repository may give when asked
    /// for the record named `name`.
    open spec fn finds(&self, name: Seq<char>, found: Option<K>) -> bool {
        true
    }

    /// Whether `found` is an answer that the repository may give when asked
    /// for all its records.
    open spec fn finds_all(&self, found: Option<Vec<K>>) -> bool {
        true
    }

    /// The record named `name`, if the repository has it.
    fn find_by(&self, name: &str) -> (found: Option<K>)
        ensures
            self.finds(name@, found),
    ;

    /// All records of the repository.
    fn find_all(&self) -> (found: Option<Vec<K>>)
        ensures
            self.finds_all(found),
    ;
}

/// A place that the pricing list is read from. Reading itself is left to
/// the caller; the services see what was read.
pub trait DataSource {
    /// A short name of the kind of source, for the log.
    fn name(&self) -> &str;
}

/// The records of `items`, each under its name. Where a name occurs twice,
/// the later record stands.
pub open spec fn keyed_by_name<T: WithName>(items: Seq<T>) -> Map<Seq<char>, T>
    decreases items.len(),
{
    if items.len() == 0 {
        Map::empty()
    } else {
        keyed_by_name(items.drop_last()).insert(items.last().name_view(), items.last())
    }
}

/// Whether `item` is a copy of one of `records`.
pub open spec fn holds_copy<T: Clone>(records: Map<Seq<char>, T>, item: T) -> bool {
    exists|key: Seq<char>|
        #![trigger records[key]]
        records.contains_key(key) && vstd::pervasive::cloned::<T>(records[key], item)
}

/// Whether `found` is a copy of the record that `records` hold under
/// `name`, where it is a record at all.
pub open spec fn copies_record<T: Clone>(
    records: Map<Seq<char>, T>,
    name: Seq<char>,
    found: Result<T, ServiceError>,
) -> bool {
    found matches Ok(record) ==> records.contains_key(name) && vstd::pervasive::cloned::<T>(
        records[name],
        record,
    )
}

/// Whether each of `listed` is a copy of one of `records`, where it is a
/// list at all.
pub open spec fn copies_records<T: Clone>(
    records: Map<Seq<char>, T>,
    listed: Result<Vec<T>, ServiceError>,
) -> bool {
    listed matches Ok(all) ==> forall|i: int|
        0 <= i < all@.len() ==> holds_copy(records, #[trigger] all@[i])
}

/// The reading side of a store of named records.
///
/// A store says what it holds (`records`) and which answers it may give
/// (`gives`, `lists`). A store in memory answers by what it holds; one on
/// disk may also fail. One that does not say may give any answer.
pub trait ReadStore<T: Clone> {
    /// The records in the store, by name. A store says here what it
    /// holds; one that does not leaves it open.
    open spec fn records(&self) -> Map<Seq<char>, T> {
        arbitrary()
    }

    /// Whether `found` is an answer that the store may give when asked for
    /// the record under `name`.
    open spec fn gives(&self, name: Seq<char>, found: Result<T, ServiceError>) -> bool {
        true
    }

    /// Whether `listed` is an answer that the store may give when asked for
    /// all its records.
    open spec fn lists(&self, listed: Result<Vec<T>, ServiceError>) -> bool {
        true
    }

    /// The record stored under `name`. A store may fail to give a record
    /// that it holds; what it gives is a copy of what it holds.
    fn get(&self, name: &str) -> (found: Result<T, ServiceError>)
        ensures
            self.gives(name@, found),
            copies_record(self.records(), name@, found),
    ;

    /// The records in the store, in no particular order. Each is a copy of a
    /// stored record.
    fn list(&self) -> (listed: Result<Vec<T>, ServiceError>)
        ensures
            self.lists(listed),
            copies_records(self.records(), listed),
    ;
}

/// The writing side of a store of named records.
///
/// A store says what it holds (`stored`) and how a write to it may end
/// (`writes`). A store in memory takes every write; one on disk may fail.
/// One that does not say may end a write in any way.
pub trait WriteStore<T: WithName>: Sized {
    /// The records in the store, by name. A store says here what it
    /// holds; one that does not leaves it open.
    open spec fn stored(&self) -> Map<Seq<char>, T> {
        arbitrary()
    }

    /// Whether a write of `instance_types` to this store may leave the
    /// store as `after` and answer `written`.
    open spec fn writes(
        &self,
        instance_types: Seq<T>,
        after: Self,
        written: Result<(), ServiceError>,
    ) -> bool {
        true
    }

    /// Replaces what the store holds by `instance_types`: afterwards it holds
    /// these records and no others. Nothing is said of the store after a
    /// failure.
    fn update(&mut self, instance_types: Vec<T>) -> (written: Result<(), ServiceError>)
        ensures
            old(self).writes(instance_types@, *final(self), written),
            written is Ok ==> final(self).stored() == keyed_by_name(instance_types@),
    ;
}

/// The tool that seals secrets.
///
/// What the tool answers is for the tool to say: `saves` and `seals` are
/// the answers that it may give. One that does not say may give any answer.
pub trait SealedSecretClient {
    /// Whether `saved` is an answer that the tool may give when asked to
    /// write the sealed secret of `request` to `destination`.
    open spec fn saves(
        &self,
        request: SecretRequestDto,
        destination: Option<Seq<char>>,
        saved: Result<(), ServiceError>,
    ) -> bool {
        true
    }

    /// Whether `rendered` is an answer that the tool may give when asked to
    /// render the sealed secret of `request`.
    open spec fn seals(&self, request: SecretRequestDto, rendered: Result<String, ServiceError>) -> bool {
        true
    }

    /// Renders the sealed secret and writes it to `destination`.
    fn save(&self, request: &SecretRequestDto, destination: Option<String>) -> (saved: Result<
        (),
        ServiceError,
    >)
        ensures
            self.saves(*request, crate::utils::parsers::pattern::text_view(destination), saved),
    ;

    /// Renders the sealed secret. Changes nothing.
    fn render(&self, request: &SecretRequestDto) -> (rendered: Result<String, ServiceError>)
        ensures
            self.seals(*request, rendered),
    ;
}

/// The GitOps repository, as far as the services work on it.
///
/// What the repository answers is for the repository to say: `clones`,
/// `commits`, `requests` and `cleans` are the answers that it may give. One
/// that does not say may give any answer.
pub trait VersionControl {
    /// Whether `cloned` is an answer that the repository may give when asked
    /// to clone into `destination_folder`.
    open spec fn clones(
        &self,
        destination_folder: Option<Seq<char>>,
        cloned: Result<String, ServiceError>,
    ) -> bool {
        true
    }

    /// Whether `committed` is an answer that the repository may give when
    /// asked to commit what changed under `repository_path` with `message`.
    open spec fn commits(
        &self,
        repository_path: Seq<char>,
        message: Seq<char>,
        committed: Result<(), ServiceError>,
    ) -> bool {
        true
    }

    /// Whether `requested` is an answer that the repository may give when
    /// asked for a pull request with these texts.
    open spec fn requests(
        &self,
        repository_path: Seq<char>,
        commit_msg: Seq<char>,
        title: Seq<char>,
        body: Seq<char>,
        pr_branch_name: Seq<char>,
        requested: Result<(), ServiceError>,
    ) -> bool {
        true
    }

    /// Whether `cleaned` is an answer that the repository may give when
    /// asked to remove the clone in `destination_folder`.
    open spec fn cleans(
        &self,
        destination_folder: Option<Seq<char>>,
        cleaned: Result<(), ServiceError>,
    ) -> bool {
        true
    }

    /// Clones the repository and returns the folder it was cloned into.
    /// `destination_folder` replaces the configured folder.
    fn clone_repo(&self, destination_folder: Option<&str>) -> (cloned: Result<String, ServiceError>)
        ensures
            self.clones(optional_text(destination_folder), cloned),
    ;

    /// Commits what changed under `repository_path` and pushes it.
    fn auto_commit(&self, repository_path: String, message: String) -> (committed: Result<
        (),
        ServiceError,
    >)
        ensures
            self.commits(repository_path@, message@, committed),
    ;

    /// Commits what changed under `repository_path` to the branch
    /// `pr_branch_name` and opens a pull request for it.
    fn pull_request(
        &self,
        repository_path: String,
        commit_msg: String,
        title: String,
        body: String,
        pr_branch_name: String,
    ) -> (requested: Result<(), ServiceError>)
        ensures
            self.requests(
                repository_path@,
                commit_msg@,
                title@,
                body@,
                pr_branch_name@,
                requested,
            ),
    ;

    /// Removes the folder that the repository was cloned into.
    /// `destination_folder` replaces the configured folder.
    fn clean(&self, destination_folder: Option<&str>) -> (cleaned: Result<(), ServiceError>)
        ensures
            self.cleans(optional_text(destination_folder), cleaned),
    ;
}

} // verus!
