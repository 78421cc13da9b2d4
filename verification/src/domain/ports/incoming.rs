//! What the services offer to their callers.

use crate::domain::model::errors::ServiceError;
use crate::domain::model::instance_type::InstanceType;
use crate::domain::model::kubernetes::NodegroupRequestDto;
use crate::domain::model::secrets::{SecretDto, SecretRequestDto};
use crate::domain::services::instance_types::errors::UpdaterError;
use crate::domain::services::instance_types::updater::SourceReading;
use vstd::prelude::*;

verus! {

/// Point and list reads of records of one kind.
pub trait ReadService<K> {
    fn get(&self, name: &str) -> Option<K>;

    fn list(&self) -> Option<Vec<K>>;
}

/// Reads of node groups, and their creation through the GitOps repository.
pub trait NodegroupService<K> {
    fn get(&self, name: &str) -> Option<K>;

    fn list(&self) -> Option<Vec<K>>;

    fn create(&self, request: &NodegroupRequestDto) -> Result<(), ServiceError>;
}

/// Reads of secrets, and the creation and rendering of sealed secrets.
pub trait SecretService {
    fn get(&self, name: &str) -> Option<SecretDto>;

    fn list(&self) -> Option<Vec<SecretDto>>;

    fn create(&self, request: &SecretRequestDto) -> Result<(), ServiceError>;

    fn render(&self, request: &SecretRequestDto) -> Result<String, ServiceError>;
}

/// Rendering of named templates.
///
/// What the templates answer is for them to say: `renders` and `writes`
/// are the answers that they may give. A service that does not say may give
/// any answer.
pub trait TemplateService {
    /// Whether `rendered` is an answer that the service may give when asked
    /// to render the template `name` with `values`.
    open spec fn renders(
        &self,
        name: Seq<char>,
        values: Seq<(Seq<char>, Seq<char>)>,
        rendered: Result<String, ServiceError>,
    ) -> bool {
        true
    }

    /// Whether `written` is an answer that the service may give when asked
    /// to render the template `name` with `values` into `file_path`.
    open spec fn writes(
        &self,
        name: Seq<char>,
        values: Seq<(Seq<char>, Seq<char>)>,
        file_path: Seq<char>,
        written: Result<(), ServiceError>,
    ) -> bool {
        true
    }

    /// The template `name` with each key of `values` replaced by its value.
    fn render(&self, name: &str, values: &Vec<(String, String)>) -> (rendered: Result<
        String,
        ServiceError,
    >)
        ensures
            self.renders(name@, crate::domain::ports::outgoing::pairs_text(values@), rendered),
    ;

    /// Renders the template `name` with `values` into the file at `file_path`.
    fn write_to_file(&self, name: &str, values: &Vec<(String, String)>, file_path: &str) -> (written:
        Result<(), ServiceError>)
        ensures
            self.writes(
                name@,
                crate::domain::ports::outgoing::pairs_text(values@),
                file_path@,
                written,
            ),
    ;
}

/// A record that is stored and found under its name.
pub trait WithName {
    /// The characters of the record's name. A record says here what its
    /// name is; one that does not leaves it open.
    open spec fn name_view(&self) -> Seq<char> {
        arbitrary()
    }

    /// The record's name.
    fn name(&self) -> (name: String)
        ensures
            name@ == self.name_view(),
    ;
}

/// A service that runs in the background once started.
pub trait ScheduledService {
    fn start(self) -> Result<(), ServiceError>;
}

/// One refresh cycle of the catalog.
///
/// What a cycle comes to is for the updater to say: `executes` are the ways
/// in which a cycle of it may end. An updater that does not say may end a
/// cycle in any way.
pub trait InstanceTypesUpdater: Sized {
    /// Whether a cycle of this updater on `reading` may leave the updater
    /// as `after` and report `applied`.
    open spec fn executes(
        &self,
        reading: SourceReading,
        after: Self,
        applied: Result<usize, UpdaterError>,
    ) -> bool {
        true
    }

    /// Takes what reading the pricing source gave and brings the store up to
    /// date with it. Returns how many records were applied.
    fn execute(&mut self, reading: SourceReading) -> (applied: Result<usize, UpdaterError>)
        ensures
            old(self).executes(reading, *final(self), applied),
    ;
}

/// The catalog as its readers see it.
pub trait InstanceTypesService {
    fn list(&self) -> Result<Vec<InstanceType>, ServiceError>;
}

/// Whether the application is ready to serve.
pub trait ProbesService {
    fn is_ready(&self) -> bool;
}

} // verus!
