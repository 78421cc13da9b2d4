//! The services of the catalog.

pub mod instance_types;
pub mod kubernetes;
pub mod probes;

pub use instance_types::cron_service::ScheduledInstanceTypesService;
pub use instance_types::reader_service::DefaultInstanceTypesService;
pub use instance_types::updater::DefaultInstanceTypesUpdater;
pub use kubernetes::nodegroups::DefaultNodegroupsService;
pub use kubernetes::secrets::DefaultSecretsService;
