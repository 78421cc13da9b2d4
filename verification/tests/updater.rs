use instance_catalog::domain::model::{InstanceType, ServiceError};
use instance_catalog::domain::ports::incoming::InstanceTypesUpdater;
use instance_catalog::domain::ports::outgoing::WriteStore;
use instance_catalog::domain::services::instance_types::cron_service::{
    next_interval, Cycle, SchedulerState, RETRY_INTERVAL_SECS, UPDATE_INTERVAL_SECS,
};
use instance_catalog::domain::services::instance_types::deserializer::RawProduct;
use instance_catalog::domain::services::instance_types::updater::{RawPricingList, SourceReading};
use instance_catalog::domain::services::instance_types::UpdaterError;
use instance_catalog::domain::services::{
    DefaultInstanceTypesService, DefaultInstanceTypesUpdater, ScheduledInstanceTypesService,
};
use instance_catalog::domain::ports::incoming::InstanceTypesService;
use instance_catalog::infrastructure::datasources::{FileDataSource, UrlDataSource};
use instance_catalog::domain::ports::outgoing::DataSource;
use instance_catalog::infrastructure::InMemoryStore;

fn linux(name: &str, memory: &str) -> RawProduct {
    RawProduct {
        attributes: [("operatingSystem", "Linux"), ("instanceType", name), ("memory", memory), ("vcpu", "2")]
            .iter()
            .map(|(k, v)| (k.to_string(), v.to_string()))
            .collect(),
    }
}

fn document(version: &str, names: &[&str]) -> SourceReading {
    SourceReading::Document(RawPricingList {
        version: version.to_string(),
        products: names.iter().map(|name| linux(name, "1 KiB")).collect(),
    })
}

fn names(store: &InMemoryStore<InstanceType>) -> Vec<String> {
    let mut names = store.keys();
    names.sort();
    names
}

struct FailingStore {
    writes: usize,
}

impl WriteStore<InstanceType> for FailingStore {
    fn update(&mut self, _instance_types: Vec<InstanceType>) -> Result<(), ServiceError> {
        self.writes += 1;
        Err(ServiceError::new(format!("disk full at write {}", self.writes)))
    }
}

#[test]
fn a_new_updater_has_applied_nothing() {
    let updater = DefaultInstanceTypesUpdater::new(InMemoryStore::<InstanceType>::new());
    assert_eq!(updater.last_version, None);
    assert_eq!(updater.store().len(), 0);
    assert!(updater.has_changed(&"anything".to_string()));
}

#[test]
fn the_first_list_is_applied() {
    let mut updater = DefaultInstanceTypesUpdater::new(InMemoryStore::new());
    assert_eq!(updater.execute(document("v1", &["A", "B", "C", "A"])), Ok(3));
    assert_eq!(updater.last_version, Some("v1".to_string()));
    assert_eq!(updater.last_version(), &Some("v1".to_string()));
    assert_eq!(names(updater.store()), vec!["A", "B", "C"]);
}

#[test]
fn a_list_of_the_same_version_is_skipped() {
    let mut updater = DefaultInstanceTypesUpdater::new(InMemoryStore::new());
    assert_eq!(updater.execute(document("v1", &["A", "B", "C"])), Ok(3));
    assert_eq!(updater.execute(document("v1", &["A", "B", "C"])), Ok(0));
    assert_eq!(updater.execute(document("v1", &["X", "Y"])), Ok(0));
    assert_eq!(updater.last_version, Some("v1".to_string()));
    assert_eq!(names(updater.store()), vec!["A", "B", "C"]);
    assert!(!updater.has_changed(&"v1".to_string()));
    assert!(updater.has_changed(&"v1 ".to_string()));
}

#[test]
fn a_list_of_another_version_replaces_the_catalog() {
    let mut updater = DefaultInstanceTypesUpdater::new(InMemoryStore::new());
    assert_eq!(updater.execute(document("v1", &["A", "B", "C"])), Ok(3));
    assert_eq!(updater.execute(document("v2", &["B", "C", "D"])), Ok(3));
    assert_eq!(names(updater.store()), vec!["B", "C", "D"]);
    assert_eq!(updater.execute(document("v1", &[])), Ok(0));
    assert_eq!(updater.last_version, Some("v1".to_string()));
    assert_eq!(updater.store().len(), 0);
}

#[test]
fn a_source_that_cannot_be_read_changes_nothing() {
    let mut updater = DefaultInstanceTypesUpdater::new(InMemoryStore::new());
    assert_eq!(updater.execute(document("v1", &["A"])), Ok(1));
    let failure = ServiceError::new("No such file or directory".to_string());
    assert_eq!(
        updater.execute(SourceReading::Unreadable(failure.clone())),
        Err(UpdaterError::ReadDataSource(failure))
    );
    let failure = ServiceError::new("missing field `version`".to_string());
    assert_eq!(
        updater.execute(SourceReading::Malformed(failure.clone())),
        Err(UpdaterError::InvalidDocument(failure))
    );
    assert_eq!(updater.last_version, Some("v1".to_string()));
    assert_eq!(names(updater.store()), vec!["A"]);
}

#[test]
fn a_write_that_fails_is_tried_again() {
    let mut updater = DefaultInstanceTypesUpdater::new(FailingStore { writes: 0 });
    assert_eq!(
        updater.execute(document("v1", &["A"])),
        Err(UpdaterError::UpdateStore(ServiceError::new("disk full at write 1".to_string())))
    );
    assert_eq!(updater.last_version, None);
    assert_eq!(
        updater.execute(document("v1", &["A"])),
        Err(UpdaterError::UpdateStore(ServiceError::new("disk full at write 2".to_string())))
    );
    assert_eq!(updater.store().writes, 2);
}

#[test]
fn a_cycle_is_concluded_from_the_answer_of_the_store() {
    let mut updater = DefaultInstanceTypesUpdater::new(InMemoryStore::<InstanceType>::new());
    let failure = ServiceError::new("read only".to_string());
    assert_eq!(
        updater.commit("v1".to_string(), 7, Err(failure.clone())),
        Err(UpdaterError::UpdateStore(failure))
    );
    assert_eq!(updater.last_version, None);
    assert_eq!(updater.commit("v1".to_string(), 7, Ok(())), Ok(7));
    assert_eq!(updater.last_version, Some("v1".to_string()));
}

#[test]
fn the_next_cycle_comes_after_a_week_or_after_an_hour() {
    assert_eq!(UPDATE_INTERVAL_SECS, 604_800);
    assert_eq!(RETRY_INTERVAL_SECS, 3_600);
    assert_eq!(next_interval(&Ok(12)), 604_800);
    assert_eq!(next_interval(&Ok(0)), 604_800);
    let failure = ServiceError::new("timeout".to_string());
    assert_eq!(next_interval(&Err(UpdaterError::ReadDataSource(failure.clone()))), 3_600);
    assert_eq!(next_interval(&Err(UpdaterError::InvalidDocument(failure.clone()))), 3_600);
    assert_eq!(next_interval(&Err(UpdaterError::UpdateStore(failure.clone()))), 3_600);
    assert_eq!(SchedulerState::after(&Ok(1)), SchedulerState::SuccessWait);
    assert_eq!(SchedulerState::after(&Err(UpdaterError::UpdateStore(failure))), SchedulerState::RetryWait);
    assert_eq!(SchedulerState::SuccessWait.interval_secs(), 604_800);
    assert_eq!(SchedulerState::RetryWait.interval_secs(), 3_600);
}

#[test]
fn the_scheduler_retries_after_each_failure() {
    let updater = DefaultInstanceTypesUpdater::new(InMemoryStore::new());
    let source = FileDataSource::new("pricing-list.json".to_string());
    let mut service = ScheduledInstanceTypesService::new(updater, source);
    assert_eq!(service.state(), None);
    assert_eq!(service.due_in(), 0);
    let gone = ServiceError::new("gone".to_string());
    let unreadable = || SourceReading::Unreadable(gone.clone());
    let failed = Cycle { outcome: Err(UpdaterError::ReadDataSource(gone.clone())), next_in_secs: 3_600 };
    assert_eq!(service.run_cycle(unreadable()), failed);
    assert_eq!(service.state(), Some(SchedulerState::RetryWait));
    assert_eq!(service.run_cycle(unreadable()), failed);
    assert_eq!(service.run_cycle(document("v1", &["A"])), Cycle { outcome: Ok(1), next_in_secs: 604_800 });
    assert_eq!(service.state(), Some(SchedulerState::SuccessWait));
    assert_eq!(service.due_in(), 604_800);
    assert_eq!(service.run_cycle(document("v1", &["A"])), Cycle { outcome: Ok(0), next_in_secs: 604_800 });
    assert_eq!(service.run_cycle(unreadable()), failed);
    assert_eq!(service.due_in(), 3_600);
    assert_eq!(service.data_source().path(), "pricing-list.json");
}

#[test]
fn one_cycle_is_processed_through_any_updater() {
    let mut failing = DefaultInstanceTypesUpdater::new(FailingStore { writes: 0 });
    type Service = ScheduledInstanceTypesService<UrlDataSource, DefaultInstanceTypesUpdater<FailingStore>>;
    assert_eq!(Service::process(&mut failing, document("v1", &["A"])).next_in_secs, 3_600);
    let second = Service::process(&mut failing, document("v1", &["A"]));
    assert_eq!(
        second,
        Cycle {
            outcome: Err(UpdaterError::UpdateStore(ServiceError::new("disk full at write 2".to_string()))),
            next_in_secs: 3_600,
        }
    );
    assert_eq!(failing.store().writes, 2);
}

#[test]
fn the_reader_lists_what_the_store_holds() {
    let mut store = InMemoryStore::new();
    store.replace_all(vec![InstanceType {
        name: "m5.large".to_string(),
        family: "General purpose".to_string(),
        memory: 8 << 30,
        vcpu: 2,
        gpu: 0,
    }]);
    let service = DefaultInstanceTypesService::new(store);
    let listed = service.list().unwrap();
    assert_eq!(listed.len(), 1);
    assert_eq!(listed[0].name, "m5.large");
    assert_eq!(listed[0].memory, 8 << 30);
}

#[test]
fn sources_are_named_by_their_kind() {
    let file = FileDataSource::new("/data/pricing-list.json".to_string());
    assert_eq!(file.name(), "file");
    assert_eq!(file.path(), "/data/pricing-list.json");
    let url = UrlDataSource::new("https://pricing.example/offers.json".to_string());
    assert_eq!(url.name(), "url");
    assert_eq!(url.url(), "https://pricing.example/offers.json");
}
