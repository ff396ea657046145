use arrowhead_adapter::datastore::{DataStore, Error};
use arrowhead_adapter::dtos::{
    ArrowheadService, ArrowheadSystem, EntryTag, InterfaceEntry, Orchestration, SecurityType,
    ServiceDefinitionEntry,
};
use arrowhead_adapter::settings::Settings;

fn tag(id: u32) -> EntryTag {
    EntryTag {
        id,
        created_at: "2022-01-01".to_string(),
        updated_at: "2022-01-02".to_string(),
    }
}

fn service(definition: &str) -> ArrowheadService<EntryTag> {
    ArrowheadService {
        entry_tag: tag(1),
        service_definition: ServiceDefinitionEntry::Value(definition.to_string()),
        provider_system: ArrowheadSystem {
            entry_tag: tag(2),
            system_name: "provider".to_string(),
            address: "192.168.0.1".to_string(),
            port: 8080,
            authentication_info: None,
        },
        service_uri: "/api".to_string(),
        end_of_validity: None,
        secure: Some(SecurityType::NotSecure),
        metadata: Some(vec![("k".to_string(), "v".to_string())]),
        version: Some(1),
        interfaces: vec![InterfaceEntry::Value("HTTP-SECURE-JSON".to_string())],
    }
}

fn orchestration(uri: &str) -> Orchestration {
    Orchestration {
        provider: ArrowheadSystem {
            entry_tag: tag(3),
            system_name: "provider".to_string(),
            address: "192.168.0.2".to_string(),
            port: 9090,
            authentication_info: Some("key".to_string()),
        },
        service: ServiceDefinitionEntry::Value("svc".to_string()),
        service_uri: uri.to_string(),
        secure: SecurityType::Token,
        metadata: vec![],
        interfaces: vec![],
        version: 2,
        authorization_tokens: None,
        warnings: vec![],
    }
}

#[test]
fn saved_services_come_back_in_storage_order() {
    let mut store = DataStore::new();
    let Ok(()) = store.save_service("alpha", &service("a")) else { panic!() };
    let Ok(()) = store.save_service("beta", &service("b")) else { panic!() };
    let Ok(()) = store.save_service("gamma", &service("c")) else { panic!() };
    let Ok(listed) = store.get_services("") else { panic!() };
    let names: Vec<&str> = listed.iter().map(|(n, _)| n.as_str()).collect();
    assert_eq!(names, vec!["alpha", "beta", "gamma"]);
    assert_eq!(listed[0].1, service("a"));
}

#[test]
fn saving_under_an_existing_name_overwrites_in_place() {
    let mut store = DataStore::new();
    let Ok(()) = store.save_service("alpha", &service("old")) else { panic!() };
    let Ok(()) = store.save_service("beta", &service("b")) else { panic!() };
    let Ok(()) = store.save_service("alpha", &service("new")) else { panic!() };
    let Ok(listed) = store.get_services("") else { panic!() };
    assert_eq!(listed.len(), 2);
    assert_eq!(listed[0].0, "alpha");
    assert_eq!(listed[0].1, service("new"));
    assert_eq!(listed[1].0, "beta");
}

#[test]
fn listing_filters_by_the_name_pattern() {
    let mut store = DataStore::new();
    let Ok(()) = store.save_service("alpha", &service("a")) else { panic!() };
    let Ok(()) = store.save_service("beta", &service("b")) else { panic!() };
    let Ok(()) = store.save_service("albatross", &service("c")) else { panic!() };
    let Ok(listed) = store.get_services("^al") else { panic!() };
    let names: Vec<&str> = listed.iter().map(|(n, _)| n.as_str()).collect();
    assert_eq!(names, vec!["alpha", "albatross"]);
}

#[test]
fn a_rejected_pattern_is_a_regex_error() {
    let store = DataStore::new();
    let r = store.get_services("(");
    assert!(matches!(r, Err(Error::RegexError(_))));
    let r = store.get_orchestrations("(");
    assert!(matches!(r, Err(Error::RegexError(_))));
}

#[test]
fn deleting_a_stored_service_removes_exactly_that_record() {
    let mut store = DataStore::new();
    let Ok(()) = store.save_service("alpha", &service("a")) else { panic!() };
    let Ok(()) = store.save_service("beta", &service("b")) else { panic!() };
    let Ok(()) = store.delete_service("alpha") else { panic!() };
    let Ok(listed) = store.get_services("") else { panic!() };
    assert_eq!(listed.len(), 1);
    assert_eq!(listed[0].0, "beta");
}

#[test]
fn deleting_an_absent_name_is_an_error_and_changes_nothing() {
    let mut store = DataStore::new();
    let Ok(()) = store.save_service("alpha", &service("a")) else { panic!() };
    let r = store.delete_service("beta");
    assert!(matches!(r, Err(Error::IOError(_))));
    let Ok(listed) = store.get_services("") else { panic!() };
    assert_eq!(listed.len(), 1);
}

#[test]
fn orchestrations_are_stored_and_listed_like_services() {
    let mut store = DataStore::new();
    let Ok(()) = store.save_orchestration("first", &orchestration("/one")) else { panic!() };
    let Ok(()) = store.save_orchestration("second", &orchestration("/two")) else { panic!() };
    let Ok(listed) = store.get_orchestrations("sec") else { panic!() };
    assert_eq!(listed.len(), 1);
    assert_eq!(listed[0].0, "second");
    assert_eq!(listed[0].1, orchestration("/two"));
}

#[test]
fn settings_are_merged_on_every_set() {
    let mut store = DataStore::new();
    let Ok(first) = store.get_settings() else { panic!() };
    assert!(first.system_name.is_none());
    let mut update = Settings::default();
    update.system_name = Some("sys".to_string());
    let Ok(()) = store.set_settings(update) else { panic!() };
    let mut second = Settings::default();
    second.system_port = Some(4242);
    let Ok(()) = store.set_settings(second) else { panic!() };
    let Ok(current) = store.get_settings() else { panic!() };
    assert_eq!(current.system_name.as_deref(), Some("sys"));
    assert_eq!(current.system_port, Some(4242));
}
