use arrowhead_adapter::adapter::ArrowheadSystemAdapter;
use arrowhead_adapter::controller::{indexed_name, Controller, Error};
use arrowhead_adapter::datastore::DataStore;
use arrowhead_adapter::dtos::{
    ArrowheadService, ArrowheadSystem, EntryTag, NoEntryTag, Orchestration, OrchestrationResponse,
    SecurityType, ServiceDefinitionEntry,
};
use arrowhead_adapter::settings::Settings;

fn tag(id: u32) -> EntryTag {
    EntryTag {
        id,
        created_at: "2022-01-01".to_string(),
        updated_at: "2022-01-02".to_string(),
    }
}

fn service(definition: &str) -> ArrowheadService<EntryTag> {
    ArrowheadService {
        entry_tag: tag(1),
        service_definition: ServiceDefinitionEntry::Value(definition.to_string()),
        provider_system: ArrowheadSystem {
            entry_tag: tag(2),
            system_name: "provider".to_string(),
            address: "192.168.0.1".to_string(),
            port: 8080,
            authentication_info: None,
        },
        service_uri: "/api".to_string(),
        end_of_validity: None,
        secure: None,
        metadata: None,
        version: None,
        interfaces: vec![],
    }
}

fn orchestration(uri: &str) -> Orchestration {
    Orchestration {
        provider: ArrowheadSystem {
            entry_tag: tag(3),
            system_name: "provider".to_string(),
            address: "192.168.0.2".to_string(),
            port: 9090,
            authentication_info: None,
        },
        service: ServiceDefinitionEntry::Value("svc".to_string()),
        service_uri: uri.to_string(),
        secure: SecurityType::Certificate,
        metadata: vec![],
        interfaces: vec![],
        version: 1,
        authorization_tokens: None,
        warnings: vec![],
    }
}

fn controller() -> Controller {
    Controller { data_store: DataStore::new() }
}

fn full_settings() -> Settings {
    Settings {
        service_registry_address: Some("http://localhost:8443/serviceregistry".to_string()),
        authorization_address: Some("http://localhost:8445/authorization".to_string()),
        orchestrator_address: Some("http://localhost:8441/orchestrator".to_string()),
        system_name: Some("client".to_string()),
        system_address: Some("127.0.0.1".to_string()),
        system_port: Some(8080),
        system_authentication_info: Some("pubkey".to_string()),
        column_width: Some(25),
    }
}

#[test]
fn unregistering_without_a_matching_record_is_reported() {
    let mut c = controller();
    let Ok(()) = c.register_service("alpha", &service("a")) else { panic!() };
    let r = c.unregister_service("nosuchname");
    let Err(Error::NoMatchingRecord(name)) = r else { panic!() };
    assert_eq!(name, "nosuchname");
}

#[test]
fn unregistering_names_the_first_matching_record() {
    let mut c = controller();
    let Ok(()) = c.register_service("alpha", &service("first-def")) else { panic!() };
    let Ok(()) = c.register_service("alps", &service("second-def")) else { panic!() };
    let Ok(definition) = c.unregister_service("^al") else { panic!() };
    assert_eq!(definition, "first-def");
    let Ok(still_there) = c.get_services("") else { panic!() };
    assert_eq!(still_there.len(), 2);
}

#[test]
fn registering_stores_the_accepted_service_under_its_name() {
    let mut c = controller();
    let Ok(()) = c.register_service("alpha", &service("a")) else { panic!() };
    let Ok(listed) = c.get_services("alpha") else { panic!() };
    assert_eq!(listed.len(), 1);
    assert_eq!(listed[0].1, service("a"));
}

#[test]
fn orchestration_answers_are_stored_under_indexed_names() {
    let mut c = controller();
    let response = OrchestrationResponse {
        response: vec![orchestration("/one"), orchestration("/two")],
    };
    let Ok(()) = c.request_orchestration("orch", &response) else { panic!() };
    let Ok(listed) = c.get_orchestrations("") else { panic!() };
    let names: Vec<&str> = listed.iter().map(|(n, _)| n.as_str()).collect();
    assert_eq!(names, vec!["orch0", "orch1"]);
    assert_eq!(listed[0].1, orchestration("/one"));
    assert_eq!(listed[1].1, orchestration("/two"));
}

#[test]
fn orchestration_by_id_stores_answers_the_same_way() {
    let mut c = controller();
    let response = OrchestrationResponse { response: vec![orchestration("/only")] };
    let Ok(()) = c.request_orchestration_id("byid", &response) else { panic!() };
    let Ok(listed) = c.get_orchestrations("byid") else { panic!() };
    assert_eq!(listed.len(), 1);
    assert_eq!(listed[0].0, "byid0");
}

#[test]
fn indexed_names_append_the_position() {
    assert_eq!(indexed_name("orch", 0), "orch0");
    assert_eq!(indexed_name("orch", 12), "orch12");
}

#[test]
fn the_first_missing_setting_is_named() {
    let c = controller();
    let r = c.get_system_adapter();
    let Err(Error::SettingsError(m)) = r else { panic!() };
    assert_eq!(m, "The value 'serviceRegistryAddress' is not set");
}

#[test]
fn missing_settings_are_reported_in_order() {
    let mut c = controller();
    let mut partial = full_settings();
    partial.system_address = None;
    partial.system_port = None;
    let Ok(()) = c.set_settings(partial) else { panic!() };
    let Err(Error::SettingsError(m)) = c.get_system_adapter() else { panic!() };
    assert_eq!(m, "The value 'systemAddress' is not set");
}

#[test]
fn a_gateway_is_built_from_complete_settings() {
    let mut c = controller();
    let Ok(()) = c.set_settings(full_settings()) else { panic!() };
    let Ok(adapter) = c.get_system_adapter() else { panic!() };
    assert_eq!(adapter.client_system.system_name, "client");
    assert_eq!(adapter.client_system.address, "127.0.0.1");
    assert_eq!(adapter.client_system.port, 8080);
    assert_eq!(
        adapter.client_system.authentication_info.as_deref(),
        Some("pubkey")
    );
}

#[test]
fn an_address_that_is_no_url_is_a_gateway_error() {
    let mut c = controller();
    let mut bad = full_settings();
    bad.service_registry_address = Some("not a url".to_string());
    let Ok(()) = c.set_settings(bad) else { panic!() };
    let r = c.get_system_adapter();
    assert!(matches!(r, Err(Error::ArrowheadAdapterError(_))));
}

#[test]
fn adapter_construction_checks_every_address() {
    let system = ArrowheadSystem {
        entry_tag: NoEntryTag {},
        system_name: "string".to_string(),
        address: "string".to_string(),
        port: 0,
        authentication_info: Some("string".to_string()),
    };
    let r = ArrowheadSystemAdapter::new("http://ok", "::broken::", "http://ok", system);
    assert!(matches!(
        r,
        Err(arrowhead_adapter::error::Error::HttpError(_))
    ));
}

#[test]
fn the_unregister_query_names_the_service_and_the_system() {
    let system = ArrowheadSystem {
        entry_tag: NoEntryTag {},
        system_name: "client".to_string(),
        address: "127.0.0.1".to_string(),
        port: 8080,
        authentication_info: None,
    };
    let Ok(adapter) =
        ArrowheadSystemAdapter::new("http://a", "http://b", "http://c", system) else { panic!() };
    let q = adapter.unregister_query("my-service");
    assert_eq!(q.len(), 4);
    assert_eq!(q[0], ("service_definition".to_string(), "my-service".to_string()));
    assert_eq!(q[1], ("system_name".to_string(), "client".to_string()));
    assert_eq!(q[2], ("address".to_string(), "127.0.0.1".to_string()));
    assert_eq!(q[3], ("port".to_string(), "8080".to_string()));
}

#[test]
fn controller_settings_round_trip_through_the_store() {
    let mut c = controller();
    let Ok(()) = c.set_settings(full_settings()) else { panic!() };
    let Ok(current) = c.get_settings() else { panic!() };
    assert_eq!(current.column_width, Some(25));
    assert_eq!(current.system_name.as_deref(), Some("client"));
}
