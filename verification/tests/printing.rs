use arrowhead_adapter::dtos::{
    ArrowheadService, ArrowheadSystem, EntryTag, InterfaceEntry, NoEntryTag, Orchestration,
    OrchestrationWarning, RegisterServiceInput, RequestOrchestrationInput, SecurityType,
    ServiceDefinitionEntry, ServiceRequirements,
};
use arrowhead_adapter::table::render_to_string;

fn tag(id: u32) -> EntryTag {
    EntryTag {
        id,
        created_at: "2022-01-01".to_string(),
        updated_at: "2022-01-02".to_string(),
    }
}

#[test]
fn a_service_definition_names_itself_in_both_forms() {
    let bare = ServiceDefinitionEntry::Value("def".to_string());
    assert_eq!(bare.get_service_definition(), "def");
    let stored = ServiceDefinitionEntry::Entry {
        entry_tag: tag(4),
        service_definition: "stored-def".to_string(),
    };
    assert_eq!(stored.get_service_definition(), "stored-def");
}

#[test]
fn an_interface_names_itself_in_both_forms() {
    let bare = InterfaceEntry::Value("HTTP-SECURE-JSON".to_string());
    assert_eq!(bare.get_interface_name(), "HTTP-SECURE-JSON");
    let stored = InterfaceEntry::Entry {
        entry_tag: tag(5),
        interface_name: "MQTT-INSECURE-JSON".to_string(),
    };
    assert_eq!(stored.get_interface_name(), "MQTT-INSECURE-JSON");
}

#[test]
fn a_registration_input_joined_with_its_provider_is_the_service() {
    let input = RegisterServiceInput {
        service_definition: ServiceDefinitionEntry::Value("def".to_string()),
        service_uri: "/api".to_string(),
        end_of_validity: Some("2030-01-01".to_string()),
        secure: Some(SecurityType::Token),
        metadata: Some(vec![("k".to_string(), "v".to_string())]),
        version: Some(7),
        interfaces: vec![InterfaceEntry::Value("HTTP-SECURE-JSON".to_string())],
    };
    let provider = ArrowheadSystem {
        entry_tag: NoEntryTag {},
        system_name: "client".to_string(),
        address: "127.0.0.1".to_string(),
        port: 8080,
        authentication_info: None,
    };
    let service = input.to_arrowhead_service(provider);
    assert_eq!(
        service.service_definition,
        ServiceDefinitionEntry::Value("def".to_string())
    );
    assert_eq!(service.provider_system.system_name, "client");
    assert_eq!(service.service_uri, "/api");
    assert_eq!(service.end_of_validity.as_deref(), Some("2030-01-01"));
    assert_eq!(service.secure, Some(SecurityType::Token));
    assert_eq!(service.metadata, Some(vec![("k".to_string(), "v".to_string())]));
    assert_eq!(service.version, Some(7));
    assert_eq!(service.interfaces.len(), 1);
}

#[test]
fn an_orchestration_input_joined_with_its_requester_is_the_form() {
    let input = RequestOrchestrationInput {
        requested_service: ServiceRequirements {
            service_definition_requirement: "wanted".to_string(),
            interface_requirements: None,
            security_requirements: None,
            metadata_requirements: None,
            version_requirement: None,
            max_version_requirement: None,
            min_version_requirement: None,
        },
        preferred_providers: None,
        orchestration_flags: Some(vec![(
            arrowhead_adapter::dtos::OrchestrationFlagKey::OnlyPreferred,
            true,
        )]),
    };
    let requester = ArrowheadSystem {
        entry_tag: NoEntryTag {},
        system_name: "client".to_string(),
        address: "127.0.0.1".to_string(),
        port: 8080,
        authentication_info: None,
    };
    let form = input.to_service_request_form(requester);
    assert_eq!(form.requester_system.system_name, "client");
    assert_eq!(form.requested_service.service_definition_requirement, "wanted");
    assert!(form.preferred_providers.is_none());
    assert_eq!(form.orchestration_flags.map(|f| f.len()), Some(1));
}

#[test]
fn a_stored_service_prints_as_an_aligned_table() {
    let service: ArrowheadService<EntryTag> = ArrowheadService {
        entry_tag: tag(1),
        service_definition: ServiceDefinitionEntry::Value("def".to_string()),
        provider_system: ArrowheadSystem {
            entry_tag: tag(2),
            system_name: "provider".to_string(),
            address: "192.168.0.1".to_string(),
            port: 8080,
            authentication_info: None,
        },
        service_uri: "/api".to_string(),
        end_of_validity: None,
        secure: None,
        metadata: None,
        version: None,
        interfaces: vec![InterfaceEntry::Value("HTTP".to_string())],
    };
    let body = render_to_string(&service.to_value(), 12);
    let blank = " ".repeat(12);
    let expected = format!(
        "{:<12}{:<12}\n{:<12}{:<12}\n{:<12}{:<12}\nserviceDefinition{:<12}\nproviderSystem{:<12}{:<12}\n{b}{:<12}{:<12}\n{b}{:<12}{:<12}\n{b}{:<12}{:<12}\n{b}{:<12}{:<12}\n{b}{:<12}{:<12}\n{:<12}{:<12}\n{:<12}{:<12}",
        "id", "1",
        "createdAt", "2022-01-01",
        "updatedAt", "2022-01-02",
        "def",
        "id", "2",
        "createdAt", "2022-01-01",
        "updatedAt", "2022-01-02",
        "systemName", "provider",
        "address", "192.168.0.1",
        "port", "8080",
        "serviceUri", "/api",
        "interfaces", "HTTP",
        b = blank,
    );
    assert_eq!(body, expected);
}

#[test]
fn optional_service_fields_print_only_when_set() {
    let service: ArrowheadService<EntryTag> = ArrowheadService {
        entry_tag: tag(1),
        service_definition: ServiceDefinitionEntry::Value("def".to_string()),
        provider_system: ArrowheadSystem {
            entry_tag: tag(2),
            system_name: "provider".to_string(),
            address: "192.168.0.1".to_string(),
            port: 8080,
            authentication_info: None,
        },
        service_uri: "/api".to_string(),
        end_of_validity: Some("2030-01-01".to_string()),
        secure: Some(SecurityType::NotSecure),
        metadata: None,
        version: Some(4),
        interfaces: vec![],
    };
    let body = render_to_string(&service.to_value(), 20);
    assert!(body.contains("endOfValidity"));
    assert!(body.contains("2030-01-01"));
    assert!(body.contains("NOT_SECURE"));
    assert!(!body.contains("metadata"));
    let line_with_version = body
        .lines()
        .find(|l| l.starts_with("version"))
        .map(|l| l.to_string());
    assert_eq!(line_with_version, Some(format!("{:<20}{:<20}", "version", "4")));
}

#[test]
fn an_orchestration_prints_all_nine_fields() {
    let orchestration = Orchestration {
        provider: ArrowheadSystem {
            entry_tag: tag(3),
            system_name: "provider".to_string(),
            address: "192.168.0.2".to_string(),
            port: 9090,
            authentication_info: None,
        },
        service: ServiceDefinitionEntry::Value("svc".to_string()),
        service_uri: "/orch".to_string(),
        secure: SecurityType::Certificate,
        metadata: vec![("k".to_string(), "v".to_string())],
        interfaces: vec![],
        version: 1,
        authorization_tokens: None,
        warnings: vec![OrchestrationWarning::TtlUnknown],
    };
    let body = render_to_string(&orchestration.to_value(), 12);
    let blank = " ".repeat(12);
    let expected = format!(
        "{:<12}{:<12}{:<12}\n{b}{:<12}{:<12}\n{b}{:<12}{:<12}\n{b}{:<12}{:<12}\n{b}{:<12}{:<12}\n{b}{:<12}{:<12}\n{:<12}{:<12}\n{:<12}{:<12}\n{:<12}{:<12}\n{:<12}{:<12}{:<12}\n{:<12}\n{:<12}{:<12}\n{:<12}{:<12}\n{:<12}{:<12}",
        "provider", "id", "3",
        "createdAt", "2022-01-01",
        "updatedAt", "2022-01-02",
        "systemName", "provider",
        "address", "192.168.0.2",
        "port", "9090",
        "service", "svc",
        "serviceUri", "/orch",
        "secure", "CERTIFICATE",
        "metadata", "k", "v",
        "interfaces",
        "version", "1",
        "authorizationTokens", "<empty>",
        "warnings", "TTL_UNKNOWN",
        b = blank,
    );
    assert_eq!(body, expected);
}
