use arrowhead_adapter::console::{
    parse_pair, Error, RegisterServiceCommand, RequestOrchestrationCommand,
};
use arrowhead_adapter::dtos::{
    InterfaceEntry, OrchestrationFlagKey, SecurityType, ServiceDefinitionEntry,
};

const BAD_PAIR: &str = "Map item does not match the expected format (<key>:<value>)";

#[test]
fn a_pair_splits_at_the_first_colon() {
    assert_eq!(parse_pair("a:b"), Ok(("a".to_string(), "b".to_string())));
    assert_eq!(parse_pair("a:b:c"), Ok(("a".to_string(), "b:c".to_string())));
}

#[test]
fn a_colon_inside_the_key_is_taken_when_it_must_be() {
    assert_eq!(parse_pair("::b"), Ok((":".to_string(), "b".to_string())));
}

#[test]
fn a_pair_needs_a_key_a_colon_and_a_value() {
    assert_eq!(parse_pair("ab"), Err(BAD_PAIR));
    assert_eq!(parse_pair("a:"), Err(BAD_PAIR));
    assert_eq!(parse_pair(":b"), Err(BAD_PAIR));
    assert_eq!(parse_pair(""), Err(BAD_PAIR));
}

#[test]
fn a_pair_spans_a_single_line() {
    assert_eq!(parse_pair("a:b\nc"), Err(BAD_PAIR));
}

fn register_command() -> RegisterServiceCommand {
    RegisterServiceCommand {
        name: "my-service".to_string(),
        interfaces: vec!["HTTP-SECURE-JSON".to_string(), "MQTT-INSECURE-JSON".to_string()],
        uri: "/api".to_string(),
        end_of_validity: Some("2030-01-01".to_string()),
        metadata: Some(vec![
            ("k".to_string(), "1".to_string()),
            ("other".to_string(), "x".to_string()),
            ("k".to_string(), "2".to_string()),
        ]),
        security_type: Some(SecurityType::Certificate),
        version: Some(3),
    }
}

#[test]
fn a_registration_command_becomes_a_registration_input() {
    let input = register_command().to_input();
    assert_eq!(
        input.service_definition,
        ServiceDefinitionEntry::Value("my-service".to_string())
    );
    assert_eq!(input.service_uri, "/api");
    assert_eq!(input.end_of_validity.as_deref(), Some("2030-01-01"));
    assert_eq!(input.secure, Some(SecurityType::Certificate));
    assert_eq!(input.version, Some(3));
    assert_eq!(
        input.interfaces,
        vec![
            InterfaceEntry::Value("HTTP-SECURE-JSON".to_string()),
            InterfaceEntry::Value("MQTT-INSECURE-JSON".to_string()),
        ]
    );
}

#[test]
fn registration_metadata_keeps_the_last_value_of_a_repeated_key() {
    let input = register_command().to_input();
    assert_eq!(
        input.metadata,
        Some(vec![
            ("k".to_string(), "2".to_string()),
            ("other".to_string(), "x".to_string()),
        ])
    );
}

fn orchestration_command() -> RequestOrchestrationCommand {
    RequestOrchestrationCommand {
        name: "orch".to_string(),
        service_name: "wanted".to_string(),
        flags: Some(vec![
            OrchestrationFlagKey::OverrideStore,
            OrchestrationFlagKey::Machmaking,
            OrchestrationFlagKey::OverrideStore,
        ]),
        interfaces: Some(vec!["HTTP-SECURE-JSON".to_string()]),
        max_version: Some(9),
        metadata: Some(vec![("ignored".to_string(), "yes".to_string())]),
        min_version: Some(1),
        preferred_provider: Some(vec![
            ("operator-name".to_string(), "op".to_string()),
            ("cloud-name".to_string(), "cloud".to_string()),
            ("system-name".to_string(), "sys".to_string()),
            ("system-address".to_string(), "10.0.0.2".to_string()),
            ("system-port".to_string(), "8443".to_string()),
        ]),
        security_types: Some(vec![SecurityType::Token]),
        version: Some(2),
    }
}

#[test]
fn an_orchestration_command_becomes_an_orchestration_input() {
    let Ok(input) = orchestration_command().to_input() else { panic!() };
    let rs = &input.requested_service;
    assert_eq!(rs.service_definition_requirement, "wanted");
    assert_eq!(rs.interface_requirements, Some(vec!["HTTP-SECURE-JSON".to_string()]));
    assert_eq!(rs.security_requirements, Some(vec![SecurityType::Token]));
    assert_eq!(rs.metadata_requirements, None);
    assert_eq!(rs.version_requirement, Some(2));
    assert_eq!(rs.max_version_requirement, Some(9));
    assert_eq!(rs.min_version_requirement, Some(1));
    let Some(providers) = &input.preferred_providers else { panic!() };
    assert_eq!(providers.len(), 1);
    assert_eq!(providers[0].provider_cloud.operator, "op");
    assert_eq!(providers[0].provider_cloud.name, "cloud");
    assert_eq!(providers[0].provider_system.system_name, "sys");
    assert_eq!(providers[0].provider_system.address, "10.0.0.2");
    assert_eq!(providers[0].provider_system.port, 8443);
    assert_eq!(providers[0].provider_system.authentication_info, None);
}

#[test]
fn named_flags_are_set_once_each_in_order_of_first_naming() {
    let Ok(input) = orchestration_command().to_input() else { panic!() };
    assert_eq!(
        input.orchestration_flags,
        Some(vec![
            (OrchestrationFlagKey::OverrideStore, true),
            (OrchestrationFlagKey::Machmaking, true),
        ])
    );
}

#[test]
fn a_missing_provider_field_is_named() {
    let mut command = orchestration_command();
    command.preferred_provider = Some(vec![
        ("operator-name".to_string(), "op".to_string()),
        ("cloud-name".to_string(), "cloud".to_string()),
    ]);
    let Err(Error::CommandError(m)) = command.to_input() else { panic!() };
    assert_eq!(m, "The field 'system-name' of argument 'preferred-provider' is missing");
}

#[test]
fn a_provider_port_that_does_not_parse_is_reported() {
    let mut command = orchestration_command();
    command.preferred_provider = Some(vec![
        ("operator-name".to_string(), "op".to_string()),
        ("cloud-name".to_string(), "cloud".to_string()),
        ("system-name".to_string(), "sys".to_string()),
        ("system-address".to_string(), "10.0.0.2".to_string()),
        ("system-port".to_string(), "eighty".to_string()),
    ]);
    let Err(Error::CommandError(m)) = command.to_input() else { panic!() };
    assert_eq!(
        m,
        "Error during parsing field 'system-port' of argument 'preferred-provider': invalid digit found in string"
    );
}

#[test]
fn a_repeated_provider_field_keeps_the_last_value() {
    let mut command = orchestration_command();
    command.preferred_provider = Some(vec![
        ("operator-name".to_string(), "first".to_string()),
        ("cloud-name".to_string(), "cloud".to_string()),
        ("system-name".to_string(), "sys".to_string()),
        ("system-address".to_string(), "10.0.0.2".to_string()),
        ("system-port".to_string(), "1".to_string()),
        ("operator-name".to_string(), "second".to_string()),
    ]);
    let Ok(input) = command.to_input() else { panic!() };
    let Some(providers) = &input.preferred_providers else { panic!() };
    assert_eq!(providers[0].provider_cloud.operator, "second");
}

#[test]
fn no_provider_given_means_no_preferred_providers() {
    let mut command = orchestration_command();
    command.preferred_provider = None;
    let Ok(input) = command.to_input() else { panic!() };
    assert!(input.preferred_providers.is_none());
}
