use arrowhead_adapter::settings::Settings;
use arrowhead_adapter::table::render_report;

fn base() -> Settings {
    Settings {
        service_registry_address: Some("http://sr".to_string()),
        authorization_address: None,
        orchestrator_address: Some("http://orch".to_string()),
        system_name: Some("base-system".to_string()),
        system_address: None,
        system_port: Some(8080),
        system_authentication_info: None,
        column_width: Some(25),
    }
}

#[test]
fn merge_takes_update_fields_that_are_set() {
    let update = Settings {
        service_registry_address: Some("http://new-sr".to_string()),
        authorization_address: Some("http://auth".to_string()),
        orchestrator_address: None,
        system_name: None,
        system_address: Some("10.0.0.1".to_string()),
        system_port: None,
        system_authentication_info: None,
        column_width: Some(10),
    };
    let merged = base().merge(update);
    assert_eq!(merged.service_registry_address.as_deref(), Some("http://new-sr"));
    assert_eq!(merged.authorization_address.as_deref(), Some("http://auth"));
    assert_eq!(merged.orchestrator_address.as_deref(), Some("http://orch"));
    assert_eq!(merged.system_name.as_deref(), Some("base-system"));
    assert_eq!(merged.system_address.as_deref(), Some("10.0.0.1"));
    assert_eq!(merged.system_port, Some(8080));
    assert_eq!(merged.system_authentication_info, None);
    assert_eq!(merged.column_width, Some(10));
}

#[test]
fn merge_with_an_empty_update_changes_nothing() {
    let merged = base().merge(Settings::default());
    assert_eq!(merged.service_registry_address.as_deref(), Some("http://sr"));
    assert_eq!(merged.authorization_address, None);
    assert_eq!(merged.orchestrator_address.as_deref(), Some("http://orch"));
    assert_eq!(merged.system_name.as_deref(), Some("base-system"));
    assert_eq!(merged.system_address, None);
    assert_eq!(merged.system_port, Some(8080));
    assert_eq!(merged.system_authentication_info, None);
    assert_eq!(merged.column_width, Some(25));
}

#[test]
fn merge_into_defaults_takes_the_update_whole() {
    let merged = Settings::default().merge(base());
    assert_eq!(merged.service_registry_address.as_deref(), Some("http://sr"));
    assert_eq!(merged.authorization_address, None);
    assert_eq!(merged.system_port, Some(8080));
    assert_eq!(merged.column_width, Some(25));
}

#[test]
fn the_column_width_defaults_to_twenty_five() {
    assert_eq!(Settings::default().effective_column_width(), 25);
    let mut s = Settings::default();
    s.column_width = Some(10);
    assert_eq!(s.effective_column_width(), 10);
}

#[test]
fn default_settings_have_nothing_set() {
    let d = Settings::default();
    assert!(d.service_registry_address.is_none());
    assert!(d.authorization_address.is_none());
    assert!(d.orchestrator_address.is_none());
    assert!(d.system_name.is_none());
    assert!(d.system_address.is_none());
    assert!(d.system_port.is_none());
    assert!(d.system_authentication_info.is_none());
    assert!(d.column_width.is_none());
}

#[test]
fn settings_print_all_eight_fields_in_order() {
    let s = Settings {
        service_registry_address: None,
        authorization_address: None,
        orchestrator_address: None,
        system_name: Some("sys1".to_string()),
        system_address: None,
        system_port: Some(8080),
        system_authentication_info: None,
        column_width: None,
    };
    let report = render_report("Settings", &s.to_value(), 25);
    let expected = format!(
        "Settings:\n{:<25}{:<25}\n{:<25}{:<25}\n{:<25}{:<25}\n{:<25}{:<25}\n{:<25}{:<25}\n{:<25}{:<25}\n{:<25}{:<25}\n{:<25}{:<25}\n\n",
        "serviceRegistryAddress", "<empty>",
        "authorizationAddress", "<empty>",
        "orchestratorAddress", "<empty>",
        "systemName", "sys1",
        "systemAddress", "<empty>",
        "systemPort", "8080",
        "systemAuthenticationInfo", "<empty>",
        "columnWidth", "<empty>",
    );
    assert_eq!(report, expected);
}
