use iwd_block::block::{IWDConfig, ViewElement, IWD};
use iwd_block::render::{finish_render, render_plan, RenderError, RenderPlan};
use iwd_block::shared::SharedLinkState;
use iwd_block::state::{
    changes_of_interest, get_widget_state, needs_network_fetch, parse_state, ConnectionState,
    LinkState, PropertyChange, Severity,
};

fn config(show_disconnect_btn: bool) -> IWDConfig {
    IWDConfig {
        device_id: "/net/connman/iwd/0/3".to_string(),
        show_disconnect_btn,
        disconnected_str: "down".to_string(),
    }
}

#[test]
fn severity_mapping() {
    assert_eq!(get_widget_state("disconnected"), Severity::Critical);
    assert_eq!(get_widget_state("connected"), Severity::Good);
    assert_eq!(get_widget_state("disconnecting"), Severity::Warning);
    assert_eq!(get_widget_state("roaming"), Severity::Warning);
    assert_eq!(get_widget_state(""), Severity::Warning);
}

#[test]
fn parse_state_recognized_values() {
    assert!(matches!(parse_state("connected".to_string()), ConnectionState::Connected));
    assert!(matches!(parse_state("disconnected".to_string()), ConnectionState::Disconnected));
    assert!(matches!(parse_state("disconnecting".to_string()), ConnectionState::Disconnecting));
}

#[test]
fn parse_state_preserves_unrecognized_verbatim() {
    match parse_state("roaming".to_string()) {
        ConnectionState::Other(s) => assert_eq!(s, "roaming"),
        _ => panic!("unrecognized state was not preserved"),
    }
}

#[test]
fn initial_link_state_is_disconnected() {
    let ls = LinkState::new();
    assert!(matches!(ls.connection_state, ConnectionState::Disconnected));
    assert!(ls.network_object_ref.is_none());
}

#[test]
fn signal_updates_only_named_fields() {
    let mut ls = LinkState::new();
    let notify = ls.apply_signal(PropertyChange {
        new_network: Some("/net/n1".to_string()),
        new_state: Some("connected".to_string()),
    });
    assert!(notify);
    let notify = ls.apply_signal(PropertyChange {
        new_network: None,
        new_state: Some("disconnecting".to_string()),
    });
    assert!(notify);
    assert!(matches!(ls.connection_state, ConnectionState::Disconnecting));
    assert_eq!(ls.network_object_ref.as_deref(), Some("/net/n1"));
}

#[test]
fn signal_naming_no_property_of_interest_is_discarded() {
    let mut ls = LinkState::new();
    let notify = ls.apply_signal(PropertyChange { new_network: None, new_state: None });
    assert!(!notify);
    assert!(matches!(ls.connection_state, ConnectionState::Disconnected));
    assert!(ls.network_object_ref.is_none());
}

#[test]
fn scenario_initial_connected_renders_resolved_name() {
    let mut ls = LinkState::new();
    assert!(needs_network_fetch("connected"));
    ls.set_initial("connected".to_string(), Some("/net/n1".to_string()));
    let plan = render_plan(&ls, "down");
    match &plan {
        RenderPlan::Resolve { network_ref, severity } => {
            assert_eq!(network_ref.as_deref(), Some("/net/n1"));
            assert_eq!(*severity, Severity::Good);
        }
        RenderPlan::Direct { .. } => panic!("connected snapshot must resolve"),
    }
    match finish_render(plan, Some("HomeWiFi".to_string())) {
        Ok((text, severity)) => {
            assert_eq!(text, "HomeWiFi");
            assert_eq!(severity, Severity::Good);
        }
        Err(_) => panic!("resolution succeeded, the render pass must too"),
    }
}

#[test]
fn scenario_disconnecting_signal_keeps_network_ref() {
    let mut ls = LinkState::new();
    ls.set_initial("connected".to_string(), Some("/net/n1".to_string()));
    let notify = ls.apply_signal(PropertyChange {
        new_network: None,
        new_state: Some("disconnecting".to_string()),
    });
    assert!(notify);
    assert_eq!(ls.network_object_ref.as_deref(), Some("/net/n1"));
    let plan = render_plan(&ls, "down");
    match finish_render(plan, None) {
        Ok((text, severity)) => {
            assert_eq!(text, "down");
            assert_eq!(severity, Severity::Warning);
        }
        Err(_) => panic!("a direct plan needs no resolution"),
    }
}

#[test]
fn disconnected_snapshot_never_resolves() {
    let ls = LinkState::new();
    let plan = render_plan(&ls, "down");
    match plan {
        RenderPlan::Direct { text, severity } => {
            assert_eq!(text, "down");
            assert_eq!(severity, Severity::Critical);
        }
        RenderPlan::Resolve { .. } => panic!("disconnected snapshot must not resolve"),
    }
}

#[test]
fn unrecognized_state_resolves_at_warning() {
    let mut ls = LinkState::new();
    ls.set_initial("roaming".to_string(), None);
    let plan = render_plan(&ls, "down");
    match plan {
        RenderPlan::Resolve { network_ref, severity } => {
            assert!(network_ref.is_none());
            assert_eq!(severity, Severity::Warning);
        }
        RenderPlan::Direct { .. } => panic!("an unrecognized state resolves"),
    }
}

#[test]
fn failed_resolution_fails_the_render_pass() {
    let plan = RenderPlan::Resolve {
        network_ref: Some("/net/n1".to_string()),
        severity: Severity::Good,
    };
    assert_eq!(finish_render(plan, None), Err(RenderError::NameResolution));
}

#[test]
fn update_applies_render_pass_to_the_line() {
    let mut iwd = IWD::new(config(false));
    let plan = RenderPlan::Resolve {
        network_ref: Some("/net/n1".to_string()),
        severity: Severity::Good,
    };
    let r = iwd.update(plan, Some("HomeWiFi".to_string()));
    assert!(r.is_ok());
    assert_eq!(iwd.network.text, "HomeWiFi");
    assert_eq!(iwd.network.severity, Severity::Good);
}

#[test]
fn failed_update_leaves_the_line_unchanged() {
    let mut iwd = IWD::new(config(false));
    let plan = RenderPlan::Resolve { network_ref: None, severity: Severity::Good };
    let r = iwd.update(plan, None);
    assert_eq!(r, Err(RenderError::NameResolution));
    assert_eq!(iwd.network.text, "disconnected");
    assert_eq!(iwd.network.severity, Severity::Critical);
}

#[test]
fn scenario_disconnect_action_without_affordance() {
    let iwd = IWD::new(config(false));
    assert!(!iwd.click(&Some("disconnect".to_string())));
}

#[test]
fn disconnect_action_with_affordance() {
    let iwd = IWD::new(config(true));
    assert!(iwd.click(&Some("disconnect".to_string())));
    assert!(!iwd.click(&Some("reconnect".to_string())));
    assert!(!iwd.click(&None));
}

#[test]
fn fresh_block_identifier_has_simple_uuid_length() {
    let iwd = IWD::new(config(false));
    assert_eq!(iwd.id().len(), 32);
}

#[test]
fn distinct_blocks_get_distinct_identifiers() {
    let a = IWD::new(config(false));
    let b = IWD::new(config(false));
    assert_ne!(a.id(), b.id());
}

#[test]
fn view_without_affordance_has_one_element() {
    let iwd = IWD::new(config(false));
    let elements = iwd.view();
    assert_eq!(elements.len(), 1);
    match &elements[0] {
        ViewElement::Network { text, severity } => {
            assert_eq!(text, "disconnected");
            assert_eq!(*severity, Severity::Critical);
        }
        ViewElement::DisconnectButton => panic!("the network line comes first"),
    }
}

#[test]
fn view_with_affordance_adds_the_button() {
    let iwd = IWD::new(config(true));
    let elements = iwd.view();
    assert_eq!(elements.len(), 2);
    assert!(matches!(elements[0], ViewElement::Network { .. }));
    assert!(matches!(elements[1], ViewElement::DisconnectButton));
}

#[test]
fn change_set_keeps_only_properties_of_interest() {
    let props = vec![
        ("Mode".to_string(), Some("station".to_string())),
        ("State".to_string(), Some("connected".to_string())),
        ("ConnectedNetwork".to_string(), Some("/net/n1".to_string())),
    ];
    let change = changes_of_interest(&props);
    assert_eq!(change.new_state.as_deref(), Some("connected"));
    assert_eq!(change.new_network.as_deref(), Some("/net/n1"));
}

#[test]
fn change_set_with_unreadable_payload_drops_that_update() {
    let props = vec![
        ("State".to_string(), None),
        ("ConnectedNetwork".to_string(), Some("/net/n2".to_string())),
    ];
    let change = changes_of_interest(&props);
    assert!(change.new_state.is_none());
    assert_eq!(change.new_network.as_deref(), Some("/net/n2"));
}

#[test]
fn change_set_without_properties_of_interest_is_empty() {
    let props = vec![("Scanning".to_string(), Some("true".to_string()))];
    let change = changes_of_interest(&props);
    assert!(change.new_state.is_none());
    assert!(change.new_network.is_none());
    let mut ls = LinkState::new();
    assert!(!ls.apply_signal(change));
}

#[test]
fn malformed_record_is_detected() {
    assert!(LinkState::new().is_wf());
    let ls = LinkState {
        connection_state: ConnectionState::Other("connected".to_string()),
        network_object_ref: None,
    };
    assert!(!ls.is_wf());
}

#[test]
fn default_config_is_empty() {
    let c = IWDConfig::default();
    assert_eq!(c.device_id, "");
    assert!(!c.show_disconnect_btn);
    assert_eq!(c.disconnected_str, "");
}

#[test]
fn shared_record_snapshots_whole_states() {
    let shared = SharedLinkState::new();
    let snap = shared.snapshot();
    assert!(matches!(snap.connection_state, ConnectionState::Disconnected));
    assert!(snap.network_object_ref.is_none());
    shared.set_initial("connected".to_string(), Some("/net/n1".to_string()));
    let notified = shared.apply_signal(PropertyChange {
        new_network: None,
        new_state: Some("disconnecting".to_string()),
    });
    assert!(notified);
    let snap = shared.snapshot();
    assert!(matches!(snap.connection_state, ConnectionState::Disconnecting));
    assert_eq!(snap.network_object_ref.as_deref(), Some("/net/n1"));
}

#[test]
fn needs_network_fetch_only_when_connected() {
    assert!(needs_network_fetch("connected"));
    assert!(!needs_network_fetch("disconnected"));
    assert!(!needs_network_fetch("disconnecting"));
    assert!(!needs_network_fetch("roaming"));
}
