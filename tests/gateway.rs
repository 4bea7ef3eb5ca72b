use vcenter_vm_monitor::gateway::{
    after_legacy_status, after_primary_status, first_vm_record, hardware_from, host_name_from,
    on_legacy_auth,
    on_primary_auth, vm_detail_from, vm_records_from, AuthStep, Endpoint, GatewayError, StatusStep,
    VCenterAPIClient,
};
use vcenter_vm_monitor::json::Json;
use vcenter_vm_monitor::model::{PowerState, ToolsStatus};

fn s(v: &str) -> Json {
    Json::Str(v.to_string())
}

fn obj(members: Vec<(&str, Json)>) -> Json {
    Json::Object(members.into_iter().map(|(k, v)| (k.to_string(), v)).collect())
}

fn client() -> VCenterAPIClient {
    VCenterAPIClient::new("vc.example".to_string(), "admin".to_string(), "pw".to_string(), true)
}

#[test]
fn addresses_of_both_families() {
    let c = client();
    assert_eq!(c.base_url, "https://vc.example/api");
    assert_eq!(c.rest_url, "https://vc.example/rest");
    assert_eq!(c.session_url(Endpoint::Primary), "https://vc.example/api/session");
    assert_eq!(c.session_url(Endpoint::Legacy), "https://vc.example/rest/com/vmware/cis/session");
    assert_eq!(c.vm_list_url(Endpoint::Legacy), "https://vc.example/rest/vcenter/vm");
    assert_eq!(c.vm_by_name_url(Endpoint::Primary, "web"), "https://vc.example/api/vcenter/vm?filter.names=web");
    assert_eq!(c.vm_detail_url(Endpoint::Primary, "vm-7"), "https://vc.example/api/vcenter/vm/vm-7");
    assert_eq!(c.vm_cpu_url(Endpoint::Primary, "vm-7"), "https://vc.example/api/vcenter/vm/vm-7/hardware/cpu");
    assert_eq!(c.vm_memory_url(Endpoint::Legacy, "vm-7"), "https://vc.example/rest/vcenter/vm/vm-7/hardware/memory");
    assert_eq!(c.host_url(Endpoint::Primary, "host-1"), "https://vc.example/api/vcenter/host/host-1");
}

#[test]
fn only_not_found_falls_back() {
    assert_eq!(after_primary_status(404), StatusStep::RetryLegacy);
    assert_eq!(after_primary_status(401), StatusStep::Fail);
    assert_eq!(after_primary_status(500), StatusStep::Fail);
    assert_eq!(after_primary_status(200), StatusStep::Accept);
    assert_eq!(after_legacy_status(204), StatusStep::Accept);
    assert_eq!(after_legacy_status(404), StatusStep::Fail);
}

#[test]
fn authentication_on_primary() {
    let mut c = client();
    let step = on_primary_auth(201, &s("tok"));
    assert!(matches!(step, AuthStep::Authenticated(ref t) if t == "tok"));
    assert_eq!(c.conclude_auth(step), Ok(true));
    assert_eq!(c.session().unwrap(), "tok");
    assert_eq!(c.disconnect_request(), Some(("https://vc.example/api/session".to_string(), "tok".to_string())));
    assert!(matches!(on_primary_auth(200, &Json::Null), AuthStep::Malformed));
}

#[test]
fn authentication_on_legacy() {
    assert!(matches!(on_primary_auth(404, &Json::Null), AuthStep::TryLegacy));
    let wrapped = obj(vec![("value", s("abc"))]);
    assert!(matches!(on_legacy_auth(200, &wrapped), AuthStep::Authenticated(ref t) if t == "abc"));
    assert!(matches!(on_legacy_auth(200, &s("bare")), AuthStep::Authenticated(ref t) if t == "bare"));
    assert!(matches!(on_legacy_auth(200, &Json::Number(3)), AuthStep::Malformed));
    let mut c = client();
    assert_eq!(c.conclude_auth(AuthStep::Malformed), Err(GatewayError::Protocol));
}

#[test]
fn rejected_at_both_endpoints_leaves_no_session() {
    let mut c = client();
    assert!(matches!(on_primary_auth(401, &Json::Null), AuthStep::TryLegacy));
    let step = on_legacy_auth(401, &Json::Null);
    assert!(matches!(step, AuthStep::Rejected));
    assert_eq!(c.conclude_auth(step), Ok(false));
    assert_eq!(c.session(), Err(GatewayError::Transport));
    assert_eq!(c.disconnect_request(), None);
}

#[test]
fn inventory_in_envelope_or_bare() {
    let item = |id: &str, name: &str| obj(vec![("vm", s(id)), ("name", s(name))]);
    let wrapped = obj(vec![("value", Json::Array(vec![item("vm-1", "a"), item("vm-2", "b")]))]);
    let recs = vm_records_from(&wrapped).unwrap();
    assert_eq!(recs.len(), 2);
    assert_eq!(recs[1].vm, "vm-2");
    assert_eq!(recs[1].name, "b");
    let bare = Json::Array(vec![item("vm-3", "c"), obj(vec![])]);
    let recs = vm_records_from(&bare).unwrap();
    assert_eq!(recs.len(), 2);
    assert_eq!(recs[0].vm, "vm-3");
    assert_eq!(recs[1].vm, "unknown");
    assert_eq!(recs[1].name, "Unknown");
    assert!(vm_records_from(&obj(vec![("value", Json::Array(vec![]))])).unwrap().is_empty());
    let first = first_vm_record(&wrapped).unwrap().unwrap();
    assert_eq!(first.vm, "vm-1");
    assert!(first_vm_record(&Json::Array(vec![])).unwrap().is_none());
}

#[test]
fn malformed_inventory_is_a_protocol_error() {
    assert_eq!(vm_records_from(&obj(vec![("value", s("x"))])).err(), Some(GatewayError::Protocol));
    assert_eq!(vm_records_from(&Json::Null).err(), Some(GatewayError::Protocol));
    assert_eq!(vm_records_from(&obj(vec![("items", Json::Array(vec![]))])).err(), Some(GatewayError::Protocol));
    assert_eq!(first_vm_record(&s("vm-1")).err(), Some(GatewayError::Protocol));
}

#[test]
fn authentication_keeps_connection_settings() {
    let mut c = client();
    assert_eq!(c.conclude_auth(AuthStep::Authenticated("t".to_string())), Ok(true));
    assert_eq!(c.vcenter_host, "vc.example");
    assert_eq!(c.username, "admin");
    assert_eq!(c.password, "pw");
    assert!(c.verify_ssl);
}

#[test]
fn detail_is_read_from_payload() {
    let body = obj(vec![(
        "value",
        obj(vec![
            ("power_state", s("POWERED_ON")),
            ("guest_OS", obj(vec![("tools_running_status", s("NOT_RUNNING"))])),
            ("boot_time", s("2024-01-01T00:00:00Z")),
            ("host", s("host-9")),
        ]),
    )]);
    let d = vm_detail_from(&body);
    assert_eq!(d.power_state, PowerState::PoweredOn);
    assert_eq!(d.tools_running_status, ToolsStatus::NotRunning);
    assert_eq!(d.boot_time.as_deref(), Some("2024-01-01T00:00:00Z"));
    assert_eq!(d.host.as_deref(), Some("host-9"));
    let empty = vm_detail_from(&obj(vec![]));
    assert_eq!(empty.power_state, PowerState::Unknown);
    assert_eq!(empty.tools_running_status, ToolsStatus::Unknown);
    assert!(empty.boot_time.is_none());
}

#[test]
fn hardware_with_defaults() {
    let cpu = obj(vec![("value", obj(vec![("count", Json::Number(2)), ("cores_per_socket", Json::Number(4))]))]);
    let mem = obj(vec![("size_MiB", Json::Number(8192))]);
    let h = hardware_from(&cpu, &mem);
    assert_eq!((h.cpu_count, h.cores_per_socket, h.memory_limit_mb), (2, 4, 8192));
    assert_eq!(h.cpu_limit_mhz(), 16000);
    let h = hardware_from(&obj(vec![("count", Json::Number(-3))]), &Json::Null);
    assert_eq!((h.cpu_count, h.cores_per_socket, h.memory_limit_mb), (1, 1, 0));
}

#[test]
fn host_name_best_effort() {
    assert_eq!(host_name_from(&obj(vec![("value", obj(vec![("name", s("esx-1"))]))])).as_deref(), Some("esx-1"));
    assert_eq!(host_name_from(&obj(vec![("name", s("esx-2"))])).as_deref(), Some("esx-2"));
    assert_eq!(host_name_from(&Json::Null), None);
}
