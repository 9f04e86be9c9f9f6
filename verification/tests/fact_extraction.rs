use runory_agent::facts::{
    extract_facts, DiskUsageFact, FactProvenance, ToolFactData, ToolResultFacts, DEFAULT_FACT_TTL_MS,
};

/// A fresh random identifier.
fn new_id() -> u128 {
    uuid::Uuid::new_v4().as_u128()
}

fn result(tool_name: &str, success: bool, data: Option<ToolFactData>) -> ToolResultFacts {
    ToolResultFacts { tool_name: tool_name.into(), success, data }
}

fn pairs(result: &ToolResultFacts) -> Vec<(String, String)> {
    extract_facts(result, new_id(), None, 5, None).into_iter().map(|f| (f.key, f.value)).collect()
}

fn pair(key: &str, value: &str) -> (String, String) {
    (key.to_owned(), value.to_owned())
}

#[test]
fn nginx_facts_are_bound_to_the_call_target_and_event() {
    let call = new_id();
    let target = new_id();
    let nginx = result(
        "nginx.test",
        true,
        Some(ToolFactData::NginxTest { valid: false, config_file: Some("/etc/nginx/nginx.conf".into()) }),
    );
    let facts = extract_facts(&nginx, call, Some(target), 77, Some(9));
    assert_eq!(facts.len(), 2);
    assert_eq!((facts[0].key.as_str(), facts[0].value.as_str()), ("nginx.config_valid", "false"));
    assert_eq!((facts[1].key.as_str(), facts[1].value.as_str()), ("nginx.config_file", "/etc/nginx/nginx.conf"));
    for fact in &facts {
        assert_eq!(fact.tool_call_id, Some(call));
        assert_eq!(fact.target_id, Some(target));
        assert_eq!(fact.observed_at_epoch_ms, 77);
        assert_eq!(fact.source_event_seq, Some(9));
        assert_eq!(fact.source_tool.as_deref(), Some("nginx.test"));
        assert_eq!(fact.ttl_ms, DEFAULT_FACT_TTL_MS);
        assert_eq!(fact.provenance, FactProvenance::ToolObservation);
    }
}

#[test]
fn failed_empty_and_write_results_seed_no_facts() {
    let data = || Some(ToolFactData::HttpResponse { status_code: 200 });
    assert!(pairs(&result("http.get", false, data())).is_empty());
    assert!(pairs(&result("http.get", true, None)).is_empty());
    assert!(pairs(&result("file.patch", true, Some(ToolFactData::Write))).is_empty());
    assert_eq!(pairs(&result("http.get", true, data())), vec![pair("http.status", "200")]);
}

#[test]
fn each_kind_of_result_offers_its_facts() {
    let info = ToolFactData::SystemInfo {
        operating_system: "Ubuntu 24.04".into(),
        hostname: String::new(),
        kernel_release: "6.8.0".into(),
    };
    assert_eq!(pairs(&result("system.info", true, Some(info))), vec![pair("os", "Ubuntu 24.04"), pair("kernel", "6.8.0")]);
    let disk = ToolFactData::SystemDisk {
        disks: vec![
            DiskUsageFact { mount: "/".into(), usage: "91%".into() },
            DiskUsageFact { mount: "/var".into(), usage: "40%".into() },
        ],
    };
    assert_eq!(
        pairs(&result("system.disk_usage", true, Some(disk))),
        vec![pair("disk.usage./", "91%"), pair("disk.usage./var", "40%")]
    );
    let status = ToolFactData::ServiceStatus { service: "nginx".into(), status: "active".into() };
    assert_eq!(pairs(&result("service.status", true, Some(status))), vec![pair("service.nginx.status", "active")]);
    let logs = ToolFactData::ServiceLogs { service: "nginx".into(), entry_count: 0 };
    assert_eq!(
        pairs(&result("service.logs", true, Some(logs))),
        vec![pair("service.nginx.logs_available", "false"), pair("service.nginx.log_lines", "0")]
    );
    let port = ToolFactData::NetworkPortCheck { host: "db".into(), port: 5432, reachable: true };
    assert_eq!(pairs(&result("network.port_check", true, Some(port))), vec![pair("port.db.5432", "open")]);
    let docker = ToolFactData::Diagnostic {
        category: "docker-inspect".into(),
        container: Some("web".into()),
        running: None,
        path: None,
    };
    assert_eq!(pairs(&result("docker.inspect", true, Some(docker))), vec![pair("docker.web.running", "false")]);
    let file = ToolFactData::Diagnostic {
        category: "file".into(),
        container: None,
        running: None,
        path: Some("/etc/hosts".into()),
    };
    assert_eq!(pairs(&result("file.stat", true, Some(file))), vec![pair("file.exists./etc/hosts", "true")]);
    let other = ToolFactData::Diagnostic { category: "cpu".into(), container: None, running: None, path: None };
    assert!(pairs(&result("diag", true, Some(other))).is_empty());
}
