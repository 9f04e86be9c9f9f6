use runory_agent::routing::planning_hints_from_goal;

#[test]
fn extracts_service_url_and_nginx_hint() {
    let hints = planning_hints_from_goal("Check service: nginx at https://example.com/health");
    assert_eq!(hints.service.as_deref(), Some("nginx"));
    assert_eq!(
        hints.http_url.as_deref(),
        Some("https://example.com/health")
    );
    assert!(hints.include_nginx_test);
}

#[test]
fn does_not_invent_optional_targets() {
    let hints = planning_hints_from_goal("Why is this server slow?");
    assert!(hints.service.is_none());
    assert!(hints.http_url.is_none());
    assert!(!hints.include_nginx_test);
}

#[test]
fn systemd_marker_and_quoted_url_are_recognized() {
    let hints = planning_hints_from_goal("Restart SYSTEMD:Redis then open \"http://10.0.0.1:8080/\",");
    assert_eq!(hints.service.as_deref(), Some("redis"));
    assert_eq!(hints.http_url.as_deref(), Some("http://10.0.0.1:8080/"));
    assert!(!hints.include_nginx_test);
}

#[test]
fn chinese_service_marker_takes_the_token_after_the_colon() {
    let hints = planning_hints_from_goal("请检查服务：mysql 的状态，网站很慢");
    assert_eq!(hints.service.as_deref(), Some("mysql"));
    assert!(hints.include_nginx_test);
    let without_colon = planning_hints_from_goal("请检查服务 mysql");
    assert!(without_colon.service.is_none());
}

#[test]
fn service_marker_without_a_token_yields_no_service() {
    let hints = planning_hints_from_goal("service:   ");
    assert!(hints.service.is_none());
    let only_first_piece = planning_hints_from_goal("service: service: api");
    assert!(only_first_piece.service.is_none());
}
