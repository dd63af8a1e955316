use proton_downloader::registry::Registry;

#[test]
fn second_request_for_same_identifier_is_refused() {
    let mut reg = Registry::new();
    assert!(reg.try_begin("GE-Proton8-1".to_string()));
    assert!(!reg.try_begin("GE-Proton8-1".to_string()));
    assert!(reg.is_active(&"GE-Proton8-1".to_string()));
}

#[test]
fn different_identifiers_run_side_by_side() {
    let mut reg = Registry::new();
    assert!(reg.try_begin("a".to_string()));
    assert!(reg.try_begin("b".to_string()));
    assert!(reg.is_active(&"a".to_string()));
    assert!(reg.is_active(&"b".to_string()));
}

#[test]
fn finished_identifier_can_be_installed_again() {
    let mut reg = Registry::new();
    assert!(reg.try_begin("a".to_string()));
    assert!(reg.try_begin("b".to_string()));
    reg.finish(&"a".to_string());
    assert!(!reg.is_active(&"a".to_string()));
    assert!(reg.is_active(&"b".to_string()));
    assert!(reg.try_begin("a".to_string()));
}
