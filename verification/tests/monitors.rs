use openscenario::monitors::{MonitorDeclaration, MonitorDeclarations};

#[test]
fn test_monitor_declarations_creation() {
    let decls = MonitorDeclarations::new();
    assert!(decls.is_empty());
    assert_eq!(decls.len(), 0);

    let single_monitor = MonitorDeclarations::with_monitor("test_monitor".to_string(), true);
    assert!(!single_monitor.is_empty());
    assert_eq!(single_monitor.len(), 1);
}

#[test]
fn test_monitor_declaration_creation() {
    let basic_monitor = MonitorDeclaration::new("speed_monitor".to_string(), true);
    assert_eq!(basic_monitor.value.as_literal(), Some(&true));

    let disabled_monitor = MonitorDeclaration::new("debug_monitor".to_string(), false);
    assert_eq!(disabled_monitor.value.as_literal(), Some(&false));
}

#[test]
fn test_add_monitor() {
    let mut decls = MonitorDeclarations::new();
    decls.add_monitor("monitor1".to_string(), true);
    decls.add_monitor("monitor2".to_string(), false);

    assert_eq!(decls.len(), 2);
    assert_eq!(decls.monitor_declarations[0].value.as_literal(), Some(&true));
    assert_eq!(decls.monitor_declarations[1].value.as_literal(), Some(&false));
}
