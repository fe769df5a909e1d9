//! The lifecycle state machine: configuration, launch transitions, and the
//! errors each misuse surfaces.

use jaeger_tracing::{
    next_probe_port, AgentAddr, Jaeger, JaegerConfig, JaegerError, LifecycleStage, BASE_PORT,
};

#[test]
fn builder_defaults() {
    let cfg = JaegerConfig::builder().build();
    assert_eq!(cfg.node_name, "unknown_");
    let addr = cfg.agent_addr;
    assert_eq!((addr.a, addr.b, addr.c, addr.d, addr.port), (127, 0, 0, 1, 6831));
}

#[test]
fn builder_overrides() {
    let cfg = JaegerConfig::builder()
        .named("alice")
        .agent(AgentAddr { a: 10, b: 0, c: 0, d: 7, port: 7000 })
        .build();
    assert_eq!(cfg.node_name, "alice");
    assert_eq!(cfg.agent_addr.port, 7000);
    assert_eq!(cfg.agent_addr.a, 10);
}

#[test]
fn launch_succeeds_from_configured() {
    let mut manager = Jaeger::new(JaegerConfig::builder().named("alice").build());
    assert_eq!(manager.stage(), LifecycleStage::Configured);
    let handle = manager.launch(true);
    assert!(handle.is_ok());
    assert_eq!(manager.stage(), LifecycleStage::Launched);
    assert_eq!(handle.unwrap().agent_addr.port, 6831);
}

#[test]
fn launch_twice_returns_already_launched() {
    let mut manager = Jaeger::new(JaegerConfig::builder().build());
    assert!(manager.launch(true).is_ok());
    let second = manager.launch(true);
    assert!(matches!(second, Err(JaegerError::AlreadyLaunched)));
    assert_eq!(manager.stage(), LifecycleStage::Launched);
}

#[test]
fn launch_before_configure_returns_missing_configuration() {
    let mut manager = Jaeger::uninitialized();
    let result = manager.launch(true);
    assert!(matches!(result, Err(JaegerError::MissingConfiguration)));
    assert_eq!(manager.stage(), LifecycleStage::Uninitialized);
}

#[test]
fn exhausted_bind_scan_returns_port_allocation_error() {
    let mut manager = Jaeger::new(JaegerConfig::builder().named("alice").build());
    let result = manager.launch(false);
    assert!(matches!(result, Err(JaegerError::PortAllocationError)));
    assert_eq!(manager.stage(), LifecycleStage::Configured);
    let retry = manager.launch(true);
    assert!(retry.is_ok());
    assert_eq!(manager.stage(), LifecycleStage::Launched);
}

#[test]
fn probe_ports_walk_the_space_above_the_base_port() {
    assert_eq!(BASE_PORT, 49000);
    assert_eq!(next_probe_port(49000), Some(49001));
    assert_eq!(next_probe_port(65533), Some(65534));
    assert_eq!(next_probe_port(65534), None);
    assert_eq!(next_probe_port(65535), None);
}

#[test]
fn probe_port_scan_terminates() {
    let mut port = BASE_PORT;
    let mut steps = 0u32;
    while let Some(next) = next_probe_port(port) {
        assert_eq!(next, port + 1);
        port = next;
        steps += 1;
    }
    assert_eq!(port, 65534);
    assert_eq!(steps, 65534 - 49000);
}

#[test]
fn error_variants_are_distinguishable() {
    let all = [
        JaegerError::AlreadyLaunched,
        JaegerError::MissingConfiguration,
        JaegerError::PortAllocationError,
        JaegerError::SendError,
    ];
    for (i, a) in all.iter().enumerate() {
        for (j, b) in all.iter().enumerate() {
            assert_eq!(a == b, i == j);
        }
    }
}
