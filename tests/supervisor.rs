use sidecar_supervisor::{
    connection_info, discovery_step, extract_port, health_step, loopback_address,
    response_is_healthy, DiscoveryStep, EnsureStep, HealthStep, Observation, ProcessEvent,
    RuntimeDescriptor, ShutdownPlan, SpawnError, Supervisor, SupervisorError, DESCRIPTOR_POLL_MS,
    DESCRIPTOR_TIMEOUT_MS, HEALTH_POLL_MS, HEALTH_TIMEOUT_MS,
};

fn descriptor(port: u16) -> RuntimeDescriptor {
    RuntimeDescriptor {
        port,
        addr: "127.0.0.1".to_string(),
        app_data_dir: "/data".to_string(),
        log_dir: "/data/logs".to_string(),
    }
}

/// Runs discovery over a timeline of looks, one per poll interval.
fn discover(looks: Vec<Observation>) -> Result<RuntimeDescriptor, SupervisorError> {
    let mut elapsed: u64 = 0;
    for obs in looks {
        match discovery_step(obs, elapsed) {
            DiscoveryStep::Ready(d) => return Ok(d),
            DiscoveryStep::Fail(e) => return Err(e),
            DiscoveryStep::Wait => elapsed += DESCRIPTOR_POLL_MS,
        }
    }
    panic!("discovery did not finish");
}

/// Runs a health wait over a sequence of probe results.
fn await_health(probes: Vec<bool>) -> HealthStep {
    let mut elapsed: u64 = 0;
    for ok in probes {
        match health_step(ok, elapsed) {
            HealthStep::Retry => elapsed += HEALTH_POLL_MS,
            other => return other,
        }
    }
    panic!("health wait did not finish");
}

fn running_supervisor(handle: u32) -> Supervisor<u32> {
    let mut s: Supervisor<u32> = Supervisor::new();
    assert_eq!(s.ensure_step(), EnsureStep::SpawnNeeded);
    assert_eq!(s.record_spawn(Ok(handle)), Ok(()));
    s
}

#[test]
fn port_zero_then_bound_descriptor_yields_urls() {
    let mut s = running_supervisor(7);
    let looks = vec![
        Observation::Missing,
        Observation::Parsed(descriptor(0)),
        Observation::Parsed(descriptor(0)),
        Observation::Parsed(descriptor(5173)),
    ];
    let d = discover(looks).unwrap();
    assert_eq!(d.port, 5173);
    let info = s.complete(&d);
    assert_eq!(info.origin, "http://127.0.0.1:5173");
    assert_eq!(info.ws_url, "ws://127.0.0.1:5173/ws");
    assert_eq!(info.log_dir, "/data/logs");
    assert_eq!(info.data_dir, "/data");
    assert_eq!(s.cached_info(), Some(info));
}

#[test]
fn missing_descriptor_times_out() {
    let n = (DESCRIPTOR_TIMEOUT_MS / DESCRIPTOR_POLL_MS + 2) as usize;
    let looks: Vec<Observation> = (0..n).map(|_| Observation::Missing).collect();
    let r = discover(looks);
    assert_eq!(r, Err(SupervisorError::DescriptorTimeout));
    assert_eq!(
        SupervisorError::DescriptorTimeout.message(),
        "El backend no entregó información de puerto."
    );
}

#[test]
fn unhealthy_backend_still_yields_info() {
    let mut s = running_supervisor(3);
    let d = discover(vec![Observation::Parsed(descriptor(5173))]).unwrap();
    let n = (HEALTH_TIMEOUT_MS / HEALTH_POLL_MS + 2) as usize;
    assert_eq!(await_health(vec![false; n]), HealthStep::Pending);
    let info = s.complete(&d);
    assert_eq!(info.origin, "http://127.0.0.1:5173");
    assert_eq!(s.cached_info(), Some(info));
}

#[test]
fn termination_after_success_respawns() {
    let mut s = running_supervisor(1);
    s.complete(&descriptor(5173));
    assert!(s.cached_info().is_some());
    assert!(s.on_event(&ProcessEvent::Terminated));
    assert_eq!(s.cached_info(), None);
    assert_eq!(s.ensure_step(), EnsureStep::SpawnNeeded);
    assert_eq!(s.record_spawn(Ok(2)), Ok(()));
    let info = s.complete(&descriptor(6000));
    assert_eq!(info.origin, "http://127.0.0.1:6000");
    assert_eq!(s.cached_info(), Some(info));
}

#[test]
fn process_error_clears_state() {
    let mut s = running_supervisor(1);
    s.complete(&descriptor(5173));
    assert!(s.on_event(&ProcessEvent::Error("channel closed".to_string())));
    assert_eq!(s.cached_info(), None);
    assert_eq!(s.ensure_step(), EnsureStep::SpawnNeeded);
}

#[test]
fn output_events_keep_state() {
    let mut s = running_supervisor(1);
    s.complete(&descriptor(5173));
    assert!(!s.on_event(&ProcessEvent::Stdout("listening".to_string())));
    assert!(!s.on_event(&ProcessEvent::Stderr("warn".to_string())));
    assert!(!s.on_event(&ProcessEvent::Other));
    assert!(s.cached_info().is_some());
    assert_eq!(s.ensure_step(), EnsureStep::AlreadyRunning);
}

#[test]
fn repeated_ensure_spawns_once() {
    let mut s: Supervisor<u32> = Supervisor::new();
    let mut spawns = 0;
    for i in 0..5u32 {
        if s.ensure_step() == EnsureStep::SpawnNeeded {
            spawns += 1;
            s.record_spawn(Ok(i)).unwrap();
        }
    }
    assert_eq!(spawns, 1);
}

#[test]
fn failed_spawn_is_reported_and_retried() {
    let mut s: Supervisor<u32> = Supervisor::new();
    let r = s.record_spawn(Err(SpawnError::Launch("not found".to_string())));
    assert_eq!(r, Err(SupervisorError::SpawnFailure("not found".to_string())));
    assert_eq!(
        r.unwrap_err().message(),
        "No se pudo iniciar el backend: not found"
    );
    assert_eq!(s.ensure_step(), EnsureStep::SpawnNeeded);
}

#[test]
fn failed_preparation_has_its_own_message() {
    let mut s: Supervisor<u32> = Supervisor::new();
    let r = s.record_spawn(Err(SpawnError::Prepare("no sidecar".to_string())));
    assert_eq!(r, Err(SupervisorError::PrepareFailure("no sidecar".to_string())));
    assert_eq!(
        r.unwrap_err().message(),
        "No se pudo preparar el backend: no sidecar"
    );
    assert_eq!(s.ensure_step(), EnsureStep::SpawnNeeded);
    assert_eq!(s.cached_info(), None);
}

#[test]
fn shutdown_with_info_takes_handle() {
    let mut s = running_supervisor(9);
    s.complete(&descriptor(5173));
    let plan = s.shutdown();
    assert_eq!(plan, ShutdownPlan::Stop { signal_port: Some(5173), handle: Some(9) });
    assert_eq!(s.cached_info(), None);
    assert_eq!(s.ensure_step(), EnsureStep::SpawnNeeded);
}

#[test]
fn shutdown_without_info_is_noop() {
    let mut s: Supervisor<u32> = Supervisor::new();
    assert_eq!(s.shutdown(), ShutdownPlan::Nothing);
    let mut r = running_supervisor(4);
    assert_eq!(r.shutdown(), ShutdownPlan::Nothing);
    assert_eq!(r.ensure_step(), EnsureStep::AlreadyRunning);
}

#[test]
fn completion_after_termination_is_not_cached() {
    let mut s = running_supervisor(1);
    s.on_event(&ProcessEvent::Terminated);
    let info = s.complete(&descriptor(5173));
    assert_eq!(info.origin, "http://127.0.0.1:5173");
    assert_eq!(s.cached_info(), None);
}

#[test]
fn data_dir_is_settled_once() {
    let mut s: Supervisor<u32> = Supervisor::new();
    assert_eq!(s.data_dir(), None);
    assert_eq!(s.settle_data_dir("/a".to_string()), "/a");
    assert_eq!(s.settle_data_dir("/b".to_string()), "/a");
    assert_eq!(s.data_dir(), Some("/a".to_string()));
}

#[test]
fn discovery_takes_bound_descriptor_at_once() {
    assert_eq!(
        discovery_step(Observation::Parsed(descriptor(80)), DESCRIPTOR_TIMEOUT_MS - 1),
        DiscoveryStep::Ready(descriptor(80))
    );
    assert_eq!(
        discovery_step(Observation::Parsed(descriptor(80)), DESCRIPTOR_TIMEOUT_MS),
        DiscoveryStep::Fail(SupervisorError::DescriptorTimeout)
    );
    assert_eq!(
        discovery_step(Observation::Malformed("x".to_string()), DESCRIPTOR_TIMEOUT_MS),
        DiscoveryStep::Fail(SupervisorError::DescriptorTimeout)
    );
    assert_eq!(discovery_step(Observation::Parsed(descriptor(0)), 0), DiscoveryStep::Wait);
    assert_eq!(
        discovery_step(Observation::Parsed(descriptor(0)), DESCRIPTOR_TIMEOUT_MS),
        DiscoveryStep::Fail(SupervisorError::DescriptorTimeout)
    );
    assert_eq!(
        discovery_step(Observation::Missing, DESCRIPTOR_TIMEOUT_MS - 1),
        DiscoveryStep::Wait
    );
}

#[test]
fn malformed_or_unreadable_descriptor_fails_at_once() {
    let r = discovery_step(Observation::Malformed("expected value".to_string()), 0);
    assert_eq!(
        r,
        DiscoveryStep::Fail(SupervisorError::DescriptorParseError("expected value".to_string()))
    );
    assert_eq!(
        SupervisorError::DescriptorParseError("x".to_string()).message(),
        "Runtime inválido: x"
    );
    let r = discovery_step(Observation::Unreadable("denied".to_string()), 0);
    assert_eq!(
        r,
        DiscoveryStep::Fail(SupervisorError::DescriptorUnreadable("denied".to_string()))
    );
    assert_eq!(
        SupervisorError::DescriptorUnreadable("denied".to_string()).message(),
        "No se pudo leer runtime: denied"
    );
}

#[test]
fn health_response_needs_ok_status() {
    assert!(response_is_healthy("HTTP/1.1 200 OK\r\nContent-Length: 2\r\n\r\nok"));
    assert!(!response_is_healthy("HTTP/1.1 503 Service Unavailable\r\n\r\n"));
    assert!(!response_is_healthy(""));
    assert!(!response_is_healthy("200 O"));
    assert!(response_is_healthy("200 OK"));
    assert!(!response_is_healthy("HTTP/1.1 503 Busy\r\n\r\n200 OK"));
    assert!(!response_is_healthy("HTTP/1.1 503 Busy\r\nX-Note: 200 OK\r\n\r\n"));
    assert!(response_is_healthy("HTTP/1.1 200 OK"));
    assert!(response_is_healthy("HTTP/1.1 200 OK\r"));
    assert!(!response_is_healthy("\r\nHTTP/1.1 200 OK"));
}

#[test]
fn health_wait_steps() {
    assert_eq!(health_step(true, HEALTH_TIMEOUT_MS + 1), HealthStep::Healthy);
    assert_eq!(health_step(false, 0), HealthStep::Retry);
    assert_eq!(health_step(false, HEALTH_TIMEOUT_MS), HealthStep::Pending);
    assert_eq!(await_health(vec![false, false, true]), HealthStep::Healthy);
}

#[test]
fn port_is_read_from_origin() {
    assert_eq!(extract_port("http://127.0.0.1:5173"), Some(5173));
    assert_eq!(extract_port("http://127.0.0.1:65535"), Some(65535));
    assert_eq!(extract_port("http://127.0.0.1:65536"), None);
    assert_eq!(extract_port("http://127.0.0.1:0"), Some(0));
    assert_eq!(extract_port("x:+80"), Some(80));
    assert_eq!(extract_port("x:"), None);
    assert_eq!(extract_port("x:+"), None);
    assert_eq!(extract_port("x:12a"), None);
    assert_eq!(extract_port("x:-1"), None);
    assert_eq!(extract_port("no port"), None);
    assert_eq!(extract_port("a:1:2"), Some(2));
    assert_eq!(extract_port("x:000080"), Some(80));
}

#[test]
fn connection_info_round_trips_port() {
    for port in [1u16, 9, 10, 80, 5173, 65535] {
        let info = connection_info(&descriptor(port));
        assert_eq!(info.origin, format!("http://127.0.0.1:{port}"));
        assert_eq!(info.ws_url, format!("ws://127.0.0.1:{port}/ws"));
        assert_eq!(extract_port(&info.origin), Some(port));
    }
    assert_eq!(loopback_address(8080), "127.0.0.1:8080");
    assert_eq!(loopback_address(0), "127.0.0.1:0");
}
