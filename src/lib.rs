//! Launcher-side supervision of a backend sidecar process.
//!
//! The supervisor owns at most one backend process, finds the port it bound
//! through a runtime descriptor file, checks that it answers, caches how to
//! reach it, and stops it on exit. Every decision is a verified function of
//! plain values; the caller performs the process, file and socket work.
mod descriptor;
mod discovery;
mod health;
mod platform;
mod supervisor;
mod text;

pub use descriptor::{
    connection_info, lemma_origin_port_round_trip, ConnectionInfo, ConnectionInfoView,
    DescriptorView, RuntimeDescriptor,
    DESCRIPTOR_POLL_MS, DESCRIPTOR_TIMEOUT_MS, RUNTIME_FILE,
};
pub use discovery::{discovery_step, DiscoveryStep, Observation, SpawnError, SupervisorError};
pub use health::{
    health_step, loopback_address, response_is_healthy, HealthStep, HEALTH_POLL_MS,
    HEALTH_REQUEST, HEALTH_TIMEOUT_MS, PROBE_READ_TIMEOUT_MS, SHUTDOWN_REQUEST,
};
pub use platform::{
    app_data_dir_parts, default_window_label, is_blank, same_text, sidecar_location,
    spawn_environment, window_path, DataDirInputs, APP_DATA_DIR_NAME, SIDECAR_NAME,
};
pub use supervisor::{
    lemma_ensure_spawns_once, lemma_running_never_spawns, lemma_shutdown_is_total,
    lemma_shutdown_signals_discovered_port, lemma_shutdown_without_info_is_noop,
    lemma_termination_forces_fresh_cycle, EnsureStep, ProcessEvent, ShutdownPlan, Supervisor,
    SupervisorView,
};
pub use text::{extract_port, push_decimal};
