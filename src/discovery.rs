use vstd::prelude::*;
use vstd::string::*;
use crate::descriptor::{RuntimeDescriptor, DESCRIPTOR_TIMEOUT_MS};

verus! {

/// Why a request for connection info failed.
#[derive(Debug, PartialEq, Eq)]
pub enum SupervisorError {
    /// The backend's launch command could not be prepared.
    PrepareFailure(String),
    /// The backend could not be launched.
    SpawnFailure(String),
    /// No usable descriptor appeared within the budget.
    DescriptorTimeout,
    /// The descriptor exists but could not be read.
    DescriptorUnreadable(String),
    /// The descriptor exists but its content is malformed.
    DescriptorParseError(String),
}

impl SupervisorError {
    /// The text shown to the user for this error.
    pub fn message(&self) -> (r: String)
        ensures
            r@ == error_text(self),
    {
        match self {
            SupervisorError::PrepareFailure(e) => {
                let mut s = String::from_str("No se pudo preparar el backend: ");
                s.append(e.as_str());
                s
            },
            SupervisorError::SpawnFailure(e) => {
                let mut s = String::from_str("No se pudo iniciar el backend: ");
                s.append(e.as_str());
                s
            },
            SupervisorError::DescriptorTimeout => String::from_str(
                "El backend no entregó información de puerto.",
            ),
            SupervisorError::DescriptorUnreadable(e) => {
                let mut s = String::from_str("No se pudo leer runtime: ");
                s.append(e.as_str());
                s
            },
            SupervisorError::DescriptorParseError(e) => {
                let mut s = String::from_str("Runtime inválido: ");
                s.append(e.as_str());
                s
            },
        }
    }
}

pub open spec fn error_text(e: &SupervisorError) -> Seq<char> {
    match e {
        SupervisorError::PrepareFailure(d) => "No se pudo preparar el backend: "@ + d@,
        SupervisorError::SpawnFailure(d) => "No se pudo iniciar el backend: "@ + d@,
        SupervisorError::DescriptorTimeout => "El backend no entregó información de puerto."@,
        SupervisorError::DescriptorUnreadable(d) => "No se pudo leer runtime: "@ + d@,
        SupervisorError::DescriptorParseError(d) => "Runtime inválido: "@ + d@,
    }
}

/// Why a launch produced no process.
#[derive(Debug, PartialEq, Eq)]
pub enum SpawnError {
    /// The launch command could not be prepared (e.g. the executable was not
    /// found among the bundled ones).
    Prepare(String),
    /// The prepared command could not be started.
    Launch(String),
}

/// The error a request reports for a failed launch.
pub open spec fn launch_error(e: SpawnError) -> SupervisorError {
    match e {
        SpawnError::Prepare(d) => SupervisorError::PrepareFailure(d),
        SpawnError::Launch(d) => SupervisorError::SpawnFailure(d),
    }
}

/// What one look at the descriptor file found.
pub enum Observation {
    /// The file does not exist (yet).
    Missing,
    /// The file exists but reading it failed.
    Unreadable(String),
    /// The file exists but does not hold a descriptor.
    Malformed(String),
    /// The file holds a descriptor, possibly one not yet bound (port zero).
    Parsed(RuntimeDescriptor),
}

/// What discovery does after one look.
#[derive(Debug, PartialEq, Eq)]
pub enum DiscoveryStep {
    /// A valid descriptor was seen: discovery is over.
    Ready(RuntimeDescriptor),
    /// Nothing usable yet: pause and look again.
    Wait,
    /// Discovery failed for good.
    Fail(SupervisorError),
}

/// Decides, for a look at the descriptor file begun `elapsed_ms` after
/// discovery began, whether discovery is done, goes on, or has failed.
///
/// Once the budget is spent, discovery has failed with a timeout, whatever the
/// look found. Within it, a descriptor with a bound port is taken at once; one
/// with port zero, or a missing file, means "not yet". A file that exists but
/// cannot be read or parsed ends discovery at once.
pub fn discovery_step(obs: Observation, elapsed_ms: u64) -> (r: DiscoveryStep)
    ensures
        elapsed_ms >= DESCRIPTOR_TIMEOUT_MS ==> r == DiscoveryStep::Fail(SupervisorError::DescriptorTimeout),
        elapsed_ms < DESCRIPTOR_TIMEOUT_MS ==> r == match obs {
            Observation::Parsed(d) => if d.port > 0 {
                DiscoveryStep::Ready(d)
            } else {
                DiscoveryStep::Wait
            },
            Observation::Unreadable(e) => DiscoveryStep::Fail(SupervisorError::DescriptorUnreadable(e)),
            Observation::Malformed(e) => DiscoveryStep::Fail(SupervisorError::DescriptorParseError(e)),
            Observation::Missing => DiscoveryStep::Wait,
        },
{
    if elapsed_ms >= DESCRIPTOR_TIMEOUT_MS {
        return DiscoveryStep::Fail(SupervisorError::DescriptorTimeout);
    }
    match obs {
        Observation::Parsed(d) => {
            if d.port > 0 {
                DiscoveryStep::Ready(d)
            } else {
                DiscoveryStep::Wait
            }
        },
        Observation::Unreadable(e) => DiscoveryStep::Fail(SupervisorError::DescriptorUnreadable(e)),
        Observation::Malformed(e) => DiscoveryStep::Fail(SupervisorError::DescriptorParseError(e)),
        Observation::Missing => DiscoveryStep::Wait,
    }
}

} // verus!
