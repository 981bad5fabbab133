//! The kinds of failure of the platform, and what each of them leads to.
use vstd::prelude::*;

verus! {

/// A kind of failure.
#[derive(PartialEq, Eq, Structural, Clone, Copy, Debug)]
pub enum ErrorKind {
    /// The cluster cannot be reached, or answered with a server error.
    ClusterUnavailable,
    /// The storage holds no function of the name.
    NotFound,
    /// The function was created a second time.
    Conflict,
    /// The build of the dispatcher failed.
    CompilationFailed,
    /// The tracing replica gave no trace in time.
    TracingTimeout,
    /// No pod of the new dispatcher version became ready in time.
    DeploymentRolloutTimeout,
    /// The backend failed, or could not be reached.
    InvocationError,
    /// The native trace met a path that was never traced.
    NativeTraceUnknown,
    /// The cluster or the storage failed in a way that has no name here.
    Unknown,
}

impl ErrorKind {
    /// Whether a manager that meets the failure moves to its `Error` state.
    /// It does so for a failed build and a failed rollout; after any other
    /// failure it stays where it is.
    pub open spec fn is_fatal(self) -> bool {
        self == ErrorKind::CompilationFailed || self == ErrorKind::DeploymentRolloutTimeout
    }

    /// Whether the failure is kept from the client, who is served another
    /// way.
    pub open spec fn is_hidden(self) -> bool {
        self == ErrorKind::NativeTraceUnknown
    }

    /// The HTTP status with which the failure reaches a client.
    pub open spec fn status(self) -> u16 {
        match self {
            ErrorKind::ClusterUnavailable => 503,
            ErrorKind::NotFound => 404,
            ErrorKind::Conflict => 409,
            _ => 500,
        }
    }

    /// Whether a manager that meets the failure moves to its `Error` state.
    pub fn moves_to_error_state(&self) -> (res: bool)
        ensures
            res == self.is_fatal(),
    {
        match self {
            ErrorKind::CompilationFailed | ErrorKind::DeploymentRolloutTimeout => true,
            _ => false,
        }
    }

    /// The HTTP status with which the failure reaches a client, or `None`
    /// for a failure that is kept from the client.
    pub fn status_code(&self) -> (res: Option<u16>)
        ensures
            res == if self.is_hidden() {
                None
            } else {
                Some(self.status())
            },
    {
        match self {
            ErrorKind::ClusterUnavailable => Some(503),
            ErrorKind::NotFound => Some(404),
            ErrorKind::Conflict => Some(409),
            ErrorKind::NativeTraceUnknown => None,
            _ => Some(500),
        }
    }
}

/// The kind of failure that an HTTP status of the cluster or of the storage
/// stands for, or `None` for a status that reports success.
pub open spec fn cluster_failure(status: u16) -> Option<ErrorKind> {
    if 200 <= status < 300 {
        None
    } else if status == 404 {
        Some(ErrorKind::NotFound)
    } else if status == 409 {
        Some(ErrorKind::Conflict)
    } else if 500 <= status < 600 {
        Some(ErrorKind::ClusterUnavailable)
    } else {
        Some(ErrorKind::Unknown)
    }
}

/// Sorts the answer of the storage service to a probe for a function: the
/// function is there (`Ok`), or the probe failed in some kind.
pub fn storage_probe_result(status: u16) -> (res: Result<(), ErrorKind>)
    ensures
        res == match cluster_failure(status) {
            None => Ok::<(), ErrorKind>(()),
            Some(kind) => Err::<(), ErrorKind>(kind),
        },
{
    if 200 <= status && status < 300 {
        Ok(())
    } else if status == 404 {
        Err(ErrorKind::NotFound)
    } else if status == 409 {
        Err(ErrorKind::Conflict)
    } else if 500 <= status && status < 600 {
        Err(ErrorKind::ClusterUnavailable)
    } else {
        Err(ErrorKind::Unknown)
    }
}

} // verus!
