//! Version resolution and installation-state evaluation.
//!
//! The remote endpoint answers with a plain-text body; after trimming
//! whitespace it must be a non-empty token. The local installation carries a
//! marker file whose trimmed content names the installed version; comparing
//! the two classifies a run as fresh install, update, or already current.

use vstd::prelude::*;
use crate::bytes::{trimmed, trim_ascii, bytes_eq};

verus! {

/// Why resolving the remote version failed. A failure here is fatal to the
/// whole run; there is no retry at this layer.
#[derive(Clone, Copy, Debug, PartialEq, Eq, Structural)]
pub enum ResolveError {
    /// The endpoint was unreachable or answered with a non-success status.
    Network,
    /// The response body was empty after trimming whitespace.
    Protocol,
}

/// Classification of a bootstrap run, computed once from the local marker
/// and the resolved remote version.
#[derive(Clone, Copy, Debug, PartialEq, Eq, Structural)]
pub enum InstallationState {
    /// The installation directory does not exist yet.
    FreshInstall,
    /// The marker matches the remote version; nothing to do.
    UpToDate,
    /// The directory exists but the marker is absent or stale.
    UpdateAvailable,
}

/// Turn the raw body of the version endpoint into a version token: the body
/// trimmed of surrounding whitespace, which must be non-empty.
pub fn parse_version_response(body: &Vec<u8>) -> (r: Result<Vec<u8>, ResolveError>)
    ensures
        r is Ok <==> trimmed(body@).len() > 0,
        r matches Ok(v) ==> v@ == trimmed(body@),
        r is Err ==> r->Err_0 == ResolveError::Protocol,
{
    let t = trim_ascii(body);
    if t.len() == 0 {
        Err(ResolveError::Protocol)
    } else {
        Ok(t)
    }
}

/// The marker content, trimmed, names exactly the remote version.
pub open spec fn marker_current(marker: Option<Seq<u8>>, remote: Seq<u8>) -> bool {
    marker matches Some(m) && trimmed(m) == remote
}

/// View of an optional byte buffer.
pub open spec fn opt_bytes_view(b: Option<Vec<u8>>) -> Option<Seq<u8>> {
    match b {
        Some(v) => Some(v@),
        None => None,
    }
}

/// The classification, as a function of the inspected local state and the
/// resolved remote version.
pub open spec fn spec_evaluate(
    dir_exists: bool,
    marker: Option<Seq<u8>>,
    remote: Seq<u8>,
) -> InstallationState {
    if !dir_exists {
        InstallationState::FreshInstall
    } else if marker_current(marker, remote) {
        InstallationState::UpToDate
    } else {
        InstallationState::UpdateAvailable
    }
}

/// Classify the run. `dir_exists` says whether the installation directory is
/// present; `marker` is the content of its marker file, if one could be read.
/// An unreadable or absent marker is evidence of a missing installation,
/// never an error.
pub fn evaluate(dir_exists: bool, marker: &Option<Vec<u8>>, remote: &Vec<u8>) -> (r:
    InstallationState)
    ensures
        r == spec_evaluate(dir_exists, opt_bytes_view(*marker), remote@),
        r == InstallationState::UpToDate <==> (dir_exists && marker_current(
            opt_bytes_view(*marker),
            remote@,
        )),
        r == InstallationState::FreshInstall <==> !dir_exists,
        r == InstallationState::UpdateAvailable <==> (dir_exists && !marker_current(
            opt_bytes_view(*marker),
            remote@,
        )),
{
    if !dir_exists {
        InstallationState::FreshInstall
    } else {
        match marker {
            Some(m) => {
                let t = trim_ascii(m);
                if bytes_eq(&t, remote) {
                    InstallationState::UpToDate
                } else {
                    InstallationState::UpdateAvailable
                }
            },
            None => InstallationState::UpdateAvailable,
        }
    }
}

} // verus!
