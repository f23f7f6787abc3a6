//! Whether the managed process can be started: the executable is there, its
//! configuration and certificates are there, and a host to probe is configured.

use crate::settings::Settings;
use crate::text::{is_blank, is_blank_text};
use vstd::prelude::*;

verus! {

/// Which of the four files that the managed process needs exist.
#[derive(Clone, Copy, Debug, PartialEq, Eq, Structural)]
pub struct ArtifactPresence {
    pub config: bool,
    pub host_key: bool,
    pub host_crt: bool,
    pub ca_crt: bool,
}

/// The three checks of readiness, each by itself.
#[derive(Clone, Copy, Debug, PartialEq, Eq, Structural)]
pub struct ReadinessResult {
    pub binary_present: bool,
    pub config_and_certs_present: bool,
    pub ping_host_valid: bool,
}

/// The classification of readiness: the first check that fails, in the order
/// executable, configuration, or none.
#[derive(Clone, Copy, Debug, PartialEq, Eq, Structural)]
pub enum ReadinessState {
    BinaryMissing,
    ConfigMissing,
    Ready,
}

impl ArtifactPresence {
    /// The configuration file and the three files beside it all exist.
    pub open spec fn all_present(self) -> bool {
        self.config && self.host_key && self.host_crt && self.ca_crt
    }

    /// At least one of the three certificate files exists.
    pub open spec fn any_cert_present(self) -> bool {
        self.host_key || self.host_crt || self.ca_crt
    }
}

/// A host to probe is configured: `host` holds more than white space.
pub open spec fn host_valid(host: Seq<char>) -> bool {
    !is_blank(host)
}

/// The configuration is complete: all four files exist and a host is
/// configured.
pub open spec fn config_ready(files: ArtifactPresence, host: Seq<char>) -> bool {
    files.all_present() && host_valid(host)
}

/// The three checks for the given facts.
pub open spec fn readiness_of(binary_present: bool, files: ArtifactPresence, host: Seq<char>)
    -> ReadinessResult {
    ReadinessResult {
        binary_present,
        config_and_certs_present: files.all_present(),
        ping_host_valid: host_valid(host),
    }
}

impl ReadinessResult {
    /// The classification that the three checks give: the executable decides
    /// first, then the files, then the host.
    pub open spec fn classified(self) -> ReadinessState {
        if !self.binary_present {
            ReadinessState::BinaryMissing
        } else if !self.config_and_certs_present {
            ReadinessState::ConfigMissing
        } else if !self.ping_host_valid {
            ReadinessState::ConfigMissing
        } else {
            ReadinessState::Ready
        }
    }

    /// The classification that the three checks give.
    pub fn state(&self) -> (s: ReadinessState)
        ensures
            s == self.classified(),
    {
        if !self.binary_present {
            ReadinessState::BinaryMissing
        } else if !self.config_and_certs_present {
            ReadinessState::ConfigMissing
        } else if !self.ping_host_valid {
            ReadinessState::ConfigMissing
        } else {
            ReadinessState::Ready
        }
    }
}

/// Makes the three checks on the given facts.
pub fn assess(binary_present: bool, files: &ArtifactPresence, settings: &Settings) -> (r:
    ReadinessResult)
    ensures
        r == readiness_of(binary_present, *files, settings.ping_host@),
{
    ReadinessResult {
        binary_present,
        config_and_certs_present: files.config && files.host_key && files.host_crt
            && files.ca_crt,
        ping_host_valid: !is_blank_text(settings.ping_host.as_str()),
    }
}

/// Classifies readiness from the given facts.
pub fn evaluate(binary_present: bool, files: &ArtifactPresence, settings: &Settings) -> (s:
    ReadinessState)
    ensures
        s == readiness_of(binary_present, *files, settings.ping_host@).classified(),
        s == ReadinessState::BinaryMissing <==> !binary_present,
        s == ReadinessState::Ready <==> binary_present && config_ready(
            *files,
            settings.ping_host@,
        ),
{
    assess(binary_present, files, settings).state()
}

/// Tells whether everything that the managed process needs is there: the
/// executable, the four files and a host to probe.
pub fn required_files_present(
    binary_present: bool,
    files: &ArtifactPresence,
    settings: &Settings,
) -> (ok: bool)
    ensures
        ok == (binary_present && config_ready(*files, settings.ping_host@)),
{
    if !binary_present {
        return false;
    }
    config_and_certs_present(files, settings)
}

/// Tells whether the configuration is complete, whatever holds of the
/// executable.
pub fn config_and_certs_present(files: &ArtifactPresence, settings: &Settings) -> (ok: bool)
    ensures
        ok == config_ready(*files, settings.ping_host@),
{
    if !files.config {
        return false;
    }
    if !files.host_key || !files.host_crt || !files.ca_crt {
        return false;
    }
    if is_blank_text(settings.ping_host.as_str()) {
        return false;
    }
    true
}

/// Tells whether provisioning would replace a certificate file that exists.
pub fn check_existing_certs(files: &ArtifactPresence) -> (any: bool)
    ensures
        any == files.any_cert_present(),
{
    files.host_key || files.host_crt || files.ca_crt
}

/// The checks are made in a fixed order and the first that fails decides: a
/// missing executable whatever the files and the host are, then missing files
/// whatever the host is, then the host. The classification depends on nothing
/// but these facts.
pub proof fn law_checks_are_ordered(binary_present: bool, files: ArtifactPresence, host: Seq<char>)
    ensures
        ({
            let state = readiness_of(binary_present, files, host).classified();
            &&& !binary_present ==> state == ReadinessState::BinaryMissing
            &&& binary_present && !files.all_present() ==> state == ReadinessState::ConfigMissing
            &&& binary_present && files.all_present() && is_blank(host) ==> state
                == ReadinessState::ConfigMissing
            &&& binary_present && files.all_present() && !is_blank(host) ==> state
                == ReadinessState::Ready
        }),
{
}

} // verus!
