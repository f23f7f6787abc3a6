//! The failures that the library tells apart.

use crate::launch::Launcher;
use crate::text::{decimal, decimal_string};
use vstd::prelude::*;

verus! {

/// Why the managed process could not be started.
#[derive(Clone, Copy, Debug, PartialEq, Eq, Structural)]
pub enum StartError {
    /// The executable is neither in the application's own `bin` directory nor
    /// on the search path.
    BinaryNotFound,
    /// The system refused to start the process that was launched in this way.
    SpawnFailure(Launcher),
}

/// Why an invite could not be redeemed.
#[derive(Clone, Copy, Debug, PartialEq, Eq, Structural)]
pub enum ProvisionError {
    /// The enrollment service answered with a status outside the success class.
    RedeemRejected(u16),
    /// The service could not be reached, or its answer could not be read.
    NetworkFailure,
    /// What the service sent cannot be opened as an archive.
    MalformedArchive,
    /// The entry at this position of the archive could not be read or written.
    ExtractionFailure(usize),
    /// The archive could not be put into, or read back from, temporary storage.
    PersistFailure,
}

impl StartError {
    /// The message of this error, as text.
    pub open spec fn message_text(self) -> Seq<char> {
        match self {
            StartError::BinaryNotFound =>
                "nebula binary not found (install via tray or scripts/install_nebula.sh)"@,
            StartError::SpawnFailure(Launcher::Direct) => "failed to spawn nebula"@,
            StartError::SpawnFailure(Launcher::Elevated) => "failed to spawn nebula with sudo"@,
        }
    }

    /// The message that the user sees.
    pub fn message(&self) -> (m: String)
        ensures
            m@ == self.message_text(),
    {
        match self {
            StartError::BinaryNotFound => String::from_str(
                "nebula binary not found (install via tray or scripts/install_nebula.sh)",
            ),
            StartError::SpawnFailure(Launcher::Direct) => String::from_str(
                "failed to spawn nebula",
            ),
            StartError::SpawnFailure(Launcher::Elevated) => String::from_str(
                "failed to spawn nebula with sudo",
            ),
        }
    }
}

impl ProvisionError {
    /// The message of this error, as text.
    pub open spec fn message_text(self) -> Seq<char> {
        match self {
            ProvisionError::RedeemRejected(status) => "Redeem request failed: "@ + decimal(
                status as nat,
            ),
            ProvisionError::NetworkFailure => "Redeem request could not be completed"@,
            ProvisionError::MalformedArchive => "The response is not a readable archive"@,
            ProvisionError::ExtractionFailure(index) => "Could not extract archive entry "@
                + decimal(index as nat),
            ProvisionError::PersistFailure => "Could not store the response"@,
        }
    }

    /// The message that the user sees.
    pub fn message(&self) -> (m: String)
        ensures
            m@ == self.message_text(),
    {
        match self {
            ProvisionError::RedeemRejected(status) => {
                let mut m = String::from_str("Redeem request failed: ");
                m.append(decimal_string(*status as u64).as_str());
                m
            },
            ProvisionError::NetworkFailure => String::from_str(
                "Redeem request could not be completed",
            ),
            ProvisionError::MalformedArchive => String::from_str(
                "The response is not a readable archive",
            ),
            ProvisionError::ExtractionFailure(index) => {
                let mut m = String::from_str("Could not extract archive entry ");
                m.append(decimal_string(*index as u64).as_str());
                m
            },
            ProvisionError::PersistFailure => String::from_str("Could not store the response"),
        }
    }
}

} // verus!
