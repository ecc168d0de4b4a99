//! The error taxonomy of the boundary around the core. The core's
//! own transitions are total; only the adapters — terminal setup,
//! frame output, event input, duration parsing — can fail, and their
//! failures are classified here. The underlying failure is carried as
//! its rendered text.

use vstd::prelude::*;

verus! {

/// A boundary failure.
#[derive(Debug, Clone)]
pub enum PorsmoError {
    /// Raw-input-mode setup failed; fatal.
    FailedRawModeEnter(String),
    /// Alternate-screen or mouse-capture setup failed; fatal.
    FailedInitialization(String),
    /// A user-supplied time string had the wrong shape.
    WrongFormatError,
    /// A numeric field of a time string failed to parse.
    ParseIntError(String),
    /// Writing a frame or reading an event failed.
    CrosstermError(String),
}

impl PorsmoError {
    /// The human-readable report for this failure.
    pub fn message(&self) -> (r: String)
        ensures
            match self {
                PorsmoError::FailedRawModeEnter(_) => r@
                    == "Error entering raw mode in terminal"@,
                PorsmoError::FailedInitialization(_) => r@
                    == "Error initializing terminal with alternate screen and mouse capture"@,
                PorsmoError::WrongFormatError => r@ == "Wrong format for time"@,
                PorsmoError::ParseIntError(detail) => r@ == detail@,
                PorsmoError::CrosstermError(detail) => r@ == detail@,
            },
    {
        match self {
            PorsmoError::FailedRawModeEnter(_) => String::from_str(
                "Error entering raw mode in terminal",
            ),
            PorsmoError::FailedInitialization(_) => String::from_str(
                "Error initializing terminal with alternate screen and mouse capture",
            ),
            PorsmoError::WrongFormatError => String::from_str("Wrong format for time"),
            PorsmoError::ParseIntError(detail) => detail.clone(),
            PorsmoError::CrosstermError(detail) => detail.clone(),
        }
    }
}

} // verus!
