//! Error kinds of the locker.

use vstd::prelude::*;

verus! {

/// Main error type.
#[derive(Debug)]
pub enum GarlockError {
    /// X11 connection or operation failed
    X11(String),
    /// Failed to grab keyboard or pointer
    GrabFailed(String),
    /// Screenshot capture failed
    ScreenshotFailed(String),
    /// PAM authentication error
    AuthError(String),
    /// Configuration error
    ConfigError(String),
    /// IPC error
    IpcError(String),
    /// Rendering error
    RenderError(String),
}

/// Result type with the locker's error.
pub type GarlockResult<T> = std::result::Result<T, GarlockError>;

impl GarlockError {
    /// The prefix that names the kind of error in its message.
    pub open spec fn prefix(&self) -> Seq<char> {
        match self {
            GarlockError::X11(_) => "X11 error: "@,
            GarlockError::GrabFailed(_) => "Failed to grab input: "@,
            GarlockError::ScreenshotFailed(_) => "Screenshot failed: "@,
            GarlockError::AuthError(_) => "Authentication error: "@,
            GarlockError::ConfigError(_) => "Configuration error: "@,
            GarlockError::IpcError(_) => "IPC error: "@,
            GarlockError::RenderError(_) => "Rendering error: "@,
        }
    }

    /// The detail the error carries.
    pub open spec fn detail(&self) -> Seq<char> {
        match self {
            GarlockError::X11(m) => m@,
            GarlockError::GrabFailed(m) => m@,
            GarlockError::ScreenshotFailed(m) => m@,
            GarlockError::AuthError(m) => m@,
            GarlockError::ConfigError(m) => m@,
            GarlockError::IpcError(m) => m@,
            GarlockError::RenderError(m) => m@,
        }
    }

    /// The message of the error: its kind, then its detail.
    pub fn message(&self) -> (s: String)
        ensures
            s@ == self.prefix() + self.detail(),
    {
        let (prefix, detail) = match self {
            GarlockError::X11(m) => ("X11 error: ", m),
            GarlockError::GrabFailed(m) => ("Failed to grab input: ", m),
            GarlockError::ScreenshotFailed(m) => ("Screenshot failed: ", m),
            GarlockError::AuthError(m) => ("Authentication error: ", m),
            GarlockError::ConfigError(m) => ("Configuration error: ", m),
            GarlockError::IpcError(m) => ("IPC error: ", m),
            GarlockError::RenderError(m) => ("Rendering error: ", m),
        };
        String::from_str(prefix).concat(detail.as_str())
    }
}

} // verus!
