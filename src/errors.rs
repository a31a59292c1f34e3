//! Failures of credential refresh and of object access.
use vstd::prelude::*;

verus! {

/// Why a credential refresh, a download or an upload failed.
pub enum GcsError {
    /// The service-account key could not be read, parsed or used.
    Config { message: String },
    /// The token endpoint answered with a status outside 200..=299.
    AuthExchange { status: u16 },
    /// The token endpoint's answer was not a token message.
    MalformedToken { message: String },
    /// The request could not be sent, or its answer not read.
    Transport { message: String },
    /// The storage endpoint answered with a status outside 200..=299.
    BadStatus { status: u16 },
}

impl GcsError {
    /// A copy of the error.
    pub fn duplicate(&self) -> (r: GcsError)
        ensures
            r == *self,
    {
        match self {
            GcsError::Config { message } => GcsError::Config { message: message.clone() },
            GcsError::AuthExchange { status } => GcsError::AuthExchange { status: *status },
            GcsError::MalformedToken { message } => GcsError::MalformedToken {
                message: message.clone(),
            },
            GcsError::Transport { message } => GcsError::Transport { message: message.clone() },
            GcsError::BadStatus { status } => GcsError::BadStatus { status: *status },
        }
    }
}

/// An HTTP status of the success class.
pub open spec fn is_success(status: u16) -> bool {
    200 <= status <= 299
}

} // verus!
