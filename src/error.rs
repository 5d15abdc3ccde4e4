use vstd::prelude::*;
use vstd::string::StringExecFns;

verus! {

/// Why a search could not be set up.
pub enum AppError {
    /// The caller's configuration is invalid or unusable.
    Client(String),
    /// A failure on the side of a backend.
    Server(String),
}

/// `e` is a client error whose message is `msg`.
pub open spec fn is_client_error(e: AppError, msg: Seq<char>) -> bool {
    e matches AppError::Client(m) && m@ == msg
}

impl AppError {
    /// The error as one line of text, its class first.
    pub fn message(&self) -> (r: String)
        ensures
            r@ == match self {
                AppError::Client(m) => "Client Error: "@ + m@,
                AppError::Server(m) => "Server Error: "@ + m@,
            },
    {
        match self {
            AppError::Client(m) => String::from_str("Client Error: ").concat(m.as_str()),
            AppError::Server(m) => String::from_str("Server Error: ").concat(m.as_str()),
        }
    }

    /// The client error for a file at `path` that could not be opened, with
    /// the text of the underlying cause.
    pub fn open_failed(path: &str, cause: &str) -> (e: AppError)
        ensures
            is_client_error(e, "failed to open "@ + path@ + ": "@ + cause@),
    {
        let m = String::from_str("failed to open ").concat(path).concat(": ").concat(cause);
        AppError::Client(m)
    }
}

} // verus!
