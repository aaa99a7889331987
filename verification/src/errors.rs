//! User-input errors of the command-line surface, with their messages.
//!
//! These are detected before any bus interaction and reported with a usage
//! string; they never carry a remote cause.

use vstd::prelude::*;

verus! {

/// The usage block printed when no command, or an unknown command, is given.
pub open spec fn usage_text() -> Seq<char> {
    "\nUsage: %s {COMMAND} ...\nCOMMANDS:\nwait         wait for the specified objects to appear on the DBus\nsubtree-remove\n             wait until the specified interface is not present\n             in any of the subtrees of the specified namespace\nget-service  return the service identifier for input path"@
}

/// A missing or malformed command-line argument. Variants carrying a
/// `String` hold the invoking program's name, except
/// `InvalidSubtreeRemoveArg`, which holds the token that lacked a `:`.
#[derive(Debug, Clone)]
pub enum Error {
    MissingCommand,
    InvalidCommand,
    MissingWaitArg(String),
    MissingSubtreeRemoveArg(String),
    InvalidSubtreeRemoveArg(String),
    MissingGetServiceArg(String),
}

impl Error {
    /// The message shown to the user for this error.
    pub fn message(&self) -> (r: String)
        ensures
            self is MissingCommand ==> r@ == usage_text(),
            self is InvalidCommand ==> r@ == usage_text(),
            self matches Error::MissingWaitArg(cmd)
                ==> r@ == "Usage: "@ + cmd@ + " wait OBJECTPATH\n"@,
            self matches Error::MissingSubtreeRemoveArg(cmd)
                ==> r@ == "Usage: "@ + cmd@ + " subtree-remove NAMESPACE:INTERFACE\n"@,
            self matches Error::InvalidSubtreeRemoveArg(token)
                ==> r@ == "Token ':' was not found in '"@ + token@ + "'\n"@,
            self matches Error::MissingGetServiceArg(cmd)
                ==> r@ == "Usage: "@ + cmd@ + " get-service OBJECTPATH\n"@,
    {
        match self {
            Error::MissingCommand | Error::InvalidCommand => String::from_str(
                "\nUsage: %s {COMMAND} ...\nCOMMANDS:\nwait         wait for the specified objects to appear on the DBus\nsubtree-remove\n             wait until the specified interface is not present\n             in any of the subtrees of the specified namespace\nget-service  return the service identifier for input path",
            ),
            Error::MissingWaitArg(cmd) => {
                String::from_str("Usage: ").concat(cmd.as_str()).concat(" wait OBJECTPATH\n")
            },
            Error::MissingSubtreeRemoveArg(cmd) => {
                String::from_str("Usage: ").concat(cmd.as_str()).concat(
                    " subtree-remove NAMESPACE:INTERFACE\n",
                )
            },
            Error::InvalidSubtreeRemoveArg(token) => {
                String::from_str("Token ':' was not found in '").concat(token.as_str()).concat(
                    "'\n",
                )
            },
            Error::MissingGetServiceArg(cmd) => {
                String::from_str("Usage: ").concat(cmd.as_str()).concat(" get-service OBJECTPATH\n")
            },
        }
    }
}

} // verus!
