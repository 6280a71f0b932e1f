//! The ways in which an operation of the engine fails.

use vstd::prelude::*;
use vstd::string::*;

verus! {

/// Why an operation was refused. A refused operation has changed nothing.
#[derive(Debug, PartialEq, Eq)]
pub enum Error {
    /// The operation named a role that was never created.
    RoleNotFound { role: String },
    /// The account does not hold the role that the operation asks for.
    Unauthorized { account: String, role: String },
    /// The operation is reserved to the host itself and another caller
    /// attempted it.
    Forbidden,
    /// A guarded operation was attempted while the host is paused.
    OperationPaused,
}

/// An [`Error`] with its names as sequences of characters.
pub enum ErrorView {
    RoleNotFound { role: Seq<char> },
    Unauthorized { account: Seq<char>, role: Seq<char> },
    Forbidden,
    OperationPaused,
}

impl ErrorView {
    /// The text that describes the failure.
    pub open spec fn message(self) -> Seq<char> {
        match self {
            ErrorView::RoleNotFound { role } => "Role: "@ + role + " does not exist"@,
            ErrorView::Unauthorized { account, role } => "Account "@ + account
                + " , is missing: "@ + role + " role"@,
            ErrorView::Forbidden => "Function is private"@,
            ErrorView::OperationPaused => "Function is paused"@,
        }
    }
}

impl View for Error {
    type V = ErrorView;

    open spec fn view(&self) -> ErrorView {
        match self {
            Error::RoleNotFound { role } => ErrorView::RoleNotFound { role: role@ },
            Error::Unauthorized { account, role } => ErrorView::Unauthorized {
                account: account@,
                role: role@,
            },
            Error::Forbidden => ErrorView::Forbidden,
            Error::OperationPaused => ErrorView::OperationPaused,
        }
    }
}

impl Error {
    /// The text that describes the failure, for the host to abort with.
    pub fn message(&self) -> (text: String)
        ensures
            text@ == self@.message(),
    {
        match self {
            Error::RoleNotFound { role } => {
                let mut text = "Role: ".to_owned();
                text.append(role.as_str());
                text.append(" does not exist");
                text
            },
            Error::Unauthorized { account, role } => {
                let mut text = "Account ".to_owned();
                text.append(account.as_str());
                text.append(" , is missing: ");
                text.append(role.as_str());
                text.append(" role");
                text
            },
            Error::Forbidden => "Function is private".to_owned(),
            Error::OperationPaused => "Function is paused".to_owned(),
        }
    }
}

} // verus!
