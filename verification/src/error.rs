//! The ways in which an invocation fails. Every failure is fatal to the
//! invocation in which it arises, and leaves the program's state as it was.

use vstd::prelude::*;

verus! {

/// The two kinds of failure.
#[derive(Clone, Copy, Debug, PartialEq, Eq, Structural)]
pub enum ErrorKind {
    /// A precondition of the program itself does not hold.
    Validation,
    /// The called program reported a failure, or a callback aborted on
    /// purpose. It arises at a callback entry point only.
    ExternalCall,
}

/// A failure of an invocation.
#[derive(Clone, Debug, PartialEq, Eq)]
pub enum WorldError {
    /// An amount that must be positive is zero.
    NotPositive,
    /// The entry point takes the native currency, and nothing was sent.
    MissingPayment,
    /// The entry point takes the native currency, and a token was sent.
    NoPayment,
    /// A callback that always fails was invoked.
    CallbackFailed,
    /// The called program reported a failure, for the reason given.
    CallFailed(String),
}

impl WorldError {
    /// The kind of the failure.
    pub open spec fn spec_kind(self) -> ErrorKind {
        match self {
            WorldError::NotPositive => ErrorKind::Validation,
            WorldError::MissingPayment => ErrorKind::Validation,
            WorldError::NoPayment => ErrorKind::Validation,
            WorldError::CallbackFailed => ErrorKind::ExternalCall,
            WorldError::CallFailed(_) => ErrorKind::ExternalCall,
        }
    }

    /// The message that the caller is shown.
    pub open spec fn spec_message(self) -> Seq<char> {
        match self {
            WorldError::NotPositive => "Amount is not positive."@,
            WorldError::MissingPayment => "Payment is missing."@,
            WorldError::NoPayment => "function does not accept ESDT payment"@,
            WorldError::CallbackFailed => "Fail"@,
            WorldError::CallFailed(reason) => reason@,
        }
    }

    /// The kind of the failure.
    pub fn kind(&self) -> (k: ErrorKind)
        ensures
            k == self.spec_kind(),
    {
        match self {
            WorldError::NotPositive => ErrorKind::Validation,
            WorldError::MissingPayment => ErrorKind::Validation,
            WorldError::NoPayment => ErrorKind::Validation,
            WorldError::CallbackFailed => ErrorKind::ExternalCall,
            WorldError::CallFailed(_) => ErrorKind::ExternalCall,
        }
    }

    /// The message that the caller is shown.
    pub fn message(&self) -> (m: String)
        ensures
            m@ == self.spec_message(),
    {
        match self {
            WorldError::NotPositive => "Amount is not positive.".to_owned(),
            WorldError::MissingPayment => "Payment is missing.".to_owned(),
            WorldError::NoPayment => "function does not accept ESDT payment".to_owned(),
            WorldError::CallbackFailed => "Fail".to_owned(),
            WorldError::CallFailed(reason) => reason.clone(),
        }
    }
}

} // verus!
