//! Who is calling, and on whose behalf the host runs.

use vstd::prelude::*;
use vstd::string::*;
use crate::error::{Error, ErrorView};

verus! {

/// The identity of a caller. The engine compares identities and reads
/// nothing else from them.
pub type AccountId = String;

/// The two identities that the host's environment supplies for one call: the
/// account that invoked the operation and the host's own account.
#[derive(Debug, PartialEq, Eq)]
pub struct AuthorizationContext {
    caller: AccountId,
    host: AccountId,
}

impl AuthorizationContext {
    /// The account that invoked the operation.
    pub closed spec fn caller(&self) -> Seq<char> {
        self.caller@
    }

    /// The host's own account.
    pub closed spec fn host(&self) -> Seq<char> {
        self.host@
    }

    /// Whether the host itself is the caller.
    pub open spec fn is_internal_call(&self) -> bool {
        self.caller() == self.host()
    }

    /// The context of a call that `current_caller` makes to the host whose
    /// account is `current_self`.
    pub fn new(current_caller: AccountId, current_self: AccountId) -> (context: Self)
        ensures
            context.caller() == current_caller@,
            context.host() == current_self@,
    {
        AuthorizationContext { caller: current_caller, host: current_self }
    }

    /// The account that invoked the operation.
    pub fn current_caller(&self) -> (account: &AccountId)
        ensures
            account@ == self.caller(),
    {
        &self.caller
    }

    /// The host's own account.
    pub fn current_self(&self) -> (account: &AccountId)
        ensures
            account@ == self.host(),
    {
        &self.host
    }

    /// Refuses every caller but the host itself: `Ok` where the caller is
    /// the host, `Forbidden` otherwise.
    pub fn assert_internal_call(&self) -> (outcome: Result<(), Error>)
        ensures
            outcome is Ok <==> self.is_internal_call(),
            outcome is Err ==> outcome->Err_0@ == ErrorView::Forbidden,
    {
        if self.caller == self.host {
            Ok(())
        } else {
            Err(Error::Forbidden)
        }
    }
}

} // verus!
