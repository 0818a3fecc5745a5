use vstd::prelude::*;

verus! {

/// The four families into which every declined operation falls.
#[derive(Clone, Copy, Debug, PartialEq, Eq, Structural)]
pub enum ErrorKind {
    /// Double initialisation or invalid initial input.
    Initialization,
    /// The caller is not the recorded owner.
    Authorization,
    /// The operation needs state that is absent.
    State,
    /// A duplicate registration or a vacuous transfer.
    Conflict,
}

/// Why an operation on the ownership record, the root anchor or the
/// commitment registry was declined. A declined operation changes nothing.
#[derive(Clone, Copy, Debug, PartialEq, Eq, Structural)]
pub enum GatewayError {
    AlreadyInitialized,
    InvalidUsername,
    Unauthorized,
    NotInitialized,
    RootNotSet,
    SameOwner,
    AlreadyRegistered,
}

impl GatewayError {
    pub open spec fn spec_kind(self) -> ErrorKind {
        match self {
            GatewayError::AlreadyInitialized => ErrorKind::Initialization,
            GatewayError::InvalidUsername => ErrorKind::Initialization,
            GatewayError::Unauthorized => ErrorKind::Authorization,
            GatewayError::NotInitialized => ErrorKind::State,
            GatewayError::RootNotSet => ErrorKind::State,
            GatewayError::SameOwner => ErrorKind::Conflict,
            GatewayError::AlreadyRegistered => ErrorKind::Conflict,
        }
    }

    /// The family this error belongs to.
    pub fn kind(&self) -> (r: ErrorKind)
        ensures
            r == self.spec_kind(),
    {
        match self {
            GatewayError::AlreadyInitialized => ErrorKind::Initialization,
            GatewayError::InvalidUsername => ErrorKind::Initialization,
            GatewayError::Unauthorized => ErrorKind::Authorization,
            GatewayError::NotInitialized => ErrorKind::State,
            GatewayError::RootNotSet => ErrorKind::State,
            GatewayError::SameOwner => ErrorKind::Conflict,
            GatewayError::AlreadyRegistered => ErrorKind::Conflict,
        }
    }
}

/// Why a resolver lookup was declined.
#[derive(Clone, Copy, Debug, PartialEq, Eq, Structural)]
pub enum ResolverError {
    NotFound,
}

} // verus!
