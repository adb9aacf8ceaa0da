//! What can go wrong at the native boundary, by the kind of call that failed.

use vstd::prelude::*;

verus! {

/// The native layer opened no session.
#[derive(Debug, Clone, Copy, PartialEq, Eq, Structural)]
pub struct ConnectError;

/// The native layer would not count one more owner of a session.
#[derive(Debug, Clone, Copy, PartialEq, Eq, Structural)]
pub struct RetainError;

/// An informational call failed; the variant names the call.
#[derive(Debug, Clone, Copy, PartialEq, Eq, Structural)]
pub enum QueryError {
    Capabilities,
    NodeInfo,
    ListDomains,
    DomainInfo,
}

/// A domain definition was not stored.
#[derive(Debug, Clone, Copy, PartialEq, Eq, Structural)]
pub enum DefineError {
    /// The descriptor holds the NUL character and cannot be handed to the
    /// native layer as a C string.
    Encoding,
    /// The native layer turned the descriptor down.
    Rejected,
}

/// The hypervisor turned a lifecycle request down; the variant names the request.
#[derive(Debug, Clone, Copy, PartialEq, Eq, Structural)]
pub enum LifecycleError {
    Start,
    Shutdown,
    Reboot,
}

/// Every way in which a request to the service can fall short.
#[derive(Debug, Clone, Copy, PartialEq, Eq, Structural)]
pub enum Error {
    Query(QueryError),
    Define(DefineError),
    Lifecycle(LifecycleError),
    /// No listed domain bears the requested name.
    NotFound,
}

impl ConnectError {
    pub open spec fn text(self) -> Seq<char> {
        "virConnectOpen failed"@
    }

    pub fn message(&self) -> (r: &'static str)
        ensures
            r@ == self.text(),
    {
        "virConnectOpen failed"
    }
}

impl RetainError {
    pub open spec fn text(self) -> Seq<char> {
        "virConnectRef failed"@
    }

    pub fn message(&self) -> (r: &'static str)
        ensures
            r@ == self.text(),
    {
        "virConnectRef failed"
    }
}

impl QueryError {
    pub open spec fn text(self) -> Seq<char> {
        match self {
            QueryError::Capabilities => "virConnectGetCapabilities return NULL"@,
            QueryError::NodeInfo => "virNodeGetInfo failed"@,
            QueryError::ListDomains => "virConnectListAllDomains failed"@,
            QueryError::DomainInfo => "virDomainGetInfo failed"@,
        }
    }

    pub fn message(&self) -> (r: &'static str)
        ensures
            r@ == self.text(),
    {
        match self {
            QueryError::Capabilities => "virConnectGetCapabilities return NULL",
            QueryError::NodeInfo => "virNodeGetInfo failed",
            QueryError::ListDomains => "virConnectListAllDomains failed",
            QueryError::DomainInfo => "virDomainGetInfo failed",
        }
    }
}

impl DefineError {
    pub open spec fn text(self) -> Seq<char> {
        match self {
            DefineError::Encoding => "the descriptor holds a NUL character"@,
            DefineError::Rejected => "virDomainDefineXMLFlags return NULL"@,
        }
    }

    pub fn message(&self) -> (r: &'static str)
        ensures
            r@ == self.text(),
    {
        match self {
            DefineError::Encoding => "the descriptor holds a NUL character",
            DefineError::Rejected => "virDomainDefineXMLFlags return NULL",
        }
    }
}

impl LifecycleError {
    pub open spec fn text(self) -> Seq<char> {
        match self {
            LifecycleError::Start => "The domain failed to start"@,
            LifecycleError::Shutdown => "The domain failed to shutdown"@,
            LifecycleError::Reboot => "The domain failed to reboot"@,
        }
    }

    pub fn message(&self) -> (r: &'static str)
        ensures
            r@ == self.text(),
    {
        match self {
            LifecycleError::Start => "The domain failed to start",
            LifecycleError::Shutdown => "The domain failed to shutdown",
            LifecycleError::Reboot => "The domain failed to reboot",
        }
    }
}

} // verus!
