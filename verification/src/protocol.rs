//! The course of a control or info request, as a machine without I/O.
//!
//! A request is served by a run of native calls. The machine names the call
//! that is due, is told what the call returned, and names the next call or
//! the reply. `next` is that step on the mathematical side; the service
//! module holds the code that computes it, and the run module what follows
//! for a request as a whole.

use crate::connection::{addresses, listed, LIST_ALL_FLAGS};
use crate::domain::{
    lifecycle_outcome, reported_name, snapshot, Domain, RawDomainInfo, REBOOT_FLAGS,
};
use crate::error::{Error, LifecycleError, QueryError};
use crate::message::{
    acknowledgment, empty_info, info_response, InfoDomainResponse, InfoDomainResponseView,
    Instruction, UniversalResponse,
};
use vstd::prelude::*;

verus! {

/// What a request is after, once the domain of its name is found.
#[derive(Debug, Clone, Copy, PartialEq, Eq, Structural)]
pub enum Goal {
    /// Send a lifecycle instruction to the domain.
    Control(Instruction),
    /// Report the state of the domain.
    Info,
}

/// Which native call a request is waiting for.
#[derive(Debug, Clone, Copy, PartialEq, Eq, Structural)]
pub enum Phase {
    /// The enumeration of the session's domains.
    Listing,
    /// The name of the listed domain at this position.
    Naming(usize),
    /// The call that the goal asks for, on the listed domain at this position.
    Serving(usize),
}

/// A native call, with the addresses and flags to make it with.
#[derive(Debug, Clone, Copy, PartialEq, Eq, Structural)]
pub enum Call {
    ListAllDomains { session: usize, flags: u32 },
    GetName { domain: usize },
    Start { domain: usize },
    Shutdown { domain: usize },
    Reboot { domain: usize, flags: u32 },
    GetInfo { domain: usize },
}

/// What a native call returned.
#[derive(Debug, Clone, PartialEq, Eq)]
pub enum Event {
    /// The enumeration returned `count` and filled an array with `entries`.
    Listed { count: i32, entries: Vec<usize> },
    /// The name call returned a C string of these bytes, or a null pointer.
    Named { name: Option<Vec<u8>> },
    /// A lifecycle call returned this status.
    Performed { status: i32 },
    /// The info call returned this status and filled this record.
    Inspected { status: i32, raw: RawDomainInfo },
}

/// What an `Event` holds.
pub enum EventView {
    Listed { count: i32, entries: Seq<usize> },
    Named { name: Option<Seq<u8>> },
    Performed { status: i32 },
    Inspected { status: i32, raw: RawDomainInfo },
}

impl View for Event {
    type V = EventView;

    open spec fn view(&self) -> EventView {
        match *self {
            Event::Listed { count, entries } => EventView::Listed { count, entries: entries@ },
            Event::Named { name } => EventView::Named {
                name: match name {
                    Some(bytes) => Some(bytes@),
                    None => None,
                },
            },
            Event::Performed { status } => EventView::Performed { status },
            Event::Inspected { status, raw } => EventView::Inspected { status, raw },
        }
    }
}

/// The response to a request, in the shape that its operation has.
#[derive(Debug, Clone, PartialEq, Eq)]
pub enum Response {
    Universal(UniversalResponse),
    Info(InfoDomainResponse),
}

/// What a `Response` holds.
pub enum ResponseView {
    Universal(Seq<char>),
    Info(InfoDomainResponseView),
}

impl View for Response {
    type V = ResponseView;

    open spec fn view(&self) -> ResponseView {
        match *self {
            Response::Universal(response) => ResponseView::Universal(response@),
            Response::Info(response) => ResponseView::Info(response@),
        }
    }
}

/// The end of a request.
#[derive(Debug)]
pub struct Reply {
    /// What goes back to the client.
    pub response: Response,
    /// Whether the request did what it asked for; the response does not say.
    pub outcome: Result<(), Error>,
    /// The domains that the request came to own. Each is still to be
    /// released.
    pub domains: Vec<Domain>,
}

/// What a `Reply` holds; of the domains, their addresses.
pub struct ReplyView {
    pub response: ResponseView,
    pub outcome: Result<(), Error>,
    pub domains: Seq<usize>,
}

impl View for Reply {
    type V = ReplyView;

    open spec fn view(&self) -> ReplyView {
        ReplyView {
            response: self.response@,
            outcome: self.outcome,
            domains: addresses(self.domains@),
        }
    }
}

/// The state of a request under way: what it is after, the name it looks
/// for, the addresses of the domains that were listed for it, and the call
/// that it waits for.
pub struct DispatchView {
    pub goal: Goal,
    pub wanted: Seq<char>,
    pub domains: Seq<usize>,
    pub phase: Phase,
}

/// Where a request stands after a step.
pub enum ProgressView {
    Pending(DispatchView),
    Finished(ReplyView),
}

/// The state in which a request begins: nothing listed, the enumeration due.
pub open spec fn initial(goal: Goal, wanted: Seq<char>) -> DispatchView {
    DispatchView { goal, wanted, domains: Seq::empty(), phase: Phase::Listing }
}

/// Whether the position that the phase speaks of is that of a listed domain.
pub open spec fn well_formed(d: DispatchView) -> bool {
    match d.phase {
        Phase::Listing => d.domains.len() == 0,
        Phase::Naming(index) => index < d.domains.len(),
        Phase::Serving(index) => index < d.domains.len(),
    }
}

/// The native call that a request waits for.
pub open spec fn call_of(session: usize, d: DispatchView) -> Call {
    match d.phase {
        Phase::Listing => Call::ListAllDomains { session, flags: LIST_ALL_FLAGS },
        Phase::Naming(index) => Call::GetName { domain: d.domains[index as int] },
        Phase::Serving(index) => serve_call(d.goal, d.domains[index as int]),
    }
}

/// The native call that a goal asks for on the domain at an address.
pub open spec fn serve_call(goal: Goal, domain: usize) -> Call {
    match goal {
        Goal::Control(Instruction::Start) => Call::Start { domain },
        Goal::Control(Instruction::Shutdown) => Call::Shutdown { domain },
        Goal::Control(Instruction::Reboot) => Call::Reboot { domain, flags: REBOOT_FLAGS },
        Goal::Info => Call::GetInfo { domain },
    }
}

/// The error with which an instruction fails.
pub open spec fn failure_of(instruction: Instruction) -> LifecycleError {
    match instruction {
        Instruction::Start => LifecycleError::Start,
        Instruction::Shutdown => LifecycleError::Shutdown,
        Instruction::Reboot => LifecycleError::Reboot,
    }
}

/// What an instruction came to, given the status of its native call.
pub open spec fn performed(instruction: Instruction, status: i32) -> Result<(), Error> {
    match lifecycle_outcome(status, failure_of(instruction)) {
        Ok(_) => Ok(()),
        Err(failure) => Err(Error::Lifecycle(failure)),
    }
}

/// The reply that carries no data: the acknowledgment for a control
/// request, the empty state for an info request.
pub open spec fn plain_reply(goal: Goal, outcome: Result<(), Error>, domains: Seq<usize>)
    -> ReplyView {
    ReplyView {
        response: match goal {
            Goal::Control(_) => ResponseView::Universal(acknowledgment()),
            Goal::Info => ResponseView::Info(empty_info()),
        },
        outcome,
        domains,
    }
}

/// The reply to an info request whose domain was found, given what the
/// native info call returned.
pub open spec fn inspected_reply(status: i32, raw: RawDomainInfo, domains: Seq<usize>)
    -> ReplyView {
    if status == 0 {
        ReplyView {
            response: ResponseView::Info(info_response(snapshot(raw))),
            outcome: Ok(()),
            domains,
        }
    } else {
        plain_reply(Goal::Info, Err(Error::Query(QueryError::DomainInfo)), domains)
    }
}

/// Where a request stands when the name of the domain at `index` is the
/// next to look at: waiting for that name, or at its end, with no domain
/// found, where the listing holds no such position.
pub open spec fn scan_from(d: DispatchView, index: int) -> ProgressView {
    if 0 <= index < d.domains.len() {
        ProgressView::Pending(DispatchView { phase: Phase::Naming(index as usize), ..d })
    } else {
        ProgressView::Finished(plain_reply(d.goal, Err(Error::NotFound), d.domains))
    }
}

/// One step of a request: where it stands once the call it waited for has
/// returned. An event that does not answer that call changes nothing.
pub open spec fn next(d: DispatchView, event: EventView) -> ProgressView {
    match (d.phase, event) {
        (Phase::Listing, EventView::Listed { count, entries }) => {
            if count < 0 {
                ProgressView::Finished(
                    plain_reply(d.goal, Err(Error::Query(QueryError::ListDomains)), Seq::empty()),
                )
            } else {
                scan_from(DispatchView { domains: listed(count, entries), ..d }, 0)
            }
        },
        (Phase::Naming(index), EventView::Named { name }) => {
            if reported_name(name) == d.wanted {
                ProgressView::Pending(DispatchView { phase: Phase::Serving(index), ..d })
            } else {
                scan_from(d, index + 1)
            }
        },
        (Phase::Serving(_), EventView::Performed { status }) => match d.goal {
            Goal::Control(instruction) => ProgressView::Finished(
                plain_reply(d.goal, performed(instruction, status), d.domains),
            ),
            Goal::Info => ProgressView::Pending(d),
        },
        (Phase::Serving(_), EventView::Inspected { status, raw }) => match d.goal {
            Goal::Info => ProgressView::Finished(inspected_reply(status, raw, d.domains)),
            Goal::Control(_) => ProgressView::Pending(d),
        },
        _ => ProgressView::Pending(d),
    }
}

} // verus!
