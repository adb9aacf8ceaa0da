//! One virtual machine: its handle, its lifecycle requests and its state.

use crate::error::{LifecycleError, QueryError};
use crate::handle::{Handle, Machine};
use crate::text::{from_utf8_lossy, lossy_text};
use vstd::prelude::*;

verus! {

/// Flags of the native reboot call: none, the hypervisor picks the way.
pub const REBOOT_FLAGS: u32 = 0;

/// The state of a domain as the hypervisor reports it.
#[derive(Debug, Clone, Copy, PartialEq, Eq, Structural)]
pub enum DomainState {
    NoState,
    Running,
    Blocked,
    Paused,
    Shutdown,
    Shutoff,
    Crashed,
    PMSuspended,
    /// Any code that the other variants do not cover.
    Unknown,
}

impl DomainState {
    /// The state that a native state code stands for. Every code has one.
    pub open spec fn of_code(code: u8) -> DomainState {
        if code == 0 {
            DomainState::NoState
        } else if code == 1 {
            DomainState::Running
        } else if code == 2 {
            DomainState::Blocked
        } else if code == 3 {
            DomainState::Paused
        } else if code == 4 {
            DomainState::Shutdown
        } else if code == 5 {
            DomainState::Shutoff
        } else if code == 6 {
            DomainState::Crashed
        } else if code == 7 {
            DomainState::PMSuspended
        } else {
            DomainState::Unknown
        }
    }

    /// The words by which a state is reported to clients.
    pub open spec fn text(self) -> Seq<char> {
        match self {
            DomainState::NoState => "No State"@,
            DomainState::Running => "Running"@,
            DomainState::Blocked => "Blocked"@,
            DomainState::Paused => "Paused"@,
            DomainState::Shutdown => "Shutdown"@,
            DomainState::Shutoff => "Shutoff"@,
            DomainState::Crashed => "Crashed"@,
            DomainState::PMSuspended => "Suspened Power Management"@,
            DomainState::Unknown => "Unknown"@,
        }
    }

    /// Reads a native state code.
    pub fn from_code(code: u8) -> (state: DomainState)
        ensures
            state == Self::of_code(code),
    {
        match code {
            0 => DomainState::NoState,
            1 => DomainState::Running,
            2 => DomainState::Blocked,
            3 => DomainState::Paused,
            4 => DomainState::Shutdown,
            5 => DomainState::Shutoff,
            6 => DomainState::Crashed,
            7 => DomainState::PMSuspended,
            _ => DomainState::Unknown,
        }
    }

    /// The words by which this state is reported to clients.
    pub fn label(self) -> (words: &'static str)
        ensures
            words@ == self.text(),
    {
        match self {
            DomainState::NoState => "No State",
            DomainState::Running => "Running",
            DomainState::Blocked => "Blocked",
            DomainState::Paused => "Paused",
            DomainState::Shutdown => "Shutdown",
            DomainState::Shutoff => "Shutoff",
            DomainState::Crashed => "Crashed",
            DomainState::PMSuspended => "Suspened Power Management",
            DomainState::Unknown => "Unknown",
        }
    }
}

/// The native record of a domain's state, as the native info call fills it.
#[derive(Debug, Clone, Copy, PartialEq, Eq)]
pub struct RawDomainInfo {
    pub state: u8,
    pub max_mem: u64,
    pub memory: u64,
    pub nr_virt_cpu: u16,
    pub cpu_time: u64,
}

/// A snapshot of a domain's state, detached from the native record.
#[derive(Debug, Clone, PartialEq, Eq)]
pub struct DomainInfo {
    pub state: String,
    pub max_memory: u64,
    pub memory: u64,
    pub virt_cpu: u32,
    pub cpu_time: u64,
}

/// What a `DomainInfo` holds.
pub struct DomainInfoView {
    pub state: Seq<char>,
    pub max_memory: u64,
    pub memory: u64,
    pub virt_cpu: u32,
    pub cpu_time: u64,
}

impl View for DomainInfo {
    type V = DomainInfoView;

    open spec fn view(&self) -> DomainInfoView {
        DomainInfoView {
            state: self.state@,
            max_memory: self.max_memory,
            memory: self.memory,
            virt_cpu: self.virt_cpu,
            cpu_time: self.cpu_time,
        }
    }
}

/// The snapshot that a native record amounts to.
pub open spec fn snapshot(raw: RawDomainInfo) -> DomainInfoView {
    DomainInfoView {
        state: DomainState::of_code(raw.state).text(),
        max_memory: raw.max_mem,
        memory: raw.memory,
        virt_cpu: raw.nr_virt_cpu as u32,
        cpu_time: raw.cpu_time,
    }
}

/// The name that the native name call reports: the text behind the pointer
/// it returned, and no text at all where it returned none.
pub open spec fn reported_name(name: Option<Seq<u8>>) -> Seq<char> {
    match name {
        Some(bytes) => lossy_text(bytes),
        None => Seq::empty(),
    }
}

/// What a lifecycle request came to, given the status of the native call.
pub open spec fn lifecycle_outcome(status: i32, failure: LifecycleError) -> Result<
    (),
    LifecycleError,
> {
    if status == 0 {
        Ok(())
    } else {
        Err(failure)
    }
}

/// Whether `result` is what the info call on a domain comes to, given the
/// status that the native call returned and the record that it filled.
pub open spec fn is_info_of(
    result: Result<DomainInfo, QueryError>,
    status: i32,
    raw: RawDomainInfo,
) -> bool {
    match result {
        Ok(info) => status == 0 && info@ == snapshot(raw),
        Err(failure) => status != 0 && failure == QueryError::DomainInfo,
    }
}

/// Asking twice gives the same: two results of the info call on one state
/// of a domain, which is one status and one record, hold the same snapshot
/// or the same failure.
pub proof fn lemma_info_repeatable(
    first: Result<DomainInfo, QueryError>,
    second: Result<DomainInfo, QueryError>,
    status: i32,
    raw: RawDomainInfo,
)
    requires
        is_info_of(first, status, raw),
        is_info_of(second, status, raw),
    ensures
        first is Ok <==> second is Ok,
        first is Ok ==> first->Ok_0@ == second->Ok_0@,
        first is Err ==> first->Err_0 == second->Err_0,
{
}

/// Sole owner of the handle of one virtual machine.
///
/// A domain comes out of an enumeration or a definition. It cannot be
/// duplicated, and `release` consumes it: each handle is given up once.
#[derive(Debug)]
pub struct Domain {
    ptr: Handle<Machine>,
}

impl Domain {
    /// The native address of the machine.
    pub closed spec fn addr(&self) -> usize {
        self.ptr.addr()
    }

    pub(crate) fn from_handle(ptr: Handle<Machine>) -> (domain: Domain)
        ensures
            domain.addr() == ptr.addr(),
    {
        Domain { ptr }
    }

    /// The address to pass to a native call on this domain.
    pub fn as_ptr(&self) -> (raw: usize)
        ensures
            raw == self.addr(),
            raw != 0,
    {
        self.ptr.as_ptr()
    }

    /// The display name, from what the native name call returned: the bytes
    /// of the C string, or `None` for a null pointer, which reads as no name.
    pub fn get_name(&self, name: Option<&[u8]>) -> (text: String)
        ensures
            text@ == reported_name(
                match name {
                    Some(bytes) => Some(bytes@),
                    None => None,
                },
            ),
    {
        match name {
            Some(bytes) => from_utf8_lossy(bytes),
            None => String::new(),
        }
    }

    /// The result of asking the hypervisor to start this domain, from the
    /// status of the native call.
    pub fn start(&self, status: i32) -> (r: Result<(), LifecycleError>)
        ensures
            r == lifecycle_outcome(status, LifecycleError::Start),
    {
        if status != 0 {
            return Err(LifecycleError::Start);
        }
        Ok(())
    }

    /// The result of asking for a graceful power-off. Success means that the
    /// request was taken, not that the domain is off.
    pub fn shutdown(&self, status: i32) -> (r: Result<(), LifecycleError>)
        ensures
            r == lifecycle_outcome(status, LifecycleError::Shutdown),
    {
        if status != 0 {
            return Err(LifecycleError::Shutdown);
        }
        Ok(())
    }

    /// The result of asking for a graceful reboot.
    pub fn reboot(&self, status: i32) -> (r: Result<(), LifecycleError>)
        ensures
            r == lifecycle_outcome(status, LifecycleError::Reboot),
    {
        if status != 0 {
            return Err(LifecycleError::Reboot);
        }
        Ok(())
    }

    /// The snapshot that the native info call delivered. `raw` counts only
    /// where `status` is zero.
    pub fn domain_info(&self, status: i32, raw: &RawDomainInfo) -> (r: Result<
        DomainInfo,
        QueryError,
    >)
        ensures
            is_info_of(r, status, *raw),
    {
        if status != 0 {
            return Err(QueryError::DomainInfo);
        }
        let state = self.domain_state(raw.state);
        Ok(
            DomainInfo {
                state: state.to_owned(),
                max_memory: raw.max_mem,
                memory: raw.memory,
                virt_cpu: raw.nr_virt_cpu as u32,
                cpu_time: raw.cpu_time,
            },
        )
    }

    /// The words for a native state code.
    pub fn domain_state(&self, state: u8) -> (words: &'static str)
        ensures
            words@ == DomainState::of_code(state).text(),
    {
        DomainState::from_code(state).label()
    }

    /// Gives the handle up. The result is the address on which the native
    /// free call is now due, once.
    pub fn release(self) -> (raw: usize)
        ensures
            raw == self.addr(),
            raw != 0,
    {
        self.ptr.into_raw()
    }
}

} // verus!
