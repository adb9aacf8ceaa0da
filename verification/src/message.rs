//! The requests and responses of the three service operations, as plain
//! values, and how their fields are written on the wire.

use crate::domain::DomainInfoView;
use vstd::prelude::*;

verus! {

/// A lifecycle instruction of a control request.
#[derive(Debug, Clone, Copy, PartialEq, Eq, Structural)]
pub enum Instruction {
    Start,
    Shutdown,
    Reboot,
}

impl Instruction {
    /// The instruction that a wire value names, if it names one.
    pub open spec fn of_code(value: i32) -> Option<Instruction> {
        if value == 0 {
            Some(Instruction::Start)
        } else if value == 1 {
            Some(Instruction::Shutdown)
        } else if value == 2 {
            Some(Instruction::Reboot)
        } else {
            None
        }
    }

    /// The instruction that a control request asks for: the one that its
    /// wire value names, and `Start` where it names none.
    pub open spec fn requested(value: i32) -> Instruction {
        match Self::of_code(value) {
            Some(instruction) => instruction,
            None => Instruction::Start,
        }
    }

    /// The wire value of an instruction.
    pub open spec fn code(self) -> i32 {
        match self {
            Instruction::Start => 0,
            Instruction::Shutdown => 1,
            Instruction::Reboot => 2,
        }
    }

    /// Reads a wire value.
    pub fn from_i32(value: i32) -> (r: Option<Instruction>)
        ensures
            r == Self::of_code(value),
            r is Some <==> 0 <= value <= 2,
    {
        match value {
            0 => Some(Instruction::Start),
            1 => Some(Instruction::Shutdown),
            2 => Some(Instruction::Reboot),
            _ => None,
        }
    }

    /// Reads the instruction of a control request. A value that names no
    /// instruction asks for a start.
    pub fn from_request(value: i32) -> (r: Instruction)
        ensures
            r == Self::requested(value),
            !(0 <= value <= 2) ==> r == Instruction::Start,
    {
        match Self::from_i32(value) {
            Some(instruction) => instruction,
            None => Instruction::Start,
        }
    }

    /// Writes an instruction as its wire value.
    pub fn as_i32(self) -> (value: i32)
        ensures
            value == self.code(),
            Self::of_code(value) == Some(self),
    {
        match self {
            Instruction::Start => 0,
            Instruction::Shutdown => 1,
            Instruction::Reboot => 2,
        }
    }
}

/// Asks to store a domain definition.
#[derive(Debug, Clone, PartialEq, Eq)]
pub struct CreateDomainRequest {
    pub xml: String,
}

/// Asks to send a lifecycle instruction to the domain of a given name.
#[derive(Debug, Clone, PartialEq, Eq)]
pub struct ControllerDomainRequest {
    pub name: String,
    pub instruction: i32,
}

/// Asks for the state of the domain of a given name.
#[derive(Debug, Clone, PartialEq, Eq)]
pub struct InfoDomainRequest {
    pub name: String,
}

/// The acknowledgment of a create or control request.
#[derive(Debug, Clone, PartialEq, Eq)]
pub struct UniversalResponse {
    pub message: String,
}

/// The state of a domain, in the types of the wire.
#[derive(Debug, Clone, PartialEq, Eq)]
pub struct InfoDomainResponse {
    pub state: String,
    pub max_memory: i64,
    pub memory: i64,
    pub virt_cpu: i32,
    pub cpu_time: i64,
}

/// What an `InfoDomainResponse` holds.
pub struct InfoDomainResponseView {
    pub state: Seq<char>,
    pub max_memory: i64,
    pub memory: i64,
    pub virt_cpu: i32,
    pub cpu_time: i64,
}

impl View for UniversalResponse {
    type V = Seq<char>;

    open spec fn view(&self) -> Seq<char> {
        self.message@
    }
}

impl View for InfoDomainResponse {
    type V = InfoDomainResponseView;

    open spec fn view(&self) -> InfoDomainResponseView {
        InfoDomainResponseView {
            state: self.state@,
            max_memory: self.max_memory,
            memory: self.memory,
            virt_cpu: self.virt_cpu,
            cpu_time: self.cpu_time,
        }
    }
}

/// The one message that acknowledges a create or control request.
pub open spec fn acknowledgment() -> Seq<char> {
    "Success"@
}

/// The response that stands for no domain: no state and zeros.
pub open spec fn empty_info() -> InfoDomainResponseView {
    InfoDomainResponseView {
        state: Seq::empty(),
        max_memory: 0,
        memory: 0,
        virt_cpu: 0,
        cpu_time: 0,
    }
}

/// The signed 64-bit number with the bits of `value`.
pub open spec fn signed64(value: u64) -> int {
    if value <= i64::MAX {
        value as int
    } else {
        value - 0x1_0000_0000_0000_0000
    }
}

/// The signed 32-bit number with the bits of `value`.
pub open spec fn signed32(value: u32) -> int {
    if value <= i32::MAX {
        value as int
    } else {
        value - 0x1_0000_0000
    }
}

/// The response that reports a snapshot: each counter keeps its bits.
pub open spec fn info_response(info: DomainInfoView) -> InfoDomainResponseView {
    InfoDomainResponseView {
        state: info.state,
        max_memory: signed64(info.max_memory) as i64,
        memory: signed64(info.memory) as i64,
        virt_cpu: signed32(info.virt_cpu) as i32,
        cpu_time: signed64(info.cpu_time) as i64,
    }
}

/// Writes an unsigned counter into a signed field of the wire, bit for bit.
pub fn wire_i64(value: u64) -> (r: i64)
    ensures
        r == signed64(value),
{
    if value <= 0x7fff_ffff_ffff_ffff {
        value as i64
    } else {
        let low: u64 = value - 0x8000_0000_0000_0000;
        low as i64 + i64::MIN
    }
}

/// Writes an unsigned counter into a signed field of the wire, bit for bit.
pub fn wire_i32(value: u32) -> (r: i32)
    ensures
        r == signed32(value),
{
    if value <= 0x7fff_ffff {
        value as i32
    } else {
        let low: u32 = value - 0x8000_0000;
        low as i32 + i32::MIN
    }
}

impl UniversalResponse {
    /// The acknowledgment.
    pub fn success() -> (r: UniversalResponse)
        ensures
            r@ == acknowledgment(),
    {
        UniversalResponse { message: "Success".to_owned() }
    }
}

impl Default for InfoDomainResponse {
    fn default() -> (r: InfoDomainResponse)
        ensures
            r@ == empty_info(),
    {
        InfoDomainResponse {
            state: String::new(),
            max_memory: 0,
            memory: 0,
            virt_cpu: 0,
            cpu_time: 0,
        }
    }
}

} // verus!
