//! The dispatch service: one shared connection, and the three operations
//! that turn a request into native calls and a reply.

use crate::connection::{addresses, Connection, LIST_ALL_FLAGS};
use crate::domain::{Domain, REBOOT_FLAGS};
use crate::error::{DefineError, Error};
use crate::message::{
    acknowledgment, wire_i32, wire_i64, ControllerDomainRequest, CreateDomainRequest,
    InfoDomainRequest, InfoDomainResponse, Instruction, UniversalResponse,
};
use crate::protocol::{
    call_of, initial, next, plain_reply, scan_from, well_formed, Call, DispatchView, Event, Goal,
    Phase, ProgressView, Reply, ReplyView, Response, ResponseView,
};
use crate::text::encodable;
use vstd::prelude::*;

verus! {

/// A control or info request under way. It owns the domains that were
/// listed for it until its reply hands them on.
#[derive(Debug)]
pub struct Dispatch {
    goal: Goal,
    wanted: String,
    domains: Vec<Domain>,
    phase: Phase,
}

impl View for Dispatch {
    type V = DispatchView;

    closed spec fn view(&self) -> DispatchView {
        DispatchView {
            goal: self.goal,
            wanted: self.wanted@,
            domains: addresses(self.domains@),
            phase: self.phase,
        }
    }
}

impl Dispatch {
    #[verifier::type_invariant]
    spec fn inv(self) -> bool {
        well_formed(self@)
    }

    /// Which native call this request waits for.
    pub fn phase(&self) -> (phase: Phase)
        ensures
            phase == self@.phase,
            well_formed(self@),
    {
        proof {
            use_type_invariant(self);
        }
        self.phase
    }
}

/// Where a request stands after a step: waiting for one more native call,
/// or at its end.
#[derive(Debug)]
pub enum Progress {
    Pending(Dispatch),
    Finished(Reply),
}

impl View for Progress {
    type V = ProgressView;

    open spec fn view(&self) -> ProgressView {
        match *self {
            Progress::Pending(dispatch) => ProgressView::Pending(dispatch@),
            Progress::Finished(reply) => ProgressView::Finished(reply@),
        }
    }
}

/// The reply to a create request, given what the native define call
/// returned for its descriptor: the acknowledgment whatever came of it, the
/// result of the definition as the outcome, and the defined domain, if there
/// is one, to be released.
pub open spec fn created(descriptor: Seq<char>, defined: usize) -> ReplyView {
    ReplyView {
        response: ResponseView::Universal(acknowledgment()),
        outcome: if !encodable(descriptor) {
            Err(Error::Define(DefineError::Encoding))
        } else if defined == 0 {
            Err(Error::Define(DefineError::Rejected))
        } else {
            Ok(())
        },
        domains: if encodable(descriptor) && defined != 0 {
            seq![defined]
        } else {
            Seq::empty()
        },
    }
}

/// The service: the one connection that all requests share.
#[derive(Debug)]
pub struct KVMManager {
    conn: Connection,
}

impl KVMManager {
    /// The native address of the session that the service works on.
    pub closed spec fn session(&self) -> usize {
        self.conn.addr()
    }

    /// A service on an open connection.
    pub fn new(conn: Connection) -> (service: KVMManager)
        ensures
            service.session() == conn.addr(),
    {
        KVMManager { conn }
    }

    /// The connection of the service.
    pub fn connection(&self) -> (conn: &Connection)
        ensures
            conn.addr() == self.session(),
    {
        &self.conn
    }

    /// Ends the service and hands its connection back, to be closed.
    pub fn into_connection(self) -> (conn: Connection)
        ensures
            conn.addr() == self.session(),
    {
        self.conn
    }

    /// Serves a create request, given what the native define call returned
    /// for its descriptor. The client is acknowledged whatever came of the
    /// definition; the outcome tells.
    pub fn create_domain_service(&self, request: &CreateDomainRequest, defined: usize) -> (reply:
        Reply)
        ensures
            reply@ == created(request.xml@, defined),
    {
        let mut domains: Vec<Domain> = Vec::new();
        let outcome = match self.conn.define_domain(request.xml.as_str(), defined) {
            Ok(domain) => {
                proof {
                    domains@.lemma_push_map_commute(|domain: Domain| domain.addr(), domain);
                }
                domains.push(domain);
                Ok(())
            },
            Err(failure) => Err(Error::Define(failure)),
        };
        proof {
            assert(addresses(domains@) =~= created(request.xml@, defined).domains);
        }
        Reply { response: Response::Universal(UniversalResponse::success()), outcome, domains }
    }

    /// Begins a control request: the instruction is read, a start where the
    /// request names none, and the enumeration is due.
    pub fn controller_domain_service(&self, request: ControllerDomainRequest) -> (dispatch:
        Dispatch)
        ensures
            dispatch@ == initial(
                Goal::Control(Instruction::requested(request.instruction)),
                request.name@,
            ),
    {
        let instruction = Instruction::from_request(request.instruction);
        let domains: Vec<Domain> = Vec::new();
        proof {
            assert(addresses(domains@) =~= Seq::<usize>::empty());
        }
        Dispatch {
            goal: Goal::Control(instruction),
            wanted: request.name,
            domains,
            phase: Phase::Listing,
        }
    }

    /// Begins an info request: the enumeration is due.
    pub fn info_domain_service(&self, request: InfoDomainRequest) -> (dispatch: Dispatch)
        ensures
            dispatch@ == initial(Goal::Info, request.name@),
    {
        let domains: Vec<Domain> = Vec::new();
        proof {
            assert(addresses(domains@) =~= Seq::<usize>::empty());
        }
        Dispatch { goal: Goal::Info, wanted: request.name, domains, phase: Phase::Listing }
    }

    /// The native call that a request waits for.
    pub fn pending(&self, dispatch: &Dispatch) -> (call: Call)
        ensures
            call == call_of(self.session(), dispatch@),
    {
        proof {
            use_type_invariant(dispatch);
        }
        match dispatch.phase {
            Phase::Listing => Call::ListAllDomains {
                session: self.conn.as_ptr(),
                flags: LIST_ALL_FLAGS,
            },
            Phase::Naming(index) => Call::GetName { domain: dispatch.domains[index].as_ptr() },
            Phase::Serving(index) => {
                let domain = dispatch.domains[index].as_ptr();
                match dispatch.goal {
                    Goal::Control(Instruction::Start) => Call::Start { domain },
                    Goal::Control(Instruction::Shutdown) => Call::Shutdown { domain },
                    Goal::Control(Instruction::Reboot) => Call::Reboot {
                        domain,
                        flags: REBOOT_FLAGS,
                    },
                    Goal::Info => Call::GetInfo { domain },
                }
            },
        }
    }

    /// Takes a request one step on, given what the call it waited for
    /// returned. An event that does not answer that call leaves the request
    /// as it is.
    pub fn step(&self, dispatch: Dispatch, event: Event) -> (progress: Progress)
        ensures
            progress@ == next(dispatch@, event@),
    {
        proof {
            use_type_invariant(&dispatch);
        }
        let Dispatch { goal, wanted, domains, phase } = dispatch;
        match (phase, event) {
            (Phase::Listing, Event::Listed { count, entries }) => {
                match self.conn.list_all_domains(count, entries.as_slice()) {
                    Ok(listed) => scan(goal, wanted, listed, phase, 0),
                    Err(failure) => {
                        proof {
                            assert(addresses(domains@) =~= Seq::<usize>::empty());
                        }
                        Progress::Finished(plain(goal, Err(Error::Query(failure)), domains))
                    },
                }
            },
            (Phase::Naming(index), Event::Named { name }) => {
                let text = match &name {
                    Some(bytes) => domains[index].get_name(Some(bytes.as_slice())),
                    None => domains[index].get_name(None),
                };
                if text == wanted {
                    Progress::Pending(
                        Dispatch { goal, wanted, domains, phase: Phase::Serving(index) },
                    )
                } else {
                    assert(index < domains.len());
                    scan(goal, wanted, domains, phase, index + 1)
                }
            },
            (Phase::Serving(index), Event::Performed { status }) => {
                match goal {
                    Goal::Control(instruction) => {
                        let done = match instruction {
                            Instruction::Start => domains[index].start(status),
                            Instruction::Shutdown => domains[index].shutdown(status),
                            Instruction::Reboot => domains[index].reboot(status),
                        };
                        let outcome = match done {
                            Ok(_) => Ok(()),
                            Err(failure) => Err(Error::Lifecycle(failure)),
                        };
                        Progress::Finished(plain(goal, outcome, domains))
                    },
                    Goal::Info => Progress::Pending(Dispatch { goal, wanted, domains, phase }),
                }
            },
            (Phase::Serving(index), Event::Inspected { status, raw }) => {
                match goal {
                    Goal::Info => {
                        match domains[index].domain_info(status, &raw) {
                            Ok(info) => Progress::Finished(
                                Reply {
                                    response: Response::Info(
                                        InfoDomainResponse {
                                            state: info.state,
                                            max_memory: wire_i64(info.max_memory),
                                            memory: wire_i64(info.memory),
                                            virt_cpu: wire_i32(info.virt_cpu),
                                            cpu_time: wire_i64(info.cpu_time),
                                        },
                                    ),
                                    outcome: Ok(()),
                                    domains,
                                },
                            ),
                            Err(failure) => Progress::Finished(
                                plain(goal, Err(Error::Query(failure)), domains),
                            ),
                        }
                    },
                    Goal::Control(_) => Progress::Pending(
                        Dispatch { goal, wanted, domains, phase },
                    ),
                }
            },
            (phase, _) => Progress::Pending(Dispatch { goal, wanted, domains, phase }),
        }
    }
}

/// The reply that carries no data.
fn plain(goal: Goal, outcome: Result<(), Error>, domains: Vec<Domain>) -> (reply: Reply)
    ensures
        reply@ == plain_reply(goal, outcome, addresses(domains@)),
{
    let response = match goal {
        Goal::Control(_) => Response::Universal(UniversalResponse::success()),
        Goal::Info => Response::Info(InfoDomainResponse::default()),
    };
    Reply { response, outcome, domains }
}

/// Goes on to the name of the domain at `index`, or ends the request where
/// the listing holds no such domain.
fn scan(goal: Goal, wanted: String, domains: Vec<Domain>, phase: Phase, index: usize) -> (progress:
    Progress)
    ensures
        progress@ == scan_from(
            DispatchView { goal, wanted: wanted@, domains: addresses(domains@), phase },
            index as int,
        ),
{
    if index < domains.len() {
        Progress::Pending(Dispatch { goal, wanted, domains, phase: Phase::Naming(index) })
    } else {
        Progress::Finished(plain(goal, Err(Error::NotFound), domains))
    }
}

} // verus!
