//! A session with the hypervisor: its handle, what it can be asked, and the
//! domains that come out of it.

use crate::domain::Domain;
use crate::error::{ConnectError, DefineError, QueryError, RetainError};
use crate::handle::{Handle, Session};
use crate::text::{
    c_string, encodable, from_utf8_lossy, is_encodable, lossy_text, read_c_string, trim, trimmed,
};
use vstd::array::*;
use vstd::prelude::*;

verus! {

/// Flags of the native enumeration call: none, which asks for every domain.
pub const LIST_ALL_FLAGS: u32 = 0;

/// Flags of the native define call: none.
pub const DEFINE_FLAGS: u32 = 0;

/// The native record of the host's hardware, as the native call fills it.
#[derive(Debug, Clone, Copy, PartialEq, Eq)]
pub struct RawNodeInfo {
    /// A C string in a field of fixed size, padded behind its end.
    pub model: [u8; 32],
    pub memory: u64,
    pub cpus: u32,
    pub mhz: u32,
    pub nodes: u32,
    pub sockets: u32,
    pub cores: u32,
    pub threads: u32,
}

/// A snapshot of the host's hardware, detached from the native record.
#[derive(Debug, Clone, PartialEq, Eq)]
pub struct NodeInfo {
    pub model: String,
    pub memory_kb: u64,
    pub cpus: u32,
    pub mhz: u32,
    pub nodes: u32,
    pub sockets: u32,
    pub cores: u32,
    pub threads: u32,
}

/// What a `NodeInfo` holds.
pub struct NodeInfoView {
    pub model: Seq<char>,
    pub memory_kb: u64,
    pub cpus: u32,
    pub mhz: u32,
    pub nodes: u32,
    pub sockets: u32,
    pub cores: u32,
    pub threads: u32,
}

impl View for NodeInfo {
    type V = NodeInfoView;

    open spec fn view(&self) -> NodeInfoView {
        NodeInfoView {
            model: self.model@,
            memory_kb: self.memory_kb,
            cpus: self.cpus,
            mhz: self.mhz,
            nodes: self.nodes,
            sockets: self.sockets,
            cores: self.cores,
            threads: self.threads,
        }
    }
}

/// The snapshot that a native record amounts to: the numbers as they are,
/// the model read as a C string and freed of the white space at its ends.
pub open spec fn node_snapshot(raw: RawNodeInfo) -> NodeInfoView {
    NodeInfoView {
        model: trimmed(lossy_text(c_string(raw.model@))),
        memory_kb: raw.memory,
        cpus: raw.cpus,
        mhz: raw.mhz,
        nodes: raw.nodes,
        sockets: raw.sockets,
        cores: raw.cores,
        threads: raw.threads,
    }
}

/// Whether an entry of an enumeration denotes a domain.
pub open spec fn is_live(entry: usize) -> bool {
    entry != 0
}

/// How many entries of `entries` an enumeration that reported `count` holds.
pub open spec fn listed_len(count: i32, entries: Seq<usize>) -> int {
    if count < 0 {
        0
    } else if count <= entries.len() {
        count as int
    } else {
        entries.len() as int
    }
}

/// The addresses of the domains that an enumeration delivers: its entries
/// in their order, the null ones left out.
pub open spec fn listed(count: i32, entries: Seq<usize>) -> Seq<usize> {
    entries.take(listed_len(count, entries)).filter(|entry: usize| is_live(entry))
}

/// The native addresses of a sequence of domains.
pub open spec fn addresses(domains: Seq<Domain>) -> Seq<usize> {
    domains.map_values(|domain: Domain| domain.addr())
}

/// Whether `result` is what opening a session comes to, given the URI and
/// the session that the native open call returned for it.
pub open spec fn is_opening_of(
    result: Result<Connection, ConnectError>,
    uri: Seq<char>,
    session: usize,
) -> bool {
    match result {
        Ok(conn) => encodable(uri) && session != 0 && conn.addr() == session,
        Err(_) => !encodable(uri) || session == 0,
    }
}

/// Whether `result` is what the node info call comes to, given the status
/// that the native call returned and the record that it filled.
pub open spec fn is_node_info_of(
    result: Result<NodeInfo, QueryError>,
    status: i32,
    raw: RawNodeInfo,
) -> bool {
    match result {
        Ok(info) => status == 0 && info@ == node_snapshot(raw),
        Err(failure) => status != 0 && failure == QueryError::NodeInfo,
    }
}

/// A session that the hypervisor opens reports the hardware of its host
/// exactly as the native record holds it: every number unchanged, and the
/// model as the record's C string without the white space at its ends.
pub proof fn lemma_opened_session_reports_its_host(
    uri: Seq<char>,
    session: usize,
    opened: Result<Connection, ConnectError>,
    raw: RawNodeInfo,
    info: Result<NodeInfo, QueryError>,
)
    requires
        encodable(uri),
        session != 0,
        is_opening_of(opened, uri, session),
        is_node_info_of(info, 0, raw),
    ensures
        opened is Ok,
        opened->Ok_0.addr() == session,
        info is Ok,
        info->Ok_0.model@ == trimmed(lossy_text(c_string(raw.model@))),
        info->Ok_0.memory_kb == raw.memory,
        info->Ok_0.cpus == raw.cpus,
        info->Ok_0.mhz == raw.mhz,
        info->Ok_0.nodes == raw.nodes,
        info->Ok_0.sockets == raw.sockets,
        info->Ok_0.cores == raw.cores,
        info->Ok_0.threads == raw.threads,
{
}

/// Whether the native call that raises the reference count of a session did
/// so, given the status it returned.
pub open spec fn retained(status: i32) -> bool {
    status == 0
}

/// One owner of a session with the hypervisor.
///
/// A connection cannot be copied. `try_clone` makes a further owner once the
/// native reference count has been raised, and `close` consumes an owner, so
/// that each owner accounts for one native reference.
#[derive(Debug)]
pub struct Connection {
    ptr: Handle<Session>,
}

impl Connection {
    /// The native address of the session.
    pub closed spec fn addr(&self) -> usize {
        self.ptr.addr()
    }

    /// Takes ownership of the session that the native open call returned for
    /// `uri`. A URI that cannot be encoded reaches no hypervisor, and a null
    /// `session` is none.
    pub fn open(uri: &str, session: usize) -> (r: Result<Connection, ConnectError>)
        ensures
            is_opening_of(r, uri@, session),
    {
        if !is_encodable(uri) {
            return Err(ConnectError);
        }
        match Handle::new(session) {
            Some(ptr) => Ok(Connection { ptr }),
            None => Err(ConnectError),
        }
    }

    /// The handle of the session.
    pub fn get_ptr(&self) -> (ptr: &Handle<Session>)
        ensures
            ptr.addr() == self.addr(),
    {
        &self.ptr
    }

    /// The address to pass to a native call on this session.
    pub fn as_ptr(&self) -> (raw: usize)
        ensures
            raw == self.addr(),
            raw != 0,
    {
        self.ptr.as_ptr()
    }

    /// The capability descriptor, from what the native call returned: the
    /// bytes of the C string, or `None` for a null pointer.
    pub fn capabilities(&self, xml: Option<&[u8]>) -> (r: Result<String, QueryError>)
        ensures
            xml is Some ==> r is Ok && r->Ok_0@ == lossy_text(xml->0@),
            xml is None ==> r is Err && r->Err_0 == QueryError::Capabilities,
    {
        match xml {
            Some(bytes) => Ok(from_utf8_lossy(bytes)),
            None => Err(QueryError::Capabilities),
        }
    }

    /// The hardware snapshot that the native call delivered. `raw` counts
    /// only where `status` is zero.
    pub fn node_info(&self, status: i32, raw: &RawNodeInfo) -> (r: Result<NodeInfo, QueryError>)
        ensures
            is_node_info_of(r, status, *raw),
    {
        if status != 0 {
            return Err(QueryError::NodeInfo);
        }
        let padded = read_c_string(raw.model.as_slice());
        let model = trim(padded.as_str());
        Ok(
            NodeInfo {
                model,
                memory_kb: raw.memory,
                cpus: raw.cpus,
                mhz: raw.mhz,
                nodes: raw.nodes,
                sockets: raw.sockets,
                cores: raw.cores,
                threads: raw.threads,
            },
        )
    }

    /// The domains of an enumeration. `count` is what the native call
    /// returned and `entries` the array it filled, of which the first `count`
    /// are read. A negative `count` is a failure. Each entry that is not null
    /// becomes a domain that the result owns, in the order of the array.
    /// An entry stands for one native reference, so an enumeration is to be
    /// handed over once.
    pub fn list_all_domains(&self, count: i32, entries: &[usize]) -> (r: Result<
        Vec<Domain>,
        QueryError,
    >)
        ensures
            count >= 0 ==> r is Ok && addresses(r->Ok_0@) == listed(count, entries@),
            count < 0 ==> r is Err && r->Err_0 == QueryError::ListDomains,
    {
        if count < 0 {
            return Err(QueryError::ListDomains);
        }
        let reported = count as usize;
        let len = if reported <= entries.len() {
            reported
        } else {
            entries.len()
        };
        let mut domains: Vec<Domain> = Vec::with_capacity(len);
        let mut i: usize = 0;
        while i < len
            invariant
                0 <= i <= len <= entries.len(),
                addresses(domains@) == entries@.take(i as int).filter(
                    |entry: usize| is_live(entry),
                ),
            decreases len - i,
        {
            proof {
                let live = |entry: usize| is_live(entry);
                entries@.lemma_take_succ_push(i as int);
                entries@.take(i as int).lemma_filter_push(entries@[i as int], live);
            }
            if let Some(ptr) = Handle::new(entries[i]) {
                let domain = Domain::from_handle(ptr);
                proof {
                    domains@.lemma_push_map_commute(|domain: Domain| domain.addr(), domain);
                }
                domains.push(domain);
            }
            i = i + 1;
        }
        Ok(domains)
    }

    /// The domain that the native define call stored for `descriptor`.
    /// A descriptor that cannot be encoded never reaches the native layer,
    /// and `defined` is then not looked at; a null `defined` is a refusal.
    pub fn define_domain(&self, descriptor: &str, defined: usize) -> (r: Result<
        Domain,
        DefineError,
    >)
        ensures
            !encodable(descriptor@) ==> r is Err && r->Err_0 == DefineError::Encoding,
            encodable(descriptor@) && defined == 0 ==> r is Err && r->Err_0
                == DefineError::Rejected,
            encodable(descriptor@) && defined != 0 ==> r is Ok && r->Ok_0.addr() == defined,
    {
        if !is_encodable(descriptor) {
            return Err(DefineError::Encoding);
        }
        match Handle::new(defined) {
            Some(ptr) => Ok(Domain::from_handle(ptr)),
            None => Err(DefineError::Rejected),
        }
    }

    /// One more owner of the same session, given the status of the native
    /// call that raises the reference count. A status other than zero means
    /// that the count was not raised, and no owner is made.
    pub fn try_clone(&self, status: i32) -> (r: Result<Connection, RetainError>)
        ensures
            r is Ok <==> retained(status),
            r is Ok ==> r->Ok_0.addr() == self.addr(),
    {
        if status != 0 {
            return Err(RetainError);
        }
        Ok(Connection { ptr: self.ptr.share() })
    }

    /// Ends this owner. The result is the address on which the native close
    /// call is now due, once: it takes back the one reference that this
    /// owner stood for.
    pub fn close(self) -> (raw: usize)
        ensures
            raw == self.addr(),
            raw != 0,
    {
        self.ptr.into_raw()
    }
}

} // verus!
