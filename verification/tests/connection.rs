use libvirtrs::connection::{Connection, NodeInfo, RawNodeInfo, DEFINE_FLAGS, LIST_ALL_FLAGS};
use libvirtrs::error::{ConnectError, DefineError, QueryError, RetainError};

fn field(text: &[u8]) -> [u8; 32] {
    let mut model = [0u8; 32];
    model[..text.len()].copy_from_slice(text);
    model
}

fn fixture() -> RawNodeInfo {
    RawNodeInfo {
        model: field(b"x86_64"),
        memory: 16_777_216,
        cpus: 8,
        mhz: 2400,
        nodes: 1,
        sockets: 2,
        cores: 2,
        threads: 2,
    }
}

fn session() -> Connection {
    Connection::open("qemu:///system", 0x1000).unwrap()
}

/// A native layer that counts the references to one session.
struct CountingHost {
    references: u32,
    close_calls: u32,
    sessions_ended: u32,
}

impl CountingHost {
    fn open() -> (CountingHost, Connection) {
        let host = CountingHost { references: 1, close_calls: 0, sessions_ended: 0 };
        (host, Connection::open("test:///default", 0x5000).unwrap())
    }

    fn add_reference(&mut self, address: usize) -> i32 {
        assert_eq!(address, 0x5000);
        self.references += 1;
        0
    }

    fn close(&mut self, address: usize) {
        assert_eq!(address, 0x5000);
        assert!(self.references > 0);
        self.close_calls += 1;
        self.references -= 1;
        if self.references == 0 {
            self.sessions_ended += 1;
        }
    }
}

#[test]
fn open_takes_the_session() {
    let conn = Connection::open("qemu:///system", 0x7f00_1000).unwrap();
    assert_eq!(conn.as_ptr(), 0x7f00_1000);
    assert_eq!(conn.get_ptr().as_ptr(), 0x7f00_1000);
}

#[test]
fn open_fails_on_a_null_session() {
    assert_eq!(Connection::open("qemu:///system", 0).unwrap_err(), ConnectError);
}

#[test]
fn open_fails_on_a_uri_with_a_zero_byte() {
    assert_eq!(Connection::open("qemu:///\0system", 0x1000).unwrap_err(), ConnectError);
}

#[test]
fn node_info_matches_the_fixture() {
    for uri in ["qemu:///system", "test:///default", "qemu+ssh://host/system"] {
        let conn = Connection::open(uri, 0x1000).unwrap();
        let info = conn.node_info(0, &fixture()).unwrap();
        assert_eq!(
            info,
            NodeInfo {
                model: "x86_64".to_string(),
                memory_kb: 16_777_216,
                cpus: 8,
                mhz: 2400,
                nodes: 1,
                sockets: 2,
                cores: 2,
                threads: 2,
            }
        );
    }
}

#[test]
fn node_info_trims_the_model() {
    let raw = RawNodeInfo { model: field(b"  Intel Xeon \t"), ..fixture() };
    assert_eq!(session().node_info(0, &raw).unwrap().model, "Intel Xeon");
}

#[test]
fn node_info_reads_the_model_up_to_the_zero_byte() {
    let raw = RawNodeInfo { model: field(b"arm\0 left over"), ..fixture() };
    assert_eq!(session().node_info(0, &raw).unwrap().model, "arm");
}

#[test]
fn node_info_reads_a_model_that_fills_the_field() {
    let raw = RawNodeInfo { model: [b'a'; 32], ..fixture() };
    assert_eq!(session().node_info(0, &raw).unwrap().model, "a".repeat(32));
}

#[test]
fn node_info_keeps_the_largest_numbers() {
    let raw = RawNodeInfo {
        model: field(b""),
        memory: u64::MAX,
        cpus: u32::MAX,
        mhz: u32::MAX,
        nodes: u32::MAX,
        sockets: u32::MAX,
        cores: u32::MAX,
        threads: u32::MAX,
    };
    let info = session().node_info(0, &raw).unwrap();
    assert_eq!(info.model, "");
    assert_eq!(info.memory_kb, u64::MAX);
    assert_eq!(info.cpus, u32::MAX);
    assert_eq!(info.threads, u32::MAX);
}

#[test]
fn node_info_fails_on_any_status_but_zero() {
    for status in [-1, 1, i32::MIN, i32::MAX] {
        let failure = session().node_info(status, &fixture()).unwrap_err();
        assert_eq!(failure, QueryError::NodeInfo);
        assert_eq!(failure.message(), "virNodeGetInfo failed");
    }
}

#[test]
fn capabilities_returns_the_descriptor() {
    let xml = b"<capabilities><host/></capabilities>";
    assert_eq!(
        session().capabilities(Some(xml)).unwrap(),
        "<capabilities><host/></capabilities>"
    );
}

#[test]
fn capabilities_fails_on_a_null_pointer() {
    let failure = session().capabilities(None).unwrap_err();
    assert_eq!(failure, QueryError::Capabilities);
    assert_eq!(failure.message(), "virConnectGetCapabilities return NULL");
}

#[test]
fn capabilities_reads_bytes_that_are_no_text() {
    assert_eq!(session().capabilities(Some(b"<a>\xc3</a>")).unwrap(), "<a>\u{fffd}</a>");
}

#[test]
fn list_all_domains_skips_null_entries() {
    let domains = session().list_all_domains(3, &[0x10, 0, 0x30]).unwrap();
    assert_eq!(domains.len(), 2);
    assert_eq!(domains[0].as_ptr(), 0x10);
    assert_eq!(domains[1].as_ptr(), 0x30);
}

#[test]
fn list_all_domains_keeps_the_order() {
    let domains = session().list_all_domains(4, &[0x40, 0x10, 0x30, 0x20]).unwrap();
    let addresses: Vec<usize> = domains.iter().map(|domain| domain.as_ptr()).collect();
    assert_eq!(addresses, vec![0x40, 0x10, 0x30, 0x20]);
}

#[test]
fn list_all_domains_of_an_empty_host() {
    assert!(session().list_all_domains(0, &[]).unwrap().is_empty());
}

#[test]
fn list_all_domains_of_null_entries_alone() {
    assert!(session().list_all_domains(2, &[0, 0]).unwrap().is_empty());
}

#[test]
fn list_all_domains_fails_on_a_negative_count() {
    for count in [-1, i32::MIN] {
        let failure = session().list_all_domains(count, &[0x10]).unwrap_err();
        assert_eq!(failure, QueryError::ListDomains);
        assert_eq!(failure.message(), "virConnectListAllDomains failed");
    }
}

#[test]
fn list_all_domains_reads_no_more_than_count_entries() {
    let domains = session().list_all_domains(2, &[0x10, 0x20, 0x30]).unwrap();
    let addresses: Vec<usize> = domains.iter().map(|domain| domain.as_ptr()).collect();
    assert_eq!(addresses, vec![0x10, 0x20]);
}

#[test]
fn list_all_domains_reads_no_more_than_the_array() {
    let domains = session().list_all_domains(i32::MAX, &[0x10, 0, 0x30]).unwrap();
    let addresses: Vec<usize> = domains.iter().map(|domain| domain.as_ptr()).collect();
    assert_eq!(addresses, vec![0x10, 0x30]);
}

#[test]
fn define_domain_owns_what_was_defined() {
    let domain = session().define_domain("<domain><name>vm-a</name></domain>", 0x2000).unwrap();
    assert_eq!(domain.as_ptr(), 0x2000);
}

#[test]
fn define_domain_fails_when_the_hypervisor_refuses() {
    let failure = session().define_domain("<domain/>", 0).unwrap_err();
    assert_eq!(failure, DefineError::Rejected);
}

#[test]
fn define_domain_fails_on_a_descriptor_with_a_zero_byte() {
    let failure = session().define_domain("<domain>\0</domain>", 0x2000).unwrap_err();
    assert_eq!(failure, DefineError::Encoding);
    let failure = session().define_domain("\0", 0).unwrap_err();
    assert_eq!(failure, DefineError::Encoding);
}

#[test]
fn try_clone_shares_the_session() {
    let conn = session();
    let other = conn.try_clone(0).unwrap();
    assert_eq!(other.as_ptr(), conn.as_ptr());
}

#[test]
fn try_clone_fails_when_the_reference_was_not_added() {
    let conn = session();
    for status in [-1, 1] {
        let failure = conn.try_clone(status).unwrap_err();
        assert_eq!(failure, RetainError);
        assert_eq!(failure.message(), "virConnectRef failed");
    }
}

#[test]
fn close_names_the_session_to_close() {
    assert_eq!(session().close(), 0x1000);
}

#[test]
fn clones_and_closes_end_the_session_exactly_once() {
    for clones in [0usize, 1, 2, 7] {
        let (mut host, first) = CountingHost::open();
        let mut owners = vec![first];
        for _ in 0..clones {
            let status = host.add_reference(owners[0].as_ptr());
            owners.push(owners[0].try_clone(status).unwrap());
        }
        assert_eq!(owners.len(), clones + 1);
        while let Some(owner) = owners.pop() {
            assert_eq!(host.sessions_ended, 0);
            host.close(owner.close());
        }
        assert_eq!(host.close_calls as usize, clones + 1);
        assert_eq!(host.references, 0);
        assert_eq!(host.sessions_ended, 1);
    }
}

#[test]
fn clones_and_closes_in_any_order_end_the_session_exactly_once() {
    let (mut host, first) = CountingHost::open();
    let status = host.add_reference(first.as_ptr());
    let second = first.try_clone(status).unwrap();
    host.close(first.close());
    assert_eq!(host.sessions_ended, 0);
    let status = host.add_reference(second.as_ptr());
    let third = second.try_clone(status).unwrap();
    host.close(third.close());
    assert_eq!(host.sessions_ended, 0);
    host.close(second.close());
    assert_eq!(host.sessions_ended, 1);
    assert_eq!(host.close_calls, 3);
}

#[test]
fn native_calls_take_no_flags() {
    assert_eq!(LIST_ALL_FLAGS, 0);
    assert_eq!(DEFINE_FLAGS, 0);
}

fn shareable<T: Send + Sync + 'static>() {}

#[test]
fn owners_can_be_shared_across_threads() {
    shareable::<Connection>();
    shareable::<libvirtrs::domain::Domain>();
    shareable::<libvirtrs::service::KVMManager>();
    shareable::<libvirtrs::service::Dispatch>();
    let conn = std::sync::Arc::new(session());
    let other = std::sync::Arc::clone(&conn);
    assert_eq!(other.as_ptr(), conn.as_ptr());
}
