use spdk::nvmf::ownership::{add_transport_step, AddTransportStep};
use spdk::errors::{Errno, EINVAL};
use spdk::net::addr::{parse_port, SocketAddr, AF_INET, AF_INET6};
use spdk::nvmf::target_builder::{Builder as TargetBuilder, NVMF_TGT_NAME_MAX_LENGTH};
use spdk::nvmf::transport::TransportType;
use spdk::nvmf::transport_builder::{Builder as TransportBuilder, TransportOptions};
use spdk::runtime::cpu_set::{CpuSet, SPDK_CPUSET_SIZE};
use spdk::runtime::reactors;
use spdk::thread::{block_on_step, BlockOnStep};
use spdk::time::IntervalInner;
use spdk::uuid::{parse, Uuid, SPDK_UUID_STRING_LEN};

const SAMPLE: [u8; 16] = [
    0x12, 0x34, 0x56, 0x78, 0x9a, 0xbc, 0xde, 0xf0, 0x01, 0x23, 0x45, 0x67, 0x89, 0xab, 0xcd,
    0xef,
];

#[test]
fn uuid_renders_lower_case_with_dashes() {
    let u = Uuid::from_bytes(SAMPLE);
    let s = u.to_string();
    assert_eq!(s, "12345678-9abc-def0-0123-456789abcdef");
    assert_eq!(s.len() + 1, SPDK_UUID_STRING_LEN);
}

#[test]
fn uuid_parses_either_case() {
    let upper = parse("12345678-9ABC-DEF0-0123-456789ABCDEF").unwrap();
    assert_eq!(upper.as_bytes(), SAMPLE);
    let lower = parse("12345678-9abc-def0-0123-456789abcdef").unwrap();
    assert!(upper == lower);
}

#[test]
fn uuid_round_trip() {
    let u = Uuid::from_bytes(SAMPLE);
    let back = parse(&u.to_string()).unwrap();
    assert!(back == u);
    assert_eq!(back.compare(&u), 0);
}

#[test]
fn uuid_rejects_malformed_text() {
    assert_eq!(parse("").err(), Some(Errno(EINVAL)));
    assert_eq!(parse("12345678-9abc-def0-0123-456789abcde").err(), Some(Errno(EINVAL)));
    assert_eq!(parse("12345678-9abc-def0-0123-456789abcdeff").err(), Some(Errno(EINVAL)));
    assert_eq!(parse("12345678x9abc-def0-0123-456789abcdef").err(), Some(Errno(EINVAL)));
    assert_eq!(parse("12345678-9abc-def0-0123-456789abcdeg").err(), Some(Errno(EINVAL)));
    assert_eq!(parse("123456789-abc-def0-0123-456789abcdef").err(), Some(Errno(EINVAL)));
}

#[test]
fn uuid_null_and_compare() {
    let mut u = Uuid::from_bytes(SAMPLE);
    assert!(!u.is_null());
    u.set_null();
    assert!(u.is_null());
    assert_eq!(u.to_string(), "00000000-0000-0000-0000-000000000000");
    let s = Uuid::from_bytes(SAMPLE);
    assert!(u.compare(&s) < 0);
    assert!(s.compare(&u) > 0);
    assert!(!(u == s));
    let mut later = SAMPLE;
    later[15] = 0xf0;
    assert!(s.compare(&Uuid::from_bytes(later)) < 0);
}

#[test]
fn cpu_set_set_clear_count() {
    let mut s = CpuSet::new();
    assert_eq!(s.count(), 0);
    s.set_cpu(0, true);
    s.set_cpu(5, true);
    s.set_cpu(SPDK_CPUSET_SIZE - 1, true);
    assert_eq!(s.count(), 3);
    s.set_cpu(5, true);
    assert_eq!(s.count(), 3);
    s.set_cpu(5, false);
    assert_eq!(s.count(), 2);
    s.set_cpu(7, false);
    assert_eq!(s.count(), 2);
    s.clear();
    assert_eq!(s.count(), 0);
    assert!(s == CpuSet::default());
}

#[test]
fn cpu_set_operators() {
    let mut a = CpuSet::new();
    a.set_cpu(1, true);
    a.set_cpu(2, true);
    let mut b = CpuSet::new();
    b.set_cpu(2, true);
    b.set_cpu(3, true);

    let mut and = a;
    and.bitand_assign(b);
    let mut expect_and = CpuSet::new();
    expect_and.set_cpu(2, true);
    assert!(and == expect_and);

    let mut or = a;
    or.bitor_assign(b);
    assert_eq!(or.count(), 3);

    let mut xor = a;
    xor.bitxor_assign(b);
    let mut expect_xor = CpuSet::new();
    expect_xor.set_cpu(1, true);
    expect_xor.set_cpu(3, true);
    assert!(xor == expect_xor);
    assert!(!(xor == a));
}

#[test]
fn cpu_set_complement() {
    let mut a = CpuSet::new();
    a.set_cpu(4, true);
    a.set_cpu(9, true);
    let n = a.not();
    assert_eq!(a.count() + n.count(), SPDK_CPUSET_SIZE);
    assert_eq!(n.count(), SPDK_CPUSET_SIZE - 2);
    assert!(n.not() == a);
    assert_eq!(CpuSet::new().not().count(), SPDK_CPUSET_SIZE);
}

#[test]
fn port_text_parses() {
    assert_eq!(parse_port("0"), Some(0));
    assert_eq!(parse_port("8080"), Some(8080));
    assert_eq!(parse_port("+80"), Some(80));
    assert_eq!(parse_port("00443"), Some(443));
    assert_eq!(parse_port("65535"), Some(65535));
    assert_eq!(parse_port("65536"), None);
    assert_eq!(parse_port("99999999999"), None);
    assert_eq!(parse_port(""), None);
    assert_eq!(parse_port("+"), None);
    assert_eq!(parse_port("-1"), None);
    assert_eq!(parse_port("8o"), None);
    assert_eq!(parse_port(" 80"), None);
}

#[test]
fn port_text_round_trip() {
    for p in [0u16, 1, 9, 10, 80, 4420, 65535] {
        assert_eq!(parse_port(&p.to_string()), Some(p));
    }
}

#[test]
fn socket_addr_from_name_info() {
    let a = SocketAddr::from_name_info(AF_INET, String::from("127.0.0.1"), "4420");
    assert!(a.is_iv4());
    assert_eq!(a.ip(), "127.0.0.1");
    assert_eq!(a.port(), 4420);
    let b = SocketAddr::from_name_info(AF_INET6, String::from("::1"), "80");
    assert!(b.is_iv6());
    assert_eq!(b.to_string(), "[::1]:80");
}

#[test]
fn transport_builder_sets_options() {
    let defaults = TransportOptions {
        max_queue_depth: 128,
        max_qpairs_per_ctrlr: 128,
        in_capsule_data_size: 4096,
        max_io_size: 131072,
        io_unit_size: 131072,
        max_aq_depth: 128,
        num_shared_buffers: 511,
        buf_cache_size: 32,
        dif_insert_or_strip: false,
        abort_timeout_sec: 1,
        association_timeout: 120000,
        acceptor_poll_rate: 10000,
        zcopy: false,
    };
    let b = TransportBuilder::new(TransportType::TCP, defaults)
        .with_max_queue_depth(64)
        .with_max_qpairs_per_ctrlr(8)
        .with_in_capsule_data_size(8192)
        .with_max_io_size(65536)
        .with_io_unit_size(8192)
        .with_max_aq_depth(32)
        .with_num_shared_buffers(1023)
        .with_buf_cache_size(64)
        .with_dif_insert_or_strip(true)
        .with_abort_timeout(5)
        .with_association_timeout(30000)
        .with_acceptor_poll_rate(100)
        .with_zero_copy_enabled(true);
    assert_eq!(b.transport_type(), TransportType::TCP);
    let o = b.options();
    assert_eq!(o.max_queue_depth, 64);
    assert_eq!(o.max_qpairs_per_ctrlr, 8);
    assert_eq!(o.in_capsule_data_size, 8192);
    assert_eq!(o.max_io_size, 65536);
    assert_eq!(o.io_unit_size, 8192);
    assert_eq!(o.max_aq_depth, 32);
    assert_eq!(o.num_shared_buffers, 1023);
    assert_eq!(o.buf_cache_size, 64);
    assert!(o.dif_insert_or_strip);
    assert_eq!(o.abort_timeout_sec, 5);
    assert_eq!(o.association_timeout, 30000);
    assert_eq!(o.acceptor_poll_rate, 100);
    assert!(o.zcopy);
}

#[test]
fn transport_builder_truncates_long_timeouts() {
    let defaults = TransportOptions {
        max_queue_depth: 0,
        max_qpairs_per_ctrlr: 0,
        in_capsule_data_size: 0,
        max_io_size: 0,
        io_unit_size: 0,
        max_aq_depth: 0,
        num_shared_buffers: 0,
        buf_cache_size: 0,
        dif_insert_or_strip: false,
        abort_timeout_sec: 0,
        association_timeout: 0,
        acceptor_poll_rate: 0,
        zcopy: false,
    };
    let b = TransportBuilder::new(TransportType::RDMA, defaults)
        .with_abort_timeout((1u64 << 32) + 7)
        .with_association_timeout((1u128 << 40) + 3);
    assert_eq!(b.options().abort_timeout_sec, 7);
    assert_eq!(b.options().association_timeout, 3);
    assert_eq!(b.options().max_queue_depth, 0);
}

#[test]
fn target_builder_fills_name_field() {
    let b = TargetBuilder::new("nvmf_tgt")
        .with_max_subsystems(1024)
        .with_command_retry_delay_times([1, 2, 3])
        .with_discovery_filter(2);
    let name = b.name();
    assert_eq!(name.len(), NVMF_TGT_NAME_MAX_LENGTH);
    assert_eq!(&name[..8], b"nvmf_tgt");
    assert!(name[8..].iter().all(|&x| x == 0));
    assert_eq!(b.max_subsystems(), 1024);
    assert_eq!(b.command_retry_delay_times(), [1, 2, 3]);
    assert_eq!(b.discovery_filter(), 2);
    let fresh = TargetBuilder::new("t");
    assert_eq!(fresh.max_subsystems(), 0);
    assert_eq!(fresh.command_retry_delay_times(), [0, 0, 0]);
    assert_eq!(fresh.discovery_filter(), 0);
}

#[test]
fn reactors_follow_the_cores() {
    let r = reactors(&vec![0, 2, 5]);
    let ids: Vec<u32> = r.iter().map(|x| x.cpu_core().id()).collect();
    assert_eq!(ids, vec![0, 2, 5]);
    assert!(reactors(&Vec::new()).is_empty());
}

#[test]
fn block_on_steps() {
    assert!(matches!(block_on_step(Some(7)), BlockOnStep::Return(7)));
    assert!(matches!(block_on_step::<u8>(None), BlockOnStep::PollThread));
}

#[test]
fn cpu_set_membership() {
    let mut s = CpuSet::new();
    s.set_cpu(3, true);
    assert!(s.get_cpu(3));
    assert!(!s.get_cpu(4));
    s.set_cpu(3, false);
    assert!(!s.get_cpu(3));
}

#[test]
fn interval_counts_elapsed_periods() {
    let mut i = IntervalInner::new();
    assert_eq!(i.elapsed(), 0);
    assert!(i.period_elapsed().is_none());
    assert!(i.period_elapsed().is_none());
    assert_eq!(i.elapsed(), 2);
}

#[test]
fn core_converts_to_its_id() {
    let core = spdk::runtime::CpuCore::main(7);
    assert_eq!(u32::from(core), 7);
    let id: u32 = core.into();
    assert_eq!(id, core.id());
}

#[test]
fn add_transport_outcome() {
    assert_eq!(add_transport_step(Ok(())), AddTransportStep::Release);
    assert_eq!(
        add_transport_step(Err(Errno(EINVAL))),
        AddTransportStep::DestroyThenFail(Errno(EINVAL))
    );
}
