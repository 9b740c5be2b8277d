use spdk::errors::{Errno, EINVAL, ENODEV, ENOENT, EPERM};
use spdk::nvme::transport::{
    address_family, fc_traddr, fc_trsvcid, nul_position, read_field, read_subnqn, socket_traddr,
    socket_trsvcid, to_c_text, write_field, FibreChannelAddr, SPDK_NVMF_ADRFAM_IPV4,
    SPDK_NVMF_ADRFAM_IPV6, TRSVCID_CAPACITY,
};
use spdk::net::SocketAddr;
use spdk::nvmf::ownership::{target_destroy_check, transport_destroy_check, Ownership};
use spdk::nvmf::subsystem::{namespace_id_result, property_result, removal_result, SubsystemType};
use spdk::nvmf::transport::TransportType;
use spdk::runtime::cpu_core::SPDK_ENV_LCORE_ID_ANY;
use spdk::runtime::{CpuCore, CpuCores, Reactor};

#[test]
fn cpu_core_current() {
    assert_eq!(CpuCore::try_current(SPDK_ENV_LCORE_ID_ANY), None);
    assert_eq!(CpuCore::try_current(3).map(|c| c.id()), Some(3));
    assert_eq!(CpuCore::current(0).id(), 0);
    assert_eq!(CpuCore::main(1).id(), 1);
}

#[test]
fn cpu_cores_iterate() {
    let mut it = CpuCores::new(0);
    assert_eq!(it.peek().map(|c| c.id()), Some(0));
    assert_eq!(it.next(2).map(|c| c.id()), Some(0));
    assert_eq!(it.next(SPDK_ENV_LCORE_ID_ANY).map(|c| c.id()), Some(2));
    assert_eq!(it.next(5), None);
    assert_eq!(it.peek(), None);
    let mut empty = CpuCores::new(SPDK_ENV_LCORE_ID_ANY);
    assert_eq!(empty.next(0), None);
}

#[test]
fn reactor_identity() {
    assert_eq!(Reactor::try_current(SPDK_ENV_LCORE_ID_ANY), None);
    let r = Reactor::current(4);
    assert_eq!(r.cpu_core().id(), 4);
    assert!(r.is_current(4));
    assert!(!r.is_current(5));
    assert!(!r.is_current(SPDK_ENV_LCORE_ID_ANY));
    assert_eq!(Reactor::main(0), Reactor::new(CpuCore::main(0)));
}

#[test]
fn transport_types() {
    for (t, raw, name) in [
        (TransportType::RDMA, 1u32, "RDMA"),
        (TransportType::FC, 2, "FC"),
        (TransportType::TCP, 3, "TCP"),
        (TransportType::PCIE, 256, "PCIE"),
        (TransportType::VFIOUSER, 1024, "VFIOUSER"),
        (TransportType::CUSTOM, 4096, "CUSTOM"),
    ] {
        assert_eq!(t.value(), raw);
        assert_eq!(TransportType::from_raw(raw), t);
        assert_eq!(t.name(), name);
        assert_eq!(t.to_string(), name);
    }
    assert_eq!(TransportType::try_from_raw(0), None);
    assert_eq!(TransportType::try_from_raw(4097), None);
}

#[test]
fn subsystem_types_and_results() {
    assert_eq!(SubsystemType::from_raw(1), SubsystemType::Discovery);
    assert_eq!(SubsystemType::from_raw(2), SubsystemType::NVMe);
    assert_eq!(SubsystemType::NVMe.value(), 2);
    assert!(SubsystemType::Discovery.is_discovery());
    assert!(!SubsystemType::NVMe.is_discovery());
    assert_eq!(removal_result(Ok(())), Ok(true));
    assert_eq!(removal_result(Err(Errno(ENOENT))), Ok(false));
    assert_eq!(removal_result(Err(Errno(EPERM))), Err(Errno(EPERM)));
    assert_eq!(property_result(-1), Err(Errno(EINVAL)));
    assert_eq!(property_result(0), Ok(()));
    assert_eq!(namespace_id_result(0), Err(Errno(EINVAL)));
    assert_eq!(namespace_id_result(7), Ok(7));
}

#[test]
fn ownership_states() {
    let mut owned: Ownership<u64> = Ownership::Owned(0x1000);
    assert!(owned.is_owned());
    assert_eq!(owned.as_ptr(), 0x1000);
    let borrowed = owned.borrow();
    assert!(borrowed.is_borrowed());
    assert_eq!(borrowed.as_ptr(), 0x1000);
    assert_eq!(target_destroy_check(&borrowed), Err(Errno(EPERM)));
    assert_eq!(transport_destroy_check(&borrowed), Err(Errno(EPERM)));
    assert_eq!(target_destroy_check(&owned), Ok(0x1000));
    let taken = owned.take();
    assert!(taken.is_owned());
    assert!(owned.is_none());
    assert_eq!(target_destroy_check(&owned), Err(Errno(ENODEV)));
    assert_eq!(transport_destroy_check(&owned), Err(Errno(ENODEV)));
}

#[test]
fn transport_fields() {
    let v4 = SocketAddr::new("192.168.0.2".to_string(), 4420);
    let v6 = SocketAddr::new("::1".to_string(), 4421);
    assert_eq!(address_family(&v4), SPDK_NVMF_ADRFAM_IPV4);
    assert_eq!(address_family(&v6), SPDK_NVMF_ADRFAM_IPV6);
    assert_eq!(socket_traddr(&v4), b"192.168.0.2\0".to_vec());
    assert_eq!(socket_trsvcid(&v6), b"4421\0".to_vec());
    let fc = FibreChannelAddr::new(0x20000090fa942779, 0x10000090fa942779);
    assert_eq!(fc.to_string(), "nn-0x20000090fa942779:pn-0x10000090fa942779");
    assert_eq!(fc_traddr(&fc), b"nn-0x20000090fa942779:pn-0x10000090fa942779\0".to_vec());
    assert_eq!(fc_trsvcid(), b"none\0".to_vec());
    assert_eq!(to_c_text("nqn"), b"nqn\0".to_vec());
}

#[test]
fn field_write_then_read() {
    let mut field = vec![0u8; TRSVCID_CAPACITY];
    assert_eq!(read_subnqn(&field), None);
    write_field(&mut field, b"4420\0");
    assert_eq!(read_field(&field), b"4420".to_vec());
    assert_eq!(nul_position(&field), Some(4));
    let mut dirty = vec![b'x'; 8];
    assert_eq!(nul_position(&dirty), None);
    write_field(&mut dirty, b"ab\0");
    assert_eq!(dirty, b"ab\0xxxxx".to_vec());
    assert_eq!(read_subnqn(&dirty), Some(b"ab".to_vec()));
}
