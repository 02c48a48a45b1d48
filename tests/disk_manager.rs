use disk_manager::backend::{load_backend, Backend, BackendError, BackendKind, GlusterBackend};
use disk_manager::discovery::{
    convert_media_to_disk_type, device_path, encode_disks, get_disk, get_partition_info, Disk,
    DiskType, MediaType, Partition, PartitionEntry, ReadError,
};
use disk_manager::dispatch::{
    handle_operation, handle_request, list_disks, op_bool_result_reply, op_result_reply, Action,
    DiscoveryError, RequestError, ServiceConfig, validate_vault_token,
};
use disk_manager::messages::{OpBoolResult, OpResult, ResultType};
use disk_manager::request::{OpKind, Operation};
use disk_manager::varint::{decode_varint, encode_varint};
use disk_manager::wire::{decode_bytes, decode_tag};

fn config() -> ServiceConfig {
    ServiceConfig {
        backend: load_backend(BackendKind::Gluster, &"/etc/disk_manager".to_string()).unwrap(),
        config_dir: "/etc/disk_manager".to_string(),
    }
}

fn request(kind: OpKind, token: &str, disk_path: Option<&str>) -> Operation {
    Operation {
        kind,
        token: token.to_string(),
        disk_path: disk_path.map(|d| d.to_string()),
        id: None,
        journal_path: None,
        journal_partition: None,
    }
}

fn secret() -> Option<String> {
    Some("stored-secret".to_string())
}

fn entry(guid: &str, first: u64, last: u64, name: &str) -> PartitionEntry {
    PartitionEntry {
        guid: guid.to_string(),
        first_lba: first,
        last_lba: last,
        flags: 0,
        name: name.to_string(),
    }
}

#[test]
fn varint_known_encodings() {
    let mut out = Vec::new();
    encode_varint(&mut out, 300);
    assert_eq!(out, vec![0xAC, 0x02]);
    assert_eq!(decode_varint(&out, 0), Some((300, 2)));
    let mut small = Vec::new();
    encode_varint(&mut small, 5);
    assert_eq!(small, vec![5]);
    let mut max = Vec::new();
    encode_varint(&mut max, u64::MAX);
    assert_eq!(max.len(), 10);
    assert_eq!(decode_varint(&max, 0), Some((u64::MAX, 10)));
}

#[test]
fn varint_rejects_overflow_and_truncation() {
    assert_eq!(decode_varint(&vec![0x80], 0), None);
    let too_long = vec![0xFF; 11];
    assert_eq!(decode_varint(&too_long, 0), None);
    let overflow = vec![0xFF, 0xFF, 0xFF, 0xFF, 0xFF, 0xFF, 0xFF, 0xFF, 0xFF, 0x02];
    assert_eq!(decode_varint(&overflow, 0), None);
}

#[test]
fn op_result_exact_bytes() {
    assert_eq!(OpResult::ok().encode(), vec![8, 0]);
    assert_eq!(OpResult::err("x".to_string()).encode(), vec![8, 1, 18, 1, b'x']);
}

#[test]
fn op_result_round_trip() {
    for r in [OpResult::ok(), OpResult::err("disk is mounted".to_string())] {
        let back = OpResult::decode(&r.encode()).unwrap();
        assert_eq!(back.result, r.result);
        assert_eq!(back.error_msg, r.error_msg);
    }
}

#[test]
fn op_bool_result_round_trip() {
    for r in [
        OpBoolResult::ok(true),
        OpBoolResult::ok(false),
        OpBoolResult::err("cluster degraded".to_string()),
    ] {
        let back = OpBoolResult::decode(&r.encode()).unwrap();
        assert_eq!(back.result, r.result);
        assert_eq!(back.value, r.value);
        assert_eq!(back.error_msg, r.error_msg);
    }
}

#[test]
fn operation_round_trip() {
    let op = Operation {
        kind: OpKind::Add,
        token: "tok".to_string(),
        disk_path: Some("/dev/sdz".to_string()),
        id: Some(12),
        journal_path: Some("/dev/nvme0n1".to_string()),
        journal_partition: Some(3),
    };
    let back = Operation::decode(&op.encode()).unwrap();
    assert_eq!(back.kind, op.kind);
    assert_eq!(back.token, op.token);
    assert_eq!(back.disk_path, op.disk_path);
    assert_eq!(back.id, op.id);
    assert_eq!(back.journal_path, op.journal_path);
    assert_eq!(back.journal_partition, op.journal_partition);
}

#[test]
fn text_fields_keep_multibyte_characters() {
    let r = OpResult::err("périphérique occupé".to_string());
    let back = OpResult::decode(&r.encode()).unwrap();
    assert_eq!(back.error_msg, Some("périphérique occupé".to_string()));
}

#[test]
fn invalid_utf8_text_is_malformed() {
    let bytes = vec![8, 1, 18, 2, 0xC3, 0x28];
    assert!(OpResult::decode(&bytes).is_none());
}

#[test]
fn simulated_safe_to_remove_is_true() {
    let b = Backend::Gluster(GlusterBackend);
    assert!(matches!(b.safe_to_remove(&"/dev/sdz".to_string(), true), Ok(true)));
    assert!(matches!(GlusterBackend.safe_to_remove(&"/dev/sda".to_string(), true), Ok(true)));
}

#[test]
fn simulated_add_and_remove_succeed() {
    let b = Backend::Gluster(GlusterBackend);
    let dev = "/dev/sdz".to_string();
    assert!(b.add_disk(&dev, Some(1), &None, None, true).is_ok());
    assert!(b.remove_disk(&dev, true).is_ok());
}

#[test]
fn missing_disk_path_gets_no_reply() {
    let cfg = config();
    for kind in [OpKind::Add, OpKind::Remove, OpKind::SafeToRemove] {
        let a = handle_operation(&cfg, &request(kind, "tok", None), &secret());
        assert!(matches!(a, Action::Drop(RequestError::Validation)));
    }
    let a = handle_operation(&cfg, &request(OpKind::AddPartition, "tok", None), &secret());
    assert!(matches!(a, Action::NoReply));
}

#[test]
fn partitions_keep_table_order() {
    let entries = vec![
        entry("a-1", 34, 2047, "boot"),
        entry("b-2", 2048, 4095, "root"),
        entry("c-3", 4096, 4096, "tiny"),
    ];
    let ps = get_partition_info(entries).ok().unwrap();
    assert_eq!(ps.len(), 3);
    assert_eq!(ps[0].uuid, "a-1");
    assert_eq!(ps[1].name, "root");
    assert_eq!(ps[2].first_block, 4096);
    for p in &ps {
        assert!(p.first_block <= p.last_block);
    }
}

#[test]
fn corrupt_partition_entry_is_a_read_error() {
    let entries = vec![entry("a-1", 34, 2047, "boot"), entry("b-2", 5000, 10, "bad")];
    assert!(get_partition_info(entries).is_err());
}

#[test]
fn unreadable_table_gives_empty_partitions() {
    let err = ReadError { message: "no GPT header".to_string() };
    let d = get_disk(&"sdb".to_string(), MediaType::Rotational, None, Err(err));
    assert_eq!(d.device_path, "/dev/sdb");
    assert_eq!(d.disk_type, DiskType::Rotational);
    assert!(d.partitions.is_empty());
    let bad = vec![entry("b-2", 5000, 10, "bad")];
    let d2 = get_disk(&"sdc".to_string(), MediaType::SolidState, Some("S1".to_string()), Ok(bad));
    assert!(d2.partitions.is_empty());
    assert_eq!(d2.serial_number, Some("S1".to_string()));
}

#[test]
fn media_types_convert() {
    assert_eq!(convert_media_to_disk_type(MediaType::NVME), DiskType::Nvme);
    assert_eq!(convert_media_to_disk_type(MediaType::LVM), DiskType::Lvm);
    assert_eq!(convert_media_to_disk_type(MediaType::Unknown), DiskType::Unknown);
    assert_eq!(device_path(&"nvme0n1".to_string()), "/dev/nvme0n1");
}

#[test]
fn backend_kind_names() {
    assert_eq!(BackendKind::from_name(&"gluster".to_string()), Some(BackendKind::Gluster));
    assert_eq!(BackendKind::from_name(&"ceph".to_string()), None);
}

fn count_disk_fields(bytes: &Vec<u8>) -> usize {
    let mut pos = 0;
    let mut n = 0;
    while pos < bytes.len() {
        let p = decode_tag(bytes, pos, 10).unwrap();
        let (_, next) = decode_bytes(bytes, p).unwrap();
        pos = next;
        n += 1;
    }
    n
}

#[test]
fn list_request_replies_with_every_disk() {
    let cfg = config();
    let raw = request(OpKind::List, "tok", None).encode();
    assert!(matches!(handle_request(&cfg, &raw, &secret()), Action::ListDisks));
    let disks: Vec<Disk> = vec![
        get_disk(&"sda".to_string(), MediaType::SolidState, Some("X1".to_string()), Ok(vec![entry("u", 1, 2, "p")])),
        get_disk(&"sdb".to_string(), MediaType::Rotational, None, Ok(vec![])),
        get_disk(&"loop0".to_string(), MediaType::Loopback, None, Err(ReadError { message: "e".to_string() })),
    ];
    let reply = list_disks(&Ok(disks.clone()));
    assert_eq!(reply, encode_disks(&disks));
    assert_eq!(count_disk_fields(&reply), 3);
}

#[test]
fn disk_exact_bytes() {
    let d = Disk {
        device_path: "/dev/a".to_string(),
        disk_type: DiskType::Ram,
        serial_number: None,
        partitions: vec![Partition { uuid: "u".to_string(), first_block: 1, last_block: 2, flags: 0, name: "n".to_string() }],
    };
    let expected_partition = vec![10, 1, b'u', 16, 1, 24, 2, 32, 0, 42, 1, b'n'];
    let mut expected_disk = vec![10, 6, b'/', b'd', b'e', b'v', b'/', b'a', 16, 4, 26, 12];
    expected_disk.extend_from_slice(&expected_partition);
    assert_eq!(d.encode(), expected_disk);
    let mut expected_list = vec![10, expected_disk.len() as u8];
    expected_list.extend_from_slice(&expected_disk);
    assert_eq!(encode_disks(&vec![d]), expected_list);
}

#[test]
fn failed_listing_replies_with_error() {
    let reply = list_disks(&Err(DiscoveryError { message: "udev unavailable".to_string() }));
    let r = OpResult::decode(&reply).unwrap();
    assert_eq!(r.result, ResultType::Failure);
    assert_eq!(r.error_msg, Some("udev unavailable".to_string()));
}

#[test]
fn refused_token_gets_no_reply() {
    let cfg = config();
    let raw = request(OpKind::Add, "stored-secret", Some("/dev/sdz")).encode();
    assert!(matches!(handle_request(&cfg, &raw, &secret()), Action::Drop(RequestError::Auth)));
    assert!(matches!(handle_request(&cfg, &raw, &None), Action::Drop(RequestError::Auth)));
    assert!(validate_vault_token(&secret(), &"other".to_string()).is_ok());
}

#[test]
fn backend_failure_is_reported() {
    let reply = op_result_reply(Err(BackendError { message: "device busy".to_string() }));
    let r = OpResult::decode(&reply).unwrap();
    assert_eq!(r.result, ResultType::Failure);
    assert_eq!(r.error_msg, Some("device busy".to_string()));
    let reply2 = op_bool_result_reply(Err(BackendError { message: "device busy".to_string() }));
    let r2 = OpBoolResult::decode(&reply2).unwrap();
    assert_eq!(r2.result, ResultType::Failure);
    assert_eq!(r2.value, None);
}

#[test]
fn disk_requests_reply_with_success() {
    let cfg = config();
    let add = request(OpKind::Remove, "tok", Some("/dev/sdz")).encode();
    match handle_request(&cfg, &add, &secret()) {
        Action::Reply(b) => assert_eq!(OpResult::decode(&b).unwrap().result, ResultType::Success),
        other => panic!("unexpected {:?}", other),
    }
    let check = request(OpKind::SafeToRemove, "tok", Some("/dev/sdz")).encode();
    match handle_request(&cfg, &check, &secret()) {
        Action::Reply(b) => assert_eq!(OpBoolResult::decode(&b).unwrap().value, Some(true)),
        other => panic!("unexpected {:?}", other),
    }
}

#[test]
fn malformed_request_gets_no_reply() {
    let cfg = config();
    for raw in [vec![], vec![0xFF, 0xFF, 0xFF], vec![8, 9, 18, 0], vec![8, 2, 18, 0, 99]] {
        assert!(matches!(handle_request(&cfg, &raw, &secret()), Action::Drop(RequestError::Decode)));
    }
}
