//! Disk and partition records built from what the host reports, and the
//! wire form of a disk list.
use vstd::prelude::*;
use vstd::string::StringExecFns;
use crate::wire::{
    varint_field, text_field, bytes_field, opt_text_field, opt_string_view, encode_varint_field,
    encode_text_field, encode_bytes_field, encode_opt_text_field,
};

verus! {

/// Media classification as the host's device metadata gives it.
#[derive(Clone, Copy, Debug, PartialEq, Eq, Structural)]
pub enum MediaType {
    Loopback,
    LVM,
    MdRaid,
    NVME,
    Ram,
    Rotational,
    SolidState,
    Unknown,
    Virtual,
}

/// Media classification as replies carry it.
#[derive(Clone, Copy, Debug, PartialEq, Eq, Structural)]
pub enum DiskType {
    Loopback,
    Lvm,
    MdRaid,
    Nvme,
    Ram,
    Rotational,
    SolidState,
    Virtual,
    Unknown,
}

pub open spec fn disk_type_of(m: MediaType) -> DiskType {
    match m {
        MediaType::Loopback => DiskType::Loopback,
        MediaType::LVM => DiskType::Lvm,
        MediaType::MdRaid => DiskType::MdRaid,
        MediaType::NVME => DiskType::Nvme,
        MediaType::Ram => DiskType::Ram,
        MediaType::Rotational => DiskType::Rotational,
        MediaType::SolidState => DiskType::SolidState,
        MediaType::Unknown => DiskType::Unknown,
        MediaType::Virtual => DiskType::Virtual,
    }
}

pub open spec fn disk_type_code(d: DiskType) -> nat {
    match d {
        DiskType::Loopback => 0,
        DiskType::Lvm => 1,
        DiskType::MdRaid => 2,
        DiskType::Nvme => 3,
        DiskType::Ram => 4,
        DiskType::Rotational => 5,
        DiskType::SolidState => 6,
        DiskType::Virtual => 7,
        DiskType::Unknown => 8,
    }
}

/// Maps the host's media classification to the one replies carry.
pub fn convert_media_to_disk_type(m: MediaType) -> (d: DiskType)
    ensures
        d == disk_type_of(m),
{
    match m {
        MediaType::Loopback => DiskType::Loopback,
        MediaType::LVM => DiskType::Lvm,
        MediaType::MdRaid => DiskType::MdRaid,
        MediaType::NVME => DiskType::Nvme,
        MediaType::Ram => DiskType::Ram,
        MediaType::Rotational => DiskType::Rotational,
        MediaType::SolidState => DiskType::SolidState,
        MediaType::Unknown => DiskType::Unknown,
        MediaType::Virtual => DiskType::Virtual,
    }
}

fn disk_type_to_code(d: DiskType) -> (c: u64)
    ensures
        c as nat == disk_type_code(d),
{
    match d {
        DiskType::Loopback => 0,
        DiskType::Lvm => 1,
        DiskType::MdRaid => 2,
        DiskType::Nvme => 3,
        DiskType::Ram => 4,
        DiskType::Rotational => 5,
        DiskType::SolidState => 6,
        DiskType::Virtual => 7,
        DiskType::Unknown => 8,
    }
}

/// Why a device's partition table could not be read.
#[derive(Clone, Debug)]
pub struct ReadError {
    pub message: String,
}

/// One entry of a partition table as it is read from the device.
#[derive(Clone, Debug)]
pub struct PartitionEntry {
    pub guid: String,
    pub first_lba: u64,
    pub last_lba: u64,
    pub flags: u64,
    pub name: String,
}

/// A partition of a disk; its first block never lies after its last.
#[derive(Clone, Debug)]
pub struct Partition {
    pub uuid: String,
    pub first_block: u64,
    pub last_block: u64,
    pub flags: u64,
    pub name: String,
}

pub struct PartitionView {
    pub uuid: Seq<char>,
    pub first_block: nat,
    pub last_block: nat,
    pub flags: nat,
    pub name: Seq<char>,
}

impl View for Partition {
    type V = PartitionView;

    open spec fn view(&self) -> PartitionView {
        PartitionView {
            uuid: self.uuid@,
            first_block: self.first_block as nat,
            last_block: self.last_block as nat,
            flags: self.flags as nat,
            name: self.name@,
        }
    }
}

impl Partition {
    pub open spec fn wf(&self) -> bool {
        self.first_block <= self.last_block
    }
}

/// The partition record for a table entry, field for field.
pub open spec fn entry_partition(e: PartitionEntry) -> PartitionView {
    PartitionView {
        uuid: e.guid@,
        first_block: e.first_lba as nat,
        last_block: e.last_lba as nat,
        flags: e.flags as nat,
        name: e.name@,
    }
}

pub open spec fn entry_valid(e: PartitionEntry) -> bool {
    e.first_lba <= e.last_lba
}

pub open spec fn partition_views(ps: Seq<Partition>) -> Seq<PartitionView> {
    ps.map_values(|p: Partition| p@)
}

/// Turns the entries of a partition table into partition records, in table
/// order; fails where an entry ends before it begins.
pub fn get_partition_info(entries: Vec<PartitionEntry>) -> (r: Result<Vec<Partition>, ReadError>)
    ensures
        r.is_ok() <==> forall|k: int| 0 <= k < entries@.len() ==> entry_valid(#[trigger] entries@[k]),
        match r {
            Ok(ps) => {
                &&& ps@.len() == entries@.len()
                &&& forall|k: int| 0 <= k < ps@.len() ==> (#[trigger] ps@[k])@ == entry_partition(entries@[k]) && ps@[k].wf()
            },
            Err(_) => true,
        },
{
    let mut out: Vec<Partition> = Vec::new();
    let mut i: usize = 0;
    while i < entries.len()
        invariant
            i <= entries@.len(),
            out@.len() == i,
            forall|k: int| 0 <= k < i ==> entry_valid(#[trigger] entries@[k]),
            forall|k: int| 0 <= k < i ==> (#[trigger] out@[k])@ == entry_partition(entries@[k]) && out@[k].wf(),
        decreases entries@.len() - i,
    {
        let e = &entries[i];
        if e.first_lba > e.last_lba {
            return Err(ReadError { message: String::from_str("partition entry ends before it begins") });
        }
        let p = Partition {
            uuid: e.guid.clone(),
            first_block: e.first_lba,
            last_block: e.last_lba,
            flags: e.flags,
            name: e.name.clone(),
        };
        out.push(p);
        i = i + 1;
    }
    Ok(out)
}

/// A block device found on the host.
#[derive(Clone, Debug)]
pub struct Disk {
    pub device_path: String,
    pub disk_type: DiskType,
    pub serial_number: Option<String>,
    pub partitions: Vec<Partition>,
}

pub struct DiskView {
    pub device_path: Seq<char>,
    pub disk_type: DiskType,
    pub serial_number: Option<Seq<char>>,
    pub partitions: Seq<PartitionView>,
}

impl View for Disk {
    type V = DiskView;

    open spec fn view(&self) -> DiskView {
        DiskView {
            device_path: self.device_path@,
            disk_type: self.disk_type,
            serial_number: opt_string_view(self.serial_number),
            partitions: partition_views(self.partitions@),
        }
    }
}

pub open spec fn dev_prefix() -> Seq<char> {
    seq!['/', 'd', 'e', 'v', '/']
}

/// The device node of a block device with the given kernel name.
pub fn device_path(name: &String) -> (p: String)
    ensures
        p@ == dev_prefix() + name@,
{
    let mut p = String::from_str("/dev/");
    proof {
        reveal_strlit("/dev/");
    }
    assert("/dev/"@ =~= dev_prefix());
    p.append(name.as_str());
    p
}

/// The record of one device: its node under `/dev`, its classification, its
/// serial number, and its partitions, or none where its table could not be
/// read.
pub fn get_disk(name: &String, media: MediaType, serial_number: Option<String>, table: Result<Vec<PartitionEntry>, ReadError>) -> (d: Disk)
    ensures
        d@.device_path == dev_prefix() + name@,
        d.disk_type == disk_type_of(media),
        d@.serial_number == opt_string_view(serial_number),
        match table {
            Ok(entries) => if forall|k: int| 0 <= k < entries@.len() ==> entry_valid(#[trigger] entries@[k]) {
                d@.partitions == entries@.map_values(|e: PartitionEntry| entry_partition(e))
            } else {
                d@.partitions.len() == 0
            },
            Err(_) => d@.partitions.len() == 0,
        },
        forall|k: int| 0 <= k < d.partitions@.len() ==> (#[trigger] d.partitions@[k]).wf(),
{
    let partitions: Vec<Partition> = match table {
        Ok(entries) => match get_partition_info(entries) {
            Ok(ps) => {
                assert(partition_views(ps@) =~= entries@.map_values(|e: PartitionEntry| entry_partition(e)));
                ps
            },
            Err(_) => Vec::new(),
        },
        Err(_) => Vec::new(),
    };
    Disk {
        device_path: device_path(name),
        disk_type: convert_media_to_disk_type(media),
        serial_number,
        partitions,
    }
}

pub const TAG_PART_UUID: u64 = 10;
pub const TAG_PART_FIRST: u64 = 16;
pub const TAG_PART_LAST: u64 = 24;
pub const TAG_PART_FLAGS: u64 = 32;
pub const TAG_PART_NAME: u64 = 42;
pub const TAG_DISK_PATH: u64 = 10;
pub const TAG_DISK_TYPE: u64 = 16;
pub const TAG_DISK_PARTITION: u64 = 26;
pub const TAG_DISK_SERIAL: u64 = 34;
pub const TAG_DISKS_DISK: u64 = 10;

/// The wire form of a partition.
pub open spec fn partition_bytes(p: PartitionView) -> Seq<u8> {
    text_field(TAG_PART_UUID as nat, p.uuid)
        + varint_field(TAG_PART_FIRST as nat, p.first_block)
        + varint_field(TAG_PART_LAST as nat, p.last_block)
        + varint_field(TAG_PART_FLAGS as nat, p.flags)
        + text_field(TAG_PART_NAME as nat, p.name)
}

/// Each partition as a nested field of a disk, in order.
pub open spec fn partitions_bytes(ps: Seq<PartitionView>) -> Seq<u8>
    decreases ps.len(),
{
    if ps.len() == 0 {
        Seq::empty()
    } else {
        partitions_bytes(ps.drop_last()) + bytes_field(TAG_DISK_PARTITION as nat, partition_bytes(ps.last()))
    }
}

/// The wire form of a disk.
pub open spec fn disk_bytes(d: DiskView) -> Seq<u8> {
    text_field(TAG_DISK_PATH as nat, d.device_path)
        + varint_field(TAG_DISK_TYPE as nat, disk_type_code(d.disk_type))
        + partitions_bytes(d.partitions)
        + opt_text_field(TAG_DISK_SERIAL as nat, d.serial_number)
}

/// The wire form of a disk list: each disk as a nested field, in order.
pub open spec fn disks_bytes(ds: Seq<DiskView>) -> Seq<u8>
    decreases ds.len(),
{
    if ds.len() == 0 {
        Seq::empty()
    } else {
        disks_bytes(ds.drop_last()) + bytes_field(TAG_DISKS_DISK as nat, disk_bytes(ds.last()))
    }
}

pub open spec fn disk_views(ds: Seq<Disk>) -> Seq<DiskView> {
    ds.map_values(|d: Disk| d@)
}

impl Partition {
    /// The wire form of this partition.
    pub fn encode(&self) -> (b: Vec<u8>)
        ensures
            b@ == partition_bytes(self@),
    {
        let mut out: Vec<u8> = Vec::new();
        encode_text_field(&mut out, TAG_PART_UUID, &self.uuid);
        encode_varint_field(&mut out, TAG_PART_FIRST, self.first_block);
        encode_varint_field(&mut out, TAG_PART_LAST, self.last_block);
        encode_varint_field(&mut out, TAG_PART_FLAGS, self.flags);
        encode_text_field(&mut out, TAG_PART_NAME, &self.name);
        assert(out@ =~= partition_bytes(self@));
        out
    }
}

impl Disk {
    /// The wire form of this disk.
    pub fn encode(&self) -> (b: Vec<u8>)
        ensures
            b@ == disk_bytes(self@),
    {
        let mut out: Vec<u8> = Vec::new();
        encode_text_field(&mut out, TAG_DISK_PATH, &self.device_path);
        encode_varint_field(&mut out, TAG_DISK_TYPE, disk_type_to_code(self.disk_type));
        let ghost start = out@;
        let ghost views = partition_views(self.partitions@);
        let mut i: usize = 0;
        assert(views.subrange(0, 0) =~= Seq::<PartitionView>::empty());
        while i < self.partitions.len()
            invariant
                i <= self.partitions@.len(),
                views == partition_views(self.partitions@),
                out@ == start + partitions_bytes(views.subrange(0, i as int)),
            decreases self.partitions@.len() - i,
        {
            let pb = self.partitions[i].encode();
            let ghost before = out@;
            encode_bytes_field(&mut out, TAG_DISK_PARTITION, pb.as_slice());
            let ghost next = views.subrange(0, i + 1);
            assert(next.drop_last() =~= views.subrange(0, i as int));
            assert(next.last() == self.partitions@[i as int]@);
            assert(out@ =~= start + partitions_bytes(next));
            i = i + 1;
        }
        assert(views.subrange(0, views.len() as int) =~= views);
        encode_opt_text_field(&mut out, TAG_DISK_SERIAL, &self.serial_number);
        assert(out@ =~= disk_bytes(self@));
        out
    }
}

/// The wire form of a list of disks, in order.
pub fn encode_disks(disks: &Vec<Disk>) -> (b: Vec<u8>)
    ensures
        b@ == disks_bytes(disk_views(disks@)),
{
    let mut out: Vec<u8> = Vec::new();
    let ghost views = disk_views(disks@);
    let mut i: usize = 0;
    assert(views.subrange(0, 0) =~= Seq::<DiskView>::empty());
    while i < disks.len()
        invariant
            i <= disks@.len(),
            views == disk_views(disks@),
            out@ == disks_bytes(views.subrange(0, i as int)),
        decreases disks@.len() - i,
    {
        let db = disks[i].encode();
        encode_bytes_field(&mut out, TAG_DISKS_DISK, db.as_slice());
        let ghost next = views.subrange(0, i + 1);
        assert(next.drop_last() =~= views.subrange(0, i as int));
        assert(next.last() == disks@[i as int]@);
        i = i + 1;
    }
    assert(views.subrange(0, views.len() as int) =~= views);
    out
}

} // verus!
