//! Disk samples.

use crate::metric::memory::MEBIBYTE;
use crate::queue::ErrInfo;
use crate::text::{decimal, push_decimal};
use vstd::prelude::*;

verus! {

/// What one sample holds of one disk, sizes in mebibytes.
#[derive(Debug, PartialEq, Eq)]
pub struct DiskInfo {
    pub name: String,
    pub mount_point: String,
    pub total_space: u64,
    pub available_space: u64,
}

/// One disk sample: every disk of the host, in the order it lists them.
#[derive(Debug, PartialEq, Eq)]
pub struct IOInfo {
    pub disks_info: Vec<DiskInfo>,
}

impl DiskInfo {
    /// The line that shows this disk.
    pub open spec fn text(self) -> Seq<char> {
        "name: "@ + self.name@ + ", mount_point: "@ + self.mount_point@ + ", total_space: "@
            + decimal(self.total_space as nat) + " MB, available_space: "@ + decimal(
            self.available_space as nat,
        ) + " MB\n"@
    }

    pub fn render(&self) -> (s: String)
        ensures
            s@ == self.text(),
    {
        let mut s = String::from_str("name: ");
        s.append(self.name.as_str());
        s.append(", mount_point: ");
        s.append(self.mount_point.as_str());
        s.append(", total_space: ");
        push_decimal(&mut s, self.total_space);
        s.append(" MB, available_space: ");
        push_decimal(&mut s, self.available_space);
        s.append(" MB\n");
        s
    }
}

/// The lines of the first `n` disks, one after the other.
pub open spec fn disks_text(disks: Seq<DiskInfo>, n: int) -> Seq<char>
    decreases n,
{
    if n <= 0 {
        Seq::empty()
    } else {
        disks_text(disks, n - 1) + disks[n - 1].text()
    }
}

impl IOInfo {
    /// The lines that show this sample: one for each disk.
    pub open spec fn text(self) -> Seq<char> {
        disks_text(self.disks_info@, self.disks_info@.len() as int)
    }

    pub fn render(&self) -> (s: String)
        ensures
            s@ == self.text(),
    {
        let mut s = String::new();
        let mut i: usize = 0;
        while i < self.disks_info.len()
            invariant
                i <= self.disks_info.len(),
                s@ == disks_text(self.disks_info@, i as int),
            decreases self.disks_info.len() - i,
        {
            let line = self.disks_info[i].render();
            s.append(line.as_str());
            i += 1;
        }
        s
    }
}

impl DiskInfo {
    /// What a sample holds of a disk with the given name, mount point and
    /// byte counts: the byte counts in whole mebibytes. A name or a mount
    /// point that is no text gives an error in place of the disk.
    pub fn from_host(
        name: Option<String>,
        mount_point: Option<String>,
        total_bytes: u64,
        available_bytes: u64,
    ) -> (r: Result<DiskInfo, ErrInfo>)
        ensures
            r is Ok <==> name is Some && mount_point is Some,
            r matches Ok(disk) ==> disk.name == name->0 && disk.mount_point == mount_point->0
                && disk.total_space == total_bytes / MEBIBYTE && disk.available_space
                == available_bytes / MEBIBYTE,
            r matches Err(e) ==> e.error@ == (if name is None {
                "disk name is not valid UTF-8"@
            } else {
                "mount point is not valid UTF-8"@
            }),
    {
        match name {
            None => Err(ErrInfo::new(String::from_str("disk name is not valid UTF-8"))),
            Some(name) => match mount_point {
                None => Err(ErrInfo::new(String::from_str("mount point is not valid UTF-8"))),
                Some(mount_point) => Ok(
                    DiskInfo {
                        name,
                        mount_point,
                        total_space: total_bytes / MEBIBYTE,
                        available_space: available_bytes / MEBIBYTE,
                    },
                ),
            },
        }
    }
}

/// The list of disks that `sysinfo` keeps.
#[verifier::external_type_specification]
#[verifier::external_body]
pub struct ExDisks(sysinfo::Disks);

/// One disk in the list of `sysinfo`.
#[verifier::external_type_specification]
#[verifier::external_body]
pub struct ExDisk(sysinfo::Disk);

/// `Disks::new_with_refreshed_list` reads the disks of the host. Nothing
/// is claimed of the list.
#[verifier::external_body]
fn disks_refreshed() -> (disks: sysinfo::Disks) {
    sysinfo::Disks::new_with_refreshed_list()
}

/// `Disks::list` gives the disks as a slice. Nothing is claimed of it.
#[verifier::external_body]
fn disks_list(disks: &sysinfo::Disks) -> (list: &[sysinfo::Disk]) {
    disks.list()
}

/// `Disk::name` gives the name of the disk; here as text, where it is
/// text. Nothing is claimed of it.
#[verifier::external_body]
fn disk_name(disk: &sysinfo::Disk) -> (name: Option<String>) {
    disk.name().to_str().map(String::from)
}

/// `Disk::mount_point` gives the path where the disk is mounted; here as
/// text, where it is text. Nothing is claimed of it.
#[verifier::external_body]
fn disk_mount_point(disk: &sysinfo::Disk) -> (mount_point: Option<String>) {
    disk.mount_point().to_str().map(String::from)
}

/// `Disk::total_space` gives the size of the disk in bytes. Nothing is
/// claimed of the number.
#[verifier::external_body]
fn disk_total_space(disk: &sysinfo::Disk) -> (bytes: u64) {
    disk.total_space()
}

/// `Disk::available_space` gives the free space of the disk in bytes.
/// Nothing is claimed of the number.
#[verifier::external_body]
fn disk_available_space(disk: &sysinfo::Disk) -> (bytes: u64) {
    disk.available_space()
}

/// What the host says of one disk: its name and its mount point, where
/// they are text, and its size and its free space in bytes.
#[derive(Debug, PartialEq, Eq)]
pub struct DiskReading {
    pub name: Option<String>,
    pub mount_point: Option<String>,
    pub total_bytes: u64,
    pub available_bytes: u64,
}

impl DiskReading {
    /// Both the name and the mount point are text.
    pub open spec fn is_text(self) -> bool {
        self.name is Some && self.mount_point is Some
    }

    /// What a sample holds of this disk: sizes in whole mebibytes.
    pub open spec fn disk(self) -> DiskInfo {
        DiskInfo {
            name: self.name->0,
            mount_point: self.mount_point->0,
            total_space: self.total_bytes / MEBIBYTE,
            available_space: self.available_bytes / MEBIBYTE,
        }
    }

    /// What is reported of a disk whose name or mount point is no text.
    pub open spec fn error_text(self) -> Seq<char> {
        if self.name is None {
            "disk name is not valid UTF-8"@
        } else {
            "mount point is not valid UTF-8"@
        }
    }
}

/// The first `n` readings are all text.
pub open spec fn all_text(readings: Seq<DiskReading>, n: int) -> bool {
    forall|i: int| 0 <= i < n ==> (#[trigger] readings[i]).is_text()
}

/// The outcome `r` is the sample of the readings: every disk, in the order
/// of the readings, where all of them are text; else the error of the
/// first reading that is not.
pub open spec fn sampled(readings: Seq<DiskReading>, r: Result<IOInfo, ErrInfo>) -> bool {
    match r {
        Ok(info) => all_text(readings, readings.len() as int) && info.disks_info@
            == readings.map_values(|reading: DiskReading| reading.disk()),
        Err(e) => exists|i: int|
            0 <= i < readings.len() && all_text(readings, i) && !(#[trigger] readings[i]).is_text()
                && e.error@ == readings[i].error_text(),
    }
}

impl IOInfo {
    /// The sample for what the host says of its disks.
    pub fn from_readings(readings: &Vec<DiskReading>) -> (r: Result<IOInfo, ErrInfo>)
        ensures
            sampled(readings@, r),
            r is Ok <==> all_text(readings@, readings@.len() as int),
    {
        let mut disks_info: Vec<DiskInfo> = Vec::new();
        let mut i: usize = 0;
        while i < readings.len()
            invariant
                i <= readings.len(),
                all_text(readings@, i as int),
                disks_info@ == readings@.take(i as int).map_values(
                    |reading: DiskReading| reading.disk(),
                ),
            decreases readings.len() - i,
        {
            let reading = &readings[i];
            let name = match &reading.name {
                Some(name) => Some(name.clone()),
                None => None,
            };
            let mount_point = match &reading.mount_point {
                Some(mount_point) => Some(mount_point.clone()),
                None => None,
            };
            match DiskInfo::from_host(
                name,
                mount_point,
                reading.total_bytes,
                reading.available_bytes,
            ) {
                Ok(disk) => {
                    assert(disk == readings@[i as int].disk());
                    disks_info.push(disk);
                    assert(disks_info@ =~= readings@.take(i + 1).map_values(
                        |reading: DiskReading| reading.disk(),
                    ));
                },
                Err(e) => {
                    assert(!readings@[i as int].is_text());
                    return Err(e);
                },
            }
            i += 1;
        }
        assert(readings@.take(readings@.len() as int) =~= readings@);
        Ok(IOInfo { disks_info })
    }
}

/// Takes disk samples of the host.
pub struct IOInfoCollector {}

impl IOInfoCollector {
    pub fn new() -> Self {
        IOInfoCollector {  }
    }

    /// Reads the disks of the host and gives the sample of what it read:
    /// every disk that the host lists, in its order, sizes in whole
    /// mebibytes. Where the name or the mount point of a disk is no text,
    /// the sample is the error of the first such disk.
    pub fn get_io_info(&mut self) -> (r: Result<IOInfo, ErrInfo>)
        ensures
            exists|readings: Seq<DiskReading>| sampled(readings, r),
    {
        let mut readings: Vec<DiskReading> = Vec::new();
        let disks = disks_refreshed();
        let list = disks_list(&disks);
        let mut i: usize = 0;
        while i < list.len()
            invariant
                i <= list.len(),
            decreases list.len() - i,
        {
            let disk = &list[i];
            readings.push(
                DiskReading {
                    name: disk_name(disk),
                    mount_point: disk_mount_point(disk),
                    total_bytes: disk_total_space(disk),
                    available_bytes: disk_available_space(disk),
                },
            );
            i += 1;
        }
        let r = IOInfo::from_readings(&readings);
        assert(sampled(readings@, r));
        r
    }
}

} // verus!
