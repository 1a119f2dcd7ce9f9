//! Memory samples.

use crate::text::{decimal, push_decimal};
use vstd::prelude::*;

verus! {

/// Bytes in one mebibyte, the unit in which samples report sizes.
pub const MEBIBYTE: u64 = 1048576;

/// One memory sample, in mebibytes.
#[derive(Clone, Copy, Debug, PartialEq, Eq)]
pub struct MemoryInfo {
    pub total: u64,
    pub used: u64,
    pub free: u64,
}

impl MemoryInfo {
    /// The sample for the given byte counts, each rounded down to whole
    /// mebibytes.
    pub fn from_bytes(total: u64, used: u64, free: u64) -> (info: MemoryInfo)
        ensures
            info.total == total / MEBIBYTE,
            info.used == used / MEBIBYTE,
            info.free == free / MEBIBYTE,
    {
        MemoryInfo { total: total / MEBIBYTE, used: used / MEBIBYTE, free: free / MEBIBYTE }
    }

    /// The line that shows this sample.
    pub open spec fn text(self) -> Seq<char> {
        "Total memory: "@ + decimal(self.total as nat) + " MB, Used: "@ + decimal(self.used as nat)
            + " MB, Free: "@ + decimal(self.free as nat) + " MB\n"@
    }

    pub fn render(&self) -> (s: String)
        ensures
            s@ == self.text(),
    {
        let mut s = String::from_str("Total memory: ");
        push_decimal(&mut s, self.total);
        s.append(" MB, Used: ");
        push_decimal(&mut s, self.used);
        s.append(" MB, Free: ");
        push_decimal(&mut s, self.free);
        s.append(" MB\n");
        s
    }
}

/// The handle of `sysinfo` on the state of the host.
#[verifier::external_type_specification]
#[verifier::external_body]
pub struct ExSystem(sysinfo::System);

/// `System::new_all` makes a handle with everything loaded. Nothing is
/// claimed of it.
#[verifier::external_body]
fn system_new_all() -> (sys: sysinfo::System) {
    sysinfo::System::new_all()
}

/// `System::refresh_all` reads the state of the host anew. Nothing is
/// claimed of what it finds.
#[verifier::external_body]
fn system_refresh_all(sys: &mut sysinfo::System) {
    sys.refresh_all()
}

/// `System::total_memory` gives the size of the memory in bytes, as last
/// read. Nothing is claimed of the number.
#[verifier::external_body]
fn system_total_memory(sys: &sysinfo::System) -> (bytes: u64) {
    sys.total_memory()
}

/// `System::used_memory` gives the memory in use in bytes, as last read.
/// Nothing is claimed of the number.
#[verifier::external_body]
fn system_used_memory(sys: &sysinfo::System) -> (bytes: u64) {
    sys.used_memory()
}

/// `System::free_memory` gives the free memory in bytes, as last read.
/// Nothing is claimed of the number.
#[verifier::external_body]
fn system_free_memory(sys: &sysinfo::System) -> (bytes: u64) {
    sys.free_memory()
}

/// Takes memory samples of the host.
pub struct MemoryInfoCollector {
    sys: sysinfo::System,
}

impl MemoryInfoCollector {
    pub fn new() -> Self {
        MemoryInfoCollector { sys: system_new_all() }
    }

    /// Reads the memory of the host anew and gives the sample: whatever
    /// the host reports, in whole mebibytes.
    pub fn get_memory_info(&mut self) -> (info: MemoryInfo)
        ensures
            info.total <= u64::MAX / MEBIBYTE,
            info.used <= u64::MAX / MEBIBYTE,
            info.free <= u64::MAX / MEBIBYTE,
    {
        system_refresh_all(&mut self.sys);
        let total = system_total_memory(&self.sys);
        let used = system_used_memory(&self.sys);
        let free = system_free_memory(&self.sys);
        MemoryInfo::from_bytes(total, used, free)
    }
}

} // verus!
