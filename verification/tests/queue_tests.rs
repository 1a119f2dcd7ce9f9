use linux_kernel_monitor::logger::log_entry;
use linux_kernel_monitor::metric::cpu::{CpuInfo, CpuLoad};
use linux_kernel_monitor::metric::io::{DiskInfo, DiskReading, IOInfo, IOInfoCollector};
use linux_kernel_monitor::metric::memory::{MemoryInfo, MemoryInfoCollector};
use linux_kernel_monitor::queue::{ErrInfo, Queue, QueueItem};

fn err(s: &str) -> QueueItem {
    QueueItem::Error(ErrInfo::new(String::from(s)))
}

#[test]
fn queue_is_first_in_first_out() {
    let mut q = Queue::new();
    assert!(q.is_empty());
    assert_eq!(q.dequeue(), None);
    q.enqueue(err("e1"));
    q.enqueue(QueueItem::Memory(MemoryInfo { total: 3, used: 2, free: 1 }));
    q.enqueue(err("e3"));
    assert!(!q.is_empty());
    assert_eq!(q.dequeue(), Some(err("e1")));
    assert_eq!(q.dequeue(), Some(QueueItem::Memory(MemoryInfo { total: 3, used: 2, free: 1 })));
    q.enqueue(err("e4"));
    assert_eq!(q.dequeue(), Some(err("e3")));
    assert_eq!(q.dequeue(), Some(err("e4")));
    assert_eq!(q.dequeue(), None);
    assert!(q.is_empty());
}

#[test]
fn each_producer_keeps_its_order() {
    let mut q = Queue::new();
    for i in 0..50 {
        q.enqueue(err(&format!("a{}", i)));
        if i % 3 == 0 {
            q.enqueue(err(&format!("b{}", i)));
        }
    }
    let mut a = Vec::new();
    let mut b = Vec::new();
    while let Some(QueueItem::Error(e)) = q.dequeue() {
        if e.error.starts_with('a') {
            a.push(e.error);
        } else {
            b.push(e.error);
        }
    }
    let want_a: Vec<String> = (0..50).map(|i| format!("a{}", i)).collect();
    let want_b: Vec<String> = (0..50).filter(|i| i % 3 == 0).map(|i| format!("b{}", i)).collect();
    assert_eq!(a, want_a);
    assert_eq!(b, want_b);
}

#[test]
fn memory_sample_in_mebibytes() {
    let m = MemoryInfo::from_bytes(8 * 1024 * 1024 * 1024, 1024 * 1024 + 5, 1024 * 1024 - 1);
    assert_eq!(m, MemoryInfo { total: 8192, used: 1, free: 0 });
    assert_eq!(m.render(), "Total memory: 8192 MB, Used: 1 MB, Free: 0 MB\n");
    let big = MemoryInfo::from_bytes(u64::MAX, 0, 1048576);
    assert_eq!(big, MemoryInfo { total: 17592186044415, used: 0, free: 1 });
}

#[test]
fn disk_sample_in_mebibytes() {
    let d = DiskInfo::from_host(Some(String::from("sda1")), Some(String::from("/")), 5 * 1048576 + 7, 1048575).unwrap();
    assert_eq!(
        d,
        DiskInfo { name: String::from("sda1"), mount_point: String::from("/"), total_space: 5, available_space: 0 }
    );
    assert_eq!(d.render(), "name: sda1, mount_point: /, total_space: 5 MB, available_space: 0 MB\n");
    assert_eq!(
        DiskInfo::from_host(None, Some(String::from("/")), 1, 1),
        Err(ErrInfo::new(String::from("disk name is not valid UTF-8")))
    );
    assert_eq!(
        DiskInfo::from_host(Some(String::from("sda")), None, 1, 1),
        Err(ErrInfo::new(String::from("mount point is not valid UTF-8")))
    );
    assert_eq!(
        DiskInfo::from_host(None, None, 1, 1),
        Err(ErrInfo::new(String::from("disk name is not valid UTF-8")))
    );
}

#[test]
fn io_sample_shows_one_line_per_disk() {
    let info = IOInfo {
        disks_info: vec![
            DiskInfo { name: String::from("a"), mount_point: String::from("/"), total_space: 10, available_space: 4 },
            DiskInfo { name: String::from("b"), mount_point: String::from("/home"), total_space: 0, available_space: 0 },
        ],
    };
    assert_eq!(
        info.render(),
        "name: a, mount_point: /, total_space: 10 MB, available_space: 4 MB\nname: b, mount_point: /home, total_space: 0 MB, available_space: 0 MB\n"
    );
    assert_eq!(IOInfo { disks_info: vec![] }.render(), "");
}

#[test]
fn cpu_sample_shows_two_decimals() {
    let info = CpuInfo {
        cpus: vec![
            CpuLoad { name: String::from("cpu0"), load: 1234 },
            CpuLoad { name: String::from("cpu1"), load: 5 },
            CpuLoad { name: String::from("cpu2"), load: 10000 },
            CpuLoad { name: String::from("cpu3"), load: 0 },
        ],
    };
    assert_eq!(
        info.render(),
        " cpu0: Load: 12.34%\n cpu1: Load: 0.05%\n cpu2: Load: 100.00%\n cpu3: Load: 0.00%\n"
    );
    assert_eq!(info.cpus[0].render(), format!(" cpu0: Load: {:.2}%\n", 12.34f32));
}

#[test]
fn error_shows_its_message() {
    assert_eq!(ErrInfo::new(String::from("no data")).render(), "ErrInfo: no data\n");
}

#[test]
fn log_shows_heading_and_sample() {
    assert_eq!(
        log_entry(&QueueItem::Memory(MemoryInfo { total: 3, used: 2, free: 1 })),
        "Memory Info:\nTotal memory: 3 MB, Used: 2 MB, Free: 1 MB\n"
    );
    assert_eq!(
        log_entry(&QueueItem::CPU(CpuInfo { cpus: vec![CpuLoad { name: String::from("c"), load: 150 }] })),
        "CPU Info:\n c: Load: 1.50%\n"
    );
    assert_eq!(log_entry(&QueueItem::IO(IOInfo { disks_info: vec![] })), "I/O Info:\n");
    assert_eq!(log_entry(&err("bad")), "ErrInfo: bad\n");
}

#[test]
fn collectors_sample_the_host() {
    let mut memory = MemoryInfoCollector::new();
    let m = memory.get_memory_info();
    assert!(m.total <= u64::MAX / 1048576);
    assert!(m.used <= m.total || m.total == 0);
    let mut io = IOInfoCollector::new();
    if let Ok(info) = io.get_io_info() {
        for d in info.disks_info {
            assert!(d.available_space <= u64::MAX / 1048576);
        }
    }
}

fn reading(name: Option<&str>, mount: Option<&str>, total: u64, available: u64) -> DiskReading {
    DiskReading {
        name: name.map(String::from),
        mount_point: mount.map(String::from),
        total_bytes: total,
        available_bytes: available,
    }
}

#[test]
fn sample_holds_every_disk_in_order() {
    let readings = vec![
        reading(Some("a"), Some("/"), 3 * 1048576, 1048576),
        reading(Some("b"), Some("/home"), 1048575, 0),
    ];
    assert_eq!(
        IOInfo::from_readings(&readings),
        Ok(IOInfo {
            disks_info: vec![
                DiskInfo { name: String::from("a"), mount_point: String::from("/"), total_space: 3, available_space: 1 },
                DiskInfo { name: String::from("b"), mount_point: String::from("/home"), total_space: 0, available_space: 0 },
            ],
        })
    );
    assert_eq!(IOInfo::from_readings(&vec![]), Ok(IOInfo { disks_info: vec![] }));
}

#[test]
fn sample_fails_on_the_first_disk_that_is_no_text() {
    let readings = vec![
        reading(Some("a"), Some("/"), 1, 1),
        reading(Some("b"), None, 1, 1),
        reading(None, Some("/x"), 1, 1),
    ];
    assert_eq!(
        IOInfo::from_readings(&readings),
        Err(ErrInfo::new(String::from("mount point is not valid UTF-8")))
    );
    let readings = vec![reading(None, None, 1, 1), reading(Some("b"), None, 1, 1)];
    assert_eq!(
        IOInfo::from_readings(&readings),
        Err(ErrInfo::new(String::from("disk name is not valid UTF-8")))
    );
}
