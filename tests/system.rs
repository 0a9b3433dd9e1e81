use netrun::{Memory, Method, Sys, CPU};
use netrun::system::decimal;

#[test]
fn decimal_writes_digits() {
    assert_eq!(decimal(0), "0");
    assert_eq!(decimal(7), "7");
    assert_eq!(decimal(10), "10");
    assert_eq!(decimal(1234567890), "1234567890");
}

#[test]
fn dump_reports_host() {
    let sys = Sys {
        hostname: "box".to_string(),
        os: "Linux".to_string(),
        os_version: "6.1".to_string(),
        system_name: "Linux 6.1 Debian".to_string(),
        cpu: CPU::new(8, 4),
        memory: Memory {
            total: 10000,
            free: 2000000,
            available: 3000000000,
        },
    };
    let expected = "\nHostname: box\nOS: Linux 6.1\nSystem: Linux 6.1 Debian\nCPU cores: 8/4\nMemory: total - 10.00 KB, free - 2.00 MB, available - 3.00 GB\n        ";
    assert_eq!(sys.dump(), expected);
}

#[test]
fn cpu_keeps_counts() {
    let cpu = CPU::new(16, 8);
    assert_eq!(cpu.cores(), 16);
    assert_eq!(cpu.physical_cores(), 8);
}

#[test]
fn method_names() {
    assert!(Method::Get.get());
    assert!(!Method::Post.get());
    assert_eq!(Method::Get.name(), "GET");
    assert_eq!(Method::Post.name(), "POST");
}

#[test]
fn dump_shows_small_sizes_as_whole_bytes() {
    let sys = Sys {
        hostname: "h".to_string(),
        os: "o".to_string(),
        os_version: "v".to_string(),
        system_name: "s".to_string(),
        cpu: CPU::new(1, 1),
        memory: Memory {
            total: 999,
            free: 0,
            available: 1000,
        },
    };
    let expected = "\nHostname: h\nOS: o v\nSystem: s\nCPU cores: 1/1\nMemory: total - 999 B, free - 0 B, available - 1.00 KB\n        ";
    assert_eq!(sys.dump(), expected);
}
