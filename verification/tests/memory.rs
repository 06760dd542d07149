use pico_potion::memory::{parse_vm_rss_kib, rss_kib_from_task_info};

#[test]
fn parse_vm_rss_kib_reads_proc_status() {
    let sample = "Name:\tpico_potion\nVmRSS:\t  2048 kB\n";
    assert_eq!(parse_vm_rss_kib(sample), Some(2048));
}

#[test]
fn vm_rss_missing_gives_nothing() {
    assert_eq!(parse_vm_rss_kib(""), None);
    assert_eq!(parse_vm_rss_kib("Name:\tx\nVmSize:\t 10 kB\n"), None);
}

#[test]
fn vm_rss_only_counts_at_line_start() {
    assert_eq!(parse_vm_rss_kib("Name: VmRSS: 5 kB\n"), None);
    assert_eq!(parse_vm_rss_kib(" VmRSS: 5 kB\n"), None);
}

#[test]
fn vm_rss_first_line_decides() {
    assert_eq!(parse_vm_rss_kib("VmRSS: 1 kB\nVmRSS: 2 kB\n"), Some(1));
    assert_eq!(parse_vm_rss_kib("VmRSS: x kB\nVmRSS: 2 kB\n"), None);
    assert_eq!(parse_vm_rss_kib("VmRSS:\nVmRSS: 2 kB\n"), None);
}

#[test]
fn vm_rss_without_line_break_or_unit() {
    assert_eq!(parse_vm_rss_kib("VmRSS:42"), Some(42));
    assert_eq!(parse_vm_rss_kib("a\r\nVmRSS:\t 7 kB\r\n"), Some(7));
    assert_eq!(parse_vm_rss_kib("VmRSS: 18446744073709551615"), Some(u64::MAX));
    assert_eq!(parse_vm_rss_kib("VmRSS: 18446744073709551616"), None);
    assert_eq!(parse_vm_rss_kib("VmRSS: +12kB"), None);
    assert_eq!(parse_vm_rss_kib("VmRSS: +12 kB"), Some(12));
}

#[test]
fn task_info_gives_kib_only_when_complete() {
    assert_eq!(rss_kib_from_task_info(96, 96, 3 * 1024 * 1024 + 1023), Some(3 * 1024));
    assert_eq!(rss_kib_from_task_info(0, 96, 4096), None);
    assert_eq!(rss_kib_from_task_info(-1, 96, 4096), None);
}
