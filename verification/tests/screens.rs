use diagnostics::bar::Level;
use diagnostics::console::{clear_screen, farewell_line, invalid_line, menu_lines, pause_prompt, prompt};
use diagnostics::cpu::{cpu_report_lines, ChipInfo, CpuInfo, Meter};
use diagnostics::debug::{debug_report_lines, latency_line, DebugInfo, WmiStatus};
use diagnostics::gpu::{gpu_report_lines, GpuInfo};
use diagnostics::layout::section_header;
use diagnostics::memory::{memory_report_lines, MemoryInfo};
use diagnostics::network::{network_report_lines, NetInfo};
use diagnostics::paint::{render_line, render_report, Line};
use diagnostics::storage::{storage_report_lines, used_bytes, CdInfo, DiskInfo, DriveInfo, StorageInfo, WmiStorage};
use diagnostics::system::{format_uptime, system_report_lines, uptime_parts, BoardInfo, SystemInfo};
use diagnostics::tasks::{task_report_lines, TaskInfo};

fn shown(lines: Vec<Line>) -> Vec<String> {
    colored::control::set_override(false);
    render_report(&lines)
}

fn header(title: &str) -> Vec<String> {
    vec![
        format!("\n  ┌{}┐", "─".repeat(66)),
        format!("  │  {:<64}│", title),
        format!("  └{}┘", "─".repeat(66)),
    ]
}

fn meter(text: &str, filled: usize, level: Level) -> Meter {
    Meter { percent_text: text.to_string(), filled, level }
}

fn bar(filled: usize, width: usize) -> String {
    format!("[{}{}]", "■".repeat(filled), " ".repeat(width.saturating_sub(filled)))
}

#[test]
fn section_header_box() {
    assert_eq!(shown(section_header("SYSTEM & MOTHERBOARD")), header("SYSTEM & MOTHERBOARD"));
    let lines = shown(section_header("T"));
    assert_eq!(lines[1].chars().count(), lines[2].chars().count());
    assert_eq!(lines[0].chars().count(), lines[2].chars().count() + 1);
}

#[test]
fn uptime_breakdown() {
    assert_eq!(uptime_parts(93784), (1, 2, 3, 4));
    assert_eq!(uptime_parts(59), (0, 0, 0, 59));
    assert_eq!(uptime_parts(86399), (0, 23, 59, 59));
    assert_eq!(format_uptime(93784), "1d 2h 3m 4s");
    assert_eq!(format_uptime(0), "0d 0h 0m 0s");
    let (d, h, m, s) = uptime_parts(1_000_000_007);
    assert_eq!(d * 86400 + h * 3600 + m * 60 + s, 1_000_000_007);
}

#[test]
fn system_report() {
    let info = SystemInfo {
        os_name: Some("Linux".to_string()),
        os_version: Some("22.04".to_string()),
        kernel_version: None,
        host_name: Some("box".to_string()),
        uptime: 93784,
        boards: vec![BoardInfo {
            manufacturer: Some("  ACME \n".to_string()),
            product: Some(" X1 ".to_string()),
            serial_number: None,
        }],
    };
    let mut expected = header("SYSTEM & MOTHERBOARD");
    expected.push(format!("  {:<24} : {}", "Operating System", "Linux"));
    expected.push(format!("  {:<24} : {}", "OS Version", "22.04"));
    expected.push(format!("  {:<24} : {}", "Kernel Build", ""));
    expected.push(format!("  {:<24} : {}", "Host Machine Name", "box"));
    expected.push(format!("  {:<24} : {}d {}h {}m {}s", "System Uptime", 1, 2, 3, 4));
    expected.push(format!("  {:<24} : {}", "Board Manufacturer", "ACME"));
    expected.push(format!("  {:<24} : {}", "Board Product / Model", "X1"));
    expected.push(format!("  {:<24} : {}", "Board Serial Number", ""));
    assert_eq!(shown(system_report_lines(&info)), expected);
}

#[test]
fn cpu_report() {
    let info = CpuInfo {
        first: Some(ChipInfo { brand: " Example CPU @ 3.0GHz ".to_string(), frequency: 3000 }),
        total: meter(" 50.0", 12, Level::Normal),
        cores: vec![meter(" 90.5", 16, Level::Critical), meter("  0.0", 0, Level::Normal)],
    };
    let mut expected = header("PROCESSOR (CPU) DIAGNOSTICS");
    expected.push(format!("  {:<20} : {}", "Processor Model", "Example CPU @ 3.0GHz"));
    expected.push(format!("  {:<20} : {} MHz", "Clock Speed", 3000));
    expected.push(format!("  {:<20} : {} Cores / Threads", "Logical Compute", 2));
    expected.push(format!("  {:<20} : {:>5.1}%  {}", "Total CPU Load", 50.0f32, bar(12, 24)));
    expected.push(format!("\n  {}", "Core Utilization Breakdown:"));
    expected.push(format!("    Core #{:<2}  [{:>5.1}%]  {}", 0, 90.5f32, bar(16, 18)));
    expected.push(format!("    Core #{:<2}  [{:>5.1}%]  {}", 1, 0.0f32, bar(0, 18)));
    assert_eq!(shown(cpu_report_lines(&info)), expected);
}

#[test]
fn cpu_report_without_processors() {
    let info = CpuInfo { first: None, total: meter("  0.0", 0, Level::Normal), cores: vec![] };
    let lines = shown(cpu_report_lines(&info));
    assert_eq!(lines.len(), 5);
    assert_eq!(lines[3], format!("  {:<20} : {:>5.1}%  {}", "Total CPU Load", 0.0f32, bar(0, 24)));
}

#[test]
fn memory_report_with_and_without_page_file() {
    let mut info = MemoryInfo {
        total: 8 * 1073741824,
        used: 2 * 1073741824,
        free: 6 * 1073741824,
        ram: meter(" 25.0", 6, Level::Normal),
        total_swap: 0,
        used_swap: 0,
        swap: meter("  NaN", 0, Level::Critical),
    };
    let mut expected = header("MEMORY STATUS (RAM & PAGE FILE)");
    expected.push(format!("  {:<22} : {}", "Total Physical Memory", "8.00 GB"));
    expected.push(format!("  {:<22} : {}", "Used Physical Memory", "2.00 GB"));
    expected.push(format!("  {:<22} : {}", "Available Free Memory", "6.00 GB"));
    expected.push(format!("  {:<22} : {:>5.1}%  {}", "RAM Utilization", 25.0f32, bar(6, 24)));
    assert_eq!(shown(memory_report_lines(&info)), expected);

    info.total_swap = 1073741824;
    info.used_swap = 536870912;
    info.swap = meter(" 50.0", 12, Level::Normal);
    expected.push(format!("\n  {:<22} : {}", "Page File Capacity", "1.00 GB"));
    expected.push(format!("  {:<22} : {}", "Used Page File", "512.00 MB"));
    expected.push(format!("  {:<22} : {:>5.1}%  {}", "Page File Load", 50.0f32, bar(12, 24)));
    assert_eq!(shown(memory_report_lines(&info)), expected);
}

#[test]
fn gpu_report_defaults() {
    let gpus = vec![
        GpuInfo {
            name: Some("Example GPU".to_string()),
            driver_version: Some("31.0".to_string()),
            adapter_ram: Some(4294967296),
            video_processor: Some("Example".to_string()),
        },
        GpuInfo { name: None, driver_version: None, adapter_ram: None, video_processor: None },
    ];
    let mut expected = header("GRAPHICS & DISPLAY CONTROLLERS");
    expected.push("  [Adapter #1] Example GPU".to_string());
    expected.push(format!("    ├─ {:<16} : {}", "Driver Version", "31.0"));
    expected.push(format!("    ├─ {:<16} : {}", "Dedicated VRAM", "4.00 GB"));
    expected.push(format!("    └─ {:<16} : {}", "Processor Type", "Example"));
    expected.push("  [Adapter #2] Generic Display Controller".to_string());
    expected.push(format!("    ├─ {:<16} : {}", "Driver Version", "Unknown"));
    expected.push(format!("    ├─ {:<16} : {}", "Dedicated VRAM", "Shared / Dynamic"));
    expected.push(format!("    └─ {:<16} : {}", "Processor Type", "Integrated / N/A"));
    assert_eq!(shown(gpu_report_lines(&gpus)), expected);
}

#[test]
fn gpu_report_none_found() {
    let mut expected = header("GRAPHICS & DISPLAY CONTROLLERS");
    expected.push("  No WMI Display Controllers found.".to_string());
    assert_eq!(shown(gpu_report_lines(&vec![])), expected);
}

#[test]
fn used_space_saturates() {
    assert_eq!(used_bytes(100, 30), 70);
    assert_eq!(used_bytes(100, 130), 0);
    assert_eq!(used_bytes(0, 0), 0);
}

#[test]
fn storage_report() {
    let info = StorageInfo {
        disks: vec![DiskInfo {
            mount_point: "/".to_string(),
            file_system: "ext4".to_string(),
            total: 1099511627776,
            available: 274877906944,
            usage: meter(" 75.0", 15, Level::Elevated),
        }],
        wmi: Some(WmiStorage {
            drives: Some(vec![DriveInfo {
                model: Some(" Example SSD ".to_string()),
                interface_type: Some("SCSI".to_string()),
                media_type: Some("Fixed hard disk media".to_string()),
                size: Some(1000204886016),
            }]),
            cdroms: Some(vec![]),
        }),
    };
    let mut expected = header("STORAGE DRIVES & MOUNTED PARTITIONS");
    expected.push(format!("  {}", "Mounted File Systems:"));
    expected.push(format!("    Volume {} [{}]", "/", "ext4"));
    expected.push(format!(
        "      ├─ Total: {:<10} Free: {:<10} Used: {}",
        "1.00 TB", "256.00 GB", "768.00 GB"
    ));
    expected.push(format!("      └─ Usage: {:>5.1}% {}", 75.0f32, bar(15, 20)));
    expected.push(format!("\n  {}", "Physical Hardware Drives (WMI):"));
    expected.push(format!(
        "    • {:<32} | Bus: {:<6} | Type: {:<12} | Capacity: {}",
        "Example SSD", "SCSI", "Fixed hard disk media", "931.51 GB"
    ));
    expected.push(format!("\n  {}", "Optical / CD-ROM Units:"));
    expected.push("    None detected.".to_string());
    assert_eq!(shown(storage_report_lines(&info)), expected);
}

#[test]
fn storage_report_optical_drives_and_failed_queries() {
    let info = StorageInfo {
        disks: vec![],
        wmi: Some(WmiStorage {
            drives: None,
            cdroms: Some(vec![
                CdInfo { name: Some(" DVD RW ".to_string()), drive: Some("E:".to_string()), media_loaded: Some(true) },
                CdInfo { name: None, drive: None, media_loaded: None },
            ]),
        }),
    };
    let mut expected = header("STORAGE DRIVES & MOUNTED PARTITIONS");
    expected.push(format!("  {}", "Mounted File Systems:"));
    expected.push(format!("\n  {}", "Physical Hardware Drives (WMI):"));
    expected.push(format!("\n  {}", "Optical / CD-ROM Units:"));
    expected.push(format!("    • Drive {} ({}) - Media Ready: {}", "E:", "DVD RW", true));
    expected.push(format!("    • Drive {} ({}) - Media Ready: {}", "", "", false));
    assert_eq!(shown(storage_report_lines(&info)), expected);

    let no_wmi = StorageInfo { disks: vec![], wmi: None };
    let mut expected = header("STORAGE DRIVES & MOUNTED PARTITIONS");
    expected.push(format!("  {}", "Mounted File Systems:"));
    assert_eq!(shown(storage_report_lines(&no_wmi)), expected);
}

#[test]
fn network_report() {
    let nets = vec![NetInfo {
        name: "eth0".to_string(),
        mac_address: "00:11:22:33:44:55".to_string(),
        received: 1536,
        transmitted: 100,
    }];
    let mut expected = header("NETWORK INTERFACES & TRAFFIC");
    expected.push("  Interface: eth0".to_string());
    expected.push(format!("    ├─ {:<16} : {}", "Physical (MAC)", "00:11:22:33:44:55"));
    expected.push(format!("    ├─ {:<16} : {}", "Total Received", "1.50 KB"));
    expected.push(format!("    └─ {:<16} : {}", "Total Sent", "100 B"));
    assert_eq!(shown(network_report_lines(&nets)), expected);
}

fn task(pid: u32, name: &str, cpu: f32, memory: u64) -> TaskInfo {
    TaskInfo { pid, name: name.to_string(), cpu_text: format!("{:>8.1}", cpu), memory }
}

#[test]
fn task_table() {
    let tasks = vec![
        task(4242, "a-process-with-a-really-long-name", 99.5, 2097152),
        task(1, "init", 0.0, 512),
    ];
    let mut expected = header("ACTIVE PROCESSES (TOP 15 BY CPU)");
    expected.push(format!("  ┌{0:─<8}┬{0:─<32}┬{0:─<12}┬{0:─<14}┐", ""));
    expected.push(format!("  │ {:<6} │ {:<30} │ {:<10} │ {:<12} │", "PID", "PROCESS NAME", "CPU %", "MEMORY"));
    expected.push(format!("  ├{0:─<8}┼{0:─<32}┼{0:─<12}┼{0:─<14}┤", ""));
    expected.push(format!(
        "  │ {:<6} │ {:<30} │ {:>8.1}%  │ {:>12} │",
        "4242", "a-process-with-a-really-lon...", 99.5f32, "2.00 MB"
    ));
    expected.push(format!("  │ {:<6} │ {:<30} │ {:>8.1}%  │ {:>12} │", "1", "init", 0.0f32, "512 B"));
    expected.push(format!("  └{0:─<8}┴{0:─<32}┴{0:─<12}┴{0:─<14}┘", ""));
    assert_eq!(shown(task_report_lines(&tasks)), expected);
}

#[test]
fn task_table_shows_fifteen_rows() {
    let tasks: Vec<TaskInfo> = (0..40).map(|i| task(i, "worker", 1.0, 1024)).collect();
    let lines = task_report_lines(&tasks);
    assert_eq!(lines.len(), 7 + 15);
    let few: Vec<TaskInfo> = (0..3).map(|i| task(i, "worker", 1.0, 1024)).collect();
    assert_eq!(task_report_lines(&few).len(), 7 + 3);
}

#[test]
fn debug_report() {
    let info = DebugInfo {
        executable: Some("/usr/bin/diag".to_string()),
        directory: None,
        architecture: "x86_64".to_string(),
        family: "unix".to_string(),
        cpu_threads: 8,
        total_memory: 17179869184,
        total_swap: 2147483648,
        processes: 321,
        disks: 2,
        networks: 3,
        wmi: WmiStatus::ConnectionFailed("access denied".to_string()),
    };
    let mut expected = header("DIAGNOSTIC TOOL DEBUG CONTEXT");
    expected.push(format!("  {:<26} : {}", "Binary Location", "/usr/bin/diag"));
    expected.push(format!("  {:<26} : {}", "Execution Directory", "Unknown"));
    expected.push(format!("  {:<26} : {}", "Target Architecture", "x86_64"));
    expected.push(format!("  {:<26} : {}", "Host Family", "unix"));
    expected.push(format!("  {:<26} : {}", "Detected CPU Threads", 8));
    expected.push(format!("  {:<26} : {}", "Memory Limits", "16.00 GB RAM / 2.00 GB Page File"));
    expected.push(format!("  {:<26} : {}", "Tracked Processes Count", 321));
    expected.push(format!("  {:<26} : {}", "Tracked Disks Count", 2));
    expected.push(format!("  {:<26} : {}", "Tracked Network Adapters", 3));
    expected.push(format!("  {:<26} : {}", "WMI / COM Status", "Connection Failed: access denied"));
    assert_eq!(shown(debug_report_lines(&info)), expected);
    colored::control::set_override(false);
    assert_eq!(render_line(&latency_line("1.5ms")), format!("  {:<26} : {}", "Debug Probe Latency", "1.5ms"));
}

#[test]
fn debug_status_texts() {
    let mut info = DebugInfo {
        executable: None,
        directory: None,
        architecture: String::new(),
        family: String::new(),
        cpu_threads: 0,
        total_memory: 0,
        total_swap: 0,
        processes: 0,
        disks: 0,
        networks: 0,
        wmi: WmiStatus::Connected,
    };
    assert!(shown(debug_report_lines(&info))[12].ends_with(" : Connected & Initialized (OK)"));
    info.wmi = WmiStatus::ComFailed("no COM".to_string());
    assert!(shown(debug_report_lines(&info))[12].ends_with(" : COM Init Failed: no COM"));
}

#[test]
fn menu_screen() {
    let lines = shown(menu_lines());
    let mut expected = vec![
        format!("  ╔{}╗", "═".repeat(50)),
        format!("  ║           {}           ║", "PC HARDWARE & SYSTEM DIAGNOSTICS"),
        format!("  ╠{}╣", "═".repeat(50)),
    ];
    for (key, label) in [
        ("1", "Run Full System Diagnostics (All)        "),
        ("2", "System, OS & Motherboard                 "),
        ("3", "Processor (CPU) Status                   "),
        ("4", "Memory (RAM & Swap) Status               "),
        ("5", "Graphics (GPU & Display Drivers)         "),
        ("6", "Storage (Drives, Partitions, CD)         "),
        ("7", "Network Adapters & Traffic               "),
        ("8", "Active Tasks (Processes by CPU)          "),
        ("9", "Debug Mode (Diagnostics Context)         "),
        ("0", "Exit                                     "),
    ] {
        expected.push(format!("  ║  [{}]  {}║", key, label));
    }
    expected.push(format!("  ╚{}╝", "═".repeat(50)));
    assert_eq!(lines, expected);
    assert_eq!(prompt(), "  Select an option [0-9]: ");
}

#[test]
fn loop_messages() {
    colored::control::set_override(false);
    assert_eq!(clear_screen(), "\x1B[2J\x1B[1;1H");
    assert_eq!(render_line(&farewell_line()), "\n  Exiting diagnostics.\n");
    assert_eq!(
        render_line(&invalid_line()),
        format!("\n  {}", "Invalid selection. Please choose a number from 0 to 9.")
    );
    assert_eq!(pause_prompt(), "\n  Press Enter to return to menu...");
}
