use yt_music_downloader::drives::{
    drive_from_entry, drives_in_document, get_usb_drives, read_listing,
};
use yt_music_downloader::{Platform, Table, ToolOutput, USBDrive};

fn printed(stdout: &str) -> Result<ToolOutput, String> {
    Ok(ToolOutput { success: true, stdout: stdout.to_string(), stderr: String::new() })
}

fn summary(drives: &[USBDrive]) -> Vec<(String, String, u64, u64)> {
    drives.iter().map(|d| (d.name.clone(), d.path.clone(), d.capacity, d.available)).collect()
}

fn entry(name: &str, path: &str, capacity: u64, available: u64) -> (String, String, u64, u64) {
    (name.to_string(), path.to_string(), capacity, available)
}

const DISK_USAGE: &str = "\
Filesystem      Size   Used  Avail Capacity iused      ifree %iused  Mounted on
/dev/disk1s1   466Gi   10Gi  200Gi     5%  488318 4881964562    0%   /
/dev/disk2s1    29Gi  1.0Gi   28Gi     4%       1          0  100%   /Volumes/MYUSB
/dev/disk3s1   1.0Ti  500Gi  500Gi    50%       1          0  100%   /Volumes/com.apple.TimeMachine.localsnapshots/Backups
/dev/disk4s1    29Gi  1.0Gi   28Gi     4%       1          0  100%   /Volumes/My Disk
map auto_home    0Bi    0Bi    0Bi   100%       0          0  100%   /System/Volumes/Data/home
short /Volumes/NOPE
/dev/disk5s1    29Gi  1.0Gi   28Gi     4%       1          0  100%   /Volumes/Music/
";

const LOGICAL_DISKS: &str = "\r\n\
Node,Description,DeviceID,FreeSpace,Size\r\n\
PC,Local Fixed Disk,C:,1000,2000\r\n\
PC,Removable Disk,E:,12345,67890\r\n\
PC,Removable Disk,F:,,\r\n\
Removable Disk,G:\r\n\
PC,Removable Disk,77,+5,18446744073709551616,extra\r\n";

const BLOCK_DEVICES: &str = r#"{
  "blockdevices": [
    {"name": "sda", "mountpoint": null, "size": "931G", "avail": null, "tran": "sata"},
    {"name": "sdb", "mountpoint": "/media/usb", "size": "29G", "avail": "20G", "tran": "usb"},
    {"name": "sdc", "mountpoint": null, "size": "29G", "avail": null, "tran": "usb"},
    {"mountpoint": "/mnt/x", "tran": "usb"},
    {"name": 5, "mountpoint": "/mnt/y", "tran": "usb"},
    {"name": "sdd", "mountpoint": "/mnt/z", "tran": "USB"},
    {"name": "sde", "mountpoint": "/mnt/w"},
    "stray",
    {"name": "sdf", "mountpoint": "", "tran": "usb"}
  ]
}"#;

#[test]
fn listing_commands_are_fixed() {
    let mac = Platform::MacOs.listing_command();
    assert_eq!(mac.program, "df");
    assert_eq!(mac.args, vec!["-h".to_string()]);
    let windows = Platform::Windows.listing_command();
    assert_eq!(windows.program, "wmic");
    assert_eq!(
        windows.args,
        vec![
            "logicaldisk".to_string(),
            "get".to_string(),
            "deviceid,description,size,freespace".to_string(),
            "/format:csv".to_string(),
        ]
    );
    let linux = Platform::Linux.listing_command();
    assert_eq!(linux.program, "lsblk");
    assert_eq!(
        linux.args,
        vec!["-o".to_string(), "NAME,MOUNTPOINT,SIZE,AVAIL,TRAN".to_string(), "-J".to_string()]
    );
}

#[test]
fn disk_usage_lists_volumes() {
    let drives = Table::DiskUsage.read(DISK_USAGE);
    assert_eq!(
        summary(&drives),
        vec![
            entry("MYUSB", "/Volumes/MYUSB", 0, 0),
            entry("My", "/Volumes/My", 0, 0),
            entry("100%", "100%", 0, 0),
            entry("", "/Volumes/Music/", 0, 0),
        ]
    );
}

#[test]
fn disk_usage_skips_header_line() {
    let text = "a b c d e f g h /Volumes/HEADER\na b c d e f g h /Volumes/ROW\n";
    let drives = Table::DiskUsage.read(text);
    assert_eq!(summary(&drives), vec![entry("ROW", "/Volumes/ROW", 0, 0)]);
}

#[test]
fn disk_usage_of_nothing_is_empty() {
    assert!(Table::DiskUsage.read("").is_empty());
    assert!(Table::DiskUsage.read("Filesystem Size\n").is_empty());
    assert!(Table::DiskUsage.read("\n\n\n").is_empty());
}

#[test]
fn disk_usage_line_needs_nine_columns() {
    assert!(Table::DiskUsage.read_line("a b c d e f g /Volumes/X").is_none());
    let drive = Table::DiskUsage.read_line("a b c d e f g h /Volumes/X j").unwrap();
    assert_eq!(drive.path, "/Volumes/X");
    assert_eq!(drive.name, "X");
    assert_eq!(drive.capacity, 0);
    assert_eq!(drive.available, 0);
}

#[test]
fn disk_usage_line_leaves_out_backups() {
    assert!(Table::DiskUsage
        .read_line("a b c d e f g h /Volumes/com.apple.TimeMachine.x")
        .is_none());
    assert!(Table::DiskUsage.read_line("a b c d e f g h /mnt/usb").is_none());
    let ninth = Table::DiskUsage.read_line("/Volumes/ b c d e f g h elsewhere").unwrap();
    assert_eq!(ninth.path, "elsewhere");
    assert_eq!(ninth.name, "elsewhere");
}

#[test]
fn logical_disks_list_removable_disks() {
    let drives = Table::LogicalDisks.read(LOGICAL_DISKS);
    assert_eq!(
        summary(&drives),
        vec![
            entry("USB Drive (Removable Disk)", "Removable Disk", 12345, 0),
            entry("USB Drive (Removable Disk)", "Removable Disk", 0, 0),
            entry("USB Drive (Removable Disk)", "Removable Disk", 5, 77),
        ]
    );
}

#[test]
fn logical_disk_line_reads_sizes_by_position() {
    let drive = Table::LogicalDisks.read_line("Removable Disk,E:,100,250").unwrap();
    assert_eq!(drive.name, "USB Drive (E:)");
    assert_eq!(drive.path, "E:");
    assert_eq!(drive.capacity, 250);
    assert_eq!(drive.available, 100);
    assert!(Table::LogicalDisks.read_line("Removable Disk,E:,100").is_none());
    assert!(Table::LogicalDisks.read_line("Fixed Disk,C:,100,250").is_none());
    let unread = Table::LogicalDisks.read_line("Removable Disk,E:, 100,250 ").unwrap();
    assert_eq!(unread.capacity, 0);
    assert_eq!(unread.available, 0);
}

#[test]
fn logical_disks_skip_header_line() {
    let drives = Table::LogicalDisks.read("Removable Disk,A:,1,2\nRemovable Disk,B:,3,4");
    assert_eq!(summary(&drives), vec![entry("USB Drive (B:)", "B:", 4, 3)]);
}

#[test]
fn block_devices_list_mounted_usb_devices() {
    let drives = read_listing(Platform::Linux, BLOCK_DEVICES).unwrap();
    assert_eq!(
        summary(&drives),
        vec![
            entry("sdb", "/media/usb", 0, 0),
            entry("Unknown", "/mnt/x", 0, 0),
            entry("Unknown", "/mnt/y", 0, 0),
            entry("sdf", "", 0, 0),
        ]
    );
}

#[test]
fn block_devices_may_be_missing() {
    for text in ["{}", "[]", "null", r#"{"blockdevices": 3}"#, r#"{"blockdevices": {}}"#,
        r#"{"blockdevices": []}"#, r#"{"devices": [{"tran": "usb", "mountpoint": "/m"}]}"#]
    {
        assert!(read_listing(Platform::Linux, text).unwrap().is_empty(), "{}", text);
    }
}

#[test]
fn block_device_listing_that_is_no_json_is_reported() {
    let text = "NAME MOUNTPOINT";
    let expected = serde_json::from_str::<serde_json::Value>(text).unwrap_err().to_string();
    let failure = read_listing(Platform::Linux, text).unwrap_err();
    assert_eq!(failure, format!("Failed to parse lsblk JSON: {}", expected));
    assert_eq!(failure, "Failed to parse lsblk JSON: expected value at line 1 column 1");
}

#[test]
fn document_entries_are_read_in_order() {
    let doc: serde_json::Value = serde_json::from_str(BLOCK_DEVICES).unwrap();
    let drives = drives_in_document(&doc);
    assert_eq!(drives.len(), 4);
    assert_eq!(drives[0].name, "sdb");
    assert_eq!(drives[3].name, "sdf");
}

#[test]
fn entry_needs_usb_transport_and_mountpoint() {
    let usb = || Some("usb".to_string());
    let at = |p: &str| Some(p.to_string());
    let drive = drive_from_entry(usb(), at("/m"), at("sdb")).unwrap();
    assert_eq!((drive.name.as_str(), drive.path.as_str()), ("sdb", "/m"));
    assert_eq!((drive.capacity, drive.available), (0, 0));
    let unnamed = drive_from_entry(usb(), at("/m"), None).unwrap();
    assert_eq!(unnamed.name, "Unknown");
    assert!(drive_from_entry(usb(), None, at("sdb")).is_none());
    assert!(drive_from_entry(None, at("/m"), at("sdb")).is_none());
    assert!(drive_from_entry(at("sata"), at("/m"), at("sdb")).is_none());
    assert!(drive_from_entry(at("usb "), at("/m"), at("sdb")).is_none());
}

#[test]
fn listing_is_read_by_platform() {
    let mac = get_usb_drives(Platform::MacOs, &printed(DISK_USAGE)).unwrap();
    assert_eq!(mac.len(), 4);
    let windows = get_usb_drives(Platform::Windows, &printed(LOGICAL_DISKS)).unwrap();
    assert_eq!(windows.len(), 3);
    let linux = get_usb_drives(Platform::Linux, &printed(BLOCK_DEVICES)).unwrap();
    assert_eq!(linux.len(), 4);
    assert_eq!(summary(&mac), summary(&read_listing(Platform::MacOs, DISK_USAGE).unwrap()));
}

#[test]
fn listing_ignores_exit_status() {
    let run = Ok(ToolOutput {
        success: false,
        stdout: "header\na b c d e f g h /Volumes/X\n".to_string(),
        stderr: "df: warning".to_string(),
    });
    let drives = get_usb_drives(Platform::MacOs, &run).unwrap();
    assert_eq!(summary(&drives), vec![entry("X", "/Volumes/X", 0, 0)]);
}

#[test]
fn utility_that_cannot_be_executed_is_reported() {
    let run: Result<ToolOutput, String> = Err("not found".to_string());
    assert_eq!(
        get_usb_drives(Platform::MacOs, &run).unwrap_err(),
        "Failed to execute df: not found"
    );
    assert_eq!(
        get_usb_drives(Platform::Windows, &run).unwrap_err(),
        "Failed to execute wmic: not found"
    );
    assert_eq!(
        get_usb_drives(Platform::Linux, &run).unwrap_err(),
        "Failed to execute lsblk: not found"
    );
}
