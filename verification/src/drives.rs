//! Listing removable storage.
//!
//! Each platform has a system utility that lists storage, and a reader for
//! what the utility prints. Two of the utilities print a table, one line
//! for each device under a header line; the third prints a JSON document.
//! The readers take a device for removable by what its line or entry says,
//! and leave out every other.

use vstd::prelude::*;
use vstd::string::*;
use crate::json::{
    json_array,
    json_error_message,
    json_error_text,
    json_member,
    json_object,
    json_parsed,
    member_text,
    parse_json,
    string_member,
};
use crate::records::{drive_views, opt_text, USBDrive, USBDriveView};
use crate::text::{
    contains,
    contains_text,
    decimal_u64,
    joined,
    last_piece,
    last_segment,
    lines,
    lines_of,
    parse_u64,
    same_text,
    split,
    split_on,
    split_whitespace,
    words_of,
};
use crate::tool::{ToolCommand, ToolCommandView, ToolOutput};

verus! {

/// The platforms whose storage can be listed.
#[derive(Debug, Clone, Copy, PartialEq, Eq, Structural)]
pub enum Platform {
    MacOs,
    Windows,
    Linux,
}

impl Platform {
    /// The utility that lists storage.
    pub open spec fn utility(self) -> Seq<char> {
        match self {
            Platform::MacOs => "df"@,
            Platform::Windows => "wmic"@,
            Platform::Linux => "lsblk"@,
        }
    }

    /// The arguments that the utility is started with.
    pub open spec fn arguments(self) -> Seq<Seq<char>> {
        match self {
            Platform::MacOs => seq!["-h"@],
            Platform::Windows => seq![
                "logicaldisk"@,
                "get"@,
                "deviceid,description,size,freespace"@,
                "/format:csv"@,
            ],
            Platform::Linux => seq!["-o"@, "NAME,MOUNTPOINT,SIZE,AVAIL,TRAN"@, "-J"@],
        }
    }

    /// What is reported where the utility could not be executed.
    pub open spec fn failure(self, reason: Seq<char>) -> Seq<char> {
        match self {
            Platform::MacOs => "Failed to execute df: "@ + reason,
            Platform::Windows => "Failed to execute wmic: "@ + reason,
            Platform::Linux => "Failed to execute lsblk: "@ + reason,
        }
    }

    /// The command that lists storage on this platform.
    pub fn listing_command(self) -> (r: ToolCommand)
        ensures
            r@ == (ToolCommandView { program: self.utility(), args: self.arguments() }),
    {
        let mut args: Vec<String> = Vec::new();
        match self {
            Platform::MacOs => {
                args.push("-h".to_owned());
                assert(args.deep_view() =~= self.arguments());
                ToolCommand { program: "df".to_owned(), args }
            },
            Platform::Windows => {
                args.push("logicaldisk".to_owned());
                args.push("get".to_owned());
                args.push("deviceid,description,size,freespace".to_owned());
                args.push("/format:csv".to_owned());
                assert(args.deep_view() =~= self.arguments());
                ToolCommand { program: "wmic".to_owned(), args }
            },
            Platform::Linux => {
                args.push("-o".to_owned());
                args.push("NAME,MOUNTPOINT,SIZE,AVAIL,TRAN".to_owned());
                args.push("-J".to_owned());
                assert(args.deep_view() =~= self.arguments());
                ToolCommand { program: "lsblk".to_owned(), args }
            },
        }
    }
}

/// The view of an optional device.
pub open spec fn opt_drive(drive: Option<USBDrive>) -> Option<USBDriveView> {
    match drive {
        Some(d) => Some(d@),
        None => None,
    }
}

/// The tables that the readers know.
#[derive(Debug, Clone, Copy, PartialEq, Eq, Structural)]
pub enum Table {
    /// Disk usage by mounted file system, columns parted by white space.
    DiskUsage,
    /// Logical disks, columns parted by commas.
    LogicalDisks,
}

/// The device on one line of the disk-usage table. A line counts where it
/// names a path under `/Volumes/`, is no backup volume and has nine columns
/// or more; the ninth is where the device is mounted, and the last part of
/// that path is its name. Sizes are not read.
pub open spec fn disk_usage_drive(line: Seq<char>) -> Option<USBDriveView> {
    let columns = words_of(line);
    if contains_text(line, "/Volumes/"@) && !contains_text(line, "com.apple.TimeMachine"@)
        && columns.len() >= 9 {
        Some(
            USBDriveView {
                name: last_piece(columns[8], '/'),
                path: columns[8],
                capacity: 0,
                available: 0,
            },
        )
    } else {
        None
    }
}

/// The number that a column writes, or zero where it writes none.
pub open spec fn number_or_zero(column: Seq<char>) -> u64 {
    match decimal_u64(column) {
        Some(n) => n,
        None => 0,
    }
}

/// The device on one line of the logical-disk table. A line counts where
/// it says "Removable Disk" and has four columns or more; the second is the
/// device, the third its free space and the fourth its size.
pub open spec fn logical_disk_drive(line: Seq<char>) -> Option<USBDriveView> {
    let columns = split_on(line, ',');
    if contains_text(line, "Removable Disk"@) && columns.len() >= 4 {
        Some(
            USBDriveView {
                name: "USB Drive ("@ + columns[1] + ")"@,
                path: columns[1],
                capacity: number_or_zero(columns[3]),
                available: number_or_zero(columns[2]),
            },
        )
    } else {
        None
    }
}

impl Table {
    /// The device on one line of the table, if the line counts.
    pub open spec fn drive_on(self, line: Seq<char>) -> Option<USBDriveView> {
        match self {
            Table::DiskUsage => disk_usage_drive(line),
            Table::LogicalDisks => logical_disk_drive(line),
        }
    }

    /// `drive_on`, as a function of the line.
    pub open spec fn reader(self) -> spec_fn(Seq<char>) -> Option<USBDriveView> {
        |line: Seq<char>| self.drive_on(line)
    }

    /// The devices of a table: those of its lines after the header line.
    pub open spec fn drives_in(self, text: Seq<char>) -> Seq<USBDriveView> {
        rows(text).filter_map(self.reader())
    }

    /// Reads one line of the table.
    pub fn read_line(self, line: &str) -> (r: Option<USBDrive>)
        ensures
            opt_drive(r) == self.drive_on(line@),
    {
        match self {
            Table::DiskUsage => {
                if !contains(line, "/Volumes/") || contains(line, "com.apple.TimeMachine") {
                    return None;
                }
                let columns = split_whitespace(line);
                if columns.len() < 9 {
                    return None;
                }
                let mount = &columns[8];
                assert(mount@ == words_of(line@)[8]);
                Some(
                    USBDrive {
                        name: last_segment(mount.as_str(), '/'),
                        path: mount.clone(),
                        capacity: 0,
                        available: 0,
                    },
                )
            },
            Table::LogicalDisks => {
                if !contains(line, "Removable Disk") {
                    return None;
                }
                let columns = split(line, ',');
                if columns.len() < 4 {
                    return None;
                }
                let device = &columns[1];
                assert(device@ == split_on(line@, ',')[1]);
                assert(columns[2]@ == split_on(line@, ',')[2]);
                assert(columns[3]@ == split_on(line@, ',')[3]);
                let capacity = match parse_u64(columns[3].as_str()) {
                    Some(n) => n,
                    None => 0,
                };
                let available = match parse_u64(columns[2].as_str()) {
                    Some(n) => n,
                    None => 0,
                };
                let name = joined("USB Drive (", device.as_str()).concat(")");
                Some(USBDrive { name, path: device.clone(), capacity, available })
            },
        }
    }

    /// Reads the devices of a table.
    pub fn read(self, text: &str) -> (r: Vec<USBDrive>)
        ensures
            drive_views(r@) == self.drives_in(text@),
    {
        let all = lines(text);
        let mut out: Vec<USBDrive> = Vec::new();
        let ghost body = rows(text@);
        if all.len() == 0 {
            assert(drive_views(out@) =~= body.filter_map(self.reader()));
            return out;
        }
        let mut k: usize = 1;
        assert(body.take(0) =~= Seq::<Seq<char>>::empty());
        assert(drive_views(out@) =~= body.take(0).filter_map(self.reader()));
        while k < all.len()
            invariant
                1 <= k <= all.len(),
                all.deep_view() == lines_of(text@),
                body == rows(text@),
                drive_views(out@) == body.take(k - 1).filter_map(self.reader()),
            decreases all.len() - k,
        {
            let ghost before = drive_views(out@);
            assert(body[k - 1] == all[k as int]@);
            proof {
                body.lemma_filter_map_take_succ(self.reader(), k - 1);
            }
            match self.read_line(all[k].as_str()) {
                Some(drive) => {
                    out.push(drive);
                    assert(drive_views(out@) =~= before.push(drive@));
                },
                None => {},
            }
            k += 1;
        }
        assert(body.take(all.len() - 1) =~= body);
        out
    }
}

/// The lines of a table that stand for devices: all but the header line.
pub open spec fn rows(text: Seq<char>) -> Seq<Seq<char>> {
    let all = lines_of(text);
    if all.len() == 0 {
        all
    } else {
        all.drop_first()
    }
}

/// The name to show: the one given, or "Unknown".
pub open spec fn name_or_unknown(name: Option<Seq<char>>) -> Seq<char> {
    match name {
        Some(n) => n,
        None => "Unknown"@,
    }
}

/// The device that a block-device entry stands for: one whose transport is
/// "usb" and that is mounted. Sizes are not read.
pub open spec fn block_device_drive(
    transport: Option<Seq<char>>,
    mountpoint: Option<Seq<char>>,
    name: Option<Seq<char>>,
) -> Option<USBDriveView> {
    if transport == Some("usb"@) && mountpoint is Some {
        Some(
            USBDriveView {
                name: name_or_unknown(name),
                path: mountpoint->Some_0,
                capacity: 0,
                available: 0,
            },
        )
    } else {
        None
    }
}

/// Reads the device out of what a block-device entry holds.
pub fn drive_from_entry(
    transport: Option<String>,
    mountpoint: Option<String>,
    name: Option<String>,
) -> (r: Option<USBDrive>)
    ensures
        opt_drive(r) == block_device_drive(opt_text(transport), opt_text(mountpoint), opt_text(name)),
{
    let over_usb = match transport {
        Some(t) => same_text(t.as_str(), "usb"),
        None => false,
    };
    if !over_usb {
        return None;
    }
    match mountpoint {
        Some(path) => {
            let name = match name {
                Some(n) => n,
                None => "Unknown".to_owned(),
            };
            Some(USBDrive { name, path, capacity: 0, available: 0 })
        },
        None => None,
    }
}

/// The device that the entry `device` of a block-device listing stands for.
pub open spec fn entry_drive(device: serde_json::Value) -> Option<USBDriveView> {
    block_device_drive(
        member_text(device, "tran"@),
        member_text(device, "mountpoint"@),
        member_text(device, "name"@),
    )
}

/// `entry_drive`, as a function of the entry.
pub open spec fn entry_reader() -> spec_fn(serde_json::Value) -> Option<USBDriveView> {
    |device: serde_json::Value| entry_drive(device)
}

/// The entries of a block-device listing: the elements of its member
/// `blockdevices`, where that is an array.
pub open spec fn block_devices(doc: serde_json::Value) -> Seq<serde_json::Value> {
    if json_object(doc).contains_key("blockdevices"@) {
        match json_array(json_object(doc)["blockdevices"@]) {
            Some(entries) => entries,
            None => Seq::empty(),
        }
    } else {
        Seq::empty()
    }
}

/// The devices of a block-device listing.
pub open spec fn listed_drives(doc: serde_json::Value) -> Seq<USBDriveView> {
    block_devices(doc).filter_map(entry_reader())
}

/// Reads the devices of a block-device listing.
pub fn drives_in_document(doc: &serde_json::Value) -> (r: Vec<USBDrive>)
    ensures
        drive_views(r@) == listed_drives(*doc),
{
    let mut out: Vec<USBDrive> = Vec::new();
    let entries = match json_member(doc, "blockdevices").as_array() {
        Some(entries) => entries,
        None => {
            assert(block_devices(*doc) =~= Seq::empty());
            assert(drive_views(out@) =~= listed_drives(*doc));
            return out;
        },
    };
    let ghost all = block_devices(*doc);
    assert(all == entries@);
    let mut k: usize = 0;
    assert(all.take(0) =~= Seq::<serde_json::Value>::empty());
    assert(drive_views(out@) =~= all.take(0).filter_map(entry_reader()));
    while k < entries.len()
        invariant
            0 <= k <= entries.len(),
            all == entries@,
            drive_views(out@) == all.take(k as int).filter_map(entry_reader()),
        decreases entries.len() - k,
    {
        let ghost before = drive_views(out@);
        let device = &entries[k];
        proof {
            all.lemma_filter_map_take_succ(entry_reader(), k as int);
        }
        let found = drive_from_entry(
            string_member(device, "tran"),
            string_member(device, "mountpoint"),
            string_member(device, "name"),
        );
        match found {
            Some(drive) => {
                out.push(drive);
                assert(drive_views(out@) =~= before.push(drive@));
            },
            None => {},
        }
        k += 1;
    }
    assert(all.take(entries.len() as int) =~= all);
    out
}

/// What a listing on `platform` says, given what the utility printed. Only
/// a block-device listing can fail to be read: where it is no JSON.
pub open spec fn drives_listed(platform: Platform, printed: Seq<char>) -> Result<
    Seq<USBDriveView>,
    Seq<char>,
> {
    match platform {
        Platform::MacOs => Ok(Table::DiskUsage.drives_in(printed)),
        Platform::Windows => Ok(Table::LogicalDisks.drives_in(printed)),
        Platform::Linux => match json_parsed(printed) {
            Ok(doc) => Ok(listed_drives(doc)),
            Err(error) => Err("Failed to parse lsblk JSON: "@ + json_error_text(error)),
        },
    }
}

/// What a run of the listing utility says. The exit status is not looked
/// at.
pub open spec fn drives_of_run(platform: Platform, run: Result<ToolOutput, String>) -> Result<
    Seq<USBDriveView>,
    Seq<char>,
> {
    match run {
        Err(reason) => Err(platform.failure(reason@)),
        Ok(output) => drives_listed(platform, output.stdout@),
    }
}

/// The view of the outcome of a listing.
pub open spec fn listing_view(outcome: Result<Vec<USBDrive>, String>) -> Result<
    Seq<USBDriveView>,
    Seq<char>,
> {
    match outcome {
        Ok(drives) => Ok(drive_views(drives@)),
        Err(reason) => Err(reason@),
    }
}

/// Reads what the listing utility of `platform` printed.
pub fn read_listing(platform: Platform, printed: &str) -> (r: Result<Vec<USBDrive>, String>)
    ensures
        listing_view(r) == drives_listed(platform, printed@),
{
    match platform {
        Platform::MacOs => Ok(Table::DiskUsage.read(printed)),
        Platform::Windows => Ok(Table::LogicalDisks.read(printed)),
        Platform::Linux => match parse_json(printed) {
            Ok(doc) => Ok(drives_in_document(&doc)),
            Err(error) => Err(
                joined("Failed to parse lsblk JSON: ", json_error_message(&error).as_str()),
            ),
        },
    }
}

/// The removable storage devices on `platform`, from a run of the command
/// that lists storage there.
pub fn get_usb_drives(platform: Platform, run: &Result<ToolOutput, String>) -> (r: Result<
    Vec<USBDrive>,
    String,
>)
    ensures
        listing_view(r) == drives_of_run(platform, *run),
{
    match run {
        Err(reason) => {
            let prefix = match platform {
                Platform::MacOs => "Failed to execute df: ",
                Platform::Windows => "Failed to execute wmic: ",
                Platform::Linux => "Failed to execute lsblk: ",
            };
            Err(joined(prefix, reason.as_str()))
        },
        Ok(output) => read_listing(platform, output.stdout.as_str()),
    }
}

/// Sizes are read from the logical-disk table alone: a device from the
/// disk-usage table has none.
pub proof fn lemma_disk_usage_sizes_unread(text: Seq<char>)
    ensures
        forall|i: int|
            0 <= i < Table::DiskUsage.drives_in(text).len() ==> {
                &&& (#[trigger] Table::DiskUsage.drives_in(text)[i]).capacity == 0
                &&& Table::DiskUsage.drives_in(text)[i].available == 0
            },
{
    let found = Table::DiskUsage.drives_in(text);
    assert forall|i: int| 0 <= i < found.len() implies {
        &&& (#[trigger] found[i]).capacity == 0
        &&& found[i].available == 0
    } by {
        assert(found.contains(found[i]));
        rows(text).lemma_filter_map_contains(Table::DiskUsage.reader(), found[i]);
    }
}

/// A device from a block-device listing has no sizes either.
pub proof fn lemma_block_device_sizes_unread(doc: serde_json::Value)
    ensures
        forall|i: int|
            0 <= i < listed_drives(doc).len() ==> {
                &&& (#[trigger] listed_drives(doc)[i]).capacity == 0
                &&& listed_drives(doc)[i].available == 0
            },
{
    let found = listed_drives(doc);
    assert forall|i: int| 0 <= i < found.len() implies {
        &&& (#[trigger] found[i]).capacity == 0
        &&& found[i].available == 0
    } by {
        assert(found.contains(found[i]));
        block_devices(doc).lemma_filter_map_contains(entry_reader(), found[i]);
    }
}

/// The name of a device from a table follows from where it is found: in
/// the disk-usage table it is the last part of the path, in the
/// logical-disk table the path in a fixed frame.
pub proof fn lemma_names_follow_paths(table: Table, text: Seq<char>)
    ensures
        forall|i: int|
            0 <= i < table.drives_in(text).len() ==> (#[trigger] table.drives_in(text)[i]).name
                == match table {
                Table::DiskUsage => last_piece(table.drives_in(text)[i].path, '/'),
                Table::LogicalDisks => "USB Drive ("@ + table.drives_in(text)[i].path + ")"@,
            },
{
    let found = table.drives_in(text);
    assert forall|i: int| 0 <= i < found.len() implies (#[trigger] found[i]).name == match table {
        Table::DiskUsage => last_piece(found[i].path, '/'),
        Table::LogicalDisks => "USB Drive ("@ + found[i].path + ")"@,
    } by {
        assert(found.contains(found[i]));
        rows(text).lemma_filter_map_contains(table.reader(), found[i]);
    }
}

/// A listing never holds more devices than the utility printed lines or
/// entries for.
pub proof fn lemma_no_more_drives_than_rows(table: Table, text: Seq<char>)
    ensures
        table.drives_in(text).len() <= rows(text).len(),
{
    lemma_filter_map_len(rows(text), table.reader());
}

/// Reading leaves items out and adds none.
proof fn lemma_filter_map_len<A, B>(items: Seq<A>, f: spec_fn(A) -> Option<B>)
    ensures
        items.filter_map(f).len() <= items.len(),
    decreases items.len(),
{
    if items.len() > 0 {
        lemma_filter_map_len(items.drop_last(), f);
    }
}

} // verus!
