use vstd::prelude::*;
use vstd::string::*;

use crate::text::{
    chars_of, lemma_split_on_fields, lemma_split_on_single, pieces, range_equals, split_on, split_ranges, str_equals,
    string_of, strings, trim, trim_range, trimmed,
};

verus! {

broadcast use vstd::string::group_string_axioms;

/// An iOS device as reported by the `idevice*` command-line tools.
pub struct Device {
    pub name: String,
    pub version: String,
    pub udid: String,
}

/// The operating systems on which the device tools can be run.
#[derive(Clone, Copy, Debug, PartialEq, Eq, Structural)]
pub enum Platform {
    MacOs,
    Linux,
    Windows,
}

/// The platform that an operating-system name (as `std::env::consts::OS`
/// spells it) stands for.
pub open spec fn platform_named(os: Seq<char>) -> Option<Platform> {
    if os == "macos"@ {
        Some(Platform::MacOs)
    } else if os == "linux"@ {
        Some(Platform::Linux)
    } else if os == "windows"@ {
        Some(Platform::Windows)
    } else {
        None
    }
}

/// The platform named `os`, or `None` for an operating system that the tools
/// do not support.
pub fn platform_of(os: &str) -> (r: Option<Platform>)
    ensures
        r == platform_named(os@),
{
    if str_equals(os, "macos") {
        Some(Platform::MacOs)
    } else if str_equals(os, "linux") {
        Some(Platform::Linux)
    } else if str_equals(os, "windows") {
        Some(Platform::Windows)
    } else {
        None
    }
}

/// A program to run and the arguments to hand it.
pub struct ToolCommand {
    pub program: String,
    pub args: Vec<String>,
}

impl ToolCommand {
    /// The arguments as texts.
    pub open spec fn arg_texts(&self) -> Seq<Seq<char>> {
        self.args@.map_values(|a: String| a@)
    }
}

/// The program that runs the `tool` of libimobiledevice on `platform`: the
/// tool itself, or PowerShell on Windows.
pub open spec fn tool_program(platform: Platform, tool: Seq<char>) -> Seq<char> {
    if platform == Platform::Windows {
        "powershell"@
    } else {
        tool
    }
}

/// The arguments that run `tool` with `args` on `platform`: on Windows the
/// path of the tool's executable comes first.
pub open spec fn tool_args(platform: Platform, tool: Seq<char>, args: Seq<Seq<char>>) -> Seq<
    Seq<char>,
> {
    if platform == Platform::Windows {
        seq!["libimobiledevice/"@ + tool + ".exe"@] + args
    } else {
        args
    }
}

/// The command that runs the libimobiledevice `tool` with `args` on `platform`.
fn tool_command(platform: Platform, tool: &str, args: Vec<String>) -> (r: ToolCommand)
    ensures
        r.program@ == tool_program(platform, tool@),
        r.arg_texts() == tool_args(platform, tool@, args@.map_values(|a: String| a@)),
{
    let mut args = args;
    match platform {
        Platform::Windows => {
            let mut exe = String::from_str("libimobiledevice/");
            exe.append(tool);
            exe.append(".exe");
            let mut all: Vec<String> = Vec::new();
            all.push(exe);
            let ghost orig = args@;
            all.append(&mut args);
            let r = ToolCommand { program: String::from_str("powershell"), args: all };
            proof {
                assert(r.arg_texts() =~= seq![r.args@[0]@] + orig.map_values(
                    |a: String| a@,
                ));
            }
            r
        },
        _ => ToolCommand { program: String::from_str(tool), args },
    }
}


/// The first line of `s` as `str::lines` yields it: the text before the first
/// line feed, without a carriage return that ends it right before that line
/// feed; `None` for an empty text.
pub open spec fn first_line(s: Seq<char>) -> Option<Seq<char>> {
    if s.len() == 0 {
        None
    } else {
        let ls = split_on(s, '\n');
        let l = ls[0];
        if ls.len() > 1 && l.len() > 0 && l.last() == '\r' {
            Some(l.drop_last())
        } else {
            Some(l)
        }
    }
}

/// The device identifier that a listing of `idevice_id -l` leads the scan to
/// query: the whole listing, trimmed, when its first line is not empty.
pub open spec fn scan_target_of(listing: Seq<char>) -> Option<Seq<char>> {
    match first_line(listing) {
        Some(l) => if l.len() > 0 {
            Some(trim(listing))
        } else {
            None
        },
        None => None,
    }
}

/// The second `:`-separated field, trimmed, of the last line of `lines` whose
/// first field is `key` (for "DeviceName: My:Phone" that is "My"); empty when
/// no line has that first field.
pub open spec fn field_value(lines: Seq<Seq<char>>, key: Seq<char>) -> Seq<char>
    decreases lines.len(),
{
    if lines.len() == 0 {
        Seq::<char>::empty()
    } else {
        let fields = split_on(lines.last(), ':');
        if fields[0] == key {
            trim(fields[1])
        } else {
            field_value(lines.drop_last(), key)
        }
    }
}

/// The lines of an `ideviceinfo` report.
pub open spec fn report_lines(report: Seq<char>) -> Seq<Seq<char>> {
    split_on(report, '\n')
}

/// A report can be read when no line is one of the two keys alone, without
/// a value after it.
pub open spec fn report_is_readable(report: Seq<char>) -> bool {
    &&& !report_lines(report).contains("DeviceName"@)
    &&& !report_lines(report).contains("ProductVersion"@)
}

/// The name and iOS version that a readable `ideviceinfo` report gives.
pub open spec fn report_fields(report: Seq<char>) -> (Seq<char>, Seq<char>) {
    (
        field_value(report_lines(report), "DeviceName"@),
        field_value(report_lines(report), "ProductVersion"@),
    )
}

/// The lines of an `ideviceinstaller -l` listing.
pub open spec fn listing_lines(listing: Seq<char>) -> Seq<Seq<char>> {
    split_on(listing, '\n')
}

/// A listing can be read when every non-empty line after the header has at
/// least three comma-separated fields.
pub open spec fn listing_is_readable(lines: Seq<Seq<char>>) -> bool {
    forall|k: int|
        1 <= k < lines.len() && lines[k].len() > 0 ==> #[trigger] split_on(lines[k], ',').len()
            >= 3
}

/// The applications that the lines of a listing name: each non-empty line
/// after the header maps the app's name (third field, trimmed) to its bundle
/// identifier (first field, trimmed); a later line wins over an earlier one.
pub open spec fn listed_apps(lines: Seq<Seq<char>>) -> Map<Seq<char>, Seq<char>>
    decreases lines.len(),
{
    if lines.len() <= 1 {
        Map::empty()
    } else {
        let apps = listed_apps(lines.drop_last());
        let line = lines.last();
        if line.len() == 0 {
            apps
        } else {
            let fields = split_on(line, ',');
            apps.insert(trim(fields[2]), trim(fields[0]))
        }
    }
}

/// The map that a list of (name, identifier) entries stands for.
pub open spec fn entries_map(entries: Seq<(String, String)>) -> Map<Seq<char>, Seq<char>>
    decreases entries.len(),
{
    if entries.len() == 0 {
        Map::empty()
    } else {
        entries_map(entries.drop_last()).insert(entries.last().0@, entries.last().1@)
    }
}

/// No two entries share a name.
pub open spec fn names_unique(entries: Seq<(String, String)>) -> bool {
    forall|i: int, j: int|
        0 <= i < entries.len() && 0 <= j < entries.len() && i != j ==> #[trigger] entries[i].0@
            != #[trigger] entries[j].0@
}

/// Replacing the identifier of the entry that holds a name is inserting that
/// name into the map anew.
proof fn lemma_entries_map_update(entries: Seq<(String, String)>, i: int, e: (String, String))
    requires
        names_unique(entries),
        0 <= i < entries.len(),
        entries[i].0@ == e.0@,
    ensures
        entries_map(entries.update(i, e)) == entries_map(entries).insert(e.0@, e.1@),
    decreases entries.len(),
{
    let u = entries.update(i, e);
    assert(u.drop_last() =~= if i == entries.len() - 1 {
        entries.drop_last()
    } else {
        entries.drop_last().update(i, e)
    });
    if i == entries.len() - 1 {
        assert(entries_map(u) =~= entries_map(entries).insert(e.0@, e.1@));
    } else {
        lemma_entries_map_update(entries.drop_last(), i, e);
        assert(entries[entries.len() - 1].0@ != entries[i].0@);
        assert(entries_map(u) =~= entries_map(entries).insert(e.0@, e.1@));
    }
}

impl Device {
    /// Builds a device record from its identifier, name and iOS version.
    pub fn new(udid: String, name: String, version: String) -> (d: Device)
        ensures
            d.udid == udid,
            d.name == name,
            d.version == version,
    {
        Device { name, version, udid }
    }

    /// The command that lists the identifiers of the connected devices.
    pub fn idevice_id_command(platform: Platform) -> (r: ToolCommand)
        ensures
            r.program@ == tool_program(platform, "idevice_id"@),
            r.arg_texts() == tool_args(platform, "idevice_id"@, seq!["-l"@]),
    {
        let args = strings(vec!["-l"]);
        proof {
            assert(args@.map_values(|a: String| a@) =~= seq!["-l"@]);
        }
        tool_command(platform, "idevice_id", args)
    }

    /// The command that reports the properties of the device `uuid`.
    pub fn ideviceinfo_command(platform: Platform, uuid: String) -> (r: ToolCommand)
        ensures
            r.program@ == tool_program(platform, "ideviceinfo"@),
            r.arg_texts() == tool_args(platform, "ideviceinfo"@, seq!["-u"@, uuid@]),
    {
        let mut args = strings(vec!["-u"]);
        args.push(uuid);
        proof {
            assert(args@.map_values(|a: String| a@) =~= seq!["-u"@, uuid@]);
        }
        tool_command(platform, "ideviceinfo", args)
    }

    /// The command that lists the applications installed on this device.
    pub fn return_idi_command(&self, platform: Platform) -> (r: ToolCommand)
        ensures
            r.program@ == tool_program(platform, "ideviceinstaller"@),
            r.arg_texts() == tool_args(
                platform,
                "ideviceinstaller"@,
                seq!["-l"@, "-u"@, self.udid@],
            ),
    {
        let mut args = strings(vec!["-l", "-u"]);
        args.push(self.udid.clone());
        proof {
            assert(args@.map_values(|a: String| a@) =~= seq!["-l"@, "-u"@, self.udid@]);
        }
        tool_command(platform, "ideviceinstaller", args)
    }

    /// The command that launches the application `pkg_identifier` on this
    /// device with a debugger attached and detached again.
    pub fn run_app_command(&self, platform: Platform, pkg_identifier: String) -> (r: ToolCommand)
        ensures
            r.program@ == tool_program(platform, "idevicedebug"@),
            r.arg_texts() == tool_args(
                platform,
                "idevicedebug"@,
                seq!["-u"@, self.udid@, "--detach"@, "run"@, pkg_identifier@],
            ),
    {
        let mut args = strings(vec!["-u"]);
        args.push(self.udid.clone());
        let mut rest = strings(vec!["--detach", "run"]);
        args.append(&mut rest);
        args.push(pkg_identifier);
        proof {
            assert(args@.map_values(|a: String| a@) =~= seq![
                "-u"@,
                self.udid@,
                "--detach"@,
                "run"@,
                pkg_identifier@,
            ]);
        }
        tool_command(platform, "idevicedebug", args)
    }

    /// Whether a launch succeeded, judged by what the debugger wrote to its
    /// error stream: it did when that stream is empty.
    pub fn launch_succeeded(stderr: &str) -> (r: bool)
        ensures
            r == (stderr@.len() == 0),
    {
        stderr.is_empty()
    }
}

impl Device {
    /// The identifier that a scan queries, given the listing that
    /// `idevice_id -l` printed: the whole listing trimmed, when its first line
    /// is not empty; `None` otherwise.
    pub fn scan_target(listing: &str) -> (r: Option<String>)
        ensures
            r is Some == scan_target_of(listing@) is Some,
            r matches Some(u) ==> u@ == scan_target_of(listing@)->0,
    {
        let cs = chars_of(listing);
        if cs.len() == 0 {
            return None;
        }
        let lines = split_ranges(&cs, 0, cs.len(), '\n');
        let (a, b) = lines[0];
        proof {
            assert(cs@.subrange(0, cs@.len() as int) =~= cs@);
            assert(pieces(cs@, lines@)[0] == cs@.subrange(a as int, b as int));
        }
        let mut len = b - a;
        if lines.len() > 1 && b > a && cs[b - 1] == '\r' {
            len = len - 1;
        }
        if len == 0 {
            None
        } else {
            Some(trimmed(listing))
        }
    }

    /// The name and iOS version that an `ideviceinfo` report gives: the second
    /// `:`-separated field of the last `DeviceName` and `ProductVersion` lines,
    /// trimmed, empty where there is none. `None` when a line is one of these keys alone, which
    /// leaves no value to read.
    pub fn read_report(report: &str) -> (r: Option<(String, String)>)
        ensures
            r is Some == report_is_readable(report@),
            r matches Some(f) ==> (f.0@, f.1@) == report_fields(report@),
    {
        let cs = chars_of(report);
        let lines = split_ranges(&cs, 0, cs.len(), '\n');
        let ghost ls = pieces(cs@, lines@);
        proof {
            assert(cs@.subrange(0, cs@.len() as int) =~= cs@);
        }
        let name_key = chars_of("DeviceName");
        let version_key = chars_of("ProductVersion");
        proof {
            reveal_strlit("DeviceName");
            reveal_strlit("ProductVersion");
            assert(!name_key@.contains(':'));
            assert(!version_key@.contains(':'));
            lemma_split_on_single(name_key@, ':');
            lemma_split_on_single(version_key@, ':');
        }
        let mut name: (usize, usize) = (0, 0);
        let mut version: (usize, usize) = (0, 0);
        let mut k: usize = 0;
        while k < lines.len()
            invariant
                0 <= k <= lines@.len(),
                ls == pieces(cs@, lines@),
                ls == report_lines(report@),
                cs@ == report@,
                forall|j: int| 0 <= j < lines@.len() ==> #[trigger] lines@[j].0 <= lines@[j].1 <= cs@.len(),
                name_key@ == "DeviceName"@,
                version_key@ == "ProductVersion"@,
                split_on(name_key@, ':') == seq![name_key@],
                split_on(version_key@, ':') == seq![version_key@],
                forall|j: int| 0 <= j < k ==> #[trigger] ls[j] != name_key@ && ls[j] != version_key@,
                name.0 <= name.1 <= cs@.len(),
                version.0 <= version.1 <= cs@.len(),
                cs@.subrange(name.0 as int, name.1 as int) == field_value(ls.take(k as int), name_key@),
                cs@.subrange(version.0 as int, version.1 as int) == field_value(
                    ls.take(k as int),
                    version_key@,
                ),
            decreases lines@.len() - k,
        {
            let (a, b) = lines[k];
            let fields = split_ranges(&cs, a, b, ':');
            let ghost line = cs@.subrange(a as int, b as int);
            let ghost fs = split_on(line, ':');
            proof {
                assert(ls[k as int] == line);
                assert(ls.take(k + 1).drop_last() =~= ls.take(k as int));
                assert(ls.take(k + 1).last() == line);
                assert(pieces(cs@, fields@)[0] == fs[0]);
                lemma_split_on_single(line, ':');
            }
            let (f0a, f0b) = fields[0];
            if range_equals(&cs, f0a, f0b, &name_key) {
                if fields.len() < 2 {
                    proof {
                        assert(line == fs[0]);
                        assert(ls[k as int] == "DeviceName"@);
                        assert(report_lines(report@).contains("DeviceName"@));
                    }
                    return None;
                }
                let (f1a, f1b) = fields[1];
                proof {
                    assert(pieces(cs@, fields@)[1] == fs[1]);
                }
                name = trim_range(&cs, f1a, f1b);
            } else {
                proof {
                    if line == name_key@ {
                        assert(fs == seq![line]);
                    }
                }
            }
            if range_equals(&cs, f0a, f0b, &version_key) {
                if fields.len() < 2 {
                    proof {
                        assert(line == fs[0]);
                        assert(ls[k as int] == "ProductVersion"@);
                        assert(report_lines(report@).contains("ProductVersion"@));
                    }
                    return None;
                }
                let (f1a, f1b) = fields[1];
                proof {
                    assert(pieces(cs@, fields@)[1] == fs[1]);
                }
                version = trim_range(&cs, f1a, f1b);
            } else {
                proof {
                    if line == version_key@ {
                        assert(fs == seq![line]);
                    }
                }
            }
            k = k + 1;
        }
        proof {
            assert(ls.take(lines@.len() as int) =~= ls);
            assert forall|j: int| 0 <= j < ls.len() implies ls[j] != "DeviceName"@ && ls[j]
                != "ProductVersion"@ by {}
        }
        Some((string_of(&cs, name.0, name.1), string_of(&cs, version.0, version.1)))
    }
}

impl Device {
    /// Whether the scan can use `report`: the listing leads to no query, or
    /// the report can be read.
    pub fn scan_is_readable(listing: &str, report: &str) -> (r: bool)
        ensures
            r == (scan_target_of(listing@) is Some ==> report_is_readable(report@)),
    {
        match Device::scan_target(listing) {
            None => true,
            Some(_) => Device::read_report(report).is_some(),
        }
    }

    /// The devices that a scan finds, given the listing that `idevice_id -l`
    /// printed and the report that `ideviceinfo` printed for the identifier
    /// that `scan_target` picks (any text when it picks none). The scan finds
    /// no device when there is no identifier to query, else the one device
    /// that the report describes.
    pub fn device_scan(listing: &str, report: &str) -> (r: Vec<Device>)
        requires
            scan_target_of(listing@) is Some ==> report_is_readable(report@),
        ensures
            scan_target_of(listing@) is None ==> r@.len() == 0,
            scan_target_of(listing@) matches Some(udid) ==> {
                &&& r@.len() == 1
                &&& r@[0].udid@ == udid
                &&& (r@[0].name@, r@[0].version@) == report_fields(report@)
            },
    {
        let mut devices: Vec<Device> = Vec::new();
        match Device::scan_target(listing) {
            None => devices,
            Some(udid) => match Device::read_report(report) {
                None => devices,
                Some((name, version)) => {
                    devices.push(Device::new(udid, name, version));
                    devices
                },
            },
        }
    }

    /// Whether every non-empty line after the header of an
    /// `ideviceinstaller -l` listing has at least three fields.
    pub fn listing_is_readable(listing: &str) -> (r: bool)
        ensures
            r == listing_is_readable(listing_lines(listing@)),
    {
        Device::read_apps(listing).is_some()
    }

    /// The applications that an `ideviceinstaller -l` listing names, as
    /// (name, bundle identifier) entries with distinct names: the header line
    /// is skipped, as are empty lines, and each other line gives its third
    /// field as the name and its first field as the identifier, both trimmed;
    /// a later line for a name replaces an earlier one.
    pub fn app_scan(listing: &str) -> (r: Vec<(String, String)>)
        requires
            listing_is_readable(listing_lines(listing@)),
        ensures
            names_unique(r@),
            entries_map(r@) == listed_apps(listing_lines(listing@)),
    {
        match Device::read_apps(listing) {
            Some(apps) => apps,
            None => Vec::new(),
        }
    }

    /// The applications of a listing as `app_scan` gives them, or `None` when
    /// a line has fewer than three fields.
    fn read_apps(listing: &str) -> (r: Option<Vec<(String, String)>>)
        ensures
            r is Some == listing_is_readable(listing_lines(listing@)),
            r matches Some(apps) ==> {
                &&& names_unique(apps@)
                &&& entries_map(apps@) == listed_apps(listing_lines(listing@))
            },
    {
        let cs = chars_of(listing);
        let lines = split_ranges(&cs, 0, cs.len(), '\n');
        let ghost ls = pieces(cs@, lines@);
        proof {
            assert(cs@.subrange(0, cs@.len() as int) =~= cs@);
            assert(ls.take(1).drop_last() =~= Seq::<Seq<char>>::empty());
            assert(entries_map(Seq::<(String, String)>::empty()) =~= listed_apps(ls.take(1)));
        }
        let mut apps: Vec<(String, String)> = Vec::new();
        let mut k: usize = 1;
        while k < lines.len()
            invariant
                1 <= k <= lines@.len(),
                ls == pieces(cs@, lines@),
                ls == listing_lines(listing@),
                forall|j: int| 0 <= j < lines@.len() ==> #[trigger] lines@[j].0 <= lines@[j].1 <= cs@.len(),
                forall|j: int|
                    1 <= j < k && ls[j].len() > 0 ==> #[trigger] split_on(ls[j], ',').len() >= 3,
                names_unique(apps@),
                entries_map(apps@) == listed_apps(ls.take(k as int)),
            decreases lines@.len() - k,
        {
            let (a, b) = lines[k];
            let ghost line = cs@.subrange(a as int, b as int);
            proof {
                assert(ls[k as int] == line);
                assert(ls.take(k + 1).drop_last() =~= ls.take(k as int));
                assert(ls.take(k + 1).last() == line);
            }
            if b > a {
                let fields = split_ranges(&cs, a, b, ',');
                if fields.len() < 3 {
                    proof {
                        assert(!listing_is_readable(ls)) by {
                            assert(ls[k as int].len() > 0);
                            assert(split_on(ls[k as int], ',').len() < 3);
                        }
                    }
                    return None;
                }
                let ghost fs = split_on(line, ',');
                let (ia, ib) = fields[0];
                let (na, nb) = fields[2];
                proof {
                    assert(pieces(cs@, fields@)[0] == fs[0]);
                    assert(pieces(cs@, fields@)[2] == fs[2]);
                }
                let (ia, ib) = trim_range(&cs, ia, ib);
                let (na, nb) = trim_range(&cs, na, nb);
                let name = string_of(&cs, na, nb);
                let identifier = string_of(&cs, ia, ib);
                let mut found: Option<usize> = None;
                let mut j: usize = 0;
                while j < apps.len()
                    invariant
                        0 <= j <= apps@.len(),
                        found matches Some(f) ==> f < apps@.len() && apps@[f as int].0@ == name@,
                        found is None ==> forall|m: int| 0 <= m < j ==> #[trigger] apps@[m].0@ != name@,
                    decreases apps@.len() - j,
                {
                    if found.is_none() && apps[j].0 == name {
                        found = Some(j);
                    }
                    j = j + 1;
                }
                let ghost before = apps@;
                match found {
                    Some(f) => {
                        proof {
                            lemma_entries_map_update(before, f as int, (name, identifier));
                        }
                        apps.set(f, (name, identifier));
                        proof {
                            assert forall|x: int, y: int|
                                0 <= x < apps@.len() && 0 <= y < apps@.len() && x != y implies #[trigger] apps@[x].0@
                                    != #[trigger] apps@[y].0@ by {
                                assert(before[x].0@ != before[y].0@);
                            }
                        }
                    },
                    None => {
                        proof {
                            assert(apps@.push((name, identifier)).drop_last() =~= apps@);
                        }
                        apps.push((name, identifier));
                    },
                }
            }
            k = k + 1;
        }
        proof {
            assert(ls.take(lines@.len() as int) =~= ls);
        }
        Some(apps)
    }
}

/// macOS and Linux run the tools in the same way: the same program with the
/// same arguments.
pub proof fn law_unix_platforms_agree(tool: Seq<char>, args: Seq<Seq<char>>)
    ensures
        tool_program(Platform::MacOs, tool) == tool_program(Platform::Linux, tool),
        tool_args(Platform::MacOs, tool, args) == tool_args(Platform::Linux, tool, args),
        tool_program(Platform::Linux, tool) == tool,
        tool_args(Platform::Linux, tool, args) == args,
{
}

/// On Windows every tool runs through PowerShell with the tool's executable
/// as the first argument, followed by the arguments themselves.
pub proof fn law_windows_runs_through_powershell(tool: Seq<char>, args: Seq<Seq<char>>)
    ensures
        tool_program(Platform::Windows, tool) == "powershell"@,
        tool_args(Platform::Windows, tool, args).len() == args.len() + 1,
        tool_args(Platform::Windows, tool, args)[0] == "libimobiledevice/"@ + tool + ".exe"@,
        tool_args(Platform::Windows, tool, args).drop_first() == args,
{
    assert(tool_args(Platform::Windows, tool, args).drop_first() =~= args);
}

/// The value a report gives for a key is the whole text after the key and its
/// colon, trimmed, inner spaces kept, taken from the last line with that key,
/// whatever lines come before it.
pub proof fn law_report_value_is_whole_field(lines: Seq<Seq<char>>, key: Seq<char>, value: Seq<char>)
    requires
        !key.contains(':'),
        !value.contains(':'),
    ensures
        field_value(lines.push(key.push(':') + value), key) == trim(value),
{
    let line = key.push(':') + value;
    lemma_split_on_fields(key, value, Seq::<char>::empty(), ':');
    assert(lines.push(line).last() == line);
    assert(lines.push(line).drop_last() =~= lines);
}

/// A line that does not carry the key leaves the value read for it as the
/// earlier lines give it.
pub proof fn law_report_other_lines_ignored(lines: Seq<Seq<char>>, key: Seq<char>, line: Seq<char>)
    requires
        !line.contains(':'),
        line != key,
    ensures
        field_value(lines.push(line), key) == field_value(lines, key),
{
    lemma_split_on_single(line, ':');
    assert(lines.push(line).last() == line);
    assert(lines.push(line).drop_last() =~= lines);
}

/// A listing line `identifier, version, name` after the header records the
/// whole name (its third field, trimmed, inner spaces kept) with the
/// identifier (its first field, trimmed), replacing what the earlier lines
/// recorded for that name and keeping everything else.
pub proof fn law_listed_app_is_whole_third_field(
    lines: Seq<Seq<char>>,
    identifier: Seq<char>,
    version: Seq<char>,
    name: Seq<char>,
)
    requires
        lines.len() >= 1,
        !identifier.contains(','),
        !version.contains(','),
        !name.contains(','),
    ensures
        listed_apps(lines.push((identifier.push(',') + version).push(',') + name)) == listed_apps(
            lines,
        ).insert(trim(name), trim(identifier)),
{
    let line = (identifier.push(',') + version).push(',') + name;
    lemma_split_on_fields(identifier, version, name, ',');
    assert(line.len() > 0) by {
        assert(line.len() >= identifier.len() + 1);
    }
    assert(lines.push(line).last() == line);
    assert(lines.push(line).drop_last() =~= lines);
}

} // verus!
