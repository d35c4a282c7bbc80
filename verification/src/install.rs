use vstd::prelude::*;
use vstd::string::*;

use crate::text::{opt_text, str_equals, strings, trim, trimmed};

verus! {

broadcast use vstd::string::group_string_axioms;

/// The package manager of a Linux distribution, given the distribution's
/// name in lower case with whitespace around it allowed.
pub open spec fn manager_for(distro: Seq<char>) -> Option<Seq<char>> {
    let d = trim(distro);
    if d == "debian"@ || d == "ubuntu"@ {
        Some("apt"@)
    } else if d == "centos"@ || d == "fedora"@ {
        Some("yum"@)
    } else if d == "arch"@ {
        Some("pacman"@)
    } else {
        None
    }
}

/// The packages that building libimobiledevice needs on Linux, in the order
/// in which they are installed.
pub open spec fn linux_dependency_names() -> Seq<Seq<char>> {
    seq![
        "git"@,
        "build-essential"@,
        "glibtool"@,
        "make"@,
        "cpp"@,
        "gcc-8"@,
        "clang"@,
        "checkinstall"@,
        "autoconf"@,
        "automake"@,
        "libtool"@,
        "m4"@,
        "python-dev"@,
        "pkg-config"@,
        "libavahi-client-dev"@,
        "cython"@,
        "autoheader"@,
        "libusb-1.0-0-dev"@,
        "libssl-dev"@,
        "libc6-udeb"@,
        "libc6-dev"@,
        "libtool-bin"@,
        "libplist++-dev"@,
        "libplist++"@,
        "openssl"@,
    ]
}

/// The packages that Homebrew installs on macOS before the build.
pub open spec fn macos_dependency_names() -> Seq<Seq<char>> {
    seq!["openssl"@, "pkg-config"@]
}

/// The address of the prebuilt libimobiledevice for Windows.
pub open spec fn windows_archive_url() -> Seq<char> {
    "https://github.com/libimobiledevice-win32/imobiledevice-net/releases/download/v1.3.17/libimobiledevice.1.2.1-r1122-win-x64.zip"@
}

/// The PowerShell arguments of the Windows setup, in order: go home, fetch
/// the prebuilt archive, unpack it, and enter its directory. Every run takes
/// place in the home directory, so that is where libimobiledevice ends up.
pub open spec fn windows_setup_args() -> Seq<Seq<Seq<char>>> {
    seq![
        seq!["cd"@, "~"@],
        seq!["curl"@, windows_archive_url(), "-o"@, "libimobiledevice.zip"@],
        seq!["unzip"@, "libimobiledevice.zip"@],
        seq!["cd"@, "libimobiledevice"@],
    ]
}

/// The package manager of the Linux distribution `os`, or `None` for one
/// that is not supported.
fn manager_of(os: &str) -> (r: Option<String>)
    ensures
        opt_text(r) == manager_for(os@),
{
    let d = trimmed(os);
    let d = d.as_str();
    if str_equals(d, "debian") || str_equals(d, "ubuntu") {
        Some(String::from_str("apt"))
    } else if str_equals(d, "centos") || str_equals(d, "fedora") {
        Some(String::from_str("yum"))
    } else if str_equals(d, "arch") {
        Some(String::from_str("pacman"))
    } else {
        None
    }
}

/// Whether the Linux distribution `os` (lower case, whitespace around it
/// allowed) has a known package manager.
pub fn is_supported_distribution(os: &str) -> (r: bool)
    ensures
        r == manager_for(os@) is Some,
{
    manager_of(os).is_some()
}

/// The package manager of the supported Linux distribution `os`.
pub fn get_package_manager(os: &str) -> (r: String)
    requires
        manager_for(os@) is Some,
    ensures
        Some(r@) == manager_for(os@),
{
    match manager_of(os) {
        Some(m) => m,
        None => String::new(),
    }
}

/// The packages to install on Linux before building libimobiledevice.
pub fn linux_dependencies() -> (r: Vec<String>)
    ensures
        r@.map_values(|s: String| s@) == linux_dependency_names(),
{
    let r = strings(
        vec![
            "git",
            "build-essential",
            "glibtool",
            "make",
            "cpp",
            "gcc-8",
            "clang",
            "checkinstall",
            "autoconf",
            "automake",
            "libtool",
            "m4",
            "python-dev",
            "pkg-config",
            "libavahi-client-dev",
            "cython",
            "autoheader",
            "libusb-1.0-0-dev",
            "libssl-dev",
            "libc6-udeb",
            "libc6-dev",
            "libtool-bin",
            "libplist++-dev",
            "libplist++",
            "openssl",
        ],
    );
    proof {
        assert(r@.map_values(|s: String| s@) =~= linux_dependency_names());
    }
    r
}

/// The packages to install with Homebrew on macOS before the build.
pub fn macos_dependencies() -> (r: Vec<String>)
    ensures
        r@.map_values(|s: String| s@) == macos_dependency_names(),
{
    let r = strings(vec!["openssl", "pkg-config"]);
    proof {
        assert(r@.map_values(|s: String| s@) =~= macos_dependency_names());
    }
    r
}

/// A PowerShell run: the directory it runs in and its arguments.
pub struct SetupRun {
    pub dir: String,
    pub args: Vec<String>,
}

/// The PowerShell runs that set libimobiledevice up on Windows in the home
/// directory `home`.
pub fn windows_setup(home: &str) -> (r: Vec<SetupRun>)
    ensures
        r@.len() == 4,
        forall|k: int| 0 <= k < r@.len() ==> #[trigger] r@[k].dir@ == home@,
        r@.map_values(|run: SetupRun| run.args@.map_values(|s: String| s@)) == windows_setup_args(),
{
    let go_home = strings(vec!["cd", "~"]);
    let fetch = strings(
        vec![
            "curl",
            "https://github.com/libimobiledevice-win32/imobiledevice-net/releases/download/v1.3.17/libimobiledevice.1.2.1-r1122-win-x64.zip",
            "-o",
            "libimobiledevice.zip",
        ],
    );
    let unpack = strings(vec!["unzip", "libimobiledevice.zip"]);
    let enter = strings(vec!["cd", "libimobiledevice"]);
    proof {
        assert(go_home@.map_values(|s: String| s@) =~= windows_setup_args()[0]);
        assert(fetch@.map_values(|s: String| s@) =~= windows_setup_args()[1]);
        assert(unpack@.map_values(|s: String| s@) =~= windows_setup_args()[2]);
        assert(enter@.map_values(|s: String| s@) =~= windows_setup_args()[3]);
    }
    let r = vec![
        SetupRun { dir: String::from_str(home), args: go_home },
        SetupRun { dir: String::from_str(home), args: fetch },
        SetupRun { dir: String::from_str(home), args: unpack },
        SetupRun { dir: String::from_str(home), args: enter },
    ];
    proof {
        assert(r@.map_values(|run: SetupRun| run.args@.map_values(|s: String| s@))
            =~= windows_setup_args());
    }
    r
}

/// The shell text that installs `package` with Homebrew.
pub fn brew_command(package: &str) -> (r: String)
    ensures
        r@ == "\"$(brew install "@ + package@ + ")\""@,
{
    let mut r = String::from_str("\"$(brew install ");
    r.append(package);
    r.append(")\"");
    r
}

/// The shell text that installs `package` with the package manager
/// `pkg_manager`.
pub fn linux_command(pkg_manager: &str, package: &str) -> (r: String)
    ensures
        r@ == "\"$(sudo "@ + pkg_manager@ + " install "@ + package@ + ")\""@,
{
    let mut r = String::from_str("\"$(sudo ");
    r.append(pkg_manager);
    r.append(" install ");
    r.append(package);
    r.append(")\"");
    r
}

/// A step of the build of libimobiledevice on Linux and macOS.
pub enum BuildStep {
    /// Run `command` with `/bin/bash -c`; `failure` is the message to stop
    /// with when it cannot be run.
    Shell { command: String, failure: String },
    /// Make this directory the working directory.
    ChangeDir(String),
}

/// The mathematical form of a `BuildStep`.
pub enum BuildStepView {
    Shell { command: Seq<char>, failure: Seq<char> },
    ChangeDir(Seq<char>),
}

impl View for BuildStep {
    type V = BuildStepView;

    open spec fn view(&self) -> BuildStepView {
        match self {
            BuildStep::Shell { command, failure } => BuildStepView::Shell {
                command: command@,
                failure: failure@,
            },
            BuildStep::ChangeDir(d) => BuildStepView::ChangeDir(d@),
        }
    }
}

/// A shell step.
pub open spec fn shell(command: Seq<char>, failure: Seq<char>) -> BuildStepView {
    BuildStepView::Shell { command, failure }
}

/// A change into `home` followed by `path`.
pub open spec fn cd(home: Seq<char>, path: Seq<char>) -> BuildStepView {
    BuildStepView::ChangeDir(home + path)
}

/// The build of libimobiledevice for the home directory `home`: create
/// `$HOME/libimobiledevice` and enter it; then for libplist, libusbmuxd and
/// libimobiledevice in turn clone the repository, enter it, run
/// `./autogen.sh`, `make` and `sudo make install`, and go back.
pub open spec fn unix_build_plan(home: Seq<char>) -> Seq<BuildStepView> {
    seq![
        shell("\"$(mkdir -p $HOME/libimobiledevice)\""@, "Failed to create libimobiledevice folder, aborting"@),
        cd(home, "/libimobiledevice"@),
        shell("\"$(git clone https://github.com/libimobiledevice/libplist.git)\""@, "Failed to clone libplist, aborting"@),
        cd(home, "/libimobiledevice/libplist"@),
        shell("\"$(./autogen.sh)\""@, "Failed to run autogen, aborting"@),
        shell("\"$(make)\""@, "Failed to make libplist, aborting"@),
        shell("\"$(sudo make install)\""@, "Failed to install libplist, aborting"@),
        cd(home, "/libimobiledevice"@),
        shell("\"$(git clone https://github.com/libimobiledevice/libusbmuxd.git)\""@, "Failed to clone libusbmuxd, aborting"@),
        cd(home, "/libimobiledevice/libusbmuxd"@),
        shell("\"$(./autogen.sh)\""@, "Failed to run autogen, aborting"@),
        shell("\"$(make)\""@, "Failed to make libusbmuxd, aborting"@),
        shell("\"$(sudo make install)\""@, "Failed to install libusbmuxd, aborting"@),
        cd(home, "/libimobiledevice"@),
        shell("\"$(git clone https://github.com/libimobiledevice/libimobiledevice.git)\""@, "Failed to clone libimobiledevice, aborting"@),
        cd(home, "/libimobiledevice/libimobiledevice"@),
        shell("\"$(./autogen.sh)\""@, "Failed to run autogen.sh, aborting"@),
        shell("\"$(make)\""@, "Failed to build libimobiledevice, aborting"@),
        shell("\"$(sudo make install)\""@, "Failed to install libimobiledevice, aborting"@),
        cd(home, "/libimobiledevice"@),
    ]
}

/// A shell step.
fn shell_step(command: &str, failure: &str) -> (r: BuildStep)
    ensures
        r@ == shell(command@, failure@),
{
    BuildStep::Shell { command: String::from_str(command), failure: String::from_str(failure) }
}

/// A change into `home` followed by `path`.
fn cd_step(home: &str, path: &str) -> (r: BuildStep)
    ensures
        r@ == cd(home@, path@),
{
    let mut d = String::from_str(home);
    d.append(path);
    BuildStep::ChangeDir(d)
}

/// The steps that build and install libimobiledevice on Linux and macOS,
/// for the home directory `home`.
pub fn unix_build_steps(home: &str) -> (r: Vec<BuildStep>)
    ensures
        r@.map_values(|s: BuildStep| s@) == unix_build_plan(home@),
{
    let r = vec![
        shell_step("\"$(mkdir -p $HOME/libimobiledevice)\"", "Failed to create libimobiledevice folder, aborting"),
        cd_step(home, "/libimobiledevice"),
        shell_step("\"$(git clone https://github.com/libimobiledevice/libplist.git)\"", "Failed to clone libplist, aborting"),
        cd_step(home, "/libimobiledevice/libplist"),
        shell_step("\"$(./autogen.sh)\"", "Failed to run autogen, aborting"),
        shell_step("\"$(make)\"", "Failed to make libplist, aborting"),
        shell_step("\"$(sudo make install)\"", "Failed to install libplist, aborting"),
        cd_step(home, "/libimobiledevice"),
        shell_step("\"$(git clone https://github.com/libimobiledevice/libusbmuxd.git)\"", "Failed to clone libusbmuxd, aborting"),
        cd_step(home, "/libimobiledevice/libusbmuxd"),
        shell_step("\"$(./autogen.sh)\"", "Failed to run autogen, aborting"),
        shell_step("\"$(make)\"", "Failed to make libusbmuxd, aborting"),
        shell_step("\"$(sudo make install)\"", "Failed to install libusbmuxd, aborting"),
        cd_step(home, "/libimobiledevice"),
        shell_step("\"$(git clone https://github.com/libimobiledevice/libimobiledevice.git)\"", "Failed to clone libimobiledevice, aborting"),
        cd_step(home, "/libimobiledevice/libimobiledevice"),
        shell_step("\"$(./autogen.sh)\"", "Failed to run autogen.sh, aborting"),
        shell_step("\"$(make)\"", "Failed to build libimobiledevice, aborting"),
        shell_step("\"$(sudo make install)\"", "Failed to install libimobiledevice, aborting"),
        cd_step(home, "/libimobiledevice"),
    ];
    proof {
        assert(r@.map_values(|s: BuildStep| s@) =~= unix_build_plan(home@));
    }
    r
}

/// Whether `step` runs the shell command `command`.
pub open spec fn runs(step: BuildStepView, command: Seq<char>) -> bool {
    step matches BuildStepView::Shell { command: c, .. } && c == command
}

/// The repository `repo` is built properly in `plan`: somewhere it is cloned,
/// then entered under `home/libimobiledevice`, then configured with
/// `./autogen.sh`, then built with `make`, then installed with
/// `sudo make install`, and then left for `home/libimobiledevice` again.
pub open spec fn builds_repository(plan: Seq<BuildStepView>, home: Seq<char>, repo: Seq<char>) -> bool {
    exists|i: int|
        1 <= i && i + 4 < plan.len() && #[trigger] plan[i] == BuildStepView::ChangeDir(
            home + "/libimobiledevice/"@ + repo,
        ) && runs(
            plan[i - 1],
            "\"$(git clone https://github.com/libimobiledevice/"@ + repo + ".git)\""@,
        ) && runs(plan[i + 1], "\"$(./autogen.sh)\""@) && runs(plan[i + 2], "\"$(make)\""@) && runs(
            plan[i + 3],
            "\"$(sudo make install)\""@,
        ) && plan[i + 4] == BuildStepView::ChangeDir(home + "/libimobiledevice"@)
}

/// The build creates `$HOME/libimobiledevice` and enters it before anything
/// else, builds libplist, libusbmuxd and libimobiledevice each by clone,
/// autogen, make and install in that order, in that order of repositories,
/// and ends in `home/libimobiledevice`.
pub proof fn law_build_configures_before_making(home: Seq<char>)
    ensures
        runs(unix_build_plan(home)[0], "\"$(mkdir -p $HOME/libimobiledevice)\""@),
        unix_build_plan(home)[1] == BuildStepView::ChangeDir(home + "/libimobiledevice"@),
        builds_repository(unix_build_plan(home), home, "libplist"@),
        builds_repository(unix_build_plan(home), home, "libusbmuxd"@),
        builds_repository(unix_build_plan(home), home, "libimobiledevice"@),
        unix_build_plan(home).last() == BuildStepView::ChangeDir(home + "/libimobiledevice"@),
{
    let plan = unix_build_plan(home);
    reveal_strlit("/libimobiledevice/");
    reveal_strlit("/libimobiledevice/libplist");
    reveal_strlit("/libimobiledevice/libusbmuxd");
    reveal_strlit("/libimobiledevice/libimobiledevice");
    reveal_strlit("libplist");
    reveal_strlit("libusbmuxd");
    reveal_strlit("libimobiledevice");
    reveal_strlit("\"$(git clone https://github.com/libimobiledevice/");
    reveal_strlit(".git)\"");
    reveal_strlit("\"$(git clone https://github.com/libimobiledevice/libplist.git)\"");
    reveal_strlit("\"$(git clone https://github.com/libimobiledevice/libusbmuxd.git)\"");
    reveal_strlit("\"$(git clone https://github.com/libimobiledevice/libimobiledevice.git)\"");
    assert(home + "/libimobiledevice/"@ + "libplist"@ =~= home + "/libimobiledevice/libplist"@);
    assert(home + "/libimobiledevice/"@ + "libusbmuxd"@ =~= home + "/libimobiledevice/libusbmuxd"@);
    assert(home + "/libimobiledevice/"@ + "libimobiledevice"@ =~= home
        + "/libimobiledevice/libimobiledevice"@);
    assert("\"$(git clone https://github.com/libimobiledevice/"@ + "libplist"@ + ".git)\""@
        =~= "\"$(git clone https://github.com/libimobiledevice/libplist.git)\""@);
    assert("\"$(git clone https://github.com/libimobiledevice/"@ + "libusbmuxd"@ + ".git)\""@
        =~= "\"$(git clone https://github.com/libimobiledevice/libusbmuxd.git)\""@);
    assert("\"$(git clone https://github.com/libimobiledevice/"@ + "libimobiledevice"@ + ".git)\""@
        =~= "\"$(git clone https://github.com/libimobiledevice/libimobiledevice.git)\""@);
    assert(plan[3] == BuildStepView::ChangeDir(home + "/libimobiledevice/"@ + "libplist"@));
    assert(plan[9] == BuildStepView::ChangeDir(home + "/libimobiledevice/"@ + "libusbmuxd"@));
    assert(plan[15] == BuildStepView::ChangeDir(home + "/libimobiledevice/"@ + "libimobiledevice"@));
}

} // verus!
