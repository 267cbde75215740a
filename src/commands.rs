//! The requests a user can make from the command line, and the decisions
//! each one takes over a loaded configuration. Parsing the command line,
//! the file-picker dialog and launching apps are left to the caller.
use vstd::prelude::*;
use std::path::PathBuf;
use crate::model::{AppView, Config, Space, SpaceView, has_space};

verus! {

/// Create a new space.
pub struct InitArgs {
    /// Name for the new space.
    pub space: String,
}

/// Add an app to a space.
pub struct AddArgs {
    /// Space to add the app to.
    pub space: String,
    /// Label to recognize the app by.
    pub label: String,
    /// Path to the app; when absent, the user picks a file.
    pub path: Option<String>,
}

/// List spaces and their apps.
pub struct ListArgs {
    /// When present, only this space is listed.
    pub space: Option<String>,
}

/// Launch every app of a space.
pub struct OpenArgs {
    /// The space whose apps are launched.
    pub space: String,
}

/// Show or open the configuration file.
pub struct ConfigArgs {
    /// When present, only this space is shown; `open` opens the file.
    pub space: Option<String>,
}

/// One request from the command line.
pub enum Commands {
    Init(InitArgs),
    Open(OpenArgs),
    Add(AddArgs),
    List(ListArgs),
    Config(ConfigArgs),
}

/// Why a space's apps cannot be launched.
#[derive(Debug, Clone, Copy, PartialEq, Eq, Structural)]
pub enum LaunchError {
    /// No space has exactly this name.
    SpaceNotFound,
    /// The space holds no apps.
    NoApps,
}

/// Quoted labels of `apps`, each followed by a space: `'A' 'B' `.
pub open spec fn labels_line(apps: Seq<AppView>) -> Seq<char>
    decreases apps.len(),
{
    if apps.len() == 0 {
        Seq::empty()
    } else {
        labels_line(apps.drop_last()) + "'"@ + apps.last().label + "' "@
    }
}

/// The line that lists a space: `Work: 'Editor' 'Shell' `, or
/// `Work (No apps added)` for a space without apps.
pub open spec fn space_line(s: SpaceView) -> Seq<char> {
    if s.apps.len() == 0 {
        s.name + " (No apps added)"@
    } else {
        s.name + ": "@ + labels_line(s.apps)
    }
}

impl Space {
    /// The line that lists this space and the labels of its apps, in order.
    pub fn summary(&self) -> (r: String)
        ensures
            r@ == space_line(self@),
    {
        let mut out = self.name.clone();
        if self.apps.len() == 0 {
            out.append(" (No apps added)");
            return out;
        }
        out.append(": ");
        let ghost apps = self@.apps;
        let mut i: usize = 0;
        while i < self.apps.len()
            invariant
                i <= self.apps.len(),
                apps == self@.apps,
                out@ == self.name@ + ": "@ + labels_line(apps.take(i as int)),
            decreases self.apps.len() - i,
        {
            assert(apps.take(i + 1).drop_last() =~= apps.take(i as int));
            out.append("'");
            out.append(self.apps[i].label.as_str());
            out.append("' ");
            i = i + 1;
        }
        assert(apps.take(i as int) =~= apps);
        out
    }
}

impl Config {
    /// The space whose apps `open` launches, in order: `SpaceNotFound` when no
    /// space is named exactly `name`, `NoApps` when it holds none.
    pub fn launch_plan(&self, name: &String) -> (r: Result<&Space, LaunchError>)
        ensures
            !has_space(self@, name@) ==> r == Err::<&Space, LaunchError>(LaunchError::SpaceNotFound),
            has_space(self@, name@) ==> match r {
                Ok(s) => s@.name == name@ && self@.contains(s@) && s@.apps.len() > 0,
                Err(e) => e == LaunchError::NoApps && exists|i: int|
                    0 <= i < self@.len() && #[trigger] self@[i].name == name@
                        && self@[i].apps.len() == 0,
            },
    {
        match self.find_space(name) {
            None => Err(LaunchError::SpaceNotFound),
            Some(s) => {
                if s.apps.len() == 0 {
                    Err(LaunchError::NoApps)
                } else {
                    Ok(s)
                }
            },
        }
    }
}

/// The next step while launching a space's apps in order.
#[derive(Debug, Clone, Copy, PartialEq, Eq, Structural)]
pub enum LaunchStep {
    /// Open the app at this index.
    Open(usize),
    /// Every app was opened.
    Finished,
    /// The last open failed: stop, leaving the remaining apps unopened.
    Abort,
}

/// Decides the next step of a launch over `count` apps, of which the first
/// `opened` were opened; `failed` tells whether the last attempt failed.
/// A failure aborts the whole batch.
pub fn next_launch(count: usize, opened: usize, failed: bool) -> (r: LaunchStep)
    ensures
        failed ==> r == LaunchStep::Abort,
        !failed && opened < count ==> r == LaunchStep::Open(opened),
        !failed && opened >= count ==> r == LaunchStep::Finished,
{
    if failed {
        LaunchStep::Abort
    } else if opened < count {
        LaunchStep::Open(opened)
    } else {
        LaunchStep::Finished
    }
}

/// What the `config` command asks for.
#[derive(Debug, PartialEq, Eq)]
pub enum ConfigRequest {
    /// Show the whole configuration.
    Whole,
    /// Open the configuration file with the platform's default handler.
    OpenFile,
    /// Show one space.
    OneSpace(String),
}

/// Reads the `config` command's argument: none shows everything, the word
/// `open` opens the file, any other word names a space to show.
pub fn config_request(space: Option<String>) -> (r: ConfigRequest)
    ensures
        match space {
            None => r == ConfigRequest::Whole,
            Some(s) => if s@ == "open"@ {
                r == ConfigRequest::OpenFile
            } else {
                r is OneSpace && r->OneSpace_0@ == s@
            },
        },
{
    match space {
        None => ConfigRequest::Whole,
        Some(s) => {
            if s == String::from_str("open") {
                ConfigRequest::OpenFile
            } else {
                ConfigRequest::OneSpace(s)
            }
        },
    }
}

/// Where the file picker starts, by platform.
#[derive(Debug, Clone, Copy, PartialEq, Eq, Structural)]
pub enum PickerStart {
    /// The root of the system drive (`C:\`).
    DriveRoot,
    /// The applications folder (`/Applications`).
    Applications,
    /// The user's executables directory.
    ExecutableDir,
    /// The user's home directory.
    HomeDir,
}

/// The picker's starting point for the operating system named `os`
/// (`windows`, `macos`, `linux`, or another).
pub fn picker_start(os: &String) -> (r: PickerStart)
    ensures
        os@ == "windows"@ ==> r == PickerStart::DriveRoot,
        os@ == "macos"@ ==> r == PickerStart::Applications,
        os@ == "linux"@ ==> r == PickerStart::ExecutableDir,
        os@ != "windows"@ && os@ != "macos"@ && os@ != "linux"@ ==> r == PickerStart::HomeDir,
{
    proof {
        reveal_strlit("windows");
        reveal_strlit("macos");
        reveal_strlit("linux");
        assert("windows"@.len() != "macos"@.len() && "windows"@.len() != "linux"@.len());
        assert("macos"@[0] != "linux"@[0]);
    }
    if *os == String::from_str("windows") {
        PickerStart::DriveRoot
    } else if *os == String::from_str("macos") {
        PickerStart::Applications
    } else if *os == String::from_str("linux") {
        PickerStart::ExecutableDir
    } else {
        PickerStart::HomeDir
    }
}

/// The path spelled by `s`, as `PathBuf::from` builds it.
pub uninterp spec fn path_from(s: Seq<char>) -> PathBuf;

/// Relies on `From<&str> for PathBuf`: the path spelled by `s`; the result
/// depends on `s` alone.
#[verifier::external_body]
fn path_of(s: &str) -> (r: PathBuf)
    ensures
        r == path_from(s@),
{
    PathBuf::from(s)
}

/// Relies on `dirs::executable_dir`: the user's executables directory, where
/// the platform has one. It reads the environment; nothing is promised.
#[verifier::external_body]
fn user_executable_dir() -> Option<PathBuf> {
    dirs::executable_dir()
}

/// Relies on `dirs::home_dir`: the user's home directory, where one is
/// known. It reads the environment; nothing is promised.
#[verifier::external_body]
fn user_home_dir() -> Option<PathBuf> {
    dirs::home_dir()
}

/// The directory the picker opens in: `C:\` or `/Applications` for the two
/// fixed starting points; the user's directories, which may be unknown
/// (`None`), for the others.
pub fn picker_dir(start: PickerStart) -> (r: Option<PathBuf>)
    ensures
        start == PickerStart::DriveRoot ==> r == Some(path_from("C:\\"@)),
        start == PickerStart::Applications ==> r == Some(path_from("/Applications"@)),
{
    match start {
        PickerStart::DriveRoot => Some(path_of("C:\\")),
        PickerStart::Applications => Some(path_of("/Applications")),
        PickerStart::ExecutableDir => user_executable_dir(),
        PickerStart::HomeDir => user_home_dir(),
    }
}

} // verus!
