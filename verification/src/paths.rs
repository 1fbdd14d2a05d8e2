//! Where the editor's files live on each operating system.
//!
//! A path is a text. Nothing here touches the disk: what exists on it is
//! handed in, and what has to be done to it is handed back.

use vstd::prelude::*;
use vstd::string::StringExecFns;
use crate::pathtext::child;
use crate::pathtext::first_existing;
use crate::pathtext::first_match;
use crate::pathtext::join_path;
use crate::pathtext::lemma_first_match_is_candidate;
use crate::pathtext::lemma_parent_of_child;
use crate::pathtext::parent_directory;
use crate::pathtext::parent_spec;
use crate::system::HostOs;
use crate::text::views;

verus! {

/// The environment variables that the locations depend on.
#[derive(Clone, Copy, Debug, PartialEq, Eq, Structural)]
pub enum EnvVar {
    /// `APPDATA`: the roaming application data of Windows.
    AppData,
    /// `LOCALAPPDATA`: the local application data of Windows.
    LocalAppData,
    /// `HOME`: the user's home directory on macOS and Linux.
    Home,
}

/// Why a location cannot be given, or cannot be used.
#[derive(Clone, Copy, Debug, PartialEq, Eq, Structural)]
pub enum PathError {
    /// A variable that the locations are built from is not set.
    MissingEnvironmentVariable(EnvVar),
    /// The operating system is none of the supported families.
    UnsupportedSystem,
    /// The editor's executable is not on the disk.
    ExecutableMissing,
    /// The updater's location is not on the disk.
    UpdaterMissing,
    /// The updater's location is neither a file nor a directory.
    UpdaterUnusable,
}

/// The values of the environment variables, read once by the caller.
#[derive(Clone, Debug, PartialEq, Eq)]
pub struct Environment {
    pub app_data: Option<String>,
    pub local_app_data: Option<String>,
    pub home: Option<String>,
}

/// The six locations as texts.
pub struct Locations {
    pub storage: Seq<char>,
    pub auth: Seq<char>,
    pub db: Seq<char>,
    pub cursor_exe: Seq<char>,
    pub cursor_updater: Seq<char>,
    pub main_js: Seq<char>,
}

/// The locations that the client reads and writes: the configuration store,
/// the authentication file, the local database, the editor's executable, its
/// updater and its main script.
#[derive(Clone, Debug, PartialEq, Eq)]
pub struct AppPaths {
    pub storage: String,
    pub auth: String,
    pub db: String,
    pub cursor_exe: String,
    pub cursor_updater: String,
    pub main_js: String,
}

impl View for AppPaths {
    type V = Locations;

    open spec fn view(&self) -> Locations {
        Locations {
            storage: self.storage@,
            auth: self.auth@,
            db: self.db@,
            cursor_exe: self.cursor_exe@,
            cursor_updater: self.cursor_updater@,
            main_js: self.main_js@,
        }
    }
}

/// The variable that holds the directory of the configuration.
pub open spec fn config_variable(os: HostOs) -> EnvVar {
    if os == HostOs::Windows {
        EnvVar::AppData
    } else {
        EnvVar::Home
    }
}

/// The variable that holds the directory under which the editor and its
/// updater are installed.
pub open spec fn install_variable(os: HostOs) -> EnvVar {
    if os == HostOs::Windows {
        EnvVar::LocalAppData
    } else {
        EnvVar::Home
    }
}

/// The editor's configuration directory, under the value of its variable.
pub open spec fn config_root(os: HostOs, value: Seq<char>) -> Seq<char> {
    match os {
        HostOs::Windows => join_path(os, value, "Cursor"@),
        HostOs::MacOs => join_path(
            os,
            join_path(os, join_path(os, value, "Library"@), "Application Support"@),
            "Cursor"@,
        ),
        HostOs::Linux => join_path(os, join_path(os, value, ".config"@), "Cursor"@),
    }
}

/// The directory of the three configuration files.
pub open spec fn global_storage(os: HostOs, value: Seq<char>) -> Seq<char> {
    join_path(os, join_path(os, config_root(os, value), "User"@), "globalStorage"@)
}

/// The directory in which Windows installs the editor.
pub open spec fn windows_install(value: Seq<char>) -> Seq<char> {
    join_path(HostOs::Windows, join_path(HostOs::Windows, value, "Programs"@), "cursor"@)
}

/// The contents directory of the editor's bundle on macOS.
pub open spec fn mac_bundle() -> Seq<char> {
    join_path(
        HostOs::MacOs,
        join_path(HostOs::MacOs, "/Applications"@, "Cursor.app"@),
        "Contents"@,
    )
}

/// The main script below the directory of the editor's resources.
pub open spec fn script_under(os: HostOs, resources: Seq<char>) -> Seq<char> {
    join_path(os, join_path(os, join_path(os, resources, "app"@), "out"@), "main.js"@)
}

/// The places where the editor's executable is looked for, in order. The
/// first one is the default.
pub open spec fn executable_locations(os: HostOs, install: Seq<char>) -> Seq<Seq<char>> {
    match os {
        HostOs::Windows => seq![join_path(os, windows_install(install), "Cursor.exe"@)],
        HostOs::MacOs => seq![join_path(os, join_path(os, mac_bundle(), "MacOS"@), "Cursor"@)],
        HostOs::Linux => seq![
            "/usr/bin/cursor"@,
            "/usr/local/bin/cursor"@,
            "/opt/cursor/cursor"@,
            "/snap/bin/cursor"@,
        ],
    }
}

/// The places where the editor's main script is looked for, in order. The
/// first one is the default.
pub open spec fn bundle_locations(os: HostOs, install: Seq<char>) -> Seq<Seq<char>> {
    match os {
        HostOs::Windows => seq![
            script_under(os, join_path(os, windows_install(install), "resources"@)),
        ],
        HostOs::MacOs => seq![script_under(os, join_path(os, mac_bundle(), "Resources"@))],
        HostOs::Linux => seq![
            "/usr/lib/cursor/resources/app/out/main.js"@,
            "/usr/share/cursor/resources/app/out/main.js"@,
            "/opt/cursor/resources/app/out/main.js"@,
            "/snap/cursor/current/resources/app/out/main.js"@,
        ],
    }
}

/// The location of the editor's updater. It is not looked for on the disk.
pub open spec fn updater_location(os: HostOs, install: Seq<char>) -> Seq<char> {
    match os {
        HostOs::Windows => join_path(os, install, "cursor-updater"@),
        HostOs::MacOs => join_path(
            os,
            join_path(os, join_path(os, install, "Library"@), "Application Support"@),
            "cursor-updater"@,
        ),
        HostOs::Linux => join_path(os, join_path(os, install, ".config"@), "cursor-updater"@),
    }
}

impl EnvVar {
    /// The name under which the environment holds this variable.
    pub open spec fn name_text(self) -> Seq<char> {
        match self {
            EnvVar::AppData => "APPDATA"@,
            EnvVar::LocalAppData => "LOCALAPPDATA"@,
            EnvVar::Home => "HOME"@,
        }
    }

    /// The name under which the environment holds this variable.
    pub fn name(self) -> (text: &'static str)
        ensures
            text@ == self.name_text(),
    {
        match self {
            EnvVar::AppData => "APPDATA",
            EnvVar::LocalAppData => "LOCALAPPDATA",
            EnvVar::Home => "HOME",
        }
    }
}

impl PathError {
    /// The text that is shown for this error. For a variable that is not
    /// set and for an unsupported system it is the beginning of the text:
    /// the caller adds what it knows of the cause.
    pub open spec fn text(self) -> Seq<char> {
        match self {
            PathError::MissingEnvironmentVariable(variable) => "获取 "@ + variable.name_text()
                + " 路径失败"@,
            PathError::UnsupportedSystem => "不支持的操作系统"@,
            PathError::ExecutableMissing => "Cursor 可执行文件不存在"@,
            PathError::UpdaterMissing => "cursor-updater 路径不存在"@,
            PathError::UpdaterUnusable => "cursor-updater 路径既不是文件也不是目录"@,
        }
    }

    /// The text that is shown for this error.
    pub fn message(self) -> (text: String)
        ensures
            text@ == self.text(),
    {
        match self {
            PathError::MissingEnvironmentVariable(variable) => {
                let mut text = String::from_str("获取 ");
                text.append(variable.name());
                text.append(" 路径失败");
                text
            },
            PathError::UnsupportedSystem => String::from_str("不支持的操作系统"),
            PathError::ExecutableMissing => String::from_str("Cursor 可执行文件不存在"),
            PathError::UpdaterMissing => String::from_str("cursor-updater 路径不存在"),
            PathError::UpdaterUnusable => String::from_str(
                "cursor-updater 路径既不是文件也不是目录",
            ),
        }
    }
}

impl Environment {
    /// The value of `variable`, if it is set.
    pub open spec fn value(&self, variable: EnvVar) -> Option<Seq<char>> {
        let held = match variable {
            EnvVar::AppData => self.app_data,
            EnvVar::LocalAppData => self.local_app_data,
            EnvVar::Home => self.home,
        };
        match held {
            Some(text) => Some(text@),
            None => None,
        }
    }

    /// The value of `variable`, or the error that names it.
    pub fn get(&self, variable: EnvVar) -> (result: Result<&String, PathError>)
        ensures
            match result {
                Ok(text) => self.value(variable) == Some(text@),
                Err(error) => self.value(variable) is None && error
                    == PathError::MissingEnvironmentVariable(variable),
            },
    {
        let held = match variable {
            EnvVar::AppData => &self.app_data,
            EnvVar::LocalAppData => &self.local_app_data,
            EnvVar::Home => &self.home,
        };
        match held {
            Some(text) => Ok(text),
            None => Err(PathError::MissingEnvironmentVariable(variable)),
        }
    }
}

/// The locations on `os` in the environment `env`, when the paths in
/// `present` are those that exist. A variable that is not set is an error:
/// the one of the configuration first.
pub open spec fn resolve(os: HostOs, env: Environment, present: Seq<Seq<char>>) -> Result<
    Locations,
    PathError,
> {
    match (env.value(config_variable(os)), env.value(install_variable(os))) {
        (None, _) => Err(PathError::MissingEnvironmentVariable(config_variable(os))),
        (Some(_), None) => Err(PathError::MissingEnvironmentVariable(install_variable(os))),
        (Some(config), Some(install)) => Ok(
            Locations {
                storage: join_path(os, global_storage(os, config), "storage.json"@),
                auth: join_path(os, global_storage(os, config), "cursor.auth.json"@),
                db: join_path(os, global_storage(os, config), "state.vscdb"@),
                cursor_exe: first_match(
                    executable_locations(os, install),
                    present,
                    executable_locations(os, install)[0],
                ),
                cursor_updater: updater_location(os, install),
                main_js: first_match(
                    bundle_locations(os, install),
                    present,
                    bundle_locations(os, install)[0],
                ),
            },
        ),
    }
}

impl Locations {
    /// Whether none of the six locations is empty.
    pub open spec fn populated(self) -> bool {
        &&& self.storage.len() > 0
        &&& self.auth.len() > 0
        &&& self.db.len() > 0
        &&& self.cursor_exe.len() > 0
        &&& self.cursor_updater.len() > 0
        &&& self.main_js.len() > 0
    }
}

fn config_variable_of(os: HostOs) -> (variable: EnvVar)
    ensures
        variable == config_variable(os),
{
    match os {
        HostOs::Windows => EnvVar::AppData,
        _ => EnvVar::Home,
    }
}

fn install_variable_of(os: HostOs) -> (variable: EnvVar)
    ensures
        variable == install_variable(os),
{
    match os {
        HostOs::Windows => EnvVar::LocalAppData,
        _ => EnvVar::Home,
    }
}

fn global_storage_of(os: HostOs, value: &str) -> (directory: String)
    ensures
        directory@ == global_storage(os, value@),
{
    let root = match os {
        HostOs::Windows => child(os, value, "Cursor"),
        HostOs::MacOs => {
            let library = child(os, value, "Library");
            let support = child(os, library.as_str(), "Application Support");
            child(os, support.as_str(), "Cursor")
        },
        HostOs::Linux => {
            let config = child(os, value, ".config");
            child(os, config.as_str(), "Cursor")
        },
    };
    let user = child(os, root.as_str(), "User");
    child(os, user.as_str(), "globalStorage")
}

fn windows_install_of(value: &str) -> (directory: String)
    ensures
        directory@ == windows_install(value@),
{
    let programs = child(HostOs::Windows, value, "Programs");
    child(HostOs::Windows, programs.as_str(), "cursor")
}

fn mac_bundle_of() -> (directory: String)
    ensures
        directory@ == mac_bundle(),
{
    let application = child(HostOs::MacOs, "/Applications", "Cursor.app");
    child(HostOs::MacOs, application.as_str(), "Contents")
}

fn script_under_of(os: HostOs, resources: &str) -> (script: String)
    ensures
        script@ == script_under(os, resources@),
{
    let app = child(os, resources, "app");
    let out = child(os, app.as_str(), "out");
    child(os, out.as_str(), "main.js")
}

fn updater_location_of(os: HostOs, install: &str) -> (location: String)
    ensures
        location@ == updater_location(os, install@),
{
    match os {
        HostOs::Windows => child(os, install, "cursor-updater"),
        HostOs::MacOs => {
            let library = child(os, install, "Library");
            let support = child(os, library.as_str(), "Application Support");
            child(os, support.as_str(), "cursor-updater")
        },
        HostOs::Linux => {
            let config = child(os, install, ".config");
            child(os, config.as_str(), "cursor-updater")
        },
    }
}

fn executable_locations_of(os: HostOs, install: &str) -> (places: Vec<String>)
    ensures
        views(places@) == executable_locations(os, install@),
{
    let mut places: Vec<String> = Vec::new();
    match os {
        HostOs::Windows => {
            let directory = windows_install_of(install);
            places.push(child(os, directory.as_str(), "Cursor.exe"));
        },
        HostOs::MacOs => {
            let bundle = mac_bundle_of();
            let binaries = child(os, bundle.as_str(), "MacOS");
            places.push(child(os, binaries.as_str(), "Cursor"));
        },
        HostOs::Linux => {
            places.push(String::from_str("/usr/bin/cursor"));
            places.push(String::from_str("/usr/local/bin/cursor"));
            places.push(String::from_str("/opt/cursor/cursor"));
            places.push(String::from_str("/snap/bin/cursor"));
        },
    }
    assert(views(places@) =~= executable_locations(os, install@));
    places
}

fn bundle_locations_of(os: HostOs, install: &str) -> (places: Vec<String>)
    ensures
        views(places@) == bundle_locations(os, install@),
{
    let mut places: Vec<String> = Vec::new();
    match os {
        HostOs::Windows => {
            let directory = windows_install_of(install);
            let resources = child(os, directory.as_str(), "resources");
            places.push(script_under_of(os, resources.as_str()));
        },
        HostOs::MacOs => {
            let bundle = mac_bundle_of();
            let resources = child(os, bundle.as_str(), "Resources");
            places.push(script_under_of(os, resources.as_str()));
        },
        HostOs::Linux => {
            places.push(String::from_str("/usr/lib/cursor/resources/app/out/main.js"));
            places.push(String::from_str("/usr/share/cursor/resources/app/out/main.js"));
            places.push(String::from_str("/opt/cursor/resources/app/out/main.js"));
            places.push(String::from_str("/snap/cursor/current/resources/app/out/main.js"));
        },
    }
    assert(views(places@) =~= bundle_locations(os, install@));
    places
}

/// What the caller found at a location on the disk.
#[derive(Clone, Copy, Debug, PartialEq, Eq, Structural)]
pub enum PathKind {
    /// Nothing is there.
    Missing,
    /// A file.
    File,
    /// A directory.
    Directory,
    /// Something that is neither a file nor a directory.
    Other,
}

/// The process that starts the editor.
#[derive(Clone, Debug, PartialEq, Eq)]
pub struct LaunchCommand {
    pub program: String,
    pub arguments: Vec<String>,
}

/// The arguments with which the editor is started: on Linux the flag that
/// turns its sandbox off, elsewhere none.
pub open spec fn launch_arguments(os: HostOs) -> Seq<Seq<char>> {
    if os == HostOs::Linux {
        seq!["--no-sandbox"@]
    } else {
        seq![]
    }
}

impl AppPaths {
    /// The places at which the caller looks for the editor before it asks
    /// for the locations: those of the executable, then those of the main
    /// script.
    pub fn probes(os: HostOs, env: &Environment) -> (result: Result<Vec<String>, PathError>)
        ensures
            match result {
                Ok(places) => env.value(install_variable(os)) matches Some(install) && views(
                    places@,
                ) == executable_locations(os, install) + bundle_locations(os, install),
                Err(error) => env.value(install_variable(os)) is None && error
                    == PathError::MissingEnvironmentVariable(install_variable(os)),
            },
    {
        let install = match env.get(install_variable_of(os)) {
            Ok(text) => text,
            Err(error) => {
                return Err(error);
            },
        };
        let mut places = executable_locations_of(os, install.as_str());
        let mut scripts = bundle_locations_of(os, install.as_str());
        let ghost first = places@;
        let ghost second = scripts@;
        places.append(&mut scripts);
        assert(views(places@) =~= views(first) + views(second));
        Ok(places)
    }

    /// The locations on `os`, from the environment `env` and the paths that
    /// the caller found on the disk.
    ///
    /// The executable and the main script are each the first of their
    /// candidates that is among `present`, or the default when none is.
    /// Every location of the result is non-empty. Before the locations are
    /// used the caller creates the directory of the configuration store,
    /// which `ensure_parent_exists` names: the one of the three
    /// configuration files.
    pub fn new(os: HostOs, env: &Environment, present: &Vec<String>) -> (result: Result<
        AppPaths,
        PathError,
    >)
        ensures
            match result {
                Ok(paths) => {
                    &&& resolve(os, *env, views(present@)) == Ok::<Locations, PathError>(paths@)
                    &&& paths@.populated()
                    &&& env.value(config_variable(os)) matches Some(config)
                    &&& parent_spec(os, paths.storage@) == Some(global_storage(os, config))
                },
                Err(error) => resolve(os, *env, views(present@)) == Err::<Locations, PathError>(
                    error,
                ),
            },
    {
        let config = match env.get(config_variable_of(os)) {
            Ok(text) => text,
            Err(error) => {
                return Err(error);
            },
        };
        let install = match env.get(install_variable_of(os)) {
            Ok(text) => text,
            Err(error) => {
                return Err(error);
            },
        };
        let directory = global_storage_of(os, config.as_str());
        let executables = executable_locations_of(os, install.as_str());
        let scripts = bundle_locations_of(os, install.as_str());
        let paths = AppPaths {
            storage: child(os, directory.as_str(), "storage.json"),
            auth: child(os, directory.as_str(), "cursor.auth.json"),
            db: child(os, directory.as_str(), "state.vscdb"),
            cursor_exe: first_existing(&executables, present, executables[0].clone()),
            cursor_updater: updater_location_of(os, install.as_str()),
            main_js: first_existing(&scripts, present, scripts[0].clone()),
        };
        proof {
            lemma_resolved_is_populated(os, *env, views(present@));
            lemma_storage_parent(os, config@);
        }
        Ok(paths)
    }

    /// The directory that has to exist before `path` is written: the caller
    /// creates it, with the directories above it, when it is absent. `None`
    /// when `path` names no directory: then nothing is to be created.
    pub fn ensure_parent_exists(&self, os: HostOs, path: &str) -> (directory: Option<String>)
        ensures
            match directory {
                Some(text) => parent_spec(os, path@) == Some(text@),
                None => parent_spec(os, path@) is None,
            },
    {
        parent_directory(os, path)
    }

    /// The process to start for the editor, given whether its executable is
    /// on the disk. Without the executable nothing is started.
    pub fn launch_cursor(&self, os: HostOs, executable_present: bool) -> (result: Result<
        LaunchCommand,
        PathError,
    >)
        ensures
            match result {
                Ok(command) => executable_present && command.program@ == self.cursor_exe@
                    && views(command.arguments@) == launch_arguments(os),
                Err(error) => !executable_present && error == PathError::ExecutableMissing,
            },
    {
        if !executable_present {
            return Err(PathError::ExecutableMissing);
        }
        let mut arguments: Vec<String> = Vec::new();
        match os {
            HostOs::Linux => {
                arguments.push(String::from_str("--no-sandbox"));
            },
            _ => {},
        }
        assert(views(arguments@) =~= launch_arguments(os));
        Ok(LaunchCommand { program: self.cursor_exe.clone(), arguments })
    }

    /// Whether the updater's location can be used, given what the caller
    /// found there. A file and a directory both can; for a directory the
    /// result names it, so that the caller may list what it holds.
    pub fn check_cursor_updater(&self, found: PathKind) -> (result: Result<
        Option<String>,
        PathError,
    >)
        ensures
            match found {
                PathKind::Missing => result == Err::<Option<String>, PathError>(
                    PathError::UpdaterMissing,
                ),
                PathKind::File => result == Ok::<Option<String>, PathError>(None),
                PathKind::Directory => result matches Ok(Some(directory)) && directory@
                    == self.cursor_updater@,
                PathKind::Other => result == Err::<Option<String>, PathError>(
                    PathError::UpdaterUnusable,
                ),
            },
    {
        match found {
            PathKind::Missing => Err(PathError::UpdaterMissing),
            PathKind::File => Ok(None),
            PathKind::Directory => Ok(Some(self.cursor_updater.clone())),
            PathKind::Other => Err(PathError::UpdaterUnusable),
        }
    }
}

/// Law: on each of the three systems, every location that is resolved is
/// non-empty, whatever exists on the disk.
pub proof fn lemma_resolved_is_populated(os: HostOs, env: Environment, present: Seq<Seq<char>>)
    ensures
        resolve(os, env, present) matches Ok(locations) ==> locations.populated(),
{
    if let Ok(locations) = resolve(os, env, present) {
        let config = env.value(config_variable(os))->Some_0;
        let install = env.value(install_variable(os))->Some_0;
        reveal_strlit("storage.json");
        reveal_strlit("cursor.auth.json");
        reveal_strlit("state.vscdb");
        reveal_strlit("cursor-updater");
        reveal_strlit("Cursor.exe");
        reveal_strlit("Cursor");
        reveal_strlit("main.js");
        reveal_strlit("/usr/bin/cursor");
        reveal_strlit("/usr/local/bin/cursor");
        reveal_strlit("/opt/cursor/cursor");
        reveal_strlit("/snap/bin/cursor");
        reveal_strlit("/usr/lib/cursor/resources/app/out/main.js");
        reveal_strlit("/usr/share/cursor/resources/app/out/main.js");
        reveal_strlit("/opt/cursor/resources/app/out/main.js");
        reveal_strlit("/snap/cursor/current/resources/app/out/main.js");
        let executables = executable_locations(os, install);
        let scripts = bundle_locations(os, install);
        assert forall|i: int| 0 <= i < executables.len() implies executables[i].len() > 0 by {}
        assert forall|i: int| 0 <= i < scripts.len() implies scripts[i].len() > 0 by {}
        lemma_first_match_is_candidate(executables, present, executables[0]);
        lemma_first_match_is_candidate(scripts, present, scripts[0]);
    }
}

/// Law: the directory that holds the configuration store is the directory
/// of the three configuration files, so that is the directory to create
/// once the locations are resolved.
pub proof fn lemma_storage_parent(os: HostOs, config: Seq<char>)
    ensures
        parent_spec(os, join_path(os, global_storage(os, config), "storage.json"@)) == Some(
            global_storage(os, config),
        ),
{
    reveal_strlit("globalStorage");
    reveal_strlit("storage.json");
    let directory = global_storage(os, config);
    assert(directory.last() == 'e');
    lemma_parent_of_child(os, directory, "storage.json"@);
}

} // verus!
