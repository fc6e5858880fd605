//! What a start launches: the executable, its working directory, its
//! environment and its output streams, per platform.

use vstd::prelude::*;

use crate::decimal::{decimal, port_text};

verus! {

/// The platform families that the launch of the backend tells apart.
#[derive(Debug, Clone, Copy, PartialEq, Eq)]
pub enum Platform {
    Windows,
    MacOs,
    Other,
}

/// The platform that an operating-system identifier names.
pub open spec fn platform_of(os: Seq<char>) -> Platform {
    if os == "windows"@ {
        Platform::Windows
    } else if os == "macos"@ {
        Platform::MacOs
    } else {
        Platform::Other
    }
}

/// Whether two texts hold the same characters.
fn same_text(a: &str, b: &str) -> (same: bool)
    ensures
        same == (a@ == b@),
{
    let left = String::from_str(a);
    let right = String::from_str(b);
    left == right
}

impl Platform {
    /// The platform that the operating-system identifier `os` names:
    /// `"windows"`, `"macos"`, or any other.
    pub fn from_os(os: &str) -> (platform: Platform)
        ensures
            platform == platform_of(os@),
    {
        if same_text(os, "windows") {
            Platform::Windows
        } else if same_text(os, "macos") {
            Platform::MacOs
        } else {
            Platform::Other
        }
    }
}

/// How a standard stream of the child is connected.
#[derive(Debug, Clone, Copy, PartialEq, Eq)]
pub enum StreamMode {
    /// Captured through a pipe that the supervisor holds.
    Piped,
    /// Shared with the supervisor's own stream.
    Inherited,
}

/// Everything the shell needs to spawn the backend.
#[derive(Debug)]
pub struct LaunchPlan {
    /// The directory below the resource directory that holds the backend;
    /// the child runs with it as its working directory.
    pub directory: String,
    /// The file name of the executable inside that directory.
    pub executable: String,
    /// The variables to set in the child's environment, as name and value,
    /// on top of the environment it inherits.
    pub env: Vec<(String, String)>,
    pub stdout: StreamMode,
    pub stderr: StreamMode,
}

/// A launch plan with its texts taken as sequences of characters.
pub struct LaunchPlanView {
    pub directory: Seq<char>,
    pub executable: Seq<char>,
    pub env: Seq<(Seq<char>, Seq<char>)>,
    pub stdout: StreamMode,
    pub stderr: StreamMode,
}

impl View for LaunchPlan {
    type V = LaunchPlanView;

    open spec fn view(&self) -> LaunchPlanView {
        LaunchPlanView {
            directory: self.directory@,
            executable: self.executable@,
            env: self.env.deep_view(),
            stdout: self.stdout,
            stderr: self.stderr,
        }
    }
}

/// The directory below the resource directory that holds the backend.
pub open spec fn backend_directory() -> Seq<char> {
    "build-neo-node"@
}

/// The file name of the backend executable on `platform`.
pub open spec fn executable_name(platform: Platform) -> Seq<char> {
    match platform {
        Platform::Windows => "neo3-gui.exe"@,
        _ => "neo3-gui"@,
    }
}

/// The directory of the runtime that the backend needs and that `platform`
/// does not guarantee to have on its default search path.
pub open spec fn toolchain_directory(platform: Platform) -> Option<Seq<char>> {
    match platform {
        Platform::MacOs => Some("/usr/local/share/dotnet"@),
        _ => None,
    }
}

/// The variable that selects the network: present exactly when a network
/// was asked for.
pub open spec fn network_entry(network: Option<Seq<char>>) -> Seq<(Seq<char>, Seq<char>)> {
    match network {
        Some(name) => seq![("NEO_NETWORK"@, name)],
        None => seq![],
    }
}

/// The variable that selects the port, in decimal: present exactly when a
/// port was asked for.
pub open spec fn port_entry(port: Option<u16>) -> Seq<(Seq<char>, Seq<char>)> {
    match port {
        Some(number) => seq![("NEO_GUI_PORT"@, decimal(number as nat))],
        None => seq![],
    }
}

/// The extended search path: present exactly when `platform` has a
/// toolchain directory and the supervisor's own search path is known; the
/// toolchain directory then follows that path after a colon.
pub open spec fn search_path_entry(platform: Platform, search_path: Option<Seq<char>>) -> Seq<
    (Seq<char>, Seq<char>),
> {
    match (toolchain_directory(platform), search_path) {
        (Some(directory), Some(path)) => seq![("PATH"@, path + ":"@ + directory)],
        _ => seq![],
    }
}

/// The variables set in the child's environment.
pub open spec fn launch_env(
    platform: Platform,
    network: Option<Seq<char>>,
    port: Option<u16>,
    search_path: Option<Seq<char>>,
) -> Seq<(Seq<char>, Seq<char>)> {
    network_entry(network) + port_entry(port) + search_path_entry(platform, search_path)
}

/// The launch of the backend on `platform` for the given selection, with
/// both output streams captured.
pub open spec fn planned(
    platform: Platform,
    network: Option<Seq<char>>,
    port: Option<u16>,
    search_path: Option<Seq<char>>,
) -> LaunchPlanView {
    LaunchPlanView {
        directory: backend_directory(),
        executable: executable_name(platform),
        env: launch_env(platform, network, port, search_path),
        stdout: StreamMode::Piped,
        stderr: StreamMode::Piped,
    }
}

impl Platform {
    /// The file name of the backend executable on this platform.
    pub fn executable_name(&self) -> (name: &'static str)
        ensures
            name@ == executable_name(*self),
    {
        match self {
            Platform::Windows => "neo3-gui.exe",
            _ => "neo3-gui",
        }
    }

    /// The directory of the runtime that the backend needs, where this
    /// platform does not guarantee it on the default search path.
    pub fn toolchain_directory(&self) -> (directory: Option<&'static str>)
        ensures
            directory.deep_view() == toolchain_directory(*self),
    {
        match self {
            Platform::MacOs => Some("/usr/local/share/dotnet"),
            _ => None,
        }
    }
}

/// Plans the launch of the backend on `platform`. `network` and `port` are
/// the caller's selection, each handed to the child only when given;
/// `search_path` is the supervisor's own executable search path, where it
/// is set and readable.
pub fn launch_plan(
    platform: Platform,
    network: Option<String>,
    port: Option<u16>,
    search_path: Option<String>,
) -> (plan: LaunchPlan)
    ensures
        plan@ == planned(platform, network.deep_view(), port, search_path.deep_view()),
{
    let mut env: Vec<(String, String)> = Vec::new();
    assert(env.deep_view() =~= Seq::empty());
    if let Some(name) = network {
        env.push((String::from_str("NEO_NETWORK"), name));
        assert(env.deep_view() =~= network_entry(network.deep_view()));
    }
    let ghost before_port = env.deep_view();
    if let Some(number) = port {
        env.push((String::from_str("NEO_GUI_PORT"), port_text(number)));
        assert(env.deep_view() =~= before_port + port_entry(port));
    }
    let ghost before_path = env.deep_view();
    if let Some(directory) = platform.toolchain_directory() {
        if let Some(path) = search_path {
            let mut value = path;
            value.append(":");
            value.append(directory);
            env.push((String::from_str("PATH"), value));
            assert(env.deep_view() =~= before_path + search_path_entry(
                platform,
                search_path.deep_view(),
            ));
        }
    }
    assert(env.deep_view() =~= launch_env(
        platform,
        network.deep_view(),
        port,
        search_path.deep_view(),
    ));
    LaunchPlan {
        directory: String::from_str("build-neo-node"),
        executable: String::from_str(platform.executable_name()),
        env,
        stdout: StreamMode::Piped,
        stderr: StreamMode::Piped,
    }
}

} // verus!
