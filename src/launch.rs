//! Planning the backend's launch: which platform this is, where the backend
//! executable lies, the arguments it gets, and how it is put in a process
//! group of its own.
use vstd::prelude::*;
use vstd::string::{StrSliceExecFns, StringExecFns};
use crate::decimal::{decimal, decimal_string};

verus! {

/// The platforms the backend is built for.
#[derive(Clone, Copy, PartialEq, Eq, Structural, Debug)]
pub enum Platform {
    MacOs,
    Windows,
}

/// Why the backend cannot be launched.
#[derive(Clone, Copy, PartialEq, Eq, Structural, Debug)]
pub enum LaunchError {
    /// The host runs an operating system the backend is not built for.
    UnsupportedPlatform,
}

/// The directory the backend's relative path is resolved against.
#[derive(Clone, Copy, PartialEq, Eq, Structural, Debug)]
pub enum BaseDir {
    /// The project directory, for development builds; chosen by whoever runs
    /// the build rather than fixed in the code.
    ProjectDir,
    /// The application's bundled resources, for release builds.
    ResourceDir,
}

/// How the child is made the leader of a new process group.
#[derive(Clone, Copy, PartialEq, Eq, Structural, Debug)]
pub enum GroupSetup {
    /// Call `setpgid(0, 0)` in the child before it executes the backend.
    SetOwnGroup,
    /// Create the process with these creation flags.
    CreationFlags(u32),
}

/// The creation flag that asks for a new process group.
pub const CREATE_NEW_PROCESS_GROUP: u32 = 0x200;

/// The platform named by an operating system name such as
/// `std::env::consts::OS` gives.
pub open spec fn platform_named(os: Seq<char>) -> Option<Platform> {
    if os == "macos"@ {
        Some(Platform::MacOs)
    } else if os == "windows"@ {
        Some(Platform::Windows)
    } else {
        None
    }
}

/// The backend executable's path relative to the base directory.
pub open spec fn sidecar_path_spec(platform: Platform) -> Seq<char> {
    match platform {
        Platform::MacOs => "sidecar/backend-sidecar-aarch64-apple-darwin"@,
        Platform::Windows => "sidecar\\backend-windows.exe"@,
    }
}

pub open spec fn group_setup_spec(platform: Platform) -> GroupSetup {
    match platform {
        Platform::MacOs => GroupSetup::SetOwnGroup,
        Platform::Windows => GroupSetup::CreationFlags(CREATE_NEW_PROCESS_GROUP),
    }
}

pub open spec fn base_dir_spec(debug: bool) -> BaseDir {
    if debug {
        BaseDir::ProjectDir
    } else {
        BaseDir::ResourceDir
    }
}

/// The backend's arguments, in order: log path, port, data directory.
pub open spec fn launch_args_spec(log_path: Seq<char>, port: u16, data_dir: Seq<char>) -> Seq<Seq<char>> {
    seq![log_path, decimal(port as nat), data_dir]
}

pub open spec fn strings_view(v: Seq<String>) -> Seq<Seq<char>> {
    v.map_values(|s: String| s@)
}

/// Whether two texts hold the same characters.
pub fn same_text(a: &str, b: &str) -> (r: bool)
    ensures
        r == (a@ == b@),
{
    let n = a.unicode_len();
    if n != b.unicode_len() {
        return false;
    }
    let mut i: usize = 0;
    while i < n
        invariant
            i <= n,
            n == a@.len(),
            n == b@.len(),
            forall|j: int| 0 <= j < i ==> a@[j] == b@[j],
        decreases n - i,
    {
        if a.get_char(i) != b.get_char(i) {
            return false;
        }
        i = i + 1;
    }
    assert(a@ =~= b@);
    true
}

/// The platform named `os`, or `UnsupportedPlatform`.
pub fn platform_of(os: &str) -> (r: Result<Platform, LaunchError>)
    ensures
        match platform_named(os@) {
            Some(p) => r == Ok::<Platform, LaunchError>(p),
            None => r == Err::<Platform, LaunchError>(LaunchError::UnsupportedPlatform),
        },
{
    proof {
        reveal_strlit("macos");
        reveal_strlit("windows");
    }
    if same_text(os, "macos") {
        Ok(Platform::MacOs)
    } else if same_text(os, "windows") {
        Ok(Platform::Windows)
    } else {
        Err(LaunchError::UnsupportedPlatform)
    }
}

/// The backend executable's path relative to its base directory.
pub fn sidecar_path(platform: Platform) -> (r: String)
    ensures
        r@ == sidecar_path_spec(platform),
{
    match platform {
        Platform::MacOs => String::from_str("sidecar/backend-sidecar-aarch64-apple-darwin"),
        Platform::Windows => String::from_str("sidecar\\backend-windows.exe"),
    }
}

/// How `platform` gives the child a process group of its own.
pub fn group_setup(platform: Platform) -> (r: GroupSetup)
    ensures
        r == group_setup_spec(platform),
{
    match platform {
        Platform::MacOs => GroupSetup::SetOwnGroup,
        Platform::Windows => GroupSetup::CreationFlags(CREATE_NEW_PROCESS_GROUP),
    }
}

/// The backend's three arguments: log path, port in decimal, data directory.
pub fn launch_args(log_path: &str, port: u16, data_dir: &str) -> (r: Vec<String>)
    ensures
        strings_view(r@) == launch_args_spec(log_path@, port, data_dir@),
{
    let mut r: Vec<String> = Vec::new();
    r.push(String::from_str(log_path));
    r.push(decimal_string(port as u32));
    r.push(String::from_str(data_dir));
    assert(strings_view(r@) =~= launch_args_spec(log_path@, port, data_dir@));
    r
}

/// Everything needed to start the backend.
pub struct LaunchPlan {
    pub platform: Platform,
    /// The directory `program` is relative to.
    pub base: BaseDir,
    /// The executable, relative to `base`.
    pub program: String,
    pub args: Vec<String>,
    pub group: GroupSetup,
}

/// Plans the backend's launch on the operating system named `os`, for a
/// development build when `debug` holds.
pub fn plan_launch(os: &str, debug: bool, log_path: &str, port: u16, data_dir: &str) -> (r: Result<
    LaunchPlan,
    LaunchError,
>)
    ensures
        match platform_named(os@) {
            None => r == Err::<LaunchPlan, LaunchError>(LaunchError::UnsupportedPlatform),
            Some(p) => r matches Ok(plan) && plan.platform == p && plan.base == base_dir_spec(debug)
                && plan.program@ == sidecar_path_spec(p) && strings_view(plan.args@)
                == launch_args_spec(log_path@, port, data_dir@) && plan.group == group_setup_spec(p),
        },
{
    let platform = match platform_of(os) {
        Ok(p) => p,
        Err(e) => return Err(e),
    };
    let base = if debug {
        BaseDir::ProjectDir
    } else {
        BaseDir::ResourceDir
    };
    Ok(
        LaunchPlan {
            platform,
            base,
            program: sidecar_path(platform),
            args: launch_args(log_path, port, data_dir),
            group: group_setup(platform),
        },
    )
}

} // verus!
