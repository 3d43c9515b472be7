//! Where downloads and games land on disk.
//!
//! The platform's local-data directory and the operating system's name
//! come from the surrounding application, which asks the OS for them and
//! creates the directories these functions name; the path arithmetic
//! itself is owned and verified here.  Paths are built with `/`, which
//! every supported platform accepts as a separator.

use vstd::prelude::*;
use vstd::string::StringExecFns;

verus! {

/// An operating system a build is published for.
#[derive(PartialEq, Eq, Structural, Copy, Clone, Debug)]
pub enum HostOs {
    Linux,
    Windows,
}

/// The directory all launcher data lives under: `arcana-launcher`
/// below the platform's local-data directory.
pub fn get_data_dir(data_local_dir: &str) -> (r: String)
    ensures
        r@ == data_local_dir@ + "/"@ + "arcana-launcher"@,
{
    let mut r = data_local_dir.to_owned();
    r.append("/");
    r.append("arcana-launcher");
    r
}

/// The directory one game's files live under: its id below the data
/// directory.
pub fn get_game_dir(data_dir: &str, game_id: &str) -> (r: String)
    ensures
        r@ == data_dir@ + "/"@ + game_id@,
{
    let mut r = data_dir.to_owned();
    r.append("/");
    r.append(game_id);
    r
}

/// The release asset's file name for this operating system.
pub fn get_download_name_for_os(os: HostOs) -> (r: String)
    ensures
        os == HostOs::Linux ==> r@ == "linux-latest.zip"@,
        os == HostOs::Windows ==> r@ == "windows-latest.zip"@,
{
    match os {
        HostOs::Linux => "linux-latest.zip".to_owned(),
        HostOs::Windows => "windows-latest.zip".to_owned(),
    }
}

/// The directory the installed build runs from: an OS-named directory
/// below the game's directory.
pub fn get_os_working_dir(game_dir: &str, os: HostOs) -> (r: String)
    ensures
        os == HostOs::Linux ==> r@ == game_dir@ + "/"@ + "linux-latest"@,
        os == HostOs::Windows ==> r@ == game_dir@ + "/"@ + "windows-latest"@,
{
    let mut p = game_dir.to_owned();
    p.append("/");
    match os {
        HostOs::Linux => p.append("linux-latest"),
        HostOs::Windows => p.append("windows-latest"),
    }
    p
}

/// The installed executable's path inside the working directory: the
/// game's id, with the platform's suffix where one is needed.
pub fn get_os_executable(working_dir: &str, game_id: &str, os: HostOs) -> (r: String)
    ensures
        os == HostOs::Linux ==> r@ == working_dir@ + "/"@ + game_id@,
        os == HostOs::Windows ==> r@ == working_dir@ + "/"@ + game_id@ + ".exe"@,
{
    let mut p = working_dir.to_owned();
    p.append("/");
    p.append(game_id);
    match os {
        HostOs::Linux => {},
        HostOs::Windows => p.append(".exe"),
    }
    p
}

} // verus!
