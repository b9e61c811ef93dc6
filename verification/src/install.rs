//! The plan of an installation: which install script to run, and with
//! which arguments.

use vstd::prelude::*;

verus! {

/// An install script: the name of its file, and where to fetch it from.
#[derive(Debug, Clone, PartialEq, Eq)]
pub struct InstallScript {
    pub file_name: String,
    pub url: String,
}

/// The name of the install script: the PowerShell script on Windows, the
/// shell script elsewhere.
pub open spec fn script_name_for(windows: bool) -> Seq<char> {
    if windows {
        "dotnet-install.ps1"@
    } else {
        "dotnet-install.sh"@
    }
}

/// The address of the install script.
pub open spec fn script_url_for(windows: bool) -> Seq<char> {
    if windows {
        "https://dot.net/v1/dotnet-install.ps1"@
    } else {
        "https://dot.net/v1/dotnet-install.sh"@
    }
}

/// The arguments that make the install script install the SDK `version`
/// into `install_dir`, and leave the search path alone.
pub open spec fn arguments_for(version: Seq<char>, install_dir: Seq<char>) -> Seq<Seq<char>> {
    seq!["-Version"@, version, "-InstallDir"@, install_dir, "-NoPath"@]
}

/// The texts of a list of strings.
pub open spec fn texts_of(strings: Seq<String>) -> Seq<Seq<char>> {
    Seq::new(strings.len(), |i: int| strings[i]@)
}

/// Picks the install script of the platform.
pub fn install_script(windows: bool) -> (script: InstallScript)
    ensures
        script.file_name@ == script_name_for(windows),
        script.url@ == script_url_for(windows),
{
    if windows {
        InstallScript {
            file_name: String::from_str("dotnet-install.ps1"),
            url: String::from_str("https://dot.net/v1/dotnet-install.ps1"),
        }
    } else {
        InstallScript {
            file_name: String::from_str("dotnet-install.sh"),
            url: String::from_str("https://dot.net/v1/dotnet-install.sh"),
        }
    }
}

/// Builds the arguments of the install script.
pub fn install_arguments(version: &str, install_dir: &str) -> (arguments: Vec<String>)
    ensures
        texts_of(arguments@) == arguments_for(version@, install_dir@),
{
    let mut arguments: Vec<String> = Vec::new();
    arguments.push(String::from_str("-Version"));
    arguments.push(String::from_str(version));
    arguments.push(String::from_str("-InstallDir"));
    arguments.push(String::from_str(install_dir));
    arguments.push(String::from_str("-NoPath"));
    assert(texts_of(arguments@) =~= arguments_for(version@, install_dir@));
    arguments
}

/// Tells whether the install script succeeded, by its exit code.
pub fn is_installed(exit_code: i32) -> (installed: bool)
    ensures
        installed == (exit_code == 0),
{
    exit_code == 0
}

} // verus!
