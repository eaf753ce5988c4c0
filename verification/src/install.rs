//! Installed command-line tools: where a tool of a given version lives, where
//! it is downloaded from, and what installing and uninstalling it consists of.
//!
//! A tool is kept at `<home>/.cli-man/bin/<tool>/<version>/<binary>`, where
//! the binary carries the suffix `.exe` on Windows. Downloading and writing
//! files is for the caller to do; this module decides what is to be done.

use vstd::pervasive::unreached;
use vstd::prelude::*;
use crate::path::{
    is_component, is_plain_dir, is_separator_char, lemma_name_start, lemma_parent_of_child,
    opt_text, parent, parent_of, prefix_len, Platform,
};
use crate::text::{ends_with, has_suffix};

verus! {

/// Permission bits of an installed binary where permissions apply.
pub const EXECUTABLE_MODE: u32 = 0o755;

/// The operating systems for which releases are published.
#[derive(Clone, Copy, Debug, PartialEq, Eq, Structural)]
pub enum TargetOs {
    Windows,
    MacOs,
    Linux,
}

/// The processor architectures for which releases are published.
#[derive(Clone, Copy, Debug, PartialEq, Eq, Structural)]
pub enum TargetArch {
    X86_64,
    Aarch64,
    Other,
}

/// What a download holds.
#[derive(Clone, Copy, Debug, PartialEq, Eq, Structural)]
pub enum Payload {
    /// A zip archive, to be unpacked into the directory of the binary.
    ZipArchive,
    /// The binary itself.
    Binary,
}

/// Why a tool cannot be installed.
#[derive(Clone, Copy, Debug, PartialEq, Eq, Structural)]
pub enum InstallError {
    /// The path of the binary names no directory to put it in.
    NoParentDirectory,
    /// The download is an archive of a kind that cannot be unpacked.
    UnsupportedArchive,
    /// The server answered with this status, which is not a success.
    Http(u16),
}

/// What installing a tool consists of.
#[derive(Debug)]
pub struct InstallSteps {
    /// The directory to create first, unless it exists.
    pub bin_dir: String,
    /// Where to download from.
    pub url: String,
    /// What the download holds.
    pub payload: Payload,
    /// Where the binary is in the end.
    pub bin_path: String,
    /// The permission bits to give the binary, where permissions apply.
    pub mode: Option<u32>,
}

/// The name of the binary of the tool `name` on `platform`.
pub open spec fn binary_name_of(name: Seq<char>, platform: Platform) -> Seq<char> {
    match platform {
        Platform::Windows => name + ".exe"@,
        Platform::Posix => name,
    }
}

/// Where the binary of the tool `name` in `version` is kept below `home`.
pub open spec fn bin_path_of(
    home: Seq<char>,
    name: Seq<char>,
    version: Seq<char>,
    platform: Platform,
) -> Seq<char> {
    home + "/.cli-man/bin/"@ + name + "/"@ + version + "/"@ + binary_name_of(name, platform)
}

/// The environment variable that holds the home directory on `platform`.
pub open spec fn home_variable_of(platform: Platform) -> Seq<char> {
    match platform {
        Platform::Windows => "USERPROFILE"@,
        Platform::Posix => "HOME"@,
    }
}

/// The name of `os` in a release's file name.
pub open spec fn os_name_of(os: TargetOs) -> Seq<char> {
    match os {
        TargetOs::Windows => "windows"@,
        TargetOs::MacOs => "darwin"@,
        TargetOs::Linux => "linux"@,
    }
}

/// The name of `arch` in a release's file name.
pub open spec fn arch_name_of(arch: TargetArch) -> Seq<char> {
    match arch {
        TargetArch::X86_64 => "amd64"@,
        TargetArch::Aarch64 => "arm64"@,
        TargetArch::Other => "386"@,
    }
}

/// Where the release of Terraform in `version` for `os` and `arch` is
/// published.
pub open spec fn terraform_url_of(version: Seq<char>, os: TargetOs, arch: TargetArch) -> Seq<
    char,
> {
    "https://releases.hashicorp.com/terraform/"@ + version + "/terraform_"@ + version + "_"@
        + os_name_of(os) + "_"@ + arch_name_of(arch) + ".zip"@
}

/// What a download from `url` holds, judged by the end of the URL.
pub open spec fn payload_of(url: Seq<char>) -> Result<Payload, InstallError> {
    if has_suffix(url, ".zip"@) {
        Ok(Payload::ZipArchive)
    } else if has_suffix(url, ".tar.gz"@) {
        Err(InstallError::UnsupportedArchive)
    } else {
        Ok(Payload::Binary)
    }
}

/// The directory that uninstalling the binary at `bin_path` removes: that of
/// the tool, two levels above the binary.
pub open spec fn tool_dir_of(platform: Platform, bin_path: Seq<char>) -> Option<Seq<char>> {
    match parent_of(platform, bin_path) {
        Some(version_dir) => parent_of(platform, version_dir),
        None => None,
    }
}

/// Whether `code` is an HTTP status that reports success.
pub open spec fn is_success_status(code: u16) -> bool {
    200 <= code < 300
}

/// The directory of a tool, which holds all its installed versions.
pub open spec fn tool_home_of(home: Seq<char>, name: Seq<char>) -> Seq<char> {
    home + "/.cli-man/bin/"@ + name
}

/// Uninstalling removes the directory of the tool, with all its versions,
/// and nothing above it: for every home directory, and for every tool name
/// and version that is one path component.
pub proof fn lemma_uninstall_removes_the_tool_directory(
    home: Seq<char>,
    name: Seq<char>,
    version: Seq<char>,
    platform: Platform,
)
    requires
        is_component(platform, name),
        is_component(platform, version),
    ensures
        tool_dir_of(platform, bin_path_of(home, name, version, platform)) == Some(
            tool_home_of(home, name),
        ),
        parent_of(platform, bin_path_of(home, name, version, platform)) == Some(
            tool_home_of(home, name) + "/"@ + version,
        ),
{
    reveal_strlit("/.cli-man/bin/");
    reveal_strlit("/");
    reveal_strlit(".exe");
    let tool_dir = tool_home_of(home, name);
    let version_dir = tool_dir + "/"@ + version;
    let binary = binary_name_of(name, platform);
    assert("/"@ =~= seq!['/']);
    assert(tool_dir.last() == name.last());
    assert(version_dir.last() == version.last());
    assert(is_component(platform, binary)) by {
        assert forall|i: int| 0 <= i < binary.len() implies !is_separator_char(
            platform,
            #[trigger] binary[i],
        ) by {
            if i < name.len() {
                assert(binary[i] == name[i]);
            }
        }
    }
    assert(is_plain_dir(platform, tool_dir)) by {
        assert(prefix_len(platform, tool_dir) <= 2);
    }
    assert(is_plain_dir(platform, version_dir)) by {
        assert(prefix_len(platform, version_dir) <= 2);
    }
    lemma_parent_of_child(platform, tool_dir, '/', version);
    lemma_parent_of_child(platform, version_dir, '/', binary);
    assert(bin_path_of(home, name, version, platform) =~= version_dir + seq!['/'] + binary);
    assert(version_dir =~= tool_dir + seq!['/'] + version);
}

/// Calls `StatusCode::from_u16` and `StatusCode::is_success` of the `http`
/// crate, as `reqwest` exports them. A number from 100 to 999 is a status
/// code, and it reports success when it lies from 200 to 299; any other
/// number is no status code.
#[verifier::external_body]
fn status_reports_success(code: u16) -> (out: Option<bool>)
    ensures
        out == if 100 <= code <= 999 {
            Some(is_success_status(code))
        } else {
            None::<bool>
        },
{
    match reqwest::StatusCode::from_u16(code) {
        Ok(status) => Some(status.is_success()),
        Err(_) => None,
    }
}

/// Accepts the status of a download that succeeded and turns any other into
/// the error that carries it.
pub fn check_status(code: u16) -> (out: Result<(), InstallError>)
    ensures
        out == if is_success_status(code) {
            Ok::<(), InstallError>(())
        } else {
            Err::<(), InstallError>(InstallError::Http(code))
        },
{
    match status_reports_success(code) {
        Some(true) => Ok(()),
        _ => Err(InstallError::Http(code)),
    }
}

/// The environment variable that holds the home directory on `platform`.
pub fn home_variable(platform: Platform) -> (out: String)
    ensures
        out@ == home_variable_of(platform),
{
    match platform {
        Platform::Windows => String::from_str("USERPROFILE"),
        Platform::Posix => String::from_str("HOME"),
    }
}

/// Where the release of Terraform in `version` for `os` and `arch` is
/// published.
pub fn terraform_url(version: &str, os: TargetOs, arch: TargetArch) -> (out: String)
    ensures
        out@ == terraform_url_of(version@, os, arch),
{
    let mut out = String::from_str("https://releases.hashicorp.com/terraform/");
    out.append(version);
    out.append("/terraform_");
    out.append(version);
    out.append("_");
    match os {
        TargetOs::Windows => out.append("windows"),
        TargetOs::MacOs => out.append("darwin"),
        TargetOs::Linux => out.append("linux"),
    }
    out.append("_");
    match arch {
        TargetArch::X86_64 => out.append("amd64"),
        TargetArch::Aarch64 => out.append("arm64"),
        TargetArch::Other => out.append("386"),
    }
    out.append(".zip");
    out
}

/// Whether installing the binary at `bin_path` from `url` can be planned:
/// the binary has a directory to go to and the download can be unpacked.
pub open spec fn can_be_planned(platform: Platform, url: Seq<char>, bin_path: Seq<char>) -> bool {
    parent_of(platform, bin_path) is Some && payload_of(url) is Ok
}

/// The error with which planning the installation of the binary at
/// `bin_path` from `url` fails, where it fails.
pub open spec fn install_error_of(
    platform: Platform,
    url: Seq<char>,
    bin_path: Seq<char>,
) -> InstallError {
    if parent_of(platform, bin_path) is None {
        InstallError::NoParentDirectory
    } else {
        payload_of(url)->Err_0
    }
}

/// Whether `steps` install the binary at `bin_path` from `url`.
pub open spec fn planned(
    steps: InstallSteps,
    platform: Platform,
    url: Seq<char>,
    bin_path: Seq<char>,
) -> bool {
    &&& Some(steps.bin_dir@) == parent_of(platform, bin_path)
    &&& steps.url@ == url
    &&& Ok::<Payload, InstallError>(steps.payload) == payload_of(url)
    &&& steps.bin_path@ == bin_path
    &&& steps.mode == if platform == Platform::Windows {
        None::<u32>
    } else {
        Some(EXECUTABLE_MODE)
    }
}

/// What installing the binary at `bin_path` from `url` consists of.
pub fn download_and_install(platform: Platform, url: &str, bin_path: &str) -> (out: Result<
    InstallSteps,
    InstallError,
>)
    ensures
        match out {
            Ok(steps) => planned(steps, platform, url@, bin_path@),
            Err(error) => error == install_error_of(platform, url@, bin_path@),
        },
        out is Ok <==> can_be_planned(platform, url@, bin_path@),
{
    let bin_dir = match parent(platform, bin_path) {
        Some(dir) => dir,
        None => {
            return Err(InstallError::NoParentDirectory);
        },
    };
    let payload = if ends_with(url, ".zip") {
        Payload::ZipArchive
    } else if ends_with(url, ".tar.gz") {
        return Err(InstallError::UnsupportedArchive);
    } else {
        Payload::Binary
    };
    let mode = match platform {
        Platform::Windows => None,
        Platform::Posix => Some(EXECUTABLE_MODE),
    };
    Ok(
        InstallSteps {
            bin_dir,
            url: String::from_str(url),
            payload,
            bin_path: String::from_str(bin_path),
            mode,
        },
    )
}

/// A tool that can be installed.
pub trait CliInstaller {
    /// The name of the tool, as contracts speak of it. A verified installer
    /// says here what [`CliInstaller::name`] returns.
    open spec fn name_text(&self) -> Seq<char> {
        arbitrary()
    }

    /// The version of the tool, as contracts speak of it. A verified
    /// installer says here what [`CliInstaller::version`] returns.
    open spec fn version_text(&self) -> Seq<char> {
        arbitrary()
    }

    /// The name of the tool.
    fn name(&self) -> (out: &str)
        ensures
            out@ == self.name_text(),
    ;

    /// The version of the tool.
    fn version(&self) -> (out: &str)
        ensures
            out@ == self.version_text(),
    ;

    /// The name of the tool's binary on `platform`.
    fn binary_name(&self, platform: Platform) -> (out: String)
        ensures
            out@ == binary_name_of(self.name_text(), platform),
    {
        let mut out = String::from_str(self.name());
        match platform {
            Platform::Windows => out.append(".exe"),
            Platform::Posix => {},
        }
        out
    }

    /// Where the tool's binary is kept below the home directory `home`.
    fn bin_path(&self, platform: Platform, home: &str) -> (out: String)
        ensures
            out@ == bin_path_of(home@, self.name_text(), self.version_text(), platform),
    {
        let mut out = String::from_str(home);
        out.append("/.cli-man/bin/");
        out.append(self.name());
        out.append("/");
        out.append(self.version());
        out.append("/");
        out.append(self.binary_name(platform).as_str());
        out
    }
}

/// An installed tool.
pub trait Cli {
    /// Where the tool's binary is kept, as contracts speak of it. A verified
    /// tool says here what [`Cli::bin_path`] returns.
    open spec fn bin_path_text(&self, platform: Platform, home: Seq<char>) -> Seq<char> {
        arbitrary()
    }

    /// Where the tool's binary is kept below the home directory `home`.
    fn bin_path(&self, platform: Platform, home: &str) -> (out: String)
        ensures
            out@ == self.bin_path_text(platform, home@),
    ;

    /// The directory that uninstalling the tool removes, where the path of
    /// its binary has one two levels up.
    fn uninstall(&self, platform: Platform, home: &str) -> (out: Option<String>)
        ensures
            opt_text(out) == tool_dir_of(platform, self.bin_path_text(platform, home@)),
    {
        let bin_path = self.bin_path(platform, home);
        match parent(platform, bin_path.as_str()) {
            Some(version_dir) => parent(platform, version_dir.as_str()),
            None => None,
        }
    }
}

/// The Terraform command-line tool.
pub struct Terraform;

/// Installs Terraform in one version.
#[derive(Debug)]
pub struct TerraformInstaller {
    pub version: String,
}

/// Terraform as installed in one version.
#[derive(Debug)]
pub struct TerraformCli(pub TerraformInstaller);

/// What installing Terraform comes to: the installed tool, and the steps to
/// take where it was not installed yet.
#[derive(Debug)]
pub struct Installation {
    pub cli: TerraformCli,
    pub steps: Option<InstallSteps>,
}

impl Terraform {
    /// An installer of Terraform in `version`.
    pub fn new_installer(version: &str) -> (out: TerraformInstaller)
        ensures
            out.version@ == version@,
    {
        TerraformInstaller { version: String::from_str(version) }
    }
}

impl CliInstaller for TerraformInstaller {
    open spec fn name_text(&self) -> Seq<char> {
        "terraform"@
    }

    open spec fn version_text(&self) -> Seq<char> {
        self.version@
    }

    fn name(&self) -> (out: &str) {
        "terraform"
    }

    fn version(&self) -> (out: &str) {
        self.version.as_str()
    }
}

/// Installing Terraform can always be planned: its release is a zip archive
/// and its binary lies in a directory.
pub proof fn lemma_terraform_can_be_planned(
    home: Seq<char>,
    version: Seq<char>,
    os: TargetOs,
    arch: TargetArch,
    platform: Platform,
)
    ensures
        payload_of(terraform_url_of(version, os, arch)) == Ok::<Payload, InstallError>(
            Payload::ZipArchive,
        ),
        parent_of(platform, bin_path_of(home, "terraform"@, version, platform)) is Some,
        can_be_planned(
            platform,
            terraform_url_of(version, os, arch),
            bin_path_of(home, "terraform"@, version, platform),
        ),
{
    reveal_strlit(".zip");
    reveal_strlit(".exe");
    reveal_strlit("terraform");
    reveal_strlit("/.cli-man/bin/");
    let url = terraform_url_of(version, os, arch);
    assert(url.skip(url.len() - 4) =~= ".zip"@);
    let path = bin_path_of(home, "terraform"@, version, platform);
    let binary = binary_name_of("terraform"@, platform);
    assert(path.last() == binary.last());
    assert(!is_separator_char(platform, path.last()));
    assert(prefix_len(platform, path) <= 2);
    lemma_name_start(platform, path, path.len() - 1);
}

impl TerraformInstaller {
    /// Installs Terraform below the home directory `home`: nothing is to be
    /// done where its binary is `present` already, and otherwise the release
    /// for `os` and `arch` is downloaded and unpacked.
    pub fn install(
        self,
        platform: Platform,
        home: &str,
        os: TargetOs,
        arch: TargetArch,
        present: bool,
    ) -> (out: Installation)
        ensures
            out.cli.0 == self,
            match out.steps {
                None => present,
                Some(steps) => !present && planned(
                    steps,
                    platform,
                    terraform_url_of(self.version@, os, arch),
                    bin_path_of(home@, "terraform"@, self.version@, platform),
                ),
            },
    {
        if present {
            return Installation { cli: TerraformCli(self), steps: None };
        }
        let url = terraform_url(self.version.as_str(), os, arch);
        let bin_path = self.bin_path(platform, home);
        proof {
            lemma_terraform_can_be_planned(home@, self.version@, os, arch, platform);
        }
        match download_and_install(platform, url.as_str(), bin_path.as_str()) {
            Ok(steps) => Installation { cli: TerraformCli(self), steps: Some(steps) },
            Err(_) => unreached(),
        }
    }
}

impl Cli for TerraformCli {
    open spec fn bin_path_text(&self, platform: Platform, home: Seq<char>) -> Seq<char> {
        bin_path_of(home, "terraform"@, self.0.version@, platform)
    }

    fn bin_path(&self, platform: Platform, home: &str) -> (out: String) {
        self.0.bin_path(platform, home)
    }
}

} // verus!
