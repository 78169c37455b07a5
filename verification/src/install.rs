//! Installing a download: the guide for doing it by hand, and the plan and
//! the verdict of an unattended installation.
//!
//! An unattended installation is a download followed by one run of the
//! installer. This module plans both before anything is fetched, and judges
//! the run afterwards by how the installer ended. The transfer in between is
//! judged as that of any download.

use vstd::prelude::*;
use vstd::string::StringExecFns;
use crate::download::{download_plan, plan_download, DownloadPlan, DownloadTarget};
use crate::error::{ClientError, Failure, Operation};
use crate::platform::{installer_command, installer_invocation, Platform, ShellCommand};
use crate::text::{joined, same_text, text};

verus! {

/// Whether an install method asks for an installation by hand, under its
/// keyword or its label.
pub open spec fn is_manual(install_method: Seq<char>) -> bool {
    install_method == "manual"@ || install_method == "手动安装"@
}

/// The guide shown for an application and its install method.
pub open spec fn install_guide(app_name: Seq<char>, install_method: Seq<char>) -> Seq<char> {
    if is_manual(install_method) {
        "手动安装指南:\n\n1. 下载 "@ + app_name
            + " 安装程序\n2. 双击运行安装程序\n3. 按照安装向导完成安装\n4. 安装完成后可以从开始菜单启动应用"@
    } else {
        "未知的安装方式: "@ + install_method
    }
}

/// The guide for installing `app_name`: the steps of an installation by hand
/// for the manual method, and a note that names the method for any other.
pub fn show_install_guide(app_name: &str, install_method: &str) -> (guide: String)
    ensures
        guide@ == install_guide(app_name@, install_method@),
{
    if same_text(install_method, "manual") || same_text(install_method, "手动安装") {
        let opening = joined("手动安装指南:\n\n1. 下载 ", app_name);
        opening.concat(
            " 安装程序\n2. 双击运行安装程序\n3. 按照安装向导完成安装\n4. 安装完成后可以从开始菜单启动应用",
        )
    } else {
        joined("未知的安装方式: ", install_method)
    }
}

/// An unattended installation that is ready to start.
#[derive(Debug, Clone, PartialEq, Eq)]
pub struct InstallPlan {
    /// The download that brings the installer.
    pub target: DownloadTarget,
    /// The command that runs the installer once it is there.
    pub command: ShellCommand,
}

/// Whether the platform can run an installer unattended.
pub open spec fn can_install(platform: Platform) -> bool {
    platform == Platform::Windows
}

/// The download of an unattended installation, or the failure that stops it:
/// a platform that cannot install first, then a refused link, then a missing
/// download directory.
pub open spec fn install_download(
    platform: Platform,
    download_url: Seq<char>,
    filename: Seq<char>,
    download_dir: Option<Seq<char>>,
) -> Result<DownloadPlan, Failure> {
    if can_install(platform) {
        download_plan(Operation::SilentInstall, download_url, filename, download_dir)
    } else {
        Err(Failure::UnsupportedPlatform)
    }
}

/// Plans the unattended installation of the installer at `download_url`,
/// stored as `filename` in `download_dir`, the download directory of the
/// user, or `None` where the platform names none.
///
/// On a platform that cannot install the plan is refused whatever the link
/// is. Otherwise a refused link is reported with its reason, and a missing
/// download directory next. The plan that is made holds the download and the
/// command that runs the downloaded file with `install_params`.
pub fn silent_install(
    platform: Platform,
    download_url: String,
    filename: String,
    install_params: &str,
    download_dir: Option<String>,
) -> (res: Result<InstallPlan, ClientError>)
    ensures
        match install_download(platform, download_url@, filename@, text(download_dir)) {
            Ok(download) => res is Ok && res->Ok_0.target.plan() == download && Some(
                res->Ok_0.command@,
            ) == installer_invocation(platform, res->Ok_0.target.path@, install_params@),
            Err(failure) => res is Err && res->Err_0@ == failure,
        },
{
    match platform {
        Platform::Windows => {},
        _ => { return Err(ClientError::UnsupportedPlatform); },
    }
    let target = match plan_download(Operation::SilentInstall, download_url, filename, download_dir) {
        Ok(target) => target,
        Err(e) => { return Err(e); },
    };
    match installer_command(platform, target.path.as_str(), install_params) {
        Some(command) => Ok(InstallPlan { target, command }),
        None => Err(ClientError::UnsupportedPlatform),
    }
}

/// How the run of an installer ended.
#[derive(Debug, Clone, PartialEq, Eq)]
pub enum ProcessOutcome {
    /// The installer could not be started; the text says why.
    NotStarted(String),
    /// The installer ran to its end.
    Exited {
        /// Whether its exit status reports success.
        success: bool,
        /// What it wrote to its error stream.
        stderr: String,
    },
}

/// The note shown after an installation that went well.
pub open spec fn installed_note(app_name: Seq<char>) -> Seq<char> {
    app_name + " 已成功静默安装"@
}

/// The failure that a run of the installer amounts to, or `None` for a run
/// that ended with success.
pub open spec fn install_failure(outcome: ProcessOutcome) -> Option<Failure> {
    match outcome {
        ProcessOutcome::NotStarted(reason) => Some(Failure::InstallerNotStarted(reason@)),
        ProcessOutcome::Exited { success, stderr } => if success {
            None
        } else {
            Some(Failure::InstallerFailed(stderr@))
        },
    }
}

/// Judges an installation by the exit status of the installer alone: the
/// note of success for a run that ended well, the text of the error stream
/// for one that did not, and the reason for one that never started.
pub fn install_report(app_name: &str, outcome: ProcessOutcome) -> (res: Result<String, ClientError>)
    ensures
        match install_failure(outcome) {
            None => res is Ok && res->Ok_0@ == installed_note(app_name@),
            Some(failure) => res is Err && res->Err_0@ == failure,
        },
{
    match outcome {
        ProcessOutcome::NotStarted(reason) => Err(ClientError::InstallerNotStarted(reason)),
        ProcessOutcome::Exited { success, stderr } => {
            if success {
                Ok(joined(app_name, " 已成功静默安装"))
            } else {
                Err(ClientError::InstallerFailed(stderr))
            }
        },
    }
}

} // verus!
