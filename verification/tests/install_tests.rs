use std::path::MAIN_SEPARATOR;
use tauri_client::error::{ClientError, ErrorKind, Operation, UrlProblem};
use tauri_client::install::{install_report, show_install_guide, silent_install, ProcessOutcome};
use tauri_client::platform::{Platform, ShellCommand};

fn s(text: &str) -> String {
    text.to_string()
}

#[test]
fn manual_guide_by_keyword() {
    assert_eq!(
        show_install_guide("记事本", "manual"),
        "手动安装指南:\n\n1. 下载 记事本 安装程序\n2. 双击运行安装程序\n3. 按照安装向导完成安装\n4. 安装完成后可以从开始菜单启动应用"
    );
}

#[test]
fn manual_guide_by_label() {
    assert_eq!(show_install_guide("Editor", "手动安装"), show_install_guide("Editor", "manual"));
    assert!(show_install_guide("Editor", "手动安装").contains("1. 下载 Editor 安装程序\n"));
}

#[test]
fn unknown_method_is_named_in_the_guide() {
    assert_eq!(show_install_guide("Editor", "portable"), "未知的安装方式: portable");
    assert_eq!(show_install_guide("Editor", "silent"), "未知的安装方式: silent");
    assert_eq!(show_install_guide("Editor", "静默安装"), "未知的安装方式: 静默安装");
    assert_eq!(show_install_guide("Editor", ""), "未知的安装方式: ");
    assert_eq!(show_install_guide("Editor", "Manual"), "未知的安装方式: Manual");
}

#[test]
fn install_plan_on_windows() {
    let plan = silent_install(
        Platform::Windows,
        s("https://example.com/setup%20x.exe"),
        s("setup%20x.exe"),
        "/S",
        Some(s("downloads")),
    )
    .unwrap();
    let path = format!("downloads{}setup x.exe", MAIN_SEPARATOR);
    assert_eq!(plan.target.path, path);
    assert_eq!(plan.target.source_url, "https://example.com/setup%20x.exe");
    assert_eq!(plan.target.decoded_filename, "setup x.exe");
    assert_eq!(plan.target.directory, "downloads");
    assert_eq!(
        plan.command,
        ShellCommand { program: s("cmd"), args: vec![s("/C"), path, s("/S")] }
    );
}

#[test]
fn install_is_refused_on_other_platforms_whatever_the_link() {
    for platform in [Platform::Linux, Platform::MacOs, Platform::Other] {
        for url in ["https://example.com/a.exe", "", "about:blank", "ftp://x"] {
            let plan = silent_install(platform, s(url), s("a.exe"), "/S", Some(s("d")));
            assert_eq!(plan, Err(ClientError::UnsupportedPlatform));
            assert_eq!(
                silent_install(platform, s(url), s("a.exe"), "/S", None),
                Err(ClientError::UnsupportedPlatform)
            );
        }
    }
    assert_eq!(ClientError::UnsupportedPlatform.kind(), ErrorKind::UnsupportedPlatform);
}

#[test]
fn install_revalidates_the_link() {
    let refused = |problem: UrlProblem, url: &str| {
        Err(ClientError::UrlRefused { operation: Operation::SilentInstall, problem, url: s(url) })
    };
    assert_eq!(
        silent_install(Platform::Windows, s(""), s("a.exe"), "/S", Some(s("d"))),
        refused(UrlProblem::Empty, "")
    );
    assert_eq!(
        silent_install(Platform::Windows, s("about:blank"), s("a.exe"), "/S", Some(s("d"))),
        refused(UrlProblem::Placeholder, "about:blank")
    );
    assert_eq!(
        silent_install(Platform::Windows, s("ftp://x"), s("a.exe"), "/S", None),
        refused(UrlProblem::UnsupportedScheme, "ftp://x")
    );
    let message = silent_install(Platform::Windows, s(""), s("a.exe"), "/S", Some(s("d")))
        .unwrap_err()
        .message();
    assert_eq!(message, "下载链接无效或为空，无法进行静默安装");
}

#[test]
fn install_fails_without_download_directory() {
    assert_eq!(
        silent_install(Platform::Windows, s("https://x/a.exe"), s("a.exe"), "/S", None),
        Err(ClientError::NoDownloadDirectory)
    );
}

#[test]
fn install_runs_the_decoded_file_with_the_given_parameters() {
    let plan =
        silent_install(Platform::Windows, s("https://x/a%2Eexe"), s("a%2Eexe"), "/quiet", Some(s("d")))
            .unwrap();
    assert_eq!(plan.target.decoded_filename, "a.exe");
    assert_eq!(plan.command.program, "cmd");
    assert_eq!(plan.command.args, vec![s("/C"), plan.target.path.clone(), s("/quiet")]);
}

#[test]
fn successful_run_is_reported_with_the_name() {
    let outcome = ProcessOutcome::Exited { success: true, stderr: s("warning: ignored") };
    assert_eq!(install_report("记事本", outcome), Ok(s("记事本 已成功静默安装")));
}

#[test]
fn failed_run_carries_the_error_stream() {
    let outcome = ProcessOutcome::Exited { success: false, stderr: s("disk full") };
    let report = install_report("记事本", outcome);
    assert_eq!(report, Err(ClientError::InstallerFailed(s("disk full"))));
    let error = report.unwrap_err();
    assert_eq!(error.kind(), ErrorKind::Process);
    assert_eq!(error.message(), "安装失败: disk full");
}

#[test]
fn failed_run_without_error_text() {
    let outcome = ProcessOutcome::Exited { success: false, stderr: s("") };
    assert_eq!(install_report("x", outcome).unwrap_err().message(), "安装失败: ");
}

#[test]
fn installer_that_never_started_is_reported() {
    let report = install_report("记事本", ProcessOutcome::NotStarted(s("not found")));
    assert_eq!(report, Err(ClientError::InstallerNotStarted(s("not found"))));
    assert_eq!(report.unwrap_err().message(), "执行安装命令失败: not found");
}
