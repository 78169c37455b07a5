use tauri_client::platform::{
    installer_command, open_directory_command, open_external_link, reveal_command, Platform,
    ShellCommand,
};
use tauri_client::text::{copy_field, field_or_empty, has_prefix, joined, same_text};

fn command(program: &str, args: &[&str]) -> ShellCommand {
    ShellCommand {
        program: program.to_string(),
        args: args.iter().map(|a| a.to_string()).collect(),
    }
}

#[test]
fn commands_are_built_argument_by_argument() {
    assert_eq!(ShellCommand::with_one("p", "a"), command("p", &["a"]));
    assert_eq!(ShellCommand::with_two("p", "a", "b"), command("p", &["a", "b"]));
    assert_eq!(ShellCommand::with_three("p", "a", "b", "c"), command("p", &["a", "b", "c"]));
}

#[test]
fn reveal_commands() {
    assert_eq!(
        reveal_command(Platform::Windows, "C:\\d\\f.exe", "C:\\d"),
        Some(command("explorer", &["/select,", "C:\\d\\f.exe"]))
    );
    assert_eq!(
        reveal_command(Platform::MacOs, "/d/f", "/d"),
        Some(command("open", &["-R", "/d/f"]))
    );
    assert_eq!(reveal_command(Platform::Linux, "/d/f", "/d"), Some(command("xdg-open", &["/d"])));
    assert_eq!(reveal_command(Platform::Other, "/d/f", "/d"), None);
}

#[test]
fn open_directory_commands() {
    assert_eq!(
        open_directory_command(Platform::Windows, "C:\\d"),
        Some(command("explorer", &["C:\\d"]))
    );
    assert_eq!(open_directory_command(Platform::MacOs, "/d"), Some(command("open", &["/d"])));
    assert_eq!(open_directory_command(Platform::Linux, "/d"), Some(command("xdg-open", &["/d"])));
    assert_eq!(open_directory_command(Platform::Other, "/d"), None);
}

#[test]
fn open_link_commands() {
    let url = "https://example.com/?q=1";
    assert_eq!(
        open_external_link(Platform::Windows, url),
        Some(command("cmd", &["/C", "start", url]))
    );
    assert_eq!(open_external_link(Platform::MacOs, url), Some(command("open", &[url])));
    assert_eq!(open_external_link(Platform::Linux, url), Some(command("xdg-open", &[url])));
    assert_eq!(open_external_link(Platform::Other, url), None);
}

#[test]
fn installer_commands() {
    assert_eq!(
        installer_command(Platform::Windows, "C:\\d\\setup.exe", "/S"),
        Some(command("cmd", &["/C", "C:\\d\\setup.exe", "/S"]))
    );
    assert_eq!(installer_command(Platform::MacOs, "/d/setup", "/S"), None);
    assert_eq!(installer_command(Platform::Linux, "/d/setup", "/S"), None);
    assert_eq!(installer_command(Platform::Other, "/d/setup", "/S"), None);
}

#[test]
fn text_comparison() {
    assert!(same_text("本机上传", "本机上传"));
    assert!(!same_text("本机上传", "本机上"));
    assert!(same_text("", ""));
    assert!(!same_text("a", "A"));
}

#[test]
fn prefix_test() {
    assert!(has_prefix("http://x", "http://"));
    assert!(has_prefix("http://", "http://"));
    assert!(!has_prefix("http:/", "http://"));
    assert!(!has_prefix("", "h"));
    assert!(has_prefix("", ""));
    assert!(has_prefix("abc", ""));
    assert!(has_prefix("中文名", "中文"));
    assert!(!has_prefix("中文名", "文"));
    assert!(!has_prefix("éa", "e"));
}

#[test]
fn field_helpers() {
    assert_eq!(copy_field(&Some("a".to_string())), Some("a".to_string()));
    assert_eq!(copy_field(&None), None);
    assert_eq!(field_or_empty(&Some("a".to_string())), "a");
    assert_eq!(field_or_empty(&None), "");
    assert_eq!(joined("前缀: ", "detail"), "前缀: detail");
    assert_eq!(joined("", ""), "");
}
