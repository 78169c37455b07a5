use tauri_client::catalog::{Application, Category, LooseApiApplication};
use tauri_client::fetch::{
    fallback_applications, fallback_navigation_entries, get_applications, get_website_navigation,
    normalize_all_relaxed, normalize_all_strict, Fetched, WebsiteNavigation,
};

fn some(text: &str) -> Option<String> {
    Some(text.to_string())
}

fn record(id: i32, name: Option<&str>, kind: &str) -> LooseApiApplication {
    LooseApiApplication {
        id,
        name: name.map(|n| n.to_string()),
        version: None,
        category: Some(Category { name: "工具".to_string() }),
        short_description: some("说明"),
        download_type: some(kind),
        external_link: None,
        server_file_path: None,
        logo_url: None,
        icon: None,
        uploaded_file_url: some("https://files.example.com/u.exe"),
        install_method: some("manual"),
    }
}

fn nav(id: i32, name: &str, url: &str, order: i32) -> WebsiteNavigation {
    WebsiteNavigation { id, name: name.to_string(), url: url.to_string(), order }
}

#[test]
fn unreachable_endpoint_yields_the_two_sample_entries() {
    let apps = get_applications(Fetched::Unreachable);
    assert_eq!(apps.len(), 2);
    assert_eq!(apps[0].id, 1);
    assert_eq!(apps[0].name, "示例应用1");
    assert_eq!(apps[1].id, 2);
    assert_eq!(apps[1].name, "示例应用2");
}

#[test]
fn fallback_catalog_is_spelled_out() {
    let apps = fallback_applications();
    assert_eq!(
        apps,
        vec![
            Application {
                id: 1,
                name: "示例应用1".to_string(),
                description: "这是一个示例应用，用于测试UI".to_string(),
                icon: None,
                download_type: "external_link".to_string(),
                external_link: some("https://example.com/download1"),
                website_link: some("https://example.com/app1"),
                category_name: "工具".to_string(),
                install_method: "manual".to_string(),
                install_params: None,
            },
            Application {
                id: 2,
                name: "示例应用2".to_string(),
                description: "这是另一个示例应用".to_string(),
                icon: None,
                download_type: "external_link".to_string(),
                external_link: some("https://example.com/download2"),
                website_link: some("https://example.com/app2"),
                category_name: "游戏".to_string(),
                install_method: "silent".to_string(),
                install_params: some("/S"),
            },
        ]
    );
}

#[test]
fn refused_and_unreadable_answers_yield_the_fallback_catalog() {
    assert_eq!(get_applications(Fetched::Refused), fallback_applications());
    assert_eq!(get_applications(Fetched::Unreadable), fallback_applications());
    assert_eq!(get_applications(Fetched::Unreachable), fallback_applications());
}

#[test]
fn strict_list_is_converted_record_by_record() {
    let records = vec![record(1, Some("甲"), "未知"), record(2, Some("乙"), "本机上传")];
    let apps = get_applications(Fetched::Records(records));
    assert_eq!(apps.len(), 2);
    assert_eq!(apps[0].id, 1);
    assert_eq!(apps[0].name, "甲");
    assert_eq!(apps[0].external_link, some("https://files.example.com/u.exe"));
    assert_eq!(apps[1].id, 2);
    assert_eq!(apps[1].external_link, some("https://files.example.com/u.exe"));
}

#[test]
fn one_poor_record_costs_only_itself() {
    let records =
        vec![record(1, Some("甲"), "未知"), record(2, None, "本机上传"), record(3, Some("丙"), "未知")];
    let apps = get_applications(Fetched::Records(records));
    assert_eq!(apps.len(), 2);
    assert_eq!(apps[0].id, 1);
    assert_eq!(apps[0].external_link, some("https://files.example.com/u.exe"));
    assert_eq!(apps[1].id, 3);
}

#[test]
fn list_of_poor_records_yields_an_empty_catalog() {
    let records = vec![record(1, None, "未知"), record(2, None, "未知")];
    let apps = get_applications(Fetched::Records(records));
    assert!(apps.is_empty());
}

#[test]
fn empty_list_yields_an_empty_catalog() {
    let apps = get_applications(Fetched::Records(Vec::new()));
    assert!(apps.is_empty());
}

#[test]
fn order_of_the_service_is_kept() {
    let records = vec![
        record(30, Some("c"), "外部链接"),
        record(10, Some("a"), "外部链接"),
        record(20, Some("b"), "外部链接"),
    ];
    let ids: Vec<i32> = get_applications(Fetched::Records(records)).iter().map(|a| a.id).collect();
    assert_eq!(ids, vec![30, 10, 20]);
    let records = vec![
        record(30, Some("c"), "外部链接"),
        record(99, None, "外部链接"),
        record(10, Some("a"), "外部链接"),
    ];
    let ids: Vec<i32> = get_applications(Fetched::Records(records)).iter().map(|a| a.id).collect();
    assert_eq!(ids, vec![30, 10]);
}

#[test]
fn strict_pass_fails_as_a_whole() {
    let good = vec![record(1, Some("甲"), "未知"), record(2, Some("乙"), "未知")];
    assert_eq!(normalize_all_strict(&good).map(|apps| apps.len()), Some(2));
    let mixed = vec![record(1, Some("甲"), "未知"), record(2, None, "未知")];
    assert_eq!(normalize_all_strict(&mixed), None);
    assert_eq!(normalize_all_strict(&Vec::new()), Some(Vec::new()));
}

#[test]
fn relaxed_pass_drops_only_poor_records() {
    let mixed = vec![record(1, None, "未知"), record(2, Some("乙"), "未知"), record(3, None, "未知")];
    let apps = normalize_all_relaxed(&mixed);
    assert_eq!(apps.len(), 1);
    assert_eq!(apps[0].id, 2);
    assert!(normalize_all_relaxed(&Vec::new()).is_empty());
}

#[test]
fn navigation_of_the_service_is_passed_on() {
    let entries = vec![nav(5, "文档", "https://docs.example.com", 2), nav(6, "论坛", "https://bbs.example.com", 1)];
    let served = get_website_navigation(Fetched::Records(entries.clone()));
    assert_eq!(served, entries);
}

#[test]
fn empty_navigation_of_the_service_is_passed_on() {
    assert!(get_website_navigation(Fetched::Records(Vec::new())).is_empty());
}

#[test]
fn navigation_fallback_has_three_entries_in_order() {
    let served = get_website_navigation(Fetched::Unreachable);
    assert_eq!(
        served,
        vec![
            nav(1, "GitHub", "https://github.com", 1),
            nav(2, "Stack Overflow", "https://stackoverflow.com", 2),
            nav(3, "MDN Web Docs", "https://developer.mozilla.org", 3),
        ]
    );
    assert_eq!(get_website_navigation(Fetched::Refused), fallback_navigation_entries());
    assert_eq!(get_website_navigation(Fetched::Unreadable), fallback_navigation_entries());
}

#[test]
fn every_outcome_but_a_list_without_keepers_is_renderable() {
    assert!(!get_applications(Fetched::Unreachable).is_empty());
    assert!(!get_applications(Fetched::Refused).is_empty());
    assert!(!get_applications(Fetched::Unreadable).is_empty());
    assert!(!get_applications(Fetched::Records(vec![record(1, Some("甲"), "未知")])).is_empty());
    assert!(!get_applications(Fetched::Records(vec![
        record(1, None, "未知"),
        record(2, Some("乙"), "未知")
    ]))
    .is_empty());
}

#[test]
fn strict_and_relaxed_pass_agree_on_a_list_that_passes_strictly() {
    let records = vec![
        record(1, Some("甲"), "未知"),
        record(2, Some("乙"), "本机上传"),
        record(3, Some("丙"), "外部链接"),
    ];
    assert_eq!(normalize_all_strict(&records), Some(normalize_all_relaxed(&records)));
}
