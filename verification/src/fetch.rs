//! The lists served to the interface, whatever the remote service did.
//!
//! The caller asks the service and reports what came back as a [`Fetched`]
//! value. From it this module picks the list to show: the records of the
//! service where they can be used, a fixed list otherwise. A catalog is taken
//! strictly where every record has its required fields; where one has not, each
//! record is judged alone and the poor ones are dropped. Either way the
//! records that are kept become the same entries, in the order of the service.

use vstd::prelude::*;
use vstd::string::StringExecFns;
use crate::catalog::{
    as_strict, convert_api_to_app, convert_loose_to_app, has_required_fields, relaxed_normalized,
    required_present, strict_entry, strict_record, Application, Entry, LooseApiApplication,
    RawRecord,
};

verus! {

/// What came of asking the service for a list of `T`.
#[derive(Debug, Clone, PartialEq, Eq)]
pub enum Fetched<T> {
    /// The request did not get through: no connection, no name, no answer in time.
    Unreachable,
    /// The service answered with a status outside 200 to 299.
    Refused,
    /// The body could not be read, or is no list of records.
    Unreadable,
    /// The body is a list of records, in the order of the service.
    Records(Vec<T>),
}

/// An entry of the navigation list.
#[derive(Debug, Clone, PartialEq, Eq)]
pub struct WebsiteNavigation {
    pub id: i32,
    pub name: String,
    pub url: String,
    pub order: i32,
}

/// What a [`WebsiteNavigation`] holds.
pub struct NavigationEntry {
    pub id: int,
    pub name: Seq<char>,
    pub url: Seq<char>,
    pub order: int,
}

impl View for WebsiteNavigation {
    type V = NavigationEntry;

    open spec fn view(&self) -> NavigationEntry {
        NavigationEntry {
            id: self.id as int,
            name: self.name@,
            url: self.url@,
            order: self.order as int,
        }
    }
}

impl DeepView for WebsiteNavigation {
    type V = NavigationEntry;

    open spec fn deep_view(&self) -> NavigationEntry {
        self@
    }
}

/// The first fixed catalog entry.
pub open spec fn first_sample() -> Entry {
    Entry {
        id: 1,
        name: "示例应用1"@,
        description: "这是一个示例应用，用于测试UI"@,
        icon: None,
        download_type: "external_link"@,
        external_link: Some("https://example.com/download1"@),
        website_link: Some("https://example.com/app1"@),
        category_name: "工具"@,
        install_method: "manual"@,
        install_params: None,
    }
}

/// The second fixed catalog entry.
pub open spec fn second_sample() -> Entry {
    Entry {
        id: 2,
        name: "示例应用2"@,
        description: "这是另一个示例应用"@,
        icon: None,
        download_type: "external_link"@,
        external_link: Some("https://example.com/download2"@),
        website_link: Some("https://example.com/app2"@),
        category_name: "游戏"@,
        install_method: "silent"@,
        install_params: Some("/S"@),
    }
}

/// The catalog served when the service gave nothing usable.
pub open spec fn fallback_catalog() -> Seq<Entry> {
    seq![first_sample(), second_sample()]
}

/// The navigation list served when the service gave nothing usable.
pub open spec fn fallback_navigation() -> Seq<NavigationEntry> {
    seq![
        NavigationEntry { id: 1, name: "GitHub"@, url: "https://github.com"@, order: 1 },
        NavigationEntry {
            id: 2,
            name: "Stack Overflow"@,
            url: "https://stackoverflow.com"@,
            order: 2,
        },
        NavigationEntry {
            id: 3,
            name: "MDN Web Docs"@,
            url: "https://developer.mozilla.org"@,
            order: 3,
        },
    ]
}

/// Whether every record of a list passes strict normalisation.
pub open spec fn all_strict(records: Seq<RawRecord>) -> bool {
    forall|i: int| 0 <= i < records.len() ==> required_present(#[trigger] records[i])
}

/// The strict catalog of a list: the strict entry of each record, in order.
pub open spec fn strict_catalog(records: Seq<RawRecord>) -> Seq<Entry> {
    records.map_values(|r: RawRecord| strict_entry(as_strict(r)->0))
}

/// The relaxed catalog of a list: the relaxed entry of each record that has
/// its required fields, in order.
pub open spec fn relaxed_catalog(records: Seq<RawRecord>) -> Seq<Entry> {
    records.filter_map(|r: RawRecord| relaxed_normalized(r))
}

/// The catalog made of a list of records: strict where every record allows
/// it, relaxed otherwise.
pub open spec fn catalog_of_records(records: Seq<RawRecord>) -> Seq<Entry> {
    if all_strict(records) {
        strict_catalog(records)
    } else {
        relaxed_catalog(records)
    }
}

/// The catalog served for each outcome of asking the service.
pub open spec fn served_catalog(response: Fetched<LooseApiApplication>) -> Seq<Entry> {
    match response {
        Fetched::Records(records) => catalog_of_records(records.deep_view()),
        _ => fallback_catalog(),
    }
}

/// The navigation list served for each outcome of asking the service.
pub open spec fn served_navigation(response: Fetched<WebsiteNavigation>) -> Seq<NavigationEntry> {
    match response {
        Fetched::Records(entries) => entries.deep_view(),
        _ => fallback_navigation(),
    }
}

/// Adding a record at the end of a list adds its relaxed entry to the relaxed
/// catalog, or nothing where it lacks a required field.
pub proof fn lemma_relaxed_catalog_step(records: Seq<RawRecord>, i: int)
    requires
        0 <= i < records.len(),
    ensures
        relaxed_catalog(records.take(i + 1)) == match relaxed_normalized(records[i]) {
            Some(entry) => relaxed_catalog(records.take(i)).push(entry),
            None => relaxed_catalog(records.take(i)),
        },
{
    records.lemma_filter_map_take_succ(|r: RawRecord| relaxed_normalized(r), i);
}

/// The fixed catalog.
pub fn fallback_applications() -> (apps: Vec<Application>)
    ensures
        apps.deep_view() == fallback_catalog(),
{
    let mut apps: Vec<Application> = Vec::new();
    apps.push(
        Application {
            id: 1,
            name: String::from_str("示例应用1"),
            description: String::from_str("这是一个示例应用，用于测试UI"),
            icon: None,
            download_type: String::from_str("external_link"),
            external_link: Some(String::from_str("https://example.com/download1")),
            website_link: Some(String::from_str("https://example.com/app1")),
            category_name: String::from_str("工具"),
            install_method: String::from_str("manual"),
            install_params: None,
        },
    );
    apps.push(
        Application {
            id: 2,
            name: String::from_str("示例应用2"),
            description: String::from_str("这是另一个示例应用"),
            icon: None,
            download_type: String::from_str("external_link"),
            external_link: Some(String::from_str("https://example.com/download2")),
            website_link: Some(String::from_str("https://example.com/app2")),
            category_name: String::from_str("游戏"),
            install_method: String::from_str("silent"),
            install_params: Some(String::from_str("/S")),
        },
    );
    apps
}

/// The fixed navigation list.
pub fn fallback_navigation_entries() -> (entries: Vec<WebsiteNavigation>)
    ensures
        entries.deep_view() == fallback_navigation(),
{
    let mut entries: Vec<WebsiteNavigation> = Vec::new();
    entries.push(
        WebsiteNavigation {
            id: 1,
            name: String::from_str("GitHub"),
            url: String::from_str("https://github.com"),
            order: 1,
        },
    );
    entries.push(
        WebsiteNavigation {
            id: 2,
            name: String::from_str("Stack Overflow"),
            url: String::from_str("https://stackoverflow.com"),
            order: 2,
        },
    );
    entries.push(
        WebsiteNavigation {
            id: 3,
            name: String::from_str("MDN Web Docs"),
            url: String::from_str("https://developer.mozilla.org"),
            order: 3,
        },
    );
    entries
}

/// The strict catalog of a list, or `None` where a record fails strict
/// normalisation.
pub fn normalize_all_strict(records: &Vec<LooseApiApplication>) -> (res: Option<Vec<Application>>)
    ensures
        res is Some <==> all_strict(records.deep_view()),
        res matches Some(apps) ==> apps.deep_view() == strict_catalog(records.deep_view()),
{
    let mut apps: Vec<Application> = Vec::new();
    let mut i: usize = 0;
    while i < records.len()
        invariant
            i <= records.len(),
            apps.len() == i,
            forall|k: int| 0 <= k < i ==> required_present(#[trigger] records.deep_view()[k]),
            forall|k: int|
                0 <= k < i ==> #[trigger] apps[k]@ == strict_entry(as_strict(records[k]@)->0),
        decreases records.len() - i,
    {
        match strict_record(&records[i]) {
            Some(strict) => {
                apps.push(convert_api_to_app(&strict));
            },
            None => {
                assert(!required_present(records.deep_view()[i as int]));
                return None;
            },
        }
        i += 1;
    }
    Some(apps)
}

/// The relaxed catalog of a list.
pub fn normalize_all_relaxed(records: &Vec<LooseApiApplication>) -> (apps: Vec<Application>)
    ensures
        apps.deep_view() == relaxed_catalog(records.deep_view()),
{
    let mut apps: Vec<Application> = Vec::new();
    let mut i: usize = 0;
    while i < records.len()
        invariant
            i <= records.len(),
            apps.deep_view() == relaxed_catalog(records.deep_view().take(i as int)),
        decreases records.len() - i,
    {
        proof {
            lemma_relaxed_catalog_step(records.deep_view(), i as int);
        }
        if has_required_fields(&records[i]) {
            apps.push(convert_loose_to_app(&records[i]));
        }
        i += 1;
    }
    assert(records.deep_view().take(records.len() as int) =~= records.deep_view());
    apps
}

/// The catalog to show, for each outcome of asking the service.
///
/// A list of records is normalised strictly where every record allows it,
/// and record by record otherwise, which may leave no entry at all. Every
/// other outcome is answered with the fixed catalog. The body of a refused
/// request is not looked at.
pub fn get_applications(response: Fetched<LooseApiApplication>) -> (apps: Vec<Application>)
    ensures
        apps.deep_view() == served_catalog(response),
{
    match response {
        Fetched::Records(records) => {
            match normalize_all_strict(&records) {
                Some(apps) => apps,
                None => normalize_all_relaxed(&records),
            }
        },
        _ => fallback_applications(),
    }
}

/// The navigation list to show, for each outcome of asking the service: the
/// entries of the service as they came, or the fixed list.
pub fn get_website_navigation(response: Fetched<WebsiteNavigation>) -> (entries: Vec<
    WebsiteNavigation,
>)
    ensures
        entries.deep_view() == served_navigation(response),
{
    match response {
        Fetched::Records(entries) => entries,
        _ => fallback_navigation_entries(),
    }
}

/// The relaxed catalog has at most one entry for each record, and at least
/// one entry where some record has its required fields.
pub proof fn lemma_relaxed_catalog_len(records: Seq<RawRecord>)
    ensures
        relaxed_catalog(records).len() <= records.len(),
        (exists|i: int| 0 <= i < records.len() && required_present(#[trigger] records[i]))
            ==> relaxed_catalog(records).len() > 0,
    decreases records.len(),
{
    if records.len() > 0 {
        let init = records.drop_last();
        lemma_relaxed_catalog_len(init);
        if exists|i: int| 0 <= i < records.len() && required_present(#[trigger] records[i]) {
            let i = choose|i: int| 0 <= i < records.len() && required_present(#[trigger] records[i]);
            if i < init.len() {
                assert(required_present(init[i]));
            }
        }
    }
}

/// The catalog of a list of records is its relaxed catalog: a list that
/// passes strictly loses nothing and gains nothing by being judged record by
/// record.
pub proof fn lemma_tiers_agree(records: Seq<RawRecord>)
    ensures
        catalog_of_records(records) == relaxed_catalog(records),
    decreases records.len(),
{
    if all_strict(records) {
        if records.len() > 0 {
            let init = records.drop_last();
            assert forall|i: int| 0 <= i < init.len() implies required_present(
                #[trigger] init[i],
            ) by {}
            lemma_tiers_agree(init);
            assert(strict_catalog(records) =~= strict_catalog(init).push(
                relaxed_normalized(records.last())->0,
            ));
        }
    }
}

/// A catalog is always served. When the service was unreachable, refused the
/// request or sent a body that is no list of records, it is the fixed catalog
/// of two entries. When every record passes strictly, it has one entry for
/// each record. When some record has its required fields, it is not empty.
/// It is empty only when no record of the list can be kept.
pub proof fn lemma_catalog_served(response: Fetched<LooseApiApplication>)
    ensures
        !(response is Records) ==> served_catalog(response) == fallback_catalog(),
        !(response is Records) ==> served_catalog(response).len() == 2,
        response matches Fetched::Records(records) ==> {
            let given = records.deep_view();
            &&& all_strict(given) ==> served_catalog(response).len() == given.len()
            &&& served_catalog(response).len() <= given.len()
            &&& (served_catalog(response).len() == 0 <==> forall|i: int|
                0 <= i < given.len() ==> !required_present(#[trigger] given[i]))
        },
{
    if let Fetched::Records(records) = response {
        let given = records.deep_view();
        lemma_relaxed_catalog_len(given);
        if forall|i: int| 0 <= i < given.len() ==> !required_present(#[trigger] given[i]) {
            lemma_relaxed_catalog_none(given);
        }
    }
}

/// Where no record has its required fields, the relaxed catalog is empty.
pub proof fn lemma_relaxed_catalog_none(records: Seq<RawRecord>)
    requires
        forall|i: int| 0 <= i < records.len() ==> !required_present(#[trigger] records[i]),
    ensures
        relaxed_catalog(records).len() == 0,
    decreases records.len(),
{
    if records.len() > 0 {
        let init = records.drop_last();
        assert forall|i: int| 0 <= i < init.len() implies !required_present(
            #[trigger] init[i],
        ) by {}
        lemma_relaxed_catalog_none(init);
    }
}

/// A navigation list is always served. When the service was unreachable,
/// refused the request or sent a body that is no list of entries, it is the
/// fixed list of three entries; otherwise it is the list of the service,
/// entry for entry.
pub proof fn lemma_navigation_served(response: Fetched<WebsiteNavigation>)
    ensures
        !(response is Records) ==> served_navigation(response) == fallback_navigation(),
        !(response is Records) ==> served_navigation(response).len() == 3,
        response matches Fetched::Records(entries) ==> served_navigation(response)
            == entries.deep_view(),
{
}

} // verus!
