//! Raw catalog records and their normalisation into display entries.
//!
//! The remote service sends application records whose business fields may be
//! missing. A record is normalised in one of two modes. Strict mode reads a
//! record in which name, category, description, download type and install
//! method are all present, and rejects any other. Relaxed mode reads whatever
//! there is, puts a default in place of what is missing, and keeps the entry
//! only where those five fields were present. A record that both modes keep
//! becomes the same entry in both.

use vstd::prelude::*;
use vstd::string::StringExecFns;
use crate::text::{copy_field, field_or_empty, same_text, text, text_or_empty};

verus! {

/// The category of an application, as the service sends it.
#[derive(Debug, Clone, PartialEq, Eq)]
pub struct Category {
    pub name: String,
}

/// A record in which every business field is present.
#[derive(Debug, Clone, PartialEq, Eq)]
pub struct ApiApplication {
    pub id: i32,
    pub name: String,
    pub version: Option<String>,
    pub category: Category,
    pub short_description: Option<String>,
    pub download_type: String,
    pub external_link: Option<String>,
    pub server_file_path: Option<String>,
    pub logo_url: Option<String>,
    pub icon: Option<String>,
    pub uploaded_file_url: Option<String>,
    pub install_method: String,
}

/// A record as the service may really send it: only the identifier is certain.
#[derive(Debug, Clone, PartialEq, Eq)]
pub struct LooseApiApplication {
    pub id: i32,
    pub name: Option<String>,
    pub version: Option<String>,
    pub category: Option<Category>,
    pub short_description: Option<String>,
    pub download_type: Option<String>,
    pub external_link: Option<String>,
    pub server_file_path: Option<String>,
    pub logo_url: Option<String>,
    pub icon: Option<String>,
    pub uploaded_file_url: Option<String>,
    pub install_method: Option<String>,
}

/// A catalog entry ready for display, download and installation.
#[derive(Debug, Clone, PartialEq, Eq)]
pub struct Application {
    pub id: i32,
    pub name: String,
    pub description: String,
    pub icon: Option<String>,
    pub download_type: String,
    pub external_link: Option<String>,
    pub website_link: Option<String>,
    pub category_name: String,
    pub install_method: String,
    pub install_params: Option<String>,
}

/// What an [`ApiApplication`] holds.
pub struct StrictRecord {
    pub id: int,
    pub name: Seq<char>,
    pub version: Option<Seq<char>>,
    pub category: Seq<char>,
    pub short_description: Option<Seq<char>>,
    pub download_type: Seq<char>,
    pub external_link: Option<Seq<char>>,
    pub server_file_path: Option<Seq<char>>,
    pub logo_url: Option<Seq<char>>,
    pub icon: Option<Seq<char>>,
    pub uploaded_file_url: Option<Seq<char>>,
    pub install_method: Seq<char>,
}

/// What a [`LooseApiApplication`] holds; `category` is the category's name.
pub struct RawRecord {
    pub id: int,
    pub name: Option<Seq<char>>,
    pub version: Option<Seq<char>>,
    pub category: Option<Seq<char>>,
    pub short_description: Option<Seq<char>>,
    pub download_type: Option<Seq<char>>,
    pub external_link: Option<Seq<char>>,
    pub server_file_path: Option<Seq<char>>,
    pub logo_url: Option<Seq<char>>,
    pub icon: Option<Seq<char>>,
    pub uploaded_file_url: Option<Seq<char>>,
    pub install_method: Option<Seq<char>>,
}

/// What an [`Application`] holds.
pub struct Entry {
    pub id: int,
    pub name: Seq<char>,
    pub description: Seq<char>,
    pub icon: Option<Seq<char>>,
    pub download_type: Seq<char>,
    pub external_link: Option<Seq<char>>,
    pub website_link: Option<Seq<char>>,
    pub category_name: Seq<char>,
    pub install_method: Seq<char>,
    pub install_params: Option<Seq<char>>,
}

impl View for ApiApplication {
    type V = StrictRecord;

    open spec fn view(&self) -> StrictRecord {
        StrictRecord {
            id: self.id as int,
            name: self.name@,
            version: text(self.version),
            category: self.category.name@,
            short_description: text(self.short_description),
            download_type: self.download_type@,
            external_link: text(self.external_link),
            server_file_path: text(self.server_file_path),
            logo_url: text(self.logo_url),
            icon: text(self.icon),
            uploaded_file_url: text(self.uploaded_file_url),
            install_method: self.install_method@,
        }
    }
}

impl View for LooseApiApplication {
    type V = RawRecord;

    open spec fn view(&self) -> RawRecord {
        RawRecord {
            id: self.id as int,
            name: text(self.name),
            version: text(self.version),
            category: match self.category {
                Some(c) => Some(c.name@),
                None => None,
            },
            short_description: text(self.short_description),
            download_type: text(self.download_type),
            external_link: text(self.external_link),
            server_file_path: text(self.server_file_path),
            logo_url: text(self.logo_url),
            icon: text(self.icon),
            uploaded_file_url: text(self.uploaded_file_url),
            install_method: text(self.install_method),
        }
    }
}

impl View for Application {
    type V = Entry;

    open spec fn view(&self) -> Entry {
        Entry {
            id: self.id as int,
            name: self.name@,
            description: self.description@,
            icon: text(self.icon),
            download_type: self.download_type@,
            external_link: text(self.external_link),
            website_link: text(self.website_link),
            category_name: self.category_name@,
            install_method: self.install_method@,
            install_params: text(self.install_params),
        }
    }
}

impl DeepView for LooseApiApplication {
    type V = RawRecord;

    open spec fn deep_view(&self) -> RawRecord {
        self@
    }
}

impl DeepView for Application {
    type V = Entry;

    open spec fn deep_view(&self) -> Entry {
        self@
    }
}

/// The download type that marks a file uploaded to the service itself.
pub open spec fn uploaded_label() -> Seq<char> {
    "本机上传"@
}

/// The download type that marks an external link, as the service labels it.
pub open spec fn external_label() -> Seq<char> {
    "外部链接"@
}

/// The download type that marks an external link, as a keyword.
pub open spec fn external_keyword() -> Seq<char> {
    "external_link"@
}

/// The install method that asks for an unattended installation, as the
/// service labels it.
pub open spec fn silent_label() -> Seq<char> {
    "静默安装"@
}

/// The install method that asks for an unattended installation, as a keyword.
pub open spec fn silent_keyword() -> Seq<char> {
    "silent"@
}

/// The switch handed to an installer that is to run unattended.
pub open spec fn silent_switch() -> Seq<char> {
    "/S"@
}

/// Whether an install method asks for an unattended installation.
pub open spec fn is_silent(install_method: Seq<char>) -> bool {
    install_method == silent_label() || install_method == silent_keyword()
}

/// The icon of an entry: the explicit icon where the record has one, the
/// legacy logo otherwise.
pub open spec fn icon_of(icon: Option<Seq<char>>, logo_url: Option<Seq<char>>) -> Option<
    Seq<char>,
> {
    if icon is Some {
        icon
    } else {
        logo_url
    }
}

/// The download link of an entry: the uploaded file for the uploaded type,
/// the external link for an external type, and for a type that is missing or
/// unknown the external link, or failing that the uploaded file.
pub open spec fn download_link_of(
    download_type: Option<Seq<char>>,
    external_link: Option<Seq<char>>,
    uploaded_file_url: Option<Seq<char>>,
) -> Option<Seq<char>> {
    if download_type == Some(uploaded_label()) {
        uploaded_file_url
    } else if download_type == Some(external_label()) || download_type == Some(
        external_keyword(),
    ) {
        external_link
    } else if external_link is Some {
        external_link
    } else {
        uploaded_file_url
    }
}

/// The installer arguments of an entry: the silent switch for a silent
/// install method, none for any other.
pub open spec fn install_params_of(install_method: Option<Seq<char>>) -> Option<Seq<char>> {
    match install_method {
        Some(m) => if is_silent(m) {
            Some(silent_switch())
        } else {
            None
        },
        None => None,
    }
}

/// The entry that a strict record becomes.
pub open spec fn strict_entry(r: StrictRecord) -> Entry {
    Entry {
        id: r.id,
        name: r.name,
        description: text_or_empty(r.short_description),
        icon: icon_of(r.icon, r.logo_url),
        download_type: r.download_type,
        external_link: download_link_of(
            Some(r.download_type),
            r.external_link,
            r.uploaded_file_url,
        ),
        website_link: None,
        category_name: r.category,
        install_method: r.install_method,
        install_params: install_params_of(Some(r.install_method)),
    }
}

/// The entry that a raw record becomes when every missing field takes its
/// default.
pub open spec fn relaxed_entry(r: RawRecord) -> Entry {
    Entry {
        id: r.id,
        name: text_or_empty(r.name),
        description: text_or_empty(r.short_description),
        icon: icon_of(r.icon, r.logo_url),
        download_type: text_or_empty(r.download_type),
        external_link: download_link_of(r.download_type, r.external_link, r.uploaded_file_url),
        website_link: None,
        category_name: text_or_empty(r.category),
        install_method: text_or_empty(r.install_method),
        install_params: install_params_of(r.install_method),
    }
}

/// Whether a raw record has the five fields without which it is not kept.
pub open spec fn required_present(r: RawRecord) -> bool {
    &&& r.name is Some
    &&& r.category is Some
    &&& r.short_description is Some
    &&& r.download_type is Some
    &&& r.install_method is Some
}

/// A raw record read as a strict one; `None` where a required field is missing.
pub open spec fn as_strict(r: RawRecord) -> Option<StrictRecord> {
    if required_present(r) {
        Some(
            StrictRecord {
                id: r.id,
                name: r.name->0,
                version: r.version,
                category: r.category->0,
                short_description: r.short_description,
                download_type: r.download_type->0,
                external_link: r.external_link,
                server_file_path: r.server_file_path,
                logo_url: r.logo_url,
                icon: r.icon,
                uploaded_file_url: r.uploaded_file_url,
                install_method: r.install_method->0,
            },
        )
    } else {
        None
    }
}

/// Strict normalisation: the entry of the record read strictly, or a rejection.
pub open spec fn strictly_normalized(r: RawRecord) -> Option<Entry> {
    match as_strict(r) {
        Some(s) => Some(strict_entry(s)),
        None => None,
    }
}

/// Relaxed normalisation: the entry with defaults, or nothing where a required
/// field is missing.
pub open spec fn relaxed_normalized(r: RawRecord) -> Option<Entry> {
    if required_present(r) {
        Some(relaxed_entry(r))
    } else {
        None
    }
}

/// Picks the icon source of a record.
pub fn resolve_icon(icon: &Option<String>, logo_url: &Option<String>) -> (res: Option<String>)
    ensures
        text(res) == icon_of(text(*icon), text(*logo_url)),
{
    match icon {
        Some(explicit) => Some(explicit.clone()),
        None => copy_field(logo_url),
    }
}

/// Picks the download link of a record whose download type is `download_type`.
pub fn resolve_download_link(
    download_type: Option<&str>,
    external_link: &Option<String>,
    uploaded_file_url: &Option<String>,
) -> (res: Option<String>)
    ensures
        text(res) == download_link_of(
            match download_type {
                Some(kind) => Some(kind@),
                None => None,
            },
            text(*external_link),
            text(*uploaded_file_url),
        ),
{
    match download_type {
        Some(kind) => {
            if same_text(kind, "本机上传") {
                return copy_field(uploaded_file_url);
            }
            if same_text(kind, "外部链接") || same_text(kind, "external_link") {
                return copy_field(external_link);
            }
        },
        None => {},
    }
    match external_link {
        Some(link) => Some(link.clone()),
        None => copy_field(uploaded_file_url),
    }
}

/// Whether an install method asks for an unattended installation.
pub fn is_silent_method(install_method: &str) -> (res: bool)
    ensures
        res == is_silent(install_method@),
{
    same_text(install_method, "静默安装") || same_text(install_method, "silent")
}

/// The installer arguments that go with an install method.
pub fn switch_for(install_method: &str) -> (res: Option<String>)
    ensures
        text(res) == install_params_of(Some(install_method@)),
{
    if is_silent_method(install_method) {
        Some(String::from_str("/S"))
    } else {
        None
    }
}

/// The installer arguments that go with an install method that may be
/// missing.
pub fn silent_params(install_method: &Option<String>) -> (res: Option<String>)
    ensures
        text(res) == install_params_of(text(*install_method)),
{
    match install_method {
        Some(method) => switch_for(method.as_str()),
        None => None,
    }
}

/// Turns a strict record into a catalog entry.
pub fn convert_api_to_app(api_app: &ApiApplication) -> (app: Application)
    ensures
        app@ == strict_entry(api_app@),
{
    Application {
        id: api_app.id,
        name: api_app.name.clone(),
        description: field_or_empty(&api_app.short_description),
        icon: resolve_icon(&api_app.icon, &api_app.logo_url),
        download_type: api_app.download_type.clone(),
        external_link: resolve_download_link(
            Some(api_app.download_type.as_str()),
            &api_app.external_link,
            &api_app.uploaded_file_url,
        ),
        website_link: None,
        category_name: api_app.category.name.clone(),
        install_method: api_app.install_method.clone(),
        install_params: switch_for(api_app.install_method.as_str()),
    }
}

/// Turns a raw record into a catalog entry, with a default for every field
/// that is missing.
pub fn convert_loose_to_app(loose_app: &LooseApiApplication) -> (app: Application)
    ensures
        app@ == relaxed_entry(loose_app@),
{
    let category_name = match &loose_app.category {
        Some(category) => category.name.clone(),
        None => String::new(),
    };
    let download_type = match &loose_app.download_type {
        Some(kind) => Some(kind.as_str()),
        None => None,
    };
    Application {
        id: loose_app.id,
        name: field_or_empty(&loose_app.name),
        description: field_or_empty(&loose_app.short_description),
        icon: resolve_icon(&loose_app.icon, &loose_app.logo_url),
        download_type: field_or_empty(&loose_app.download_type),
        external_link: resolve_download_link(
            download_type,
            &loose_app.external_link,
            &loose_app.uploaded_file_url,
        ),
        website_link: None,
        category_name,
        install_method: field_or_empty(&loose_app.install_method),
        install_params: silent_params(&loose_app.install_method),
    }
}

/// Whether a raw record has the five fields without which it is not kept.
pub fn has_required_fields(raw: &LooseApiApplication) -> (res: bool)
    ensures
        res == required_present(raw@),
{
    raw.name.is_some() && raw.category.is_some() && raw.short_description.is_some()
        && raw.download_type.is_some() && raw.install_method.is_some()
}

/// Reads a raw record as a strict one, or rejects it.
pub fn strict_record(raw: &LooseApiApplication) -> (res: Option<ApiApplication>)
    ensures
        res is Some <==> required_present(raw@),
        match res {
            Some(strict) => Some(strict@) == as_strict(raw@),
            None => as_strict(raw@) is None,
        },
{
    if raw.short_description.is_none() {
        return None;
    }
    match (&raw.name, &raw.category, &raw.download_type, &raw.install_method) {
        (Some(name), Some(category), Some(download_type), Some(install_method)) => Some(
            ApiApplication {
                id: raw.id,
                name: name.clone(),
                version: copy_field(&raw.version),
                category: Category { name: category.name.clone() },
                short_description: copy_field(&raw.short_description),
                download_type: download_type.clone(),
                external_link: copy_field(&raw.external_link),
                server_file_path: copy_field(&raw.server_file_path),
                logo_url: copy_field(&raw.logo_url),
                icon: copy_field(&raw.icon),
                uploaded_file_url: copy_field(&raw.uploaded_file_url),
                install_method: install_method.clone(),
            },
        ),
        _ => None,
    }
}

/// Strict normalisation of one raw record: its entry, or a rejection where any
/// of the five required fields is missing.
pub fn normalize_strict(raw: &LooseApiApplication) -> (res: Option<Application>)
    ensures
        res is Some <==> required_present(raw@),
        match res {
            Some(app) => Some(app@) == strictly_normalized(raw@),
            None => strictly_normalized(raw@) is None,
        },
{
    match strict_record(raw) {
        Some(strict) => Some(convert_api_to_app(&strict)),
        None => None,
    }
}

/// Relaxed normalisation of one raw record: its entry with defaults, or
/// nothing where any of the five required fields is missing.
pub fn normalize_relaxed(raw: &LooseApiApplication) -> (res: Option<Application>)
    ensures
        res is Some <==> required_present(raw@),
        match res {
            Some(app) => Some(app@) == relaxed_normalized(raw@),
            None => relaxed_normalized(raw@) is None,
        },
{
    if has_required_fields(raw) {
        Some(convert_loose_to_app(raw))
    } else {
        None
    }
}

/// A raw record that lacks any one of name, category, description, download
/// type or install method is rejected by strict normalisation and dropped by
/// relaxed normalisation; a record that has all five is kept by both. Either
/// way each mode gives an answer: neither fails.
pub proof fn lemma_missing_field_rejects(r: RawRecord)
    ensures
        strictly_normalized(r) is Some <==> required_present(r),
        relaxed_normalized(r) is Some <==> required_present(r),
        r.name is None || r.category is None || r.short_description is None
            || r.download_type is None || r.install_method is None ==> strictly_normalized(r)
            is None && relaxed_normalized(r) is None,
{
}

/// Whatever a raw record lacks, its relaxed entry has the empty text in
/// place of a missing text, and no value in place of a missing link or icon.
pub proof fn lemma_relaxed_defaults(r: RawRecord)
    ensures
        r.name is None ==> relaxed_entry(r).name == Seq::<char>::empty(),
        r.short_description is None ==> relaxed_entry(r).description == Seq::<char>::empty(),
        r.category is None ==> relaxed_entry(r).category_name == Seq::<char>::empty(),
        r.download_type is None ==> relaxed_entry(r).download_type == Seq::<char>::empty(),
        r.install_method is None ==> relaxed_entry(r).install_method == Seq::<char>::empty(),
        r.install_method is None ==> relaxed_entry(r).install_params is None,
        r.icon is None && r.logo_url is None ==> relaxed_entry(r).icon is None,
        r.external_link is None && r.uploaded_file_url is None ==> relaxed_entry(r).external_link
            is None,
        relaxed_entry(r).website_link is None,
{
}

/// Icon resolution answers for every pair of fields, prefers the explicit
/// icon, falls back to the logo, and resolving again changes nothing.
pub proof fn lemma_icon_resolution(icon: Option<Seq<char>>, logo_url: Option<Seq<char>>)
    ensures
        icon is Some ==> icon_of(icon, logo_url) == icon,
        icon is None ==> icon_of(icon, logo_url) == logo_url,
        icon is None && logo_url is None ==> icon_of(icon, logo_url) is None,
        icon_of(icon_of(icon, logo_url), logo_url) == icon_of(icon, logo_url),
{
}

/// The uploaded download type always yields the uploaded file. A type that
/// is missing or unknown yields the external link or, failing that, the
/// uploaded file, so that the link is absent only when both fields are. A
/// type that names an external link yields the external link alone; that is
/// the external link or, failing that, the uploaded file, except where the
/// record has an uploaded file and no external link.
pub proof fn lemma_download_link(
    download_type: Option<Seq<char>>,
    external_link: Option<Seq<char>>,
    uploaded_file_url: Option<Seq<char>>,
)
    ensures
        download_type == Some(uploaded_label()) ==> download_link_of(
            download_type,
            external_link,
            uploaded_file_url,
        ) == uploaded_file_url,
        download_type == Some(external_label()) || download_type == Some(external_keyword())
            ==> download_link_of(download_type, external_link, uploaded_file_url)
            == external_link,
        download_type != Some(uploaded_label()) && download_type != Some(external_label())
            && download_type != Some(external_keyword()) ==> {
            let link = download_link_of(download_type, external_link, uploaded_file_url);
            &&& link == if external_link is Some {
                external_link
            } else {
                uploaded_file_url
            }
            &&& (link is None <==> external_link is None && uploaded_file_url is None)
        },
        download_type != Some(uploaded_label()) && (external_link is Some || uploaded_file_url
            is None) ==> {
            let link = download_link_of(download_type, external_link, uploaded_file_url);
            &&& link == if external_link is Some {
                external_link
            } else {
                uploaded_file_url
            }
            &&& (link is None <==> external_link is None && uploaded_file_url is None)
        },
        forall|r: StrictRecord| #[trigger]
            strict_entry(r).external_link == download_link_of(
                Some(r.download_type),
                r.external_link,
                r.uploaded_file_url,
            ),
        forall|r: RawRecord| #[trigger]
            relaxed_entry(r).external_link == download_link_of(
                r.download_type,
                r.external_link,
                r.uploaded_file_url,
            ),
{
    reveal_strlit("本机上传");
    reveal_strlit("外部链接");
    reveal_strlit("external_link");
    assert(uploaded_label()[0] != external_label()[0]);
}

/// A record that has its required fields becomes the same entry in strict
/// and in relaxed mode.
pub proof fn lemma_modes_agree(r: RawRecord)
    requires
        required_present(r),
    ensures
        strictly_normalized(r) is Some,
        strictly_normalized(r) == relaxed_normalized(r),
{
}

/// A silent install method, under its label or its keyword, yields the silent
/// switch; every other method, and a missing one, yields no arguments. Both
/// modes of normalisation follow this rule.
pub proof fn lemma_install_params(install_method: Option<Seq<char>>)
    ensures
        install_method == Some(silent_label()) ==> install_params_of(install_method) == Some(
            silent_switch(),
        ),
        install_method == Some(silent_keyword()) ==> install_params_of(install_method) == Some(
            silent_switch(),
        ),
        install_method != Some(silent_label()) && install_method != Some(silent_keyword())
            ==> install_params_of(install_method) is None,
        forall|r: StrictRecord| #[trigger]
            strict_entry(r).install_params == install_params_of(Some(r.install_method)),
        forall|r: RawRecord| #[trigger]
            relaxed_entry(r).install_params == install_params_of(r.install_method),
{
}

} // verus!
