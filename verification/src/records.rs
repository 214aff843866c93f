//! The two-tier record model of a clipboard history entry.
//!
//! One logical entry, identified by its content fingerprint, is split into a
//! lightweight [`ListRecord`] (shown in the history list) and a heavier
//! [`DetailRecord`] (loaded when an entry is opened or pasted). The two are
//! created together and deleted together; [`Entry`] holds the pair and
//! [`entry_wf`] states the invariant that binds them.

use vstd::prelude::*;

verus! {

/// What a detail record carries for its content kind.
pub enum DetailKind {
    /// A text capture: its counts and the full captured text.
    Text { characters: u64, words: u64, text: String },
    /// An image capture: its dimensions and the names of its asset files.
    Image { width: u32, height: u32, thumbnail: String, path: String },
}

/// What a list record keeps of the content kind.
pub enum ListKind {
    /// A text entry.
    Text,
    /// An image entry, with the name of its thumbnail file.
    Image { thumbnail: String },
}

/// The lightweight record behind one line of the history list.
pub struct ListRecord {
    /// The content fingerprint, the entry's identity.
    pub id: u64,
    /// The display title.
    pub title: String,
    /// When this content was first observed (seconds of Unix time).
    pub copied_first: i64,
    /// When this content was last observed (seconds of Unix time).
    pub copied_last: i64,
    /// The content kind summary.
    pub kind: ListKind,
    /// How many times this content has been observed.
    pub copy_count: u32,
}

/// The heavier per-entry record, loaded on demand.
pub struct DetailRecord {
    /// The content fingerprint, equal to the list record's id.
    pub id: u64,
    /// The application the content was copied from, or `"Unknown"`.
    pub application: String,
    /// The icon file of that application, when one was found.
    pub application_icon: Option<String>,
    /// The content payload.
    pub kind: DetailKind,
}

/// One logical entry: its list record and its detail record.
pub struct Entry {
    /// The list record.
    pub list: ListRecord,
    /// The detail record with the same id.
    pub detail: DetailRecord,
}

/// The list-level summary of a detail kind.
pub open spec fn list_kind_of(kind: DetailKind) -> ListKind {
    match kind {
        DetailKind::Text { .. } => ListKind::Text,
        DetailKind::Image { thumbnail, .. } => ListKind::Image { thumbnail },
    }
}

/// Whether two list kinds agree at the level of their views.
pub open spec fn list_kind_matches(a: ListKind, b: ListKind) -> bool {
    match (a, b) {
        (ListKind::Text, ListKind::Text) => true,
        (ListKind::Image { thumbnail: ta }, ListKind::Image { thumbnail: tb }) => ta@ == tb@,
        _ => false,
    }
}

/// Summarises a detail kind for the list record.
pub fn to_list_kind(kind: &DetailKind) -> (r: ListKind)
    ensures
        list_kind_matches(r, list_kind_of(*kind)),
{
    match kind {
        DetailKind::Text { .. } => ListKind::Text,
        DetailKind::Image { thumbnail, .. } => ListKind::Image { thumbnail: thumbnail.clone() },
    }
}

/// The invariant of one entry: both records carry the same id, the list kind
/// summarises the detail kind, the timestamps are ordered, and the entry has
/// been copied at least once.
pub open spec fn entry_wf(e: Entry) -> bool {
    &&& e.list.id == e.detail.id
    &&& list_kind_matches(e.list.kind, list_kind_of(e.detail.kind))
    &&& e.list.copied_first <= e.list.copied_last
    &&& e.list.copy_count >= 1
}

/// The asset file names of an image entry, or `None` for a text entry.
pub fn asset_names(e: &Entry) -> (r: Option<(&String, &String)>)
    ensures
        match e.detail.kind {
            DetailKind::Image { thumbnail, path, .. } => {
                &&& r matches Some(p)
                &&& p.0@ == path@
                &&& p.1@ == thumbnail@
            },
            DetailKind::Text { .. } => r is None,
        },
{
    match &e.detail.kind {
        DetailKind::Image { thumbnail, path, .. } => Some((path, thumbnail)),
        DetailKind::Text { .. } => None,
    }
}

/// The application a capture came from: its name and, when one was found,
/// the file that holds its icon.
pub struct AppInfo {
    /// The application's name.
    pub name: String,
    /// The path of the application's icon file.
    pub icon: Option<String>,
}

/// Whether `detail` records the origin `app`: the given application, or
/// `"Unknown"` with no icon when none was found.
pub open spec fn origin_recorded(detail: DetailRecord, app: Option<AppInfo>) -> bool {
    match app {
        Some(a) => {
            &&& detail.application@ == a.name@
            &&& match (detail.application_icon, a.icon) {
                (Some(di), Some(ai)) => di@ == ai@,
                (None, None) => true,
                _ => false,
            }
        },
        None => {
            &&& detail.application@ == "Unknown"@
            &&& detail.application_icon is None
        },
    }
}

/// Resolves a best-effort origin lookup: the found application, or
/// `"Unknown"` with no icon.
pub fn resolve_origin(app: Option<AppInfo>) -> (r: AppInfo)
    ensures
        match app {
            Some(a) => r.name@ == a.name@ && (match (r.icon, a.icon) {
                (Some(ri), Some(ai)) => ri@ == ai@,
                (None, None) => true,
                _ => false,
            }),
            None => r.name@ == "Unknown"@ && r.icon is None,
        },
{
    match app {
        Some(a) => a,
        None => AppInfo { name: "Unknown".to_owned(), icon: None },
    }
}


/// The display label of a list kind.
pub fn kind_label(kind: &ListKind) -> (r: &'static str)
    ensures
        match kind {
            ListKind::Text => r@ == "Text"@,
            ListKind::Image { .. } => r@ == "Image"@,
        },
{
    match kind {
        ListKind::Text => "Text",
        ListKind::Image { .. } => "Image",
    }
}

} // verus!
