//! Unit behaviour of the leaf components: fingerprints, text
//! classification, asset naming, and store sanitisation.

use cliphist::assets::{asset_file_names, image_title, u64_decimal};
use cliphist::fingerprint::{fingerprint_bytes, fingerprint_text};
use cliphist::records::{
    AppInfo, DetailKind, DetailRecord, Entry, ListKind, ListRecord, kind_label, resolve_origin,
    to_list_kind,
};
use cliphist::store::RecordStore;
use cliphist::text::{count_chars, count_words, title_of};

#[test]
fn fingerprint_matches_reference_vectors() {
    // FNV-1a, 64 bit: fixed across processes and runs.
    assert_eq!(fingerprint_text("abc"), 0xe71fa2190541574b);
    assert_eq!(fingerprint_text("a"), 0xaf63dc4c8601ec8c);
    assert_eq!(fingerprint_bytes(&vec![0x61, 0x62, 0x63]), 0xe71fa2190541574b);
}

#[test]
fn fingerprint_separates_distinct_content() {
    assert_ne!(fingerprint_text("abc"), fingerprint_text("abd"));
    assert_ne!(fingerprint_bytes(&vec![1, 2, 3]), fingerprint_bytes(&vec![1, 2, 4]));
    assert_eq!(fingerprint_text("same"), fingerprint_text("same"));
}

#[test]
fn title_keeps_short_text() {
    assert_eq!(title_of("hello"), "hello");
    assert_eq!(title_of("  padded  "), "padded");
    assert_eq!(title_of(""), "");
    assert_eq!(title_of(" \t\n "), "");
}

#[test]
fn title_truncates_forty_character_line() {
    let text = "abcdefghijklmnopqrstuvwxyz0123456789ABCD";
    assert_eq!(text.chars().count(), 40);
    let title = title_of(text);
    assert_eq!(title, "abcdefghijklmnopqrstuvwxy...");
    assert_eq!(title.chars().count(), 28);
}

#[test]
fn title_collapses_newlines() {
    assert_eq!(title_of(" line one\nline two "), "line one line two");
}

#[test]
fn word_and_char_counts() {
    assert_eq!(count_words("  hello   world  "), 2);
    assert_eq!(count_chars("  hello   world  "), 17);
    assert_eq!(count_words(""), 0);
    assert_eq!(count_words("one"), 1);
    assert_eq!(count_words("a b\tc\nd"), 4);
    assert_eq!(count_chars("abc"), 3);
}

#[test]
fn decimal_and_asset_names() {
    assert_eq!(u64_decimal(0), "0");
    assert_eq!(u64_decimal(9), "9");
    assert_eq!(u64_decimal(1234567890123456789), "1234567890123456789");
    assert_eq!(u64_decimal(u64::MAX), "18446744073709551615");
    let (full, thumb) = asset_file_names(42);
    assert_eq!(full, "42.png");
    assert_eq!(thumb, "42.thumb.png");
    assert_eq!(image_title(100, 50), "Image (100x50)");
    assert_eq!(image_title(1, 1), "Image (1x1)");
}

#[test]
fn origin_resolution_defaults_to_unknown() {
    let known = resolve_origin(Some(AppInfo {
        name: "Browser".to_string(),
        icon: Some("icons/browser.png".to_string()),
    }));
    assert_eq!(known.name, "Browser");
    assert_eq!(known.icon.as_deref(), Some("icons/browser.png"));
    let unknown = resolve_origin(None);
    assert_eq!(unknown.name, "Unknown");
    assert!(unknown.icon.is_none());
}

fn text_entry(id: u64, copied_first: i64, copied_last: i64, copy_count: u32) -> Entry {
    Entry {
        list: ListRecord {
            id,
            title: "t".to_string(),
            copied_first,
            copied_last,
            kind: ListKind::Text,
            copy_count,
        },
        detail: DetailRecord {
            id,
            application: "Unknown".to_string(),
            application_icon: None,
            kind: DetailKind::Text { characters: 1, words: 1, text: "t".to_string() },
        },
    }
}

#[test]
fn from_records_keeps_well_formed_entries() {
    let input = vec![text_entry(1, 5, 9, 1), text_entry(2, 3, 3, 4)];
    let store = RecordStore::from_records(input);
    assert_eq!(store.len(), 2);
    assert_eq!(store.entry_at(0).list.id, 1);
    assert_eq!(store.entry_at(1).list.id, 2);
}

#[test]
fn from_records_drops_duplicates_and_malformed() {
    let mut bad_times = text_entry(3, 9, 5, 1);
    bad_times.list.copied_first = 9;
    bad_times.list.copied_last = 5;
    let mut bad_count = text_entry(4, 1, 2, 1);
    bad_count.list.copy_count = 0;
    let mut bad_ids = text_entry(5, 1, 2, 1);
    bad_ids.detail.id = 6;
    let input = vec![
        text_entry(1, 5, 9, 2),
        bad_times,
        text_entry(1, 7, 8, 1),
        bad_count,
        bad_ids,
    ];
    let store = RecordStore::from_records(input);
    // Only the first well-formed entry of id 1 survives.
    assert_eq!(store.len(), 1);
    let kept = store.get(1).expect("entry 1 kept");
    assert_eq!(kept.list.copied_first, 5);
    assert_eq!(kept.list.copy_count, 2);
    assert!(store.get(3).is_none());
    assert!(store.get(4).is_none());
    assert!(store.get(5).is_none());
}

#[test]
fn kind_summary_and_label() {
    let text_kind = DetailKind::Text { characters: 1, words: 1, text: "x".to_string() };
    assert!(matches!(to_list_kind(&text_kind), ListKind::Text));
    let image_kind = DetailKind::Image {
        width: 2,
        height: 2,
        thumbnail: "9.thumb.png".to_string(),
        path: "9.png".to_string(),
    };
    match to_list_kind(&image_kind) {
        ListKind::Image { thumbnail } => assert_eq!(thumbnail, "9.thumb.png"),
        ListKind::Text => panic!("an image kind summarises as an image"),
    }
    assert_eq!(kind_label(&ListKind::Text), "Text");
    assert_eq!(kind_label(&ListKind::Image { thumbnail: "t".to_string() }), "Image");
}
