//! Behaviour of the capture engine: dedup, re-copy, classification,
//! retention and deletion.

use cliphist::engine::{CaptureError, CaptureInput, Engine, ImageCapture, Outcome, default_config};
use cliphist::records::{AppInfo, DetailKind, Entry, ListKind, asset_names};

fn text_input(s: &str) -> CaptureInput {
    CaptureInput::Text(s.to_string())
}

fn app_info(name: &str) -> Option<AppInfo> {
    Some(AppInfo { name: name.to_string(), icon: None })
}

fn rgba_buffer(width: u32, height: u32) -> Vec<u8> {
    let mut v = Vec::new();
    for i in 0..(width as usize * height as usize) {
        v.push((i % 251) as u8);
        v.push((i % 13) as u8);
        v.push(7u8);
        v.push(255u8);
    }
    v
}

#[test]
fn dedup_same_text_single_entry() {
    let mut engine = Engine::new(default_config(), 0);
    let first = engine.observe(text_input("hello"), None, 10);
    assert!(matches!(first, Outcome::Created { asset: None, .. }));
    let second = engine.observe(text_input("hello"), None, 11);
    assert!(matches!(second, Outcome::Unchanged));
    assert_eq!(engine.records().len(), 1);
    let entry = engine.records().entry_at(0);
    assert_eq!(entry.list.copy_count, 1);
    assert_eq!(entry.list.copied_last, 10);
    assert_eq!(entry.list.copied_first, 10);
}

#[test]
fn recopy_updates_entry_in_place() {
    let mut engine = Engine::new(default_config(), 0);
    let r0 = engine.observe(text_input("content a"), None, 10);
    let id_a = match r0 {
        Outcome::Created { id, .. } => id,
        _ => panic!("first capture should create"),
    };
    let r1 = engine.observe(text_input("content b"), None, 20);
    assert!(matches!(r1, Outcome::Created { .. }));
    let r2 = engine.observe(text_input("content a"), None, 30);
    match r2 {
        Outcome::Updated { id } => assert_eq!(id, id_a),
        _ => panic!("third capture should update"),
    }
    assert_eq!(engine.records().len(), 2);
    let entry = engine.records().get(id_a).expect("entry for a");
    assert_eq!(entry.list.copy_count, 2);
    assert_eq!(entry.list.copied_last, 30);
    assert_eq!(entry.list.copied_first, 10);
}

#[test]
fn text_classification_counts_and_title() {
    let mut engine = Engine::new(default_config(), 0);
    let outcome = engine.observe(text_input("  hello   world  "), app_info("Editor"), 5);
    assert!(matches!(outcome, Outcome::Created { .. }));
    let entry = engine.records().entry_at(0);
    // The title is the trimmed text; the counts are taken on the full text.
    assert_eq!(entry.list.title, "hello   world");
    assert!(matches!(entry.list.kind, ListKind::Text));
    match &entry.detail.kind {
        DetailKind::Text { characters, words, text } => {
            assert_eq!(*characters, 17);
            assert_eq!(*words, 2);
            assert_eq!(text, "  hello   world  ");
        }
        _ => panic!("expected a text entry"),
    }
    assert_eq!(entry.detail.application, "Editor");
    assert!(entry.detail.application_icon.is_none());
}

#[test]
fn unknown_origin_when_lookup_fails() {
    let mut engine = Engine::new(default_config(), 0);
    engine.observe(text_input("anything"), None, 1);
    let entry = engine.records().entry_at(0);
    assert_eq!(entry.detail.application, "Unknown");
    assert!(entry.detail.application_icon.is_none());
}

#[test]
fn multiline_title_is_collapsed() {
    let mut engine = Engine::new(default_config(), 0);
    engine.observe(text_input("first\nsecond"), None, 1);
    let entry = engine.records().entry_at(0);
    assert_eq!(entry.list.title, "first second");
    match &entry.detail.kind {
        DetailKind::Text { text, .. } => assert_eq!(text, "first\nsecond"),
        _ => panic!("expected a text entry"),
    }
}

#[test]
fn image_roundtrip_with_thumbnail() {
    let mut engine = Engine::new(default_config(), 0);
    let pixels = rgba_buffer(100, 50);
    let input = CaptureInput::Image(ImageCapture { width: 100, height: 50, rgba: pixels.clone() });
    let outcome = engine.observe(input, None, 42);
    let asset = match outcome {
        Outcome::Created { asset: Some(a), .. } => a,
        _ => panic!("image capture should create an entry with assets"),
    };
    let id = cliphist::fingerprint::fingerprint_bytes(&pixels);
    assert_eq!(asset.full_name, format!("{}.png", id));
    assert_eq!(asset.thumb_name, format!("{}.thumb.png", id));
    // The full payload decodes back to a 100x50 image.
    let full = image::load_from_memory(&asset.png).expect("full image decodes");
    assert_eq!(full.width(), 100);
    assert_eq!(full.height(), 50);
    // The thumbnail fits in 64x64 and preserves the 2:1 aspect ratio.
    assert_eq!(asset.thumb_width, 64);
    assert_eq!(asset.thumb_height, 32);
    let thumb = image::load_from_memory(&asset.thumb_png).expect("thumbnail decodes");
    assert_eq!(thumb.width(), 64);
    assert_eq!(thumb.height(), 32);
    // The record carries the title and the asset names.
    let entry = engine.records().entry_at(0);
    assert_eq!(entry.list.title, "Image (100x50)");
    match &entry.detail.kind {
        DetailKind::Image { width, height, thumbnail, path } => {
            assert_eq!(*width, 100);
            assert_eq!(*height, 50);
            assert_eq!(path, &format!("{}.png", id));
            assert_eq!(thumbnail, &format!("{}.thumb.png", id));
        }
        _ => panic!("expected an image entry"),
    }
}

#[test]
fn malformed_image_is_rejected() {
    let mut engine = Engine::new(default_config(), 0);
    let input = CaptureInput::Image(ImageCapture { width: 10, height: 10, rgba: vec![0u8; 7] });
    let outcome = engine.observe(input, None, 1);
    assert!(matches!(outcome, Outcome::Rejected { error: CaptureError::Decode, .. }));
    assert_eq!(engine.records().len(), 0);
}

#[test]
fn zero_sized_image_is_rejected() {
    let mut engine = Engine::new(default_config(), 0);
    let input = CaptureInput::Image(ImageCapture { width: 0, height: 5, rgba: Vec::new() });
    let outcome = engine.observe(input, None, 1);
    assert!(matches!(outcome, Outcome::Rejected { error: CaptureError::Decode, .. }));
    assert_eq!(engine.records().len(), 0);
}

#[test]
fn retention_prunes_only_old_entries() {
    let day: i64 = 86400;
    let now: i64 = 100 * day;
    let mut engine = Engine::new(default_config(), 0);
    engine.observe(text_input("old entry"), None, now - 8 * day);
    engine.observe(text_input("recent entry"), None, now - 6 * day);
    assert_eq!(engine.records().len(), 2);
    let removed = engine.prune(now, 7 * day);
    assert_eq!(removed.len(), 1);
    assert_eq!(removed[0].list.copied_last, now - 8 * day);
    assert_eq!(engine.records().len(), 1);
    assert_eq!(engine.records().entry_at(0).list.copied_last, now - 6 * day);
}

#[test]
fn prune_zero_deletes_everything() {
    let mut engine = Engine::new(default_config(), 0);
    engine.observe(text_input("some text"), None, 10);
    let pixels = rgba_buffer(8, 4);
    let id = cliphist::fingerprint::fingerprint_bytes(&pixels);
    engine.observe(
        CaptureInput::Image(ImageCapture { width: 8, height: 4, rgba: pixels }),
        None,
        10,
    );
    assert_eq!(engine.records().len(), 2);
    let removed = engine.prune(10, 0);
    assert_eq!(engine.records().len(), 0);
    assert_eq!(removed.len(), 2);
    // The removed image entry names both asset files for the host to delete.
    let image_entry: &Entry = removed
        .iter()
        .find(|e| matches!(e.detail.kind, DetailKind::Image { .. }))
        .expect("the image entry was removed");
    let (full, thumb) = asset_names(image_entry).expect("asset names of an image entry");
    assert_eq!(full, &format!("{}.png", id));
    assert_eq!(thumb, &format!("{}.thumb.png", id));
}

#[test]
fn delete_removes_both_records() {
    let mut engine = Engine::new(default_config(), 0);
    engine.observe(text_input("to be deleted"), None, 10);
    let id = engine.records().entry_at(0).list.id;
    let removed = engine.delete(id).expect("the entry existed");
    assert_eq!(removed.list.id, id);
    assert_eq!(removed.detail.id, id);
    assert!(engine.records().get(id).is_none());
    assert_eq!(engine.records().len(), 0);
    // Deleting again finds nothing.
    assert!(engine.delete(id).is_none());
}

#[test]
fn tick_runs_due_sweep_then_capture() {
    let day: i64 = 86400;
    let mut engine = Engine::new(default_config(), 0);
    engine.observe(text_input("stale"), None, 1);
    // Far in the future: the sweep is due and the stale entry falls out of
    // the seven-day window; the new capture lands after the sweep.
    let now: i64 = 30 * day;
    let result = engine.tick(Some(text_input("fresh")), None, now);
    assert_eq!(result.removed.len(), 1);
    assert_eq!(result.removed[0].list.copied_last, 1);
    assert!(matches!(result.outcome, Some(Outcome::Created { .. })));
    assert_eq!(engine.records().len(), 1);
    assert_eq!(engine.records().entry_at(0).list.copied_last, now);
}

#[test]
fn tick_without_content_skips_capture() {
    let mut engine = Engine::new(default_config(), 0);
    let result = engine.tick(None, None, 10);
    assert!(result.outcome.is_none());
    assert_eq!(result.removed.len(), 0);
    assert_eq!(engine.records().len(), 0);
}

#[test]
fn tick_does_not_sweep_before_interval() {
    let mut engine = Engine::new(default_config(), 0);
    engine.observe(text_input("kept"), None, 1);
    // Within the hourly interval: no sweep, even though the entry is old by
    // the window only the sweep applies.
    let result = engine.tick(None, None, 3600);
    assert_eq!(result.removed.len(), 0);
    assert_eq!(engine.records().len(), 1);
}
