//! The capture engine: dedup, classification, entry lifecycle and retention.
//!
//! A host loop polls the clipboard on a fixed cadence and hands whatever it
//! read — together with the clock and a best-effort foreground-application
//! lookup — to [`Engine::observe`]. The engine deduplicates against the
//! fingerprint seen on the previous tick, updates the existing entry when
//! the content is already known, and otherwise classifies the content,
//! prepares any image assets, and stores a new entry. [`Engine::prune`]
//! implements the retention sweep and the delete-all operation;
//! [`Engine::delete`] is the shared deletion path for single entries.

use vstd::prelude::*;
use crate::assets::{
    ImageAsset, asset_ok, image_title, image_title_spec, save_image, thumb_name_spec,
    full_name_spec, valid_rgba,
};
use crate::fingerprint::{
    fingerprint_bytes, fingerprint_of_bytes, fingerprint_of_text, fingerprint_text,
};
use crate::records::{
    AppInfo, DetailKind, DetailRecord, Entry, ListKind, ListRecord, origin_recorded,
    resolve_origin,
};
use crate::store::{RecordStore, bumped, contains_id, entry_for, idx_of, sanitized};
use crate::text::{count_chars, count_words, title_of, title_spec, word_count};

verus! {

/// Content read from the clipboard on one tick.
pub enum CaptureInput {
    /// A text capture: the full captured text.
    Text(String),
    /// An image capture: its dimensions and raw RGBA pixel buffer.
    Image(ImageCapture),
}

/// A raw image read from the clipboard.
pub struct ImageCapture {
    /// The image's width in pixels.
    pub width: u32,
    /// The image's height in pixels.
    pub height: u32,
    /// The pixel buffer: four bytes for each pixel, row by row.
    pub rgba: Vec<u8>,
}

/// The fingerprint of a capture: of the text's characters, or of the
/// image's pixel bytes.
pub open spec fn input_fingerprint(input: CaptureInput) -> u64 {
    match input {
        CaptureInput::Text(s) => fingerprint_of_text(s@),
        CaptureInput::Image(img) => fingerprint_of_bytes(img.rgba@),
    }
}

/// What can go wrong around one capture or one user action.
#[derive(Debug)]
pub enum CaptureError {
    /// Nothing usable on the clipboard this tick; a normal no-op, not a
    /// fault.
    ClipboardUnavailable,
    /// The host's durable record storage failed to read or write.
    Storage,
    /// The host failed to write or delete an asset file.
    AssetIo,
    /// A malformed image buffer: no pixels, or a byte count that does not
    /// match the dimensions.
    Decode,
}

/// What one observation did, and what the host must now do.
pub enum Outcome {
    /// The clipboard still holds the content of the previous tick; nothing
    /// was touched.
    Unchanged,
    /// Known content came back: its entry was updated in place. The host
    /// refreshes the entry in any live view and persists its list record.
    Updated {
        /// The entry's id.
        id: u64,
    },
    /// New content: an entry was created. For an image the host writes the
    /// two asset files before persisting the records.
    Created {
        /// The entry's id.
        id: u64,
        /// The prepared asset files of an image entry.
        asset: Option<ImageAsset>,
    },
    /// The capture was dropped: the buffer was malformed. The store is
    /// unchanged.
    Rejected {
        /// The fingerprint of the dropped content.
        id: u64,
        /// Why the capture was dropped.
        error: CaptureError,
    },
}

/// The engine's configuration knobs (the poll cadence belongs to the host).
pub struct Config {
    /// Seconds between retention sweeps.
    pub prune_interval: i64,
    /// The retention window in seconds; entries last copied earlier are
    /// swept.
    pub max_age: i64,
    /// The bound on both thumbnail dimensions, in pixels.
    pub thumb_max: u32,
}

/// The configuration invariant.
pub open spec fn config_wf(c: Config) -> bool {
    &&& c.prune_interval >= 0
    &&& c.max_age >= 0
    &&& c.thumb_max >= 1
}

/// Seconds between retention sweeps, by default one hour.
pub const DEFAULT_PRUNE_INTERVAL: i64 = 3600;

/// The default retention window: seven days, in seconds.
pub const DEFAULT_MAX_AGE: i64 = 604800;

/// The default bound on thumbnail dimensions, in pixels.
pub const DEFAULT_THUMB_MAX: u32 = 64;

/// The default configuration: hourly sweeps, a seven-day window, thumbnails
/// within 64 by 64.
pub fn default_config() -> (r: Config)
    ensures
        r.prune_interval == DEFAULT_PRUNE_INTERVAL,
        r.max_age == DEFAULT_MAX_AGE,
        r.thumb_max == DEFAULT_THUMB_MAX,
        config_wf(r),
{
    Config {
        prune_interval: DEFAULT_PRUNE_INTERVAL,
        max_age: DEFAULT_MAX_AGE,
        thumb_max: DEFAULT_THUMB_MAX,
    }
}

/// The capture engine's state.
pub struct Engine {
    store: RecordStore,
    last_hash: Option<u64>,
    last_prune_at: i64,
    config: Config,
}

impl Engine {
    /// The record store.
    pub closed spec fn history(self) -> RecordStore {
        self.store
    }

    /// The fingerprint seen on the previous tick, if any.
    pub closed spec fn last_seen(self) -> Option<u64> {
        self.last_hash
    }

    /// When the last retention sweep ran.
    pub closed spec fn pruned_at(self) -> i64 {
        self.last_prune_at
    }

    /// The configuration.
    pub closed spec fn cfg(self) -> Config {
        self.config
    }

    /// The engine's invariant.
    pub open spec fn wf(self) -> bool {
        &&& self.history().wf()
        &&& config_wf(self.cfg())
    }

    /// Creates an engine with an empty history.
    pub fn new(config: Config, now: i64) -> (r: Engine)
        requires
            config_wf(config),
        ensures
            r.wf(),
            r.history().entries() == Seq::<Entry>::empty(),
            r.last_seen() is None,
            r.pruned_at() == now,
            r.cfg() == config,
    {
        Engine { store: RecordStore::new(), last_hash: None, last_prune_at: now, config }
    }

    /// Creates an engine from records read back from durable storage at
    /// process start: well-formed entries are kept in order, a malformed
    /// entry or a repeated id is dropped.
    pub fn load(records: Vec<Entry>, config: Config, now: i64) -> (r: Engine)
        requires
            config_wf(config),
        ensures
            r.wf(),
            r.history().entries() == sanitized(records@),
            r.last_seen() is None,
            r.pruned_at() == now,
            r.cfg() == config,
    {
        Engine {
            store: RecordStore::from_records(records),
            last_hash: None,
            last_prune_at: now,
            config,
        }
    }

    /// A view of the stored history, for scans and detail lookups.
    pub fn records(&self) -> (r: &RecordStore)
        ensures
            *r == self.history(),
    {
        &self.store
    }
}

/// What a freshly created text entry holds: the fingerprint as id, the
/// derived title, both counts computed on the full captured text, the text
/// itself, the capture time as both timestamps, a count of one, and the
/// capture's origin.
pub open spec fn text_entry_ok(
    e: Entry,
    fp: u64,
    text: String,
    app: Option<AppInfo>,
    now: i64,
) -> bool {
    &&& e.list.id == fp
    &&& e.detail.id == fp
    &&& e.list.title@ == title_spec(text@)
    &&& e.list.copied_first == now
    &&& e.list.copied_last == now
    &&& e.list.copy_count == 1
    &&& e.list.kind is Text
    &&& (e.detail.kind matches DetailKind::Text { characters, words, text: t }
        && characters == text@.len() && words == word_count(text@) && t@ == text@)
    &&& origin_recorded(e.detail, app)
}

/// What a freshly created image entry holds: the fingerprint as id, the
/// dimensions title, the content-addressed asset names, the capture time as
/// both timestamps, a count of one, and the capture's origin.
pub open spec fn image_entry_ok(
    e: Entry,
    fp: u64,
    img: ImageCapture,
    app: Option<AppInfo>,
    now: i64,
) -> bool {
    &&& e.list.id == fp
    &&& e.detail.id == fp
    &&& e.list.title@ == image_title_spec(img.width, img.height)
    &&& e.list.copied_first == now
    &&& e.list.copied_last == now
    &&& e.list.copy_count == 1
    &&& (e.list.kind matches ListKind::Image { thumbnail } && thumbnail@ == thumb_name_spec(fp))
    &&& (e.detail.kind matches DetailKind::Image { width, height, thumbnail, path }
        && width == img.width && height == img.height && thumbnail@ == thumb_name_spec(fp)
        && path@ == full_name_spec(fp))
    &&& origin_recorded(e.detail, app)
}

/// The full transition relation of one observation: what `Engine::observe`
/// does to the engine and what it returns, for every input.
pub open spec fn observe_post(
    pre: Engine,
    post: Engine,
    input: CaptureInput,
    app: Option<AppInfo>,
    now: i64,
    r: Outcome,
) -> bool {
    let fp = input_fingerprint(input);
    let pre_entries = pre.history().entries();
    if pre.last_seen() == Some(fp) {
        &&& post == pre
        &&& r == Outcome::Unchanged
    } else {
        &&& post.last_seen() == Some(fp)
        &&& post.cfg() == pre.cfg()
        &&& post.pruned_at() == pre.pruned_at()
        &&& if contains_id(pre_entries, fp) {
            &&& post.history().entries() == pre_entries.update(
                idx_of(pre_entries, fp),
                bumped(entry_for(pre_entries, fp), now),
            )
            &&& r == Outcome::Updated { id: fp }
        } else {
            match input {
                CaptureInput::Text(text) => {
                    &&& post.history().entries().len() == pre_entries.len() + 1
                    &&& post.history().entries().drop_last() == pre_entries
                    &&& text_entry_ok(post.history().entries().last(), fp, text, app, now)
                    &&& (r matches Outcome::Created { id, asset } && id == fp && asset is None)
                },
                CaptureInput::Image(img) => {
                    if valid_rgba(img.width, img.height, img.rgba@.len()) {
                        &&& post.history().entries().len() == pre_entries.len() + 1
                        &&& post.history().entries().drop_last() == pre_entries
                        &&& image_entry_ok(post.history().entries().last(), fp, img, app, now)
                        &&& (r matches Outcome::Created { id, asset } && id == fp
                            && (asset matches Some(a) && asset_ok(
                            a,
                            fp,
                            img.width,
                            img.height,
                            img.rgba@,
                            pre.cfg().thumb_max,
                        )))
                    } else {
                        &&& post.history().entries() == pre_entries
                        &&& r == Outcome::Rejected { id: fp, error: CaptureError::Decode }
                    }
                },
            }
        }
    }
}

impl Engine {
    /// One capture: deduplicates the content read from the clipboard this
    /// tick against the previous tick and against the stored history, and
    /// creates or updates the entry. The whole behaviour is
    /// [`observe_post`].
    pub fn observe(&mut self, input: CaptureInput, app: Option<AppInfo>, now: i64) -> (r: Outcome)
        requires
            old(self).wf(),
        ensures
            final(self).wf(),
            observe_post(*old(self), *final(self), input, app, now, r),
    {
        let fp = match &input {
            CaptureInput::Text(s) => fingerprint_text(s.as_str()),
            CaptureInput::Image(img) => fingerprint_bytes(&img.rgba),
        };
        let seen = match self.last_hash {
            Some(h) => h == fp,
            None => false,
        };
        if seen {
            return Outcome::Unchanged;
        }
        self.last_hash = Some(fp);
        if self.store.bump(fp, now) {
            return Outcome::Updated { id: fp };
        }
        let origin = resolve_origin(app);
        match input {
            CaptureInput::Text(text) => {
                let title = title_of(text.as_str());
                let characters = count_chars(text.as_str());
                let words = count_words(text.as_str());
                let list = ListRecord {
                    id: fp,
                    title,
                    copied_first: now,
                    copied_last: now,
                    kind: ListKind::Text,
                    copy_count: 1,
                };
                let detail = DetailRecord {
                    id: fp,
                    application: origin.name,
                    application_icon: origin.icon,
                    kind: DetailKind::Text { characters, words, text },
                };
                self.store.insert_new(Entry { list, detail });
                proof {
                    assert(self.store.entries().drop_last() =~= old(self).store.entries());
                }
                Outcome::Created { id: fp, asset: None }
            },
            CaptureInput::Image(img) => {
                match save_image(fp, img.width, img.height, &img.rgba, self.config.thumb_max) {
                    Some(asset) => {
                        let title = image_title(img.width, img.height);
                        let list = ListRecord {
                            id: fp,
                            title,
                            copied_first: now,
                            copied_last: now,
                            kind: ListKind::Image { thumbnail: asset.thumb_name.clone() },
                            copy_count: 1,
                        };
                        let detail = DetailRecord {
                            id: fp,
                            application: origin.name,
                            application_icon: origin.icon,
                            kind: DetailKind::Image {
                                width: img.width,
                                height: img.height,
                                thumbnail: asset.thumb_name.clone(),
                                path: asset.full_name.clone(),
                            },
                        };
                        self.store.insert_new(Entry { list, detail });
                        proof {
                            assert(self.store.entries().drop_last() =~= old(self).store.entries());
                        }
                        Outcome::Created { id: fp, asset: Some(asset) }
                    },
                    None => Outcome::Rejected { id: fp, error: CaptureError::Decode },
                }
            },
        }
    }

    /// Deletes one entry by id: both of its records go together, and the
    /// returned entry carries the asset names whose files the host must
    /// remove. Afterwards neither record of that id is found.
    pub fn delete(&mut self, id: u64) -> (r: Option<Entry>)
        requires
            old(self).wf(),
        ensures
            final(self).wf(),
            final(self).last_seen() == old(self).last_seen(),
            final(self).pruned_at() == old(self).pruned_at(),
            final(self).cfg() == old(self).cfg(),
            !contains_id(final(self).history().entries(), id),
            match r {
                Some(e) => {
                    &&& contains_id(old(self).history().entries(), id)
                    &&& e == entry_for(old(self).history().entries(), id)
                    &&& final(self).history().entries() == old(self).history().entries().remove(
                        idx_of(old(self).history().entries(), id),
                    )
                },
                None => {
                    &&& !contains_id(old(self).history().entries(), id)
                    &&& *final(self) == *old(self)
                },
            },
    {
        self.store.remove_entry(id)
    }

    /// The retention sweep, and (with `max_age` zero) the delete-all
    /// operation: every entry last copied before `now - max_age` — every
    /// entry at all when `max_age` is zero — is removed and returned, with
    /// its asset names, for the host to drop from view and disk. Kept
    /// entries stay in order. The sweep timer is reset to `now`.
    pub fn prune(&mut self, now: i64, max_age: i64) -> (removed: Vec<Entry>)
        requires
            old(self).wf(),
            0 <= max_age,
            i64::MIN + max_age <= now,
        ensures
            final(self).wf(),
            final(self).history().entries() == old(self).history().entries().filter(
                |e: Entry| RecordStore::retained(e, now, max_age),
            ),
            removed@ == old(self).history().entries().filter(
                |e: Entry| !RecordStore::retained(e, now, max_age),
            ),
            final(self).last_seen() == old(self).last_seen(),
            final(self).cfg() == old(self).cfg(),
            final(self).pruned_at() == now,
            max_age == 0 ==> final(self).history().entries() == Seq::<Entry>::empty()
                && removed@ == old(self).history().entries(),
    {
        let removed = self.store.sweep(now, max_age);
        self.last_prune_at = now;
        proof {
            if max_age == 0 {
                let entries = old(self).history().entries();
                let keep_p = |e: Entry| RecordStore::retained(e, now, max_age);
                let drop_p = |e: Entry| !RecordStore::retained(e, now, max_age);
                crate::seq_util::lemma_filter_none(entries, keep_p);
                crate::seq_util::lemma_filter_all(entries, drop_p);
            }
        }
        removed
    }

    /// Whether the periodic sweep is due at `now`: more than the configured
    /// interval has passed since the last one.
    pub fn should_prune(&self, now: i64) -> (r: bool)
        ensures
            r == (now - self.pruned_at() > self.cfg().prune_interval),
    {
        (now as i128) - (self.last_prune_at as i128) > (self.config.prune_interval as i128)
    }
}


/// The sweep half of one loop tick: when a sweep is due at `now`, the
/// retention sweep runs with the configured window and resets the timer;
/// otherwise nothing changes.
pub open spec fn prune_phase(pre: Engine, mid: Engine, now: i64, removed: Seq<Entry>) -> bool {
    if now - pre.pruned_at() > pre.cfg().prune_interval {
        &&& mid.history().entries() == pre.history().entries().filter(
            |e: Entry| RecordStore::retained(e, now, pre.cfg().max_age),
        )
        &&& removed == pre.history().entries().filter(
            |e: Entry| !RecordStore::retained(e, now, pre.cfg().max_age),
        )
        &&& mid.last_seen() == pre.last_seen()
        &&& mid.cfg() == pre.cfg()
        &&& mid.pruned_at() == now
    } else {
        &&& mid == pre
        &&& removed == Seq::<Entry>::empty()
    }
}

/// The full transition relation of one loop tick: the sweep phase runs
/// first when due, then the capture phase observes whatever the host read
/// from the clipboard (nothing at all on an empty or unreadable clipboard).
pub open spec fn tick_post(
    pre: Engine,
    post: Engine,
    input: Option<CaptureInput>,
    app: Option<AppInfo>,
    now: i64,
    removed: Seq<Entry>,
    outcome: Option<Outcome>,
) -> bool {
    exists|mid: Engine|
        #[trigger] prune_phase(pre, mid, now, removed) && match input {
            Some(inp) => outcome matches Some(o) && observe_post(mid, post, inp, app, now, o),
            None => post == mid && outcome is None,
        }
}

/// What one loop tick did: the entries the sweep removed (with the asset
/// names whose files the host must delete), and the capture's outcome when
/// there was content to capture.
pub struct TickResult {
    /// The entries the retention sweep removed this tick.
    pub removed: Vec<Entry>,
    /// The capture's outcome, when the host read any content.
    pub outcome: Option<Outcome>,
}

impl Engine {
    /// One tick of the background loop: runs the retention sweep when one
    /// is due, then handles the content the host read from the clipboard.
    /// The whole behaviour is [`tick_post`].
    pub fn tick(&mut self, input: Option<CaptureInput>, app: Option<AppInfo>, now: i64) -> (r:
        TickResult)
        requires
            old(self).wf(),
            i64::MIN + old(self).cfg().max_age <= now,
        ensures
            final(self).wf(),
            tick_post(*old(self), *final(self), input, app, now, r.removed@, r.outcome),
    {
        let removed: Vec<Entry> = if self.should_prune(now) {
            let max_age = self.config.max_age;
            self.prune(now, max_age)
        } else {
            Vec::new()
        };
        let ghost mid: Engine = *self;
        proof {
            assert(prune_phase(*old(self), mid, now, removed@));
        }
        let outcome: Option<Outcome> = match input {
            Some(inp) => Some(self.observe(inp, app, now)),
            None => None,
        };
        proof {
            assert(prune_phase(*old(self), mid, now, removed@) && match input {
                Some(inp) => outcome matches Some(o) && observe_post(
                    mid,
                    *self,
                    inp,
                    app,
                    now,
                    o,
                ),
                None => *self == mid && outcome is None,
            });
        }
        TickResult { removed, outcome }
    }
}

} // verus!
