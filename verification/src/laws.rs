//! Properties that relate several observations of the engine.
//!
//! Each law is stated over [`observe_post`], the full transition relation
//! that `Engine::observe` ensures, so it holds of any sequence of real
//! calls.

use vstd::prelude::*;
use crate::engine::{CaptureInput, Engine, Outcome, input_fingerprint, observe_post, text_entry_ok};
use crate::fingerprint::fingerprint_of_text;
use crate::records::{AppInfo, Entry};
use crate::store::{contains_id, distinct_ids};

verus! {

/// Appending an entry with a fresh id keeps ids pairwise distinct.
pub proof fn lemma_push_distinct(s: Seq<Entry>, e: Entry)
    requires
        distinct_ids(s),
        !contains_id(s, e.list.id),
    ensures
        distinct_ids(s.push(e)),
        contains_id(s.push(e), e.list.id),
{
    let t = s.push(e);
    assert forall|i: int, j: int| 0 <= i < j < t.len() implies t[i].list.id != t[j].list.id by {
        if j < s.len() {
            assert(t[i] == s[i]);
            assert(t[j] == s[j]);
        } else {
            assert(t[i] == s[i]);
            assert(t[j] == e);
        }
    }
    assert(t[s.len() as int] == e);
}

/// Dedup idempotence: observing the same text on two consecutive ticks,
/// with nothing in between, creates the entry exactly once. The first
/// observation appends one entry with a copy count of one and both
/// timestamps at the capture time; the second observation returns
/// `Unchanged` and leaves the engine exactly as it was.
pub proof fn lemma_dedup_idempotence(
    s0: Engine,
    s1: Engine,
    s2: Engine,
    text: String,
    app0: Option<AppInfo>,
    app1: Option<AppInfo>,
    now0: i64,
    now1: i64,
    r0: Outcome,
    r1: Outcome,
)
    requires
        s0.wf(),
        s0.last_seen() != Some(fingerprint_of_text(text@)),
        !contains_id(s0.history().entries(), fingerprint_of_text(text@)),
        observe_post(s0, s1, CaptureInput::Text(text), app0, now0, r0),
        observe_post(s1, s2, CaptureInput::Text(text), app1, now1, r1),
    ensures
        r1 == Outcome::Unchanged,
        s2 == s1,
        s1.history().entries().len() == s0.history().entries().len() + 1,
        distinct_ids(s1.history().entries()),
        contains_id(s1.history().entries(), fingerprint_of_text(text@)),
        text_entry_ok(
            s1.history().entries().last(),
            fingerprint_of_text(text@),
            text,
            app0,
            now0,
        ),
        s1.history().entries().last().list.copy_count == 1,
        s1.history().entries().last().list.copied_last == now0,
{
    let fp = fingerprint_of_text(text@);
    let s0e = s0.history().entries();
    let s1e = s1.history().entries();
    let e = s1e.last();
    assert(input_fingerprint(CaptureInput::Text(text)) == fp);
    assert(s1e =~= s0e.push(e));
    assert(e.list.id == fp);
    lemma_push_distinct(s0e, e);
    assert(s1.last_seen() == Some(fp));
}

/// Re-copy update: capture text `a`, then different content `b`, then `a`
/// again. The entry for `a` exists once: its copy count is now two, its
/// last-copied time is the time of the third capture, and its first-copied
/// time is still the time of the first.
pub proof fn lemma_recopy_updates(
    s0: Engine,
    s1: Engine,
    s2: Engine,
    s3: Engine,
    a: String,
    b: CaptureInput,
    app0: Option<AppInfo>,
    app1: Option<AppInfo>,
    app2: Option<AppInfo>,
    now0: i64,
    now1: i64,
    now2: i64,
    r0: Outcome,
    r1: Outcome,
    r2: Outcome,
)
    requires
        s0.wf(),
        input_fingerprint(b) != fingerprint_of_text(a@),
        s0.last_seen() != Some(fingerprint_of_text(a@)),
        !contains_id(s0.history().entries(), fingerprint_of_text(a@)),
        !contains_id(s0.history().entries(), input_fingerprint(b)),
        now0 <= now2,
        observe_post(s0, s1, CaptureInput::Text(a), app0, now0, r0),
        observe_post(s1, s2, b, app1, now1, r1),
        observe_post(s2, s3, CaptureInput::Text(a), app2, now2, r2),
    ensures
        r2 == (Outcome::Updated { id: fingerprint_of_text(a@) }),
        distinct_ids(s3.history().entries()),
        contains_id(s3.history().entries(), fingerprint_of_text(a@)),
        crate::store::entry_for(
            s3.history().entries(),
            fingerprint_of_text(a@),
        ).list.copy_count == 2,
        crate::store::entry_for(
            s3.history().entries(),
            fingerprint_of_text(a@),
        ).list.copied_last == now2,
        crate::store::entry_for(
            s3.history().entries(),
            fingerprint_of_text(a@),
        ).list.copied_first == now0,
{
    let fpa = fingerprint_of_text(a@);
    let fpb = input_fingerprint(b);
    let s0e = s0.history().entries();
    let s1e = s1.history().entries();
    let s2e = s2.history().entries();
    let s3e = s3.history().entries();
    let n0 = s0e.len() as int;

    // First capture creates the entry for `a` at the end.
    assert(input_fingerprint(CaptureInput::Text(a)) == fpa);
    let ea = s1e.last();
    assert(s1e =~= s0e.push(ea));
    assert(ea.list.id == fpa);
    assert(ea.list.copy_count == 1);
    assert(ea.list.copied_first == now0 && ea.list.copied_last == now0);
    lemma_push_distinct(s0e, ea);

    // The second capture (of `b`) never touches the entry for `a`.
    assert(s1.last_seen() == Some(fpa));
    assert(!contains_id(s1e, fpb));
    assert(s2.last_seen() == Some(fpb));
    match b {
        CaptureInput::Text(tb) => {
            let en = s2e.last();
            assert(s2e =~= s1e.push(en));
            assert(en.list.id == fpb);
            lemma_push_distinct(s1e, en);
        },
        CaptureInput::Image(imgb) => {
            if crate::assets::valid_rgba(imgb.width, imgb.height, imgb.rgba@.len()) {
                let en = s2e.last();
                assert(s2e =~= s1e.push(en));
                assert(en.list.id == fpb);
                lemma_push_distinct(s1e, en);
            } else {
                assert(s2e == s1e);
            }
        },
    }
    assert(s2e.len() == s1e.len() || s2e.len() == s1e.len() + 1);
    assert(0 <= n0 < s2e.len());
    assert(s2e[n0] == ea);
    assert(distinct_ids(s2e));

    // The third capture finds the entry for `a` and bumps it in place.
    assert(s2.last_seen() != Some(fpa));
    assert(contains_id(s2e, fpa));
    let k = crate::store::idx_of(s2e, fpa);
    assert(0 <= k < s2e.len() && s2e[k].list.id == fpa);
    assert(k == n0);
    assert(crate::store::entry_for(s2e, fpa) == ea);
    let eb = crate::store::bumped(ea, now2);
    assert(s3e == s2e.update(n0, eb));
    assert(eb.list.copy_count == 2);
    assert(eb.list.copied_last == now2);
    assert(eb.list.copied_first == now0);
    assert forall|i: int, j: int| 0 <= i < j < s3e.len() implies s3e[i].list.id
        != s3e[j].list.id by {
        assert(s3e[i].list.id == s2e[i].list.id);
        assert(s3e[j].list.id == s2e[j].list.id);
    }
    assert(s3e[n0] == eb);
    let k3 = crate::store::idx_of(s3e, fpa);
    assert(0 <= k3 < s3e.len() && s3e[k3].list.id == fpa);
    assert(k3 == n0);
}

} // verus!
