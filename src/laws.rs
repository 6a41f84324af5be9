use vstd::prelude::*;

use crate::config::{Channel, Config};
use crate::paths::{contents_url, head_sha_url, staging_dir, CopyView};
use crate::promote::{
    accepted_channel, archive_copy, dist_copy, download_copy, manifest_upload, manifest_write,
    start, step, ActionView, ContextView, EventView, Phase,
};
use crate::version::{strip_newlines, version_from_content, version_from_encoded};

verus! {

/// The state reached and the actions asked for when a promotion in state `s`
/// is handed `events` one after the other.
pub open spec fn drive(cfg: Config, s: ContextView, events: Seq<EventView>) -> (
    ContextView,
    Seq<ActionView>,
)
    decreases events.len(),
{
    if events.len() == 0 {
        (s, seq![])
    } else {
        let (s1, a) = step(cfg, s, events[0]);
        let (s2, rest) = drive(cfg, s1, events.drop_first());
        (s2, seq![a] + rest)
    }
}

/// A whole promotion: its start, then `events`.
pub open spec fn session(cfg: Config, events: Seq<EventView>) -> (ContextView, Seq<ActionView>) {
    let (s0, a0) = start(cfg);
    let (s, acts) = drive(cfg, s0, events);
    (s, seq![a0] + acts)
}

/// Whether an action reaches the network, the file system or the object store.
pub open spec fn touches_outside(a: ActionView) -> bool {
    !(a is Finish || a is Abort)
}

proof fn lemma_failed_stays_quiet(cfg: Config, s: ContextView, events: Seq<EventView>)
    requires
        s.phase == Phase::Failed,
    ensures
        drive(cfg, s, events).0.phase == Phase::Failed,
        forall|i: int|
            0 <= i < drive(cfg, s, events).1.len() ==> !touches_outside(
                #[trigger] drive(cfg, s, events).1[i],
            ),
    decreases events.len(),
{
    if events.len() > 0 {
        lemma_failed_stays_quiet(cfg, s, events.drop_first());
        let acts = drive(cfg, s, events).1;
        assert forall|i: int| 0 <= i < acts.len() implies !touches_outside(#[trigger] acts[i]) by {
            if i > 0 {
                assert(acts[i] == drive(cfg, s, events.drop_first()).1[i - 1]);
            }
        }
    }
}

/// A promotion on the nightly channel stops at its start, with the channel
/// error, and whatever it is handed later it never asks for a fetch, a file
/// operation or a copy.
pub proof fn lemma_nightly_rejected(cfg: Config, events: Seq<EventView>)
    requires
        cfg.channel == Channel::Nightly,
    ensures
        session(cfg, events).1[0] == ActionView::Abort(crate::error::PromoteError::UnsupportedChannel),
        session(cfg, events).0.phase == Phase::Failed,
        forall|i: int|
            0 <= i < session(cfg, events).1.len() ==> !touches_outside(
                #[trigger] session(cfg, events).1[i],
            ),
{
    let s0 = start(cfg).0;
    lemma_failed_stays_quiet(cfg, s0, events);
    let acts = session(cfg, events).1;
    assert forall|i: int| 0 <= i < acts.len() implies !touches_outside(#[trigger] acts[i]) by {
        if i > 0 {
            assert(acts[i] == drive(cfg, s0, events).1[i - 1]);
        }
    }
}

proof fn lemma_revision_kept(cfg: Config, s: ContextView, events: Seq<EventView>)
    requires
        s.phase != Phase::AwaitingRevision,
    ensures
        drive(cfg, s, events).0.revision == s.revision,
        forall|i: int|
            0 <= i < drive(cfg, s, events).1.len() ==> !(#[trigger] drive(
                cfg,
                s,
                events,
            ).1[i] is FetchRevision),
    decreases events.len(),
{
    if events.len() > 0 {
        let s1 = step(cfg, s, events[0]).0;
        lemma_revision_kept(cfg, s1, events.drop_first());
        let acts = drive(cfg, s, events).1;
        assert forall|i: int| 0 <= i < acts.len() implies !(#[trigger] acts[i] is FetchRevision) by {
            if i > 0 {
                assert(acts[i] == drive(cfg, s1, events.drop_first()).1[i - 1]);
            }
        }
    }
}

/// Where the settings fix the revision, the tip of the branch is never looked
/// up, and the revision promoted is the one given.
pub proof fn lemma_override_skips_lookup(cfg: Config, sha: String, events: Seq<EventView>)
    requires
        cfg.override_commit == Some(sha),
    ensures
        forall|i: int|
            0 <= i < session(cfg, events).1.len() ==> !(#[trigger] session(cfg, events).1[i] is FetchRevision),
        accepted_channel(cfg.channel) ==> session(cfg, events).1[0] == ActionView::FetchCargoManifest(
            contents_url(sha@),
        ),
        accepted_channel(cfg.channel) ==> session(cfg, events).0.revision == sha@,
{
    let s0 = start(cfg).0;
    lemma_revision_kept(cfg, s0, events);
    let acts = session(cfg, events).1;
    assert forall|i: int| 0 <= i < acts.len() implies !(#[trigger] acts[i] is FetchRevision) by {
        if i > 0 {
            assert(acts[i] == drive(cfg, s0, events).1[i - 1]);
        }
    }
}

/// The revision a promotion works on: the one the settings fix, else the tip
/// `sha` that the lookup returned.
pub open spec fn promoted_revision(cfg: Config, sha: Seq<char>) -> Seq<char> {
    match cfg.override_commit {
        Some(s) => s@,
        None => sha,
    }
}

/// The events of a promotion in which everything succeeds.
pub open spec fn success_events(cfg: Config, sha: Seq<char>, content: Seq<char>) -> Seq<
    EventView,
> {
    let lookup = if cfg.override_commit is None {
        seq![EventView::Revision(sha)]
    } else {
        seq![]
    };
    let completions = if cfg.channel == Channel::Stable {
        6nat
    } else {
        5nat
    };
    lookup + seq![EventView::CargoManifest(content)] + Seq::new(
        completions,
        |i: int| EventView::Completed,
    )
}

/// The actions of a promotion of `rev` at `version` in which everything
/// succeeds: the archive copy comes before the copy to `dist/` (stable only),
/// and the manifest is written and published after both.
pub open spec fn success_actions(cfg: Config, rev: Seq<char>, version: Seq<char>) -> Seq<
    ActionView,
> {
    let lookup = if cfg.override_commit is None {
        seq![ActionView::FetchRevision(head_sha_url(cfg.channel))]
    } else {
        seq![]
    };
    let publish = if cfg.channel == Channel::Stable {
        seq![ActionView::Copy(dist_copy(cfg))]
    } else {
        seq![]
    };
    lookup + seq![
        ActionView::FetchCargoManifest(contents_url(rev)),
        ActionView::ResetDir(staging_dir(cfg)),
        ActionView::Copy(download_copy(cfg, rev)),
        ActionView::Copy(archive_copy(cfg, version)),
    ] + publish + seq![
        manifest_write(cfg, version),
        ActionView::Copy(manifest_upload(cfg)),
        ActionView::Finish,
    ]
}

/// A promotion in which every step succeeds archives the staged artifacts
/// under the version, copies them to `dist/` on the stable channel only,
/// and only then writes and publishes the manifest that names the version.
#[verifier::rlimit(50)]
pub proof fn lemma_successful_promotion(cfg: Config, sha: Seq<char>, content: Seq<char>)
    requires
        accepted_channel(cfg.channel),
        version_from_content(content) is Ok,
    ensures
        ({
            let rev = promoted_revision(cfg, sha);
            let version = version_from_content(content)->Ok_0;
            session(cfg, success_events(cfg, sha, content)) == (
                ContextView { phase: Phase::Done, revision: rev, version },
                success_actions(cfg, rev, version),
            )
        }),
{
    let rev = promoted_revision(cfg, sha);
    let version = version_from_content(content)->Ok_0;
    let events = success_events(cfg, sha, content);
    reveal_with_fuel(drive, 10);
    let (s0, a0) = start(cfg);
    let after_lookup = if cfg.override_commit is None {
        events.drop_first()
    } else {
        events
    };
    let s1 = if cfg.override_commit is None {
        step(cfg, s0, events[0]).0
    } else {
        s0
    };
    assert(s1 == ContextView { phase: Phase::AwaitingCargoManifest, revision: rev, version: seq![] });
    let rest = after_lookup.drop_first();
    assert(rest =~= Seq::new(rest.len(), |i: int| EventView::Completed));
    assert(rest.drop_first().drop_first().drop_first().drop_first() =~= Seq::new(
        (rest.len() - 4) as nat,
        |i: int| EventView::Completed,
    ));
    assert(session(cfg, events).1 =~= success_actions(cfg, rev, version));
}

proof fn lemma_strip_concat(a: Seq<u8>, b: Seq<u8>)
    ensures
        strip_newlines(a + b) == strip_newlines(a) + strip_newlines(b),
    decreases b.len(),
{
    if b.len() == 0 {
        assert(a + b =~= a);
        assert(strip_newlines(a) + strip_newlines(b) =~= strip_newlines(a));
    } else {
        lemma_strip_concat(a, b.drop_last());
        assert((a + b).drop_last() =~= a + b.drop_last());
        if b.last() != 10u8 {
            assert(strip_newlines(a) + strip_newlines(b) =~= (strip_newlines(a) + strip_newlines(
                b.drop_last(),
            )).push(b.last()));
        }
    }
}

/// A line feed anywhere in the encoded source manifest changes nothing: the
/// same version, or the same error, comes out.
pub proof fn lemma_newlines_ignored(a: Seq<u8>, b: Seq<u8>)
    ensures
        version_from_encoded(a + seq![10u8] + b) == version_from_encoded(a + b),
{
    lemma_strip_concat(a + seq![10u8], b);
    lemma_strip_concat(a, seq![10u8]);
    lemma_strip_concat(a, b);
    assert(seq![10u8].drop_last() =~= Seq::<u8>::empty());
    assert(seq![10u8].last() == 10u8);
    assert(strip_newlines(Seq::<u8>::empty()) =~= Seq::<u8>::empty());
    assert(strip_newlines(seq![10u8]) =~= Seq::<u8>::empty());
    assert(strip_newlines(a) + Seq::<u8>::empty() =~= strip_newlines(a));
}

/// The object store after the copies among `actions`, each destination
/// mapped to the copy that wrote it last.
pub open spec fn store_after(store: Map<Seq<char>, CopyView>, actions: Seq<ActionView>) -> Map<
    Seq<char>,
    CopyView,
>
    decreases actions.len(),
{
    if actions.len() == 0 {
        store
    } else {
        let before = store_after(store, actions.drop_last());
        match actions.last() {
            ActionView::Copy(c) => before.insert(c.destination, c),
            _ => before,
        }
    }
}

proof fn lemma_store_after_overlays(store: Map<Seq<char>, CopyView>, actions: Seq<ActionView>)
    ensures
        store_after(store, actions) == store.union_prefer_right(
            store_after(Map::empty(), actions),
        ),
    decreases actions.len(),
{
    if actions.len() == 0 {
        assert(store.union_prefer_right(Map::empty()) =~= store);
    } else {
        lemma_store_after_overlays(store, actions.drop_last());
        match actions.last() {
            ActionView::Copy(c) => {
                assert(store_after(store, actions) =~= store.union_prefer_right(
                    store_after(Map::empty(), actions),
                ));
            },
            _ => {},
        }
    }
}

/// Running the same promotion again leaves the object store as one run left
/// it: a run's actions depend only on its settings and the events, and its
/// copies overwrite what they write.
pub proof fn lemma_rerun_idempotent(
    cfg: Config,
    events: Seq<EventView>,
    store: Map<Seq<char>, CopyView>,
)
    ensures
        ({
            let acts = session(cfg, events).1;
            store_after(store_after(store, acts), acts) == store_after(store, acts)
        }),
{
    let acts = session(cfg, events).1;
    let w = store_after(Map::empty(), acts);
    lemma_store_after_overlays(store, acts);
    lemma_store_after_overlays(store_after(store, acts), acts);
    assert(store.union_prefer_right(w).union_prefer_right(w) =~= store.union_prefer_right(w));
}

/// Whether the copy of `dist/` stands in `acts` strictly between `i` and `j`.
pub open spec fn dist_between(cfg: Config, acts: Seq<ActionView>, i: int, j: int) -> bool {
    exists|k: int| i < k < j && #[trigger] acts[k] == ActionView::Copy(dist_copy(cfg))
}

/// Whether, before index `j` of `acts`, the artifacts were archived under
/// `version`, and on the stable channel then copied to `dist/`.
pub open spec fn archived_before(cfg: Config, acts: Seq<ActionView>, version: Seq<char>, j: int) -> bool {
    exists|i: int|
        0 <= i < j && #[trigger] acts[i] == ActionView::Copy(archive_copy(cfg, version)) && (
        cfg.channel == Channel::Stable ==> dist_between(cfg, acts, i, j))
}

/// Whether each publication of the manifest in `acts` directly follows the
/// writing of a manifest for some version, which the archive copy of that
/// version (and on stable the copy to `dist/`) precedes.
pub open spec fn manifest_published_last(cfg: Config, acts: Seq<ActionView>) -> bool {
    forall|j: int|
        0 <= j < acts.len() && #[trigger] acts[j] == ActionView::Copy(manifest_upload(cfg)) ==> j
            >= 1 && exists|v: Seq<char>|
            acts[j - 1] == manifest_write(cfg, v) && #[trigger] archived_before(cfg, acts, v, j - 1)
}

/// What has been asked for so far, given the phase reached.
spec fn history_fits(cfg: Config, s: ContextView, h: Seq<ActionView>) -> bool {
    &&& s.phase == Phase::AwaitingArchive ==> exists|i: int|
        0 <= i < h.len() && #[trigger] h[i] == ActionView::Copy(archive_copy(cfg, s.version))
    &&& s.phase == Phase::AwaitingPublish ==> cfg.channel == Channel::Stable && archived_before(
        cfg,
        h,
        s.version,
        h.len() as int,
    )
    &&& s.phase == Phase::AwaitingManifestWrite ==> h.len() >= 1 && h.last() == manifest_write(
        cfg,
        s.version,
    ) && archived_before(cfg, h, s.version, h.len() - 1)
}

proof fn lemma_archived_extends(
    cfg: Config,
    h: Seq<ActionView>,
    x: Seq<ActionView>,
    v: Seq<char>,
    j: int,
)
    requires
        archived_before(cfg, h, v, j),
        j <= h.len(),
    ensures
        archived_before(cfg, h + x, v, j),
{
    let i = choose|i: int|
        0 <= i < j && #[trigger] h[i] == ActionView::Copy(archive_copy(cfg, v)) && (cfg.channel
            == Channel::Stable ==> dist_between(cfg, h, i, j));
    assert((h + x)[i] == h[i]);
    if cfg.channel == Channel::Stable {
        let k = choose|k: int| i < k < j && #[trigger] h[k] == ActionView::Copy(dist_copy(cfg));
        assert((h + x)[k] == h[k]);
        assert(dist_between(cfg, h + x, i, j));
    }
}

proof fn lemma_step_keeps_order(cfg: Config, s: ContextView, h: Seq<ActionView>, ev: EventView)
    requires
        history_fits(cfg, s, h),
        manifest_published_last(cfg, h),
    ensures
        history_fits(cfg, step(cfg, s, ev).0, h.push(step(cfg, s, ev).1)),
        manifest_published_last(cfg, h.push(step(cfg, s, ev).1)),
{
    let (s1, a) = step(cfg, s, ev);
    let h1 = h.push(a);
    assert(h1 == h + seq![a]);
    assert forall|j: int|
        0 <= j < h1.len() && #[trigger] h1[j] == ActionView::Copy(manifest_upload(cfg)) implies j
        >= 1 && exists|v: Seq<char>|
        h1[j - 1] == manifest_write(cfg, v) && #[trigger] archived_before(cfg, h1, v, j - 1) by {
        if j < h.len() {
            assert(h1[j] == h[j]);
            let v = choose|v: Seq<char>|
                h[j - 1] == manifest_write(cfg, v) && #[trigger] archived_before(cfg, h, v, j - 1);
            lemma_archived_extends(cfg, h, seq![a], v, j - 1);
            assert(h1[j - 1] == h[j - 1]);
        } else {
            assert(s.phase == Phase::AwaitingManifestWrite);
            lemma_archived_extends(cfg, h, seq![a], s.version, h.len() - 1);
            assert(h1[j - 1] == h.last());
            assert(archived_before(cfg, h1, s.version, j - 1));
        }
    }
    if s1.phase == Phase::AwaitingArchive {
        assert(h1[h.len() as int] == ActionView::Copy(archive_copy(cfg, s1.version)));
    }
    if s1.phase == Phase::AwaitingPublish {
        let i = choose|i: int|
            0 <= i < h.len() && #[trigger] h[i] == ActionView::Copy(archive_copy(cfg, s.version));
        assert(h1[i] == h[i]);
        assert(h1[h.len() as int] == ActionView::Copy(dist_copy(cfg)));
        assert(dist_between(cfg, h1, i, h1.len() as int));
        assert(archived_before(cfg, h1, s1.version, h1.len() as int));
    }
    if s1.phase == Phase::AwaitingManifestWrite {
        if s.phase == Phase::AwaitingArchive {
            let i = choose|i: int|
                0 <= i < h.len() && #[trigger] h[i] == ActionView::Copy(
                    archive_copy(cfg, s.version),
                );
            assert(h1[i] == h[i]);
            assert(archived_before(cfg, h1, s1.version, h.len() as int));
        } else {
            lemma_archived_extends(cfg, h, seq![a], s.version, h.len() as int);
        }
    }
}

proof fn lemma_drive_keeps_order(
    cfg: Config,
    s: ContextView,
    h: Seq<ActionView>,
    events: Seq<EventView>,
)
    requires
        history_fits(cfg, s, h),
        manifest_published_last(cfg, h),
    ensures
        manifest_published_last(cfg, h + drive(cfg, s, events).1),
    decreases events.len(),
{
    if events.len() == 0 {
        assert(h + drive(cfg, s, events).1 =~= h);
    } else {
        let (s1, a) = step(cfg, s, events[0]);
        lemma_step_keeps_order(cfg, s, h, events[0]);
        lemma_drive_keeps_order(cfg, s1, h.push(a), events.drop_first());
        assert(h + drive(cfg, s, events).1 =~= h.push(a) + drive(cfg, s1, events.drop_first()).1);
    }
}

/// Whatever the outcomes of its actions, a promotion publishes the release
/// manifest only right after writing it for a version whose artifacts were
/// archived before, and on the stable channel copied to `dist/` as well.
pub proof fn lemma_manifest_published_last(cfg: Config, events: Seq<EventView>)
    ensures
        manifest_published_last(cfg, session(cfg, events).1),
{
    let (s0, a0) = start(cfg);
    assert(seq![a0][0] == a0);
    lemma_drive_keeps_order(cfg, s0, seq![a0], events);
}

} // verus!
