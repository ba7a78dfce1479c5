//! What holds of every run of a render request.
//!
//! A run is the request at its beginning together with the events that the
//! driver reports, in order. The statements below are about `step_spec`, the
//! function that `RenderPipeline::step` is proved to compute.

use vstd::prelude::*;
use crate::cache::CacheKeyView;
use crate::error::RenderError;
use crate::pipeline::{
    initial, step_spec, ActionView, EventView, OutcomeView, PipelineView, Provenance, StageView,
};
use crate::scale::{clamp_spec, is_restricted};

verus! {

/// The request as it stands before the `i`-th event of `events` is taken.
pub open spec fn state_at(start: PipelineView, events: Seq<EventView>, i: nat) -> PipelineView
    decreases i,
{
    if i == 0 {
        start
    } else {
        step_spec(state_at(start, events, (i - 1) as nat), events[i - 1]).0
    }
}

/// The action that answers the `i`-th event of `events`.
pub open spec fn action_at(start: PipelineView, events: Seq<EventView>, i: nat) -> ActionView {
    step_spec(state_at(start, events, i), events[i as int]).1
}

/// How many more events a request can take before it is finished.
pub open spec fn steps_left(stage: StageView) -> nat {
    match stage {
        StageView::AwaitRendered => 6,
        StageView::AwaitProfile => 5,
        StageView::AwaitTexture { .. } => 4,
        StageView::AwaitRenderedStored { .. } => 3,
        StageView::AwaitScaledFresh { .. } => 2,
        StageView::AwaitScaledCached { .. } => 2,
        StageView::AwaitScaledStored { .. } => 1,
        StageView::Finished => 0,
    }
}

/// A stage that only a request for an enlargement can be in.
pub open spec fn needs_enlargement(stage: StageView) -> bool {
    stage is AwaitScaledFresh || stage is AwaitScaledCached || stage is AwaitScaledStored
}

/// The request is in a stage that fits its scale.
pub open spec fn consistent(p: PipelineView) -> bool {
    needs_enlargement(p.stage) ==> p.scale > 1
}

/// Every step brings the request nearer to its end, keeps the identity and
/// the scale, and answers with `Finish` exactly when the request is over.
pub proof fn lemma_step_progress(pre: PipelineView, event: EventView)
    ensures
        step_spec(pre, event).0.identity == pre.identity,
        step_spec(pre, event).0.scale == pre.scale,
        !(pre.stage is Finished) ==> steps_left(step_spec(pre, event).0.stage) < steps_left(
            pre.stage,
        ),
        pre.stage is Finished ==> step_spec(pre, event).0.stage is Finished,
        step_spec(pre, event).1 is Finish <==> step_spec(pre, event).0.stage is Finished,
        consistent(pre) ==> consistent(step_spec(pre, event).0),
{
}

/// After `i` events a request that began at its beginning has at most
/// `6 - i` steps left, and is in a stage that fits its scale.
pub proof fn lemma_steps_left_bound(
    identity: Seq<char>,
    scale: int,
    events: Seq<EventView>,
    i: nat,
)
    ensures
        steps_left(state_at(initial(identity, scale).0, events, i).stage) + i <= 6
            || state_at(initial(identity, scale).0, events, i).stage is Finished,
        consistent(state_at(initial(identity, scale).0, events, i)),
        state_at(initial(identity, scale).0, events, i).identity == identity,
        state_at(initial(identity, scale).0, events, i).scale == scale,
    decreases i,
{
    if i > 0 {
        let before = state_at(initial(identity, scale).0, events, (i - 1) as nat);
        lemma_steps_left_bound(identity, scale, events, (i - 1) as nat);
        lemma_step_progress(before, events[i - 1]);
    }
}

/// No request takes more than six events: after the sixth it is finished,
/// whatever was reported.
pub proof fn lemma_finished_after_six(identity: Seq<char>, scale: int, events: Seq<EventView>)
    ensures
        state_at(initial(identity, scale).0, events, 6).stage is Finished,
{
    lemma_steps_left_bound(identity, scale, events, 6);
}

/// The profile is looked up only in answer to the first event, and only
/// where that event reports that the rendered tier holds no entry. A download
/// is asked for only in answer to the second event, a write to the rendered
/// tier only in answer to the third. So no request looks up, downloads or
/// composes more than once.
pub proof fn lemma_upstream_asked_once(
    identity: Seq<char>,
    scale: int,
    events: Seq<EventView>,
    i: nat,
)
    ensures
        action_at(initial(identity, scale).0, events, i) is Lookup ==> i == 0 && events[0]
            == EventView::Entry(None),
        action_at(initial(identity, scale).0, events, i) is Fetch ==> i == 1,
        action_at(initial(identity, scale).0, events, i) matches ActionView::Put { key, .. }
            ==> (key is Rendered <==> i == 2) && (key is Scaled <==> i != 2) && !(key is Raw),
{
    let start = initial(identity, scale).0;
    lemma_steps_left_bound(identity, scale, events, i);
    if i >= 1 {
        lemma_steps_left_bound(identity, scale, events, 1);
        assert(state_at(start, events, 0) == start);
        assert(state_at(start, events, 1) == step_spec(start, events[0]).0);
    }
    if i >= 2 {
        lemma_steps_left_bound(identity, scale, events, 2);
        assert(state_at(start, events, 2) == step_spec(state_at(start, events, 1), events[1]).0);
    }
    if i >= 3 {
        lemma_steps_left_bound(identity, scale, events, 3);
        assert(state_at(start, events, 3) == step_spec(state_at(start, events, 2), events[2]).0);
    }
}

/// Where the first event reports an entry in the rendered tier, the request
/// never looks a profile up, never downloads and never writes to the rendered
/// tier: it is served from the cache alone.
pub proof fn lemma_hit_stays_local(
    identity: Seq<char>,
    scale: int,
    events: Seq<EventView>,
    i: nat,
)
    requires
        events.len() > 0,
        events[0] matches EventView::Entry(Some(_)),
    ensures
        !(action_at(initial(identity, scale).0, events, i) is Lookup),
        !(action_at(initial(identity, scale).0, events, i) is Fetch),
        action_at(initial(identity, scale).0, events, i) matches ActionView::Put { key, .. }
            ==> key is Scaled,
    decreases i,
{
    let start = initial(identity, scale).0;
    lemma_hit_reaches_no_upstream_stage(identity, scale, events, i);
}

/// After a hit in the rendered tier the request is only ever reading or
/// writing the scaled tier, or finished.
proof fn lemma_hit_reaches_no_upstream_stage(
    identity: Seq<char>,
    scale: int,
    events: Seq<EventView>,
    i: nat,
)
    requires
        events.len() > 0,
        events[0] matches EventView::Entry(Some(_)),
    ensures
        i == 0 ==> state_at(initial(identity, scale).0, events, i).stage is AwaitRendered,
        i > 0 ==> ({
            let stage = state_at(initial(identity, scale).0, events, i).stage;
            stage is AwaitScaledCached || stage is AwaitScaledStored || stage is Finished
        }),
    decreases i,
{
    if i > 0 {
        lemma_hit_reaches_no_upstream_stage(identity, scale, events, (i - 1) as nat);
    }
}

/// Whether a cache write went well makes no difference to what follows: the
/// freshly computed bytes are served either way.
pub proof fn lemma_store_failure_is_harmless(pre: PipelineView)
    ensures
        step_spec(pre, EventView::Stored(true)) == step_spec(pre, EventView::Stored(false)),
{
}

/// A failed download never fails the request: it ends with a placeholder,
/// for the reason `UpstreamLookupNotFound` where the lookup knew no such
/// record and `UpstreamError` otherwise.
pub proof fn lemma_failed_download_gives_placeholder(pre: PipelineView)
    requires
        pre.stage is AwaitTexture,
    ensures
        step_spec(pre, EventView::Texture(None)).1 matches ActionView::Finish {
            outcome: OutcomeView::Placeholder { reason },
        } && (reason == RenderError::UpstreamLookupNotFound || reason
            == RenderError::UpstreamError) && (reason == RenderError::UpstreamLookupNotFound
            <==> pre.stage matches StageView::AwaitTexture { not_found: true }),
{
}

/// An entry that exists and cannot be read ends the request with `IOError`.
pub proof fn lemma_unreadable_entry_is_fatal(pre: PipelineView)
    requires
        pre.stage is AwaitRendered || pre.stage is AwaitScaledFresh
            || pre.stage is AwaitScaledCached,
    ensures
        step_spec(pre, EventView::EntryUnreadable).1 == (ActionView::Finish {
            outcome: OutcomeView::Failed { error: RenderError::IOError },
        }),
{
}

/// What is served is the enlarged face exactly when the scale is above 1,
/// and it is marked as a cache hit exactly when the rendered tier held the
/// face.
pub proof fn lemma_served_matches_request(
    identity: Seq<char>,
    scale: int,
    events: Seq<EventView>,
    i: nat,
)
    requires
        events.len() > 0,
    ensures
        action_at(initial(identity, scale).0, events, i) matches ActionView::Finish {
            outcome: OutcomeView::Served { provenance, cache_hit, .. },
        } ==> (provenance == Provenance::Upscaled <==> scale > 1) && (cache_hit
            <==> events[0] matches EventView::Entry(Some(_))),
{
    lemma_steps_left_bound(identity, scale, events, i);
    lemma_cache_hit_is_remembered(identity, scale, events, i);
}

/// The stage remembers whether the rendered tier held the face.
proof fn lemma_cache_hit_is_remembered(
    identity: Seq<char>,
    scale: int,
    events: Seq<EventView>,
    i: nat,
)
    requires
        events.len() > 0,
    ensures
        ({
            let stage = state_at(initial(identity, scale).0, events, i).stage;
            let hit = events[0] matches EventView::Entry(Some(_));
            &&& stage is AwaitRendered ==> i == 0
            &&& stage is AwaitScaledCached ==> hit
            &&& stage is AwaitProfile ==> !hit
            &&& stage is AwaitTexture ==> !hit
            &&& stage is AwaitRenderedStored ==> !hit
            &&& stage is AwaitScaledFresh ==> !hit
            &&& stage matches StageView::AwaitScaledStored { cache_hit, .. } ==> cache_hit == hit
        }),
    decreases i,
{
    if i > 0 {
        lemma_cache_hit_is_remembered(identity, scale, events, (i - 1) as nat);
        lemma_steps_left_bound(identity, scale, events, (i - 1) as nat);
    }
}

/// A request for a scale outside the restricted set is the request for the
/// scale 1: it begins in the same state with the same action, and so runs
/// the same way on the same events.
pub proof fn lemma_unlisted_scale_runs_as_one(
    identity: Seq<char>,
    requested: u32,
    events: Seq<EventView>,
    i: nat,
)
    requires
        !is_restricted(requested as int),
    ensures
        initial(identity, clamp_spec(Some(requested))) == initial(identity, clamp_spec(Some(1u32))),
        initial(identity, clamp_spec(Some(requested))) == initial(identity, clamp_spec(None)),
        action_at(initial(identity, clamp_spec(Some(requested))).0, events, i) == action_at(
            initial(identity, clamp_spec(Some(1u32))).0,
            events,
            i,
        ),
{
}

/// Two requests for the same identity read the same entry of the rendered
/// tier first and, where it is missing, look up the same identity.
pub proof fn lemma_same_identity_same_keys(identity: Seq<char>, scale_a: int, scale_b: int)
    ensures
        initial(identity, scale_a).1 == initial(identity, scale_b).1,
        initial(identity, scale_a).1 == (ActionView::Get {
            key: CacheKeyView::Rendered { identity },
        }),
        step_spec(initial(identity, scale_a).0, EventView::Entry(None)).1 == (ActionView::Lookup {
            identity,
        }),
        step_spec(initial(identity, scale_b).0, EventView::Entry(None)).1 == (ActionView::Lookup {
            identity,
        }),
{
}

} // verus!
