//! The decisions of one render request.
//!
//! A request is a small state machine. Whoever drives it performs the action
//! it is handed (a cache read, a profile lookup, a download, a cache write)
//! and reports what happened as an event; the machine answers with the next
//! action until it finishes with an outcome. Decoding, compositing, upscaling
//! and encoding happen inside the steps.

use vstd::prelude::*;
use vstd::string::StringExecFns;
use crate::cache::{CacheKey, CacheKeyView};
use crate::codec::{
    atlas_of, bytes_view, decode_atlas, decode_face, encode_face, encode_scaled, encoded_or_error,
    face_of, png_decoded, png_encoded, png_encoded_best,
};
use crate::error::RenderError;
use crate::face::{compose, compose_spec, FaceImage};
use crate::identity::{is_identity, lowercase_spec, Identity};
use crate::raster::Raster;
use crate::scale::{clamp_spec, upscale, upscale_spec, Scale};
use crate::texture::FACE_SIZE;

verus! {

/// How the served bytes came about.
#[derive(Clone, Copy, Debug, PartialEq, Eq, Structural)]
pub enum Provenance {
    /// The face at its native size.
    Rendered,
    /// The face enlarged.
    Upscaled,
}

/// What the profile lookup reported.
pub enum LookupOutcome {
    /// The player is known, with a stable profile identifier and the address
    /// of the texture.
    Found { profile_id: String, texture_url: String },
    /// There is no such record.
    NotFound,
    /// The lookup itself failed.
    Failed,
}

/// The model of a lookup report.
pub enum LookupView {
    Found { profile_id: Seq<char>, texture_url: Seq<char> },
    NotFound,
    Failed,
}

impl View for LookupOutcome {
    type V = LookupView;

    open spec fn view(&self) -> LookupView {
        match *self {
            LookupOutcome::Found { profile_id, texture_url } => LookupView::Found {
                profile_id: profile_id@,
                texture_url: texture_url@,
            },
            LookupOutcome::NotFound => LookupView::NotFound,
            LookupOutcome::Failed => LookupView::Failed,
        }
    }
}

/// What happened when the last action was performed.
pub enum Event {
    /// A cache read ended: the entry's bytes, or nothing where there is no
    /// such entry.
    Entry(Option<Vec<u8>>),
    /// A cache entry exists and could not be read.
    EntryUnreadable,
    /// The profile lookup ended.
    Profile(LookupOutcome),
    /// The download ended: the bytes, or nothing where it failed.
    Texture(Option<Vec<u8>>),
    /// A cache write ended, well or not.
    Stored(bool),
}

/// The model of an event.
pub enum EventView {
    Entry(Option<Seq<u8>>),
    EntryUnreadable,
    Profile(LookupView),
    Texture(Option<Seq<u8>>),
    Stored(bool),
}

impl View for Event {
    type V = EventView;

    open spec fn view(&self) -> EventView {
        match *self {
            Event::Entry(bytes) => EventView::Entry(bytes_view(bytes)),
            Event::EntryUnreadable => EventView::EntryUnreadable,
            Event::Profile(found) => EventView::Profile(found@),
            Event::Texture(bytes) => EventView::Texture(bytes_view(bytes)),
            Event::Stored(ok) => EventView::Stored(ok),
        }
    }
}

/// How a request ended.
pub enum Outcome {
    /// An encoded image, with where it came from and whether the rendered
    /// tier already held the face.
    Served { bytes: Vec<u8>, provenance: Provenance, cache_hit: bool },
    /// No texture could be had: a placeholder is to be served, for the reason
    /// given.
    Placeholder { reason: RenderError },
    /// The request failed.
    Failed { error: RenderError },
}

/// The model of an outcome.
pub enum OutcomeView {
    Served { bytes: Seq<u8>, provenance: Provenance, cache_hit: bool },
    Placeholder { reason: RenderError },
    Failed { error: RenderError },
}

impl View for Outcome {
    type V = OutcomeView;

    open spec fn view(&self) -> OutcomeView {
        match *self {
            Outcome::Served { bytes, provenance, cache_hit } => OutcomeView::Served {
                bytes: bytes@,
                provenance,
                cache_hit,
            },
            Outcome::Placeholder { reason } => OutcomeView::Placeholder { reason },
            Outcome::Failed { error } => OutcomeView::Failed { error },
        }
    }
}

/// What the driver is to do next.
pub enum Action {
    /// Read the entry under `key`.
    Get { key: CacheKey },
    /// Look the identity up.
    Lookup { identity: Identity },
    /// Download `url` and keep the bytes in the raw tier under `store_as`.
    Fetch { url: String, store_as: CacheKey },
    /// Write `bytes` under `key`; a failure is to be logged, not raised.
    Put { key: CacheKey, bytes: Vec<u8> },
    /// Answer the request.
    Finish { outcome: Outcome },
}

/// The model of an action.
pub enum ActionView {
    Get { key: CacheKeyView },
    Lookup { identity: Seq<char> },
    Fetch { url: Seq<char>, store_as: CacheKeyView },
    Put { key: CacheKeyView, bytes: Seq<u8> },
    Finish { outcome: OutcomeView },
}

impl View for Action {
    type V = ActionView;

    open spec fn view(&self) -> ActionView {
        match *self {
            Action::Get { key } => ActionView::Get { key: key@ },
            Action::Lookup { identity } => ActionView::Lookup { identity: identity@ },
            Action::Fetch { url, store_as } => ActionView::Fetch { url: url@, store_as: store_as@ },
            Action::Put { key, bytes } => ActionView::Put { key: key@, bytes: bytes@ },
            Action::Finish { outcome } => ActionView::Finish { outcome: outcome@ },
        }
    }
}

/// Where a request stands.
pub enum StageView {
    /// The rendered tier is being read.
    AwaitRendered,
    /// The profile is being looked up.
    AwaitProfile,
    /// The texture is being downloaded; `not_found` tells whether the lookup
    /// knew no such record.
    AwaitTexture { not_found: bool },
    /// The freshly composed face is being written to the rendered tier.
    AwaitRenderedStored { face: Raster, bytes: Seq<u8> },
    /// The scaled tier is being read, with the fresh face in hand.
    AwaitScaledFresh { face: Raster },
    /// The scaled tier is being read, with the rendered entry in hand.
    AwaitScaledCached { rendered: Seq<u8> },
    /// The freshly enlarged face is being written to the scaled tier.
    AwaitScaledStored { bytes: Seq<u8>, cache_hit: bool },
    /// The request has been answered.
    Finished,
}

/// The model of a request in flight.
pub struct PipelineView {
    pub identity: Seq<char>,
    pub scale: int,
    pub stage: StageView,
}

/// The address of the texture at the default source.
pub open spec fn default_url_spec(identity: Seq<char>) -> Seq<char> {
    "https://minotar.net/skin/"@ + identity + ".png"@
}

/// The face of a downloaded texture and its PNG file, or why there is none.
pub open spec fn rendered_spec(texture: Seq<u8>) -> Result<(Raster, Seq<u8>), RenderError> {
    match atlas_of(png_decoded(texture)) {
        Err(e) => Err(e),
        Ok(atlas) => {
            let face = compose_spec(atlas);
            match encoded_or_error(png_encoded(FACE_SIZE, FACE_SIZE, face.data)) {
                Err(e) => Err(e),
                Ok(png) => Ok((face, png)),
            }
        },
    }
}

/// The PNG file of `face` enlarged by `scale`, or why there is none.
pub open spec fn scaled_spec(face: Raster, scale: int) -> Result<Seq<u8>, RenderError> {
    let enlarged = upscale_spec(face, scale);
    encoded_or_error(
        png_encoded_best(enlarged.width as u32, enlarged.height as u32, enlarged.data),
    )
}

/// The PNG file of the face stored as `rendered`, enlarged by `scale`, or
/// why there is none.
pub open spec fn rescaled_spec(rendered: Seq<u8>, scale: int) -> Result<Seq<u8>, RenderError> {
    match face_of(png_decoded(rendered)) {
        Err(e) => Err(e),
        Ok(face) => scaled_spec(face, scale),
    }
}

/// The request as it begins: the rendered tier is read first.
pub open spec fn initial(identity: Seq<char>, scale: int) -> (PipelineView, ActionView) {
    (
        PipelineView { identity, scale, stage: StageView::AwaitRendered },
        ActionView::Get { key: CacheKeyView::Rendered { identity } },
    )
}

/// The request answered with `outcome`.
pub open spec fn finished(pre: PipelineView, outcome: OutcomeView) -> (PipelineView, ActionView) {
    (
        PipelineView { identity: pre.identity, scale: pre.scale, stage: StageView::Finished },
        ActionView::Finish { outcome },
    )
}

/// The request moved on to `stage`, with `action` to perform.
pub open spec fn moved(pre: PipelineView, stage: StageView, action: ActionView) -> (
    PipelineView,
    ActionView,
) {
    (PipelineView { identity: pre.identity, scale: pre.scale, stage }, action)
}

/// The read of the scaled tier.
pub open spec fn get_scaled(pre: PipelineView) -> ActionView {
    ActionView::Get { key: CacheKeyView::Scaled { identity: pre.identity, scale: pre.scale } }
}

/// The write of `bytes` to the scaled tier, or the failure that `encoded`
/// stands for.
pub open spec fn store_scaled(
    pre: PipelineView,
    encoded: Result<Seq<u8>, RenderError>,
    cache_hit: bool,
) -> (PipelineView, ActionView) {
    match encoded {
        Err(error) => finished(pre, OutcomeView::Failed { error }),
        Ok(bytes) => moved(
            pre,
            StageView::AwaitScaledStored { bytes, cache_hit },
            ActionView::Put {
                key: CacheKeyView::Scaled { identity: pre.identity, scale: pre.scale },
                bytes,
            },
        ),
    }
}

/// The download that follows a lookup. A found profile names the texture and
/// keys the raw tier; every other report falls back to the default source,
/// keyed by the identity itself.
pub open spec fn fetch_after(pre: PipelineView, found: LookupView) -> (PipelineView, ActionView) {
    match found {
        LookupView::Found { profile_id, texture_url } => moved(
            pre,
            StageView::AwaitTexture { not_found: false },
            ActionView::Fetch {
                url: texture_url,
                store_as: CacheKeyView::Raw { name: profile_id },
            },
        ),
        LookupView::NotFound => moved(
            pre,
            StageView::AwaitTexture { not_found: true },
            ActionView::Fetch {
                url: default_url_spec(pre.identity),
                store_as: CacheKeyView::Raw { name: pre.identity },
            },
        ),
        LookupView::Failed => moved(
            pre,
            StageView::AwaitTexture { not_found: false },
            ActionView::Fetch {
                url: default_url_spec(pre.identity),
                store_as: CacheKeyView::Raw { name: pre.identity },
            },
        ),
    }
}

/// The reason for a placeholder when the download failed.
pub open spec fn placeholder_reason(not_found: bool) -> RenderError {
    if not_found {
        RenderError::UpstreamLookupNotFound
    } else {
        RenderError::UpstreamError
    }
}

/// One step of a request: the stage and the action that follow `event`.
pub open spec fn step_spec(pre: PipelineView, event: EventView) -> (PipelineView, ActionView) {
    match pre.stage {
        StageView::AwaitRendered => match event {
            EventView::Entry(Some(bytes)) => if pre.scale > 1 {
                moved(pre, StageView::AwaitScaledCached { rendered: bytes }, get_scaled(pre))
            } else {
                finished(
                    pre,
                    OutcomeView::Served {
                        bytes,
                        provenance: Provenance::Rendered,
                        cache_hit: true,
                    },
                )
            },
            EventView::Entry(None) => moved(
                pre,
                StageView::AwaitProfile,
                ActionView::Lookup { identity: pre.identity },
            ),
            EventView::EntryUnreadable => finished(
                pre,
                OutcomeView::Failed { error: RenderError::IOError },
            ),
            _ => finished(pre, OutcomeView::Failed { error: RenderError::UnexpectedEvent }),
        },
        StageView::AwaitProfile => match event {
            EventView::Profile(found) => fetch_after(pre, found),
            _ => finished(pre, OutcomeView::Failed { error: RenderError::UnexpectedEvent }),
        },
        StageView::AwaitTexture { not_found } => match event {
            EventView::Texture(None) => finished(
                pre,
                OutcomeView::Placeholder { reason: placeholder_reason(not_found) },
            ),
            EventView::Texture(Some(texture)) => match rendered_spec(texture) {
                Err(error) => finished(pre, OutcomeView::Failed { error }),
                Ok((face, bytes)) => moved(
                    pre,
                    StageView::AwaitRenderedStored { face, bytes },
                    ActionView::Put {
                        key: CacheKeyView::Rendered { identity: pre.identity },
                        bytes,
                    },
                ),
            },
            _ => finished(pre, OutcomeView::Failed { error: RenderError::UnexpectedEvent }),
        },
        StageView::AwaitRenderedStored { face, bytes } => match event {
            EventView::Stored(_) => if pre.scale > 1 {
                moved(pre, StageView::AwaitScaledFresh { face }, get_scaled(pre))
            } else {
                finished(
                    pre,
                    OutcomeView::Served {
                        bytes,
                        provenance: Provenance::Rendered,
                        cache_hit: false,
                    },
                )
            },
            _ => finished(pre, OutcomeView::Failed { error: RenderError::UnexpectedEvent }),
        },
        StageView::AwaitScaledFresh { face } => match event {
            EventView::Entry(Some(bytes)) => finished(
                pre,
                OutcomeView::Served { bytes, provenance: Provenance::Upscaled, cache_hit: false },
            ),
            EventView::Entry(None) => store_scaled(pre, scaled_spec(face, pre.scale), false),
            EventView::EntryUnreadable => finished(
                pre,
                OutcomeView::Failed { error: RenderError::IOError },
            ),
            _ => finished(pre, OutcomeView::Failed { error: RenderError::UnexpectedEvent }),
        },
        StageView::AwaitScaledCached { rendered } => match event {
            EventView::Entry(Some(bytes)) => finished(
                pre,
                OutcomeView::Served { bytes, provenance: Provenance::Upscaled, cache_hit: true },
            ),
            EventView::Entry(None) => store_scaled(pre, rescaled_spec(rendered, pre.scale), true),
            EventView::EntryUnreadable => finished(
                pre,
                OutcomeView::Failed { error: RenderError::IOError },
            ),
            _ => finished(pre, OutcomeView::Failed { error: RenderError::UnexpectedEvent }),
        },
        StageView::AwaitScaledStored { bytes, cache_hit } => match event {
            EventView::Stored(_) => finished(
                pre,
                OutcomeView::Served { bytes, provenance: Provenance::Upscaled, cache_hit },
            ),
            _ => finished(pre, OutcomeView::Failed { error: RenderError::UnexpectedEvent }),
        },
        StageView::Finished => finished(
            pre,
            OutcomeView::Failed { error: RenderError::UnexpectedEvent },
        ),
    }
}

/// Composes the face of a downloaded texture and serialises it.
pub fn render_face(texture: &[u8]) -> (r: Result<(FaceImage, Vec<u8>), RenderError>)
    ensures
        match r {
            Ok((face, png)) => rendered_spec(texture@) == Ok::<(Raster, Seq<u8>), RenderError>(
                (face@, png@),
            ),
            Err(e) => rendered_spec(texture@) == Err::<(Raster, Seq<u8>), RenderError>(e),
        },
{
    let atlas = match decode_atlas(texture) {
        Ok(atlas) => atlas,
        Err(e) => {
            return Err(e);
        },
    };
    let face: FaceImage = compose(&atlas);
    match encode_face(&face) {
        Ok(png) => Ok((face, png)),
        Err(e) => Err(e),
    }
}

/// Enlarges a face and serialises the result.
pub fn render_scaled(face: &FaceImage, scale: Scale) -> (r: Result<Vec<u8>, RenderError>)
    ensures
        match r {
            Ok(png) => scaled_spec(face@, scale@) == Ok::<Seq<u8>, RenderError>(png@),
            Err(e) => scaled_spec(face@, scale@) == Err::<Seq<u8>, RenderError>(e),
        },
{
    let enlarged = upscale(face, scale);
    encode_scaled(&enlarged)
}

/// Enlarges the face stored in the rendered tier and serialises the result.
pub fn rescale_rendered(rendered: &[u8], scale: Scale) -> (r: Result<Vec<u8>, RenderError>)
    ensures
        match r {
            Ok(png) => rescaled_spec(rendered@, scale@) == Ok::<Seq<u8>, RenderError>(png@),
            Err(e) => rescaled_spec(rendered@, scale@) == Err::<Seq<u8>, RenderError>(e),
        },
{
    match decode_face(rendered) {
        Ok(face) => render_scaled(&face, scale),
        Err(e) => Err(e),
    }
}

/// The address of the texture of `identity` at the default source.
pub fn default_texture_url(identity: &Identity) -> (url: String)
    ensures
        url@ == default_url_spec(identity@),
{
    let mut url: String = String::from_str("https://minotar.net/skin/");
    url.append(identity.as_str());
    url.append(".png");
    url
}

enum Stage {
    AwaitRendered,
    AwaitProfile,
    AwaitTexture { not_found: bool },
    AwaitRenderedStored { face: FaceImage, bytes: Vec<u8> },
    AwaitScaledFresh { face: FaceImage },
    AwaitScaledCached { rendered: Vec<u8> },
    AwaitScaledStored { bytes: Vec<u8>, cache_hit: bool },
    Finished,
}

impl View for Stage {
    type V = StageView;

    closed spec fn view(&self) -> StageView {
        match *self {
            Stage::AwaitRendered => StageView::AwaitRendered,
            Stage::AwaitProfile => StageView::AwaitProfile,
            Stage::AwaitTexture { not_found } => StageView::AwaitTexture { not_found },
            Stage::AwaitRenderedStored { face, bytes } => StageView::AwaitRenderedStored {
                face: face@,
                bytes: bytes@,
            },
            Stage::AwaitScaledFresh { face } => StageView::AwaitScaledFresh { face: face@ },
            Stage::AwaitScaledCached { rendered } => StageView::AwaitScaledCached {
                rendered: rendered@,
            },
            Stage::AwaitScaledStored { bytes, cache_hit } => StageView::AwaitScaledStored {
                bytes: bytes@,
                cache_hit,
            },
            Stage::Finished => StageView::Finished,
        }
    }
}

/// One render request in flight.
pub struct RenderPipeline {
    identity: Identity,
    scale: Scale,
    stage: Stage,
}

impl View for RenderPipeline {
    type V = PipelineView;

    closed spec fn view(&self) -> PipelineView {
        PipelineView { identity: self.identity@, scale: self.scale@, stage: self.stage@ }
    }
}

impl RenderPipeline {
    /// Begins a request for a name as it was asked for. The name is
    /// lowercased and checked before anything else happens: a name that does
    /// not match the pattern is refused with no action taken. The scale is
    /// coerced into the restricted set.
    pub fn start(requested: &str, scale: Option<u32>) -> (r: Result<
        (RenderPipeline, Action),
        RenderError,
    >)
        ensures
            r is Ok <==> is_identity(lowercase_spec(requested@)),
            r matches Ok((pipeline, action)) ==> (pipeline@, action@) == initial(
                lowercase_spec(requested@),
                clamp_spec(scale),
            ),
            r matches Err(e) ==> e == RenderError::InvalidIdentity,
    {
        match Identity::normalize(requested) {
            Ok(identity) => Ok(RenderPipeline::begin(identity, Scale::clamp(scale))),
            Err(e) => Err(e),
        }
    }

    /// Begins a request for an identity at a scale.
    pub fn begin(identity: Identity, scale: Scale) -> (r: (RenderPipeline, Action))
        ensures
            (r.0@, r.1@) == initial(identity@, scale@),
    {
        let key: CacheKey = CacheKey::rendered(&identity);
        (RenderPipeline { identity, scale, stage: Stage::AwaitRendered }, Action::Get { key })
    }

    /// Whether the request has been answered.
    pub fn is_finished(&self) -> (done: bool)
        ensures
            done == (self@.stage is Finished),
    {
        match self.stage {
            Stage::Finished => true,
            _ => false,
        }
    }

    fn finish(self, outcome: Outcome) -> (r: (RenderPipeline, Action))
        ensures
            (r.0@, r.1@) == finished(self@, outcome@),
    {
        (
            RenderPipeline { identity: self.identity, scale: self.scale, stage: Stage::Finished },
            Action::Finish { outcome },
        )
    }

    fn fail(self, error: RenderError) -> (r: (RenderPipeline, Action))
        ensures
            (r.0@, r.1@) == finished(self@, OutcomeView::Failed { error }),
    {
        self.finish(Outcome::Failed { error })
    }

    fn advance(self, stage: Stage, action: Action) -> (r: (RenderPipeline, Action))
        ensures
            (r.0@, r.1@) == moved(self@, stage@, action@),
    {
        (RenderPipeline { identity: self.identity, scale: self.scale, stage }, action)
    }

    fn read_scaled(&self) -> (action: Action)
        ensures
            action@ == get_scaled(self@),
    {
        Action::Get { key: CacheKey::scaled(&self.identity, self.scale) }
    }

    fn write_scaled(self, encoded: Result<Vec<u8>, RenderError>, cache_hit: bool) -> (r: (
        RenderPipeline,
        Action,
    ))
        ensures
            (r.0@, r.1@) == store_scaled(
                self@,
                match encoded {
                    Ok(bytes) => Ok(bytes@),
                    Err(e) => Err(e),
                },
                cache_hit,
            ),
    {
        match encoded {
            Err(error) => self.fail(error),
            Ok(bytes) => {
                let key: CacheKey = CacheKey::scaled(&self.identity, self.scale);
                let copy: Vec<u8> = bytes.clone();
                self.advance(
                    Stage::AwaitScaledStored { bytes, cache_hit },
                    Action::Put { key, bytes: copy },
                )
            },
        }
    }

    fn fetch(self, found: LookupOutcome) -> (r: (RenderPipeline, Action))
        ensures
            (r.0@, r.1@) == fetch_after(self@, found@),
    {
        match found {
            LookupOutcome::Found { profile_id, texture_url } => {
                let store_as: CacheKey = CacheKey::Raw { name: profile_id };
                self.advance(
                    Stage::AwaitTexture { not_found: false },
                    Action::Fetch { url: texture_url, store_as },
                )
            },
            LookupOutcome::NotFound => {
                let url: String = default_texture_url(&self.identity);
                let store_as: CacheKey = CacheKey::raw(self.identity.as_str());
                self.advance(
                    Stage::AwaitTexture { not_found: true },
                    Action::Fetch { url, store_as },
                )
            },
            LookupOutcome::Failed => {
                let url: String = default_texture_url(&self.identity);
                let store_as: CacheKey = CacheKey::raw(self.identity.as_str());
                self.advance(
                    Stage::AwaitTexture { not_found: false },
                    Action::Fetch { url, store_as },
                )
            },
        }
    }

    /// Takes the event that answers the last action and decides what comes
    /// next. An event that does not answer the last action ends the request
    /// as failed.
    pub fn step(self, event: Event) -> (r: (RenderPipeline, Action))
        ensures
            (r.0@, r.1@) == step_spec(self@, event@),
    {
        let RenderPipeline { identity, scale, stage } = self;
        match stage {
            Stage::AwaitRendered => {
                let this = RenderPipeline { identity, scale, stage: Stage::AwaitRendered };
                match event {
                    Event::Entry(Some(bytes)) => {
                        if this.scale.enlarges() {
                            let action: Action = this.read_scaled();
                            this.advance(Stage::AwaitScaledCached { rendered: bytes }, action)
                        } else {
                            this.finish(
                                Outcome::Served {
                                    bytes,
                                    provenance: Provenance::Rendered,
                                    cache_hit: true,
                                },
                            )
                        }
                    },
                    Event::Entry(None) => {
                        let who: Identity = this.identity.duplicate();
                        this.advance(Stage::AwaitProfile, Action::Lookup { identity: who })
                    },
                    Event::EntryUnreadable => this.fail(RenderError::IOError),
                    _ => this.fail(RenderError::UnexpectedEvent),
                }
            },
            Stage::AwaitProfile => {
                let this = RenderPipeline { identity, scale, stage: Stage::AwaitProfile };
                match event {
                    Event::Profile(found) => this.fetch(found),
                    _ => this.fail(RenderError::UnexpectedEvent),
                }
            },
            Stage::AwaitTexture { not_found } => {
                let this = RenderPipeline {
                    identity,
                    scale,
                    stage: Stage::AwaitTexture { not_found },
                };
                match event {
                    Event::Texture(None) => {
                        let reason: RenderError = if not_found {
                            RenderError::UpstreamLookupNotFound
                        } else {
                            RenderError::UpstreamError
                        };
                        this.finish(Outcome::Placeholder { reason })
                    },
                    Event::Texture(Some(texture)) => match render_face(texture.as_slice()) {
                        Err(error) => this.fail(error),
                        Ok((face, bytes)) => {
                            let key: CacheKey = CacheKey::rendered(&this.identity);
                            let copy: Vec<u8> = bytes.clone();
                            this.advance(
                                Stage::AwaitRenderedStored { face, bytes },
                                Action::Put { key, bytes: copy },
                            )
                        },
                    },
                    _ => this.fail(RenderError::UnexpectedEvent),
                }
            },
            Stage::AwaitRenderedStored { face, bytes } => {
                let this = RenderPipeline { identity, scale, stage: Stage::Finished };
                match event {
                    Event::Stored(_) => {
                        if this.scale.enlarges() {
                            let action: Action = this.read_scaled();
                            this.advance(Stage::AwaitScaledFresh { face }, action)
                        } else {
                            this.finish(
                                Outcome::Served {
                                    bytes,
                                    provenance: Provenance::Rendered,
                                    cache_hit: false,
                                },
                            )
                        }
                    },
                    _ => this.fail(RenderError::UnexpectedEvent),
                }
            },
            Stage::AwaitScaledFresh { face } => {
                let this = RenderPipeline { identity, scale, stage: Stage::Finished };
                match event {
                    Event::Entry(Some(bytes)) => this.finish(
                        Outcome::Served {
                            bytes,
                            provenance: Provenance::Upscaled,
                            cache_hit: false,
                        },
                    ),
                    Event::Entry(None) => {
                        let encoded = render_scaled(&face, this.scale);
                        this.write_scaled(encoded, false)
                    },
                    Event::EntryUnreadable => this.fail(RenderError::IOError),
                    _ => this.fail(RenderError::UnexpectedEvent),
                }
            },
            Stage::AwaitScaledCached { rendered } => {
                let this = RenderPipeline { identity, scale, stage: Stage::Finished };
                match event {
                    Event::Entry(Some(bytes)) => this.finish(
                        Outcome::Served {
                            bytes,
                            provenance: Provenance::Upscaled,
                            cache_hit: true,
                        },
                    ),
                    Event::Entry(None) => {
                        let encoded = rescale_rendered(rendered.as_slice(), this.scale);
                        this.write_scaled(encoded, true)
                    },
                    Event::EntryUnreadable => this.fail(RenderError::IOError),
                    _ => this.fail(RenderError::UnexpectedEvent),
                }
            },
            Stage::AwaitScaledStored { bytes, cache_hit } => {
                let this = RenderPipeline { identity, scale, stage: Stage::Finished };
                match event {
                    Event::Stored(_) => this.finish(
                        Outcome::Served { bytes, provenance: Provenance::Upscaled, cache_hit },
                    ),
                    _ => this.fail(RenderError::UnexpectedEvent),
                }
            },
            Stage::Finished => {
                let this = RenderPipeline { identity, scale, stage: Stage::Finished };
                this.fail(RenderError::UnexpectedEvent)
            },
        }
    }
}

} // verus!
