use std::collections::HashMap;

use renskin::cache::CacheKey;
use renskin::error::RenderError;
use renskin::identity::Identity;
use renskin::pipeline::{
    default_texture_url, Action, Event, LookupOutcome, Outcome, Provenance, RenderPipeline,
};
use renskin::pixel::Pixel;
use renskin::raster::Image;
use renskin::scale::Scale;

fn atlas_png() -> Vec<u8> {
    let image = Image::from_fn(64, 64, |x, y| {
        if (8..16).contains(&x) && (8..16).contains(&y) {
            Pixel { r: 255, g: 0, b: 0, a: 255 }
        } else if (40..48).contains(&x) && (8..16).contains(&y) {
            Pixel { r: 0, g: 0, b: 255, a: 128 }
        } else {
            Pixel { r: 1, g: 2, b: 3, a: 4 }
        }
    });
    let mut out: Vec<u8> = Vec::new();
    let encoder = image::codecs::png::PngEncoder::new(&mut out);
    image::ImageEncoder::write_image(
        encoder,
        image.as_bytes(),
        64,
        64,
        image::ExtendedColorType::Rgba8,
    )
    .unwrap();
    out
}

/// The world around the pipeline, held in memory, with a count of what was
/// asked of it.
struct World {
    store: HashMap<String, Vec<u8>>,
    profile: Option<(String, String)>,
    lookup_fails: bool,
    textures: HashMap<String, Vec<u8>>,
    writes_fail: bool,
    gets: Vec<String>,
    puts: Vec<String>,
    lookups: Vec<String>,
    fetches: Vec<String>,
}

impl World {
    fn new() -> World {
        World {
            store: HashMap::new(),
            profile: None,
            lookup_fails: false,
            textures: HashMap::new(),
            writes_fail: false,
            gets: Vec::new(),
            puts: Vec::new(),
            lookups: Vec::new(),
            fetches: Vec::new(),
        }
    }

    fn known_player() -> World {
        let mut world = World::new();
        world.profile = Some(("id-0451".to_string(), "http://textures/notch".to_string()));
        world.textures.insert("http://textures/notch".to_string(), atlas_png());
        world
    }

    fn perform(&mut self, action: Action) -> Result<Event, Outcome> {
        match action {
            Action::Get { key } => {
                let path = key.path();
                self.gets.push(path.clone());
                Ok(Event::Entry(self.store.get(&path).cloned()))
            }
            Action::Lookup { identity } => {
                self.lookups.push(identity.as_str().to_string());
                Ok(Event::Profile(if self.lookup_fails {
                    LookupOutcome::Failed
                } else {
                    match &self.profile {
                        Some((id, url)) => LookupOutcome::Found {
                            profile_id: id.clone(),
                            texture_url: url.clone(),
                        },
                        None => LookupOutcome::NotFound,
                    }
                }))
            }
            Action::Fetch { url, store_as } => {
                self.fetches.push(url.clone());
                let bytes = self.textures.get(&url).cloned();
                if let Some(bytes) = &bytes {
                    if !self.writes_fail {
                        self.store.insert(store_as.path(), bytes.clone());
                    }
                }
                Ok(Event::Texture(bytes))
            }
            Action::Put { key, bytes } => {
                let path = key.path();
                self.puts.push(path.clone());
                if self.writes_fail {
                    Ok(Event::Stored(false))
                } else {
                    self.store.insert(path, bytes);
                    Ok(Event::Stored(true))
                }
            }
            Action::Finish { outcome } => Err(outcome),
        }
    }

    fn handle(&mut self, requested: &str, scale: Option<u32>) -> Result<Outcome, RenderError> {
        let (mut pipeline, mut action) = RenderPipeline::start(requested, scale)?;
        let mut steps = 0;
        loop {
            match self.perform(action) {
                Err(outcome) => {
                    assert!(pipeline.is_finished());
                    assert!(steps <= 6);
                    return Ok(outcome);
                }
                Ok(event) => {
                    assert!(!pipeline.is_finished());
                    let next = pipeline.step(event);
                    pipeline = next.0;
                    action = next.1;
                    steps += 1;
                }
            }
        }
    }
}

fn served(outcome: Outcome) -> (Vec<u8>, Provenance, bool) {
    match outcome {
        Outcome::Served { bytes, provenance, cache_hit } => (bytes, provenance, cache_hit),
        Outcome::Placeholder { reason } => panic!("placeholder: {:?}", reason),
        Outcome::Failed { error } => panic!("failed: {:?}", error),
    }
}

fn first_pixel(png: &[u8]) -> ([u8; 4], u32, u32) {
    let image = image::load_from_memory(png).unwrap().into_rgba8();
    (image.get_pixel(0, 0).0, image.width(), image.height())
}

#[test]
fn invalid_identity_is_refused_before_anything_happens() {
    let mut world = World::known_player();
    assert!(matches!(world.handle("no", None), Err(RenderError::InvalidIdentity)));
    assert!(matches!(world.handle("bad name", Some(2)), Err(RenderError::InvalidIdentity)));
    assert!(matches!(
        RenderPipeline::start("../../secret", Some(4)),
        Err(RenderError::InvalidIdentity)
    ));
    assert!(world.gets.is_empty());
    assert!(world.lookups.is_empty());
    assert!(world.fetches.is_empty());
    assert!(world.puts.is_empty());
}

#[test]
fn start_reads_the_rendered_tier_first() {
    let (pipeline, action) = RenderPipeline::start("Notch", Some(4)).unwrap();
    assert!(!pipeline.is_finished());
    match action {
        Action::Get { key } => assert_eq!(key.path(), "./.cache/ren/notch.png"),
        _ => panic!("expected a read"),
    }
}

#[test]
fn first_request_looks_up_fetches_composes_and_persists_once() {
    let mut world = World::known_player();
    let (bytes, provenance, cache_hit) = served(world.handle("Notch", None).unwrap());
    assert_eq!(provenance, Provenance::Rendered);
    assert!(!cache_hit);
    assert_eq!(first_pixel(&bytes), ([127, 0, 128, 255], 8, 8));
    assert_eq!(world.lookups, vec!["notch".to_string()]);
    assert_eq!(world.fetches, vec!["http://textures/notch".to_string()]);
    assert_eq!(world.puts, vec!["./.cache/ren/notch.png".to_string()]);
    assert_eq!(world.gets, vec!["./.cache/ren/notch.png".to_string()]);
    assert_eq!(world.store.get("./.cache/ren/notch.png"), Some(&bytes));
    assert_eq!(world.store.get("./.cache/moj/id-0451.png"), Some(&atlas_png()));
}

#[test]
fn second_request_is_served_from_the_rendered_tier_alone() {
    let mut world = World::known_player();
    let (first, _, _) = served(world.handle("Notch", None).unwrap());
    let (second, provenance, cache_hit) = served(world.handle("notch", None).unwrap());
    assert_eq!(first, second);
    assert_eq!(provenance, Provenance::Rendered);
    assert!(cache_hit);
    assert_eq!(world.lookups.len(), 1);
    assert_eq!(world.fetches.len(), 1);
    assert_eq!(world.puts.len(), 1);
    assert_eq!(world.gets.len(), 2);
}

#[test]
fn scale_three_behaves_as_scale_one() {
    let mut one = World::known_player();
    let mut three = World::known_player();
    let a = served(one.handle("Notch", Some(1)).unwrap());
    let b = served(three.handle("Notch", Some(3)).unwrap());
    assert_eq!(a, b);
    assert_eq!(one.gets, three.gets);
    assert_eq!(one.puts, three.puts);
    let c = served(World::known_player().handle("Notch", None).unwrap());
    assert_eq!(a, c);
}

#[test]
fn upscaled_request_on_a_cold_cache_fills_both_tiers() {
    let mut world = World::known_player();
    let (bytes, provenance, cache_hit) = served(world.handle("Notch", Some(4)).unwrap());
    assert_eq!(provenance, Provenance::Upscaled);
    assert!(!cache_hit);
    assert_eq!(first_pixel(&bytes), ([127, 0, 128, 255], 32, 32));
    assert_eq!(
        world.puts,
        vec!["./.cache/ren/notch.png".to_string(), "./.cache/scl/notch.4.png".to_string()]
    );
    assert_eq!(
        world.gets,
        vec!["./.cache/ren/notch.png".to_string(), "./.cache/scl/notch.4.png".to_string()]
    );
    assert_eq!(world.store.get("./.cache/scl/notch.4.png"), Some(&bytes));
}

#[test]
fn upscaled_request_on_a_rendered_hit_decodes_the_entry() {
    let mut world = World::known_player();
    served(world.handle("Notch", None).unwrap());
    let (bytes, provenance, cache_hit) = served(world.handle("Notch", Some(2)).unwrap());
    assert_eq!(provenance, Provenance::Upscaled);
    assert!(cache_hit);
    assert_eq!(first_pixel(&bytes), ([127, 0, 128, 255], 16, 16));
    assert_eq!(world.lookups.len(), 1);
    assert_eq!(world.fetches.len(), 1);
    assert_eq!(
        world.puts,
        vec!["./.cache/ren/notch.png".to_string(), "./.cache/scl/notch.2.png".to_string()]
    );
}

#[test]
fn upscaled_request_on_a_scaled_hit_writes_nothing() {
    let mut world = World::known_player();
    let (first, _, _) = served(world.handle("Notch", Some(16)).unwrap());
    let puts = world.puts.len();
    let (second, provenance, cache_hit) = served(world.handle("Notch", Some(16)).unwrap());
    assert_eq!(first, second);
    assert_eq!(provenance, Provenance::Upscaled);
    assert!(cache_hit);
    assert_eq!(world.puts.len(), puts);
    assert_eq!(world.lookups.len(), 1);
    assert_eq!(first_pixel(&second).1, 128);
}

#[test]
fn fresh_and_cached_enlargements_are_the_same_bytes() {
    let mut cold = World::known_player();
    let (fresh, _, _) = served(cold.handle("Notch", Some(8)).unwrap());
    let mut warm = World::known_player();
    served(warm.handle("Notch", None).unwrap());
    let (cached, _, _) = served(warm.handle("Notch", Some(8)).unwrap());
    assert_eq!(fresh, cached);
}

#[test]
fn unknown_player_falls_back_to_the_default_source() {
    let mut world = World::new();
    world.textures.insert("https://minotar.net/skin/herobrine.png".to_string(), atlas_png());
    let (bytes, provenance, cache_hit) = served(world.handle("Herobrine", None).unwrap());
    assert_eq!(provenance, Provenance::Rendered);
    assert!(!cache_hit);
    assert_eq!(first_pixel(&bytes).0, [127, 0, 128, 255]);
    assert_eq!(world.fetches, vec!["https://minotar.net/skin/herobrine.png".to_string()]);
    assert!(world.store.contains_key("./.cache/moj/herobrine.png"));
}

#[test]
fn failed_lookup_falls_back_too() {
    let mut world = World::known_player();
    world.lookup_fails = true;
    world.textures.insert("https://minotar.net/skin/notch.png".to_string(), atlas_png());
    served(world.handle("Notch", None).unwrap());
    assert_eq!(world.fetches, vec!["https://minotar.net/skin/notch.png".to_string()]);
}

#[test]
fn unknown_player_without_texture_gets_a_placeholder() {
    let mut world = World::new();
    match world.handle("Herobrine", Some(4)).unwrap() {
        Outcome::Placeholder { reason } => {
            assert_eq!(reason, RenderError::UpstreamLookupNotFound)
        }
        _ => panic!("expected a placeholder"),
    }
    assert!(world.puts.is_empty());
}

#[test]
fn failed_download_gets_a_placeholder() {
    let mut world = World::known_player();
    world.textures.clear();
    match world.handle("Notch", None).unwrap() {
        Outcome::Placeholder { reason } => assert_eq!(reason, RenderError::UpstreamError),
        _ => panic!("expected a placeholder"),
    }
    let mut world = World::new();
    world.lookup_fails = true;
    match world.handle("Notch", None).unwrap() {
        Outcome::Placeholder { reason } => assert_eq!(reason, RenderError::UpstreamError),
        _ => panic!("expected a placeholder"),
    }
}

#[test]
fn failed_writes_do_not_fail_the_request() {
    let mut world = World::known_player();
    world.writes_fail = true;
    let (bytes, provenance, cache_hit) = served(world.handle("Notch", Some(2)).unwrap());
    assert_eq!(provenance, Provenance::Upscaled);
    assert!(!cache_hit);
    assert_eq!(first_pixel(&bytes), ([127, 0, 128, 255], 16, 16));
    assert!(world.store.is_empty());
    let reference = served(World::known_player().handle("Notch", Some(2)).unwrap());
    assert_eq!(bytes, reference.0);
}

#[test]
fn texture_that_is_no_image_fails_with_decode_error() {
    let mut world = World::known_player();
    world.textures.insert("http://textures/notch".to_string(), b"<html>".to_vec());
    match world.handle("Notch", None).unwrap() {
        Outcome::Failed { error } => assert_eq!(error, RenderError::DecodeError),
        _ => panic!("expected a failure"),
    }
    assert!(world.puts.is_empty());
}

#[test]
fn corrupt_rendered_entry_fails_an_enlargement() {
    let mut world = World::known_player();
    world.store.insert("./.cache/ren/notch.png".to_string(), b"truncated".to_vec());
    match world.handle("Notch", Some(2)).unwrap() {
        Outcome::Failed { error } => assert_eq!(error, RenderError::DecodeError),
        _ => panic!("expected a failure"),
    }
    // At scale 1 the entry is served as it is: existence is all that counts.
    let (bytes, _, cache_hit) = served(world.handle("Notch", None).unwrap());
    assert_eq!(bytes, b"truncated".to_vec());
    assert!(cache_hit);
}

#[test]
fn unreadable_entry_is_fatal() {
    let (pipeline, _) = RenderPipeline::start("Notch", None).unwrap();
    let (pipeline, action) = pipeline.step(Event::EntryUnreadable);
    assert!(pipeline.is_finished());
    match action {
        Action::Finish { outcome: Outcome::Failed { error } } => {
            assert_eq!(error, RenderError::IOError)
        }
        _ => panic!("expected a failure"),
    }
    let (pipeline, _) = RenderPipeline::start("Notch", Some(2)).unwrap();
    let (pipeline, _) = pipeline.step(Event::Entry(Some(vec![1, 2, 3])));
    let (_, action) = pipeline.step(Event::EntryUnreadable);
    match action {
        Action::Finish { outcome: Outcome::Failed { error } } => {
            assert_eq!(error, RenderError::IOError)
        }
        _ => panic!("expected a failure"),
    }
}

#[test]
fn event_that_answers_nothing_ends_the_request() {
    let (pipeline, _) = RenderPipeline::start("Notch", None).unwrap();
    let (pipeline, action) = pipeline.step(Event::Stored(true));
    assert!(pipeline.is_finished());
    match action {
        Action::Finish { outcome: Outcome::Failed { error } } => {
            assert_eq!(error, RenderError::UnexpectedEvent)
        }
        _ => panic!("expected a failure"),
    }
    let (pipeline, action) = pipeline.step(Event::Entry(None));
    assert!(pipeline.is_finished());
    assert!(matches!(
        action,
        Action::Finish { outcome: Outcome::Failed { error: RenderError::UnexpectedEvent } }
    ));
}

#[test]
fn found_profile_keys_the_raw_tier() {
    let (pipeline, _) = RenderPipeline::start("Notch", None).unwrap();
    let (pipeline, action) = pipeline.step(Event::Entry(None));
    match action {
        Action::Lookup { identity } => assert_eq!(identity.as_str(), "notch"),
        _ => panic!("expected a lookup"),
    }
    let (_, action) = pipeline.step(Event::Profile(LookupOutcome::Found {
        profile_id: "abc123".to_string(),
        texture_url: "http://t/x.png".to_string(),
    }));
    match action {
        Action::Fetch { url, store_as } => {
            assert_eq!(url, "http://t/x.png");
            assert_eq!(store_as.path(), "./.cache/moj/abc123.png");
            assert!(matches!(store_as, CacheKey::Raw { .. }));
        }
        _ => panic!("expected a download"),
    }
}

#[test]
fn begin_takes_checked_values() {
    let identity = Identity::normalize("Alex").unwrap();
    let (_, action) = RenderPipeline::begin(identity, Scale::clamp(Some(2)));
    match action {
        Action::Get { key } => assert_eq!(key.path(), "./.cache/ren/alex.png"),
        _ => panic!("expected a read"),
    }
}

#[test]
fn default_url_names_the_identity() {
    let identity = Identity::normalize("Alex").unwrap();
    assert_eq!(default_texture_url(&identity), "https://minotar.net/skin/alex.png");
}
