use unienc::error::AppleError;
use unienc::graphics_event::deliver_graphics_event;
use unienc::metal::blit::{
    custom_blit, BlitAction, BlitRequest, DrawPlan, Outcome, PoolCache, PoolSize, UvMapping,
};
use unienc::metal::geometry::{indices, vertex_layout, vertices, COMPONENT_BYTES, INDEX_COUNT};
use unienc::metal::marker::Marker;
use unienc::metal::plugin::{DeviceAction, GfxDeviceEventType, GfxRenderer, PluginState};
use unienc::metal::pool::{create_pixel_buffer_pool, pool_config, PoolPixelFormat};
use unienc::metal::texture::{PixelFormat, SharedTexture};

fn request(width: u32, height: u32) -> BlitRequest {
    BlitRequest {
        dst_width: width,
        dst_height: height,
        flip_vertically: false,
        is_gamma_workflow: false,
    }
}

fn run(cache: PoolCache, request: BlitRequest, last: Outcome, at: usize) -> (Vec<BlitAction>, PoolCache) {
    let (mut blit, mut action) = custom_blit(Some(Ok(cache)), request).ok().unwrap();
    let mut actions = Vec::new();
    loop {
        if let BlitAction::Finish(_) = action {
            actions.push(action);
            return (actions, blit.pool_cache());
        }
        let outcome = if actions.len() == at {
            last.clone()
        } else {
            Outcome::Done
        };
        actions.push(action);
        action = blit.advance(outcome);
    }
}

#[test]
fn blit_before_initialization() {
    assert_eq!(
        custom_blit(None, request(1, 1)).err(),
        Some(AppleError::MetalNotInitialized)
    );
    assert_eq!(
        custom_blit(Some(Err("poisoned".to_string())), request(1, 1)).err(),
        Some(AppleError::Other("poisoned".to_string()))
    );
}

#[test]
fn first_blit_goes_through_every_stage() {
    let (actions, cache) = run(PoolCache::new(), request(640, 480), Outcome::Done, 0);
    assert_eq!(
        actions,
        vec![
            BlitAction::CreatePool { width: 640, height: 480 },
            BlitAction::CreateTexture { width: 640, height: 480, srgb: true },
            BlitAction::CommitUnity,
            BlitAction::GetQueue,
            BlitAction::GetCommandBuffer,
            BlitAction::CreateEncoder,
            BlitAction::Record(DrawPlan {
                pipeline: PixelFormat::Bgra8UnormSrgb,
                uv: UvMapping { u_sign: 1, v_sign: 1, u_offset: 0, v_offset: 0 },
                index_count: 3,
            }),
            BlitAction::EndEncoding,
            BlitAction::Submit,
            BlitAction::Finish(Ok(())),
        ]
    );
    assert_eq!(cache.size, Some(PoolSize { width: 640, height: 480 }));
}

#[test]
fn pool_is_reused_for_the_same_size_and_replaced_for_another() {
    let (_, cache) = run(PoolCache::new(), request(640, 480), Outcome::Done, 0);
    let (again, cache) = run(cache, request(640, 480), Outcome::Done, 0);
    assert_eq!(
        again[0],
        BlitAction::CreateTexture { width: 640, height: 480, srgb: true }
    );
    assert!(cache.needs_new_pool(&request(640, 481)));
    assert!(cache.needs_new_pool(&request(641, 480)));
    let (other, cache) = run(cache, request(320, 480), Outcome::Done, 0);
    assert_eq!(other[0], BlitAction::CreatePool { width: 320, height: 480 });
    assert_eq!(cache.size, Some(PoolSize { width: 320, height: 480 }));
}

#[test]
fn failed_pool_leaves_the_old_one() {
    let (_, cache) = run(PoolCache::new(), request(2, 2), Outcome::Done, 0);
    let failure = AppleError::OsStatus(-6689);
    let (actions, after) = run(cache, request(3, 3), Outcome::Failed(failure.clone()), 0);
    assert_eq!(actions.len(), 2);
    assert_eq!(actions[1], BlitAction::Finish(Err(failure)));
    assert_eq!(after, cache);
}

#[test]
fn frame_is_dropped_where_no_buffer_is_free() {
    let (_, cache) = run(PoolCache::new(), request(2, 2), Outcome::Done, 0);
    let failure = AppleError::OsStatus(-6689);
    let (actions, after) = run(cache, request(2, 2), Outcome::Failed(failure.clone()), 0);
    assert_eq!(actions[1], BlitAction::Finish(Err(failure)));
    assert_eq!(after, cache);
}

#[test]
fn missing_gpu_objects_have_their_errors() {
    for (at, error) in [
        (3, AppleError::CommandBufferNotAvailable),
        (4, AppleError::CommandBufferNotAvailable),
        (5, AppleError::RenderCommandEncoderCreationFailed),
    ] {
        let (actions, _) = run(PoolCache::new(), request(2, 2), Outcome::Missing, at);
        assert_eq!(actions.len(), at + 2);
        assert_eq!(actions[at + 1], BlitAction::Finish(Err(error)));
        assert!(!actions.contains(&BlitAction::Submit));
    }
}

#[test]
fn gamma_workflow_and_flip_choose_pipeline_and_mapping() {
    let mut wanted = request(2, 2);
    wanted.is_gamma_workflow = true;
    wanted.flip_vertically = true;
    let (actions, _) = run(PoolCache::new(), wanted, Outcome::Done, 0);
    assert_eq!(
        actions[1],
        BlitAction::CreateTexture { width: 2, height: 2, srgb: false }
    );
    assert_eq!(
        actions[6],
        BlitAction::Record(DrawPlan {
            pipeline: PixelFormat::Bgra8Unorm,
            uv: UvMapping { u_sign: 1, v_sign: -1, u_offset: 0, v_offset: 1 },
            index_count: 3,
        })
    );
}

#[test]
fn flipping_twice_gives_the_picture_back() {
    let flip = UvMapping::for_flip(true);
    let apply = |v: f32| flip.v_sign as f32 * v + flip.v_offset as f32;
    assert_eq!(apply(0.25), 0.75);
    assert_eq!(apply(apply(0.25)), 0.25);
}

#[test]
fn flip_mirrors_rows_and_keeps_columns_at_any_scale() {
    let plain = UvMapping::for_flip(false);
    let flip = UvMapping::for_flip(true);
    let column = |m: UvMapping, scaled: f32| m.u_sign as f32 * scaled + m.u_offset as f32;
    let row = |m: UvMapping, scaled: f32| m.v_sign as f32 * scaled + m.v_offset as f32;
    for scale in [1.0f32, 1.5, 2.0] {
        for v in [-0.25f32, 0.0, 0.5, 0.75, 1.0] {
            let scaled = scale * v;
            assert_eq!(column(plain, scaled), scaled);
            assert_eq!(row(plain, scaled), scaled);
            assert_eq!(column(flip, scaled), scaled);
            assert_eq!(row(flip, scaled), 1.0 - scaled);
        }
    }
}

#[test]
fn pool_is_made_from_its_configuration() {
    let pool = create_pixel_buffer_pool(640, 480, |config| {
        assert_eq!((config.width, config.height), (640, 480));
        assert_eq!(config.pixel_format, PoolPixelFormat::Bgra32);
        assert!(config.metal_compatible);
        assert_eq!(config.min_buffer_count, 2);
        assert_eq!(config.max_buffer_age_secs, 1);
        Ok(Some(7))
    });
    assert_eq!(pool, Ok(7));
    let wide = create_pixel_buffer_pool(1280, 720, |config| {
        assert_eq!((config.width, config.height), (1280, 720));
        assert_eq!(config.pixel_format, PoolPixelFormat::Bgra32);
        Ok(Some(8))
    });
    assert_eq!(wide, Ok(8));
    let missing: Result<u8, AppleError> = create_pixel_buffer_pool(1, 1, |_| Ok(None));
    assert_eq!(missing, Err(AppleError::PixelBufferNull));
    let failed: Result<u8, AppleError> =
        create_pixel_buffer_pool(1, 1, |_| Err(AppleError::OsStatus(5)));
    assert_eq!(failed, Err(AppleError::OsStatus(5)));
}

#[test]
fn sizes_beyond_the_signed_range_wrap() {
    assert_eq!(pool_config(0x7fff_ffff, 0x8000_0000).width, i32::MAX);
    assert_eq!(pool_config(0x7fff_ffff, 0x8000_0000).height, i32::MIN);
    assert_eq!(pool_config(u32::MAX, 0).width, -1);
}

#[test]
fn texture_views_the_pixel_buffer() {
    let shared = SharedTexture::new(
        3,
        4,
        true,
        |threshold| {
            assert_eq!(threshold, 4);
            Ok(Some("buffer"))
        },
        |buffer, format, width, height, plane| {
            assert_eq!(*buffer, "buffer");
            assert_eq!(format, PixelFormat::Bgra8UnormSrgb);
            assert_eq!((width, height, plane), (3, 4, 0));
            Ok(Some("texture"))
        },
    )
    .ok()
    .unwrap();
    assert_eq!(*shared.metal_texture(), "texture");
    assert_eq!(*shared.pixel_buffer(), "buffer");
}

#[test]
fn texture_that_cannot_be_made() {
    let make = |buffer: Result<Option<u8>, AppleError>, texture: Result<Option<u8>, AppleError>| {
        SharedTexture::new(1, 1, false, |_| buffer, |_, _, _, _, _| texture)
            .err()
            .unwrap()
    };
    assert_eq!(
        make(Err(AppleError::OsStatus(1)), Ok(Some(1))),
        AppleError::OsStatus(1)
    );
    assert_eq!(make(Ok(None), Ok(Some(1))), AppleError::PixelBufferNull);
    assert_eq!(
        make(Ok(Some(1)), Err(AppleError::OsStatus(2))),
        AppleError::OsStatus(2)
    );
    assert_eq!(
        make(Ok(Some(1)), Ok(None)),
        AppleError::MetalTextureGetFailed
    );
}

#[test]
fn plugin_is_initialized_once_by_a_metal_device() {
    let mut state = PluginState::new();
    assert!(!state.is_initialized());
    let plan = state.unity_plugin_load(true);
    assert!(plan.announce_markers);
    assert_eq!(plan.proceed, Ok(()));
    let up = GfxDeviceEventType::Initialize;
    assert_eq!(
        state.on_device_event(up, GfxRenderer::Other),
        DeviceAction::Ignore
    );
    assert_eq!(
        state.on_device_event(up, GfxRenderer::Metal),
        DeviceAction::BuildContext
    );
    state.event_id_reserved(42);
    assert!(!state.is_initialized());
    state.context_built();
    assert!(state.is_initialized());
    assert_eq!(state.event_id(), Some(42));
    assert_eq!(
        state.on_device_event(up, GfxRenderer::Metal),
        DeviceAction::Ignore
    );
    for event in [
        GfxDeviceEventType::Shutdown,
        GfxDeviceEventType::BeforeReset,
        GfxDeviceEventType::AfterReset,
    ] {
        assert_eq!(
            state.on_device_event(event, GfxRenderer::Metal),
            DeviceAction::Ignore
        );
    }
}

#[test]
fn plugin_is_loaded_once() {
    let mut state = PluginState::new();
    assert!(!state.unity_plugin_load(false).announce_markers);
    let again = state.unity_plugin_load(true);
    assert!(again.announce_markers);
    assert_eq!(again.proceed, Err(AppleError::GlobalStateSetFailed));
}

#[test]
fn vertices_fill_their_layout() {
    let layout = vertex_layout();
    let data = vertices();
    assert_eq!(
        data,
        vec![-1, -1, 0, 1, 0, 1, 3, -1, 0, 1, 2, 1, -1, 3, 0, 1, 0, -1]
    );
    assert_eq!(indices(), vec![0u16, 1, 2]);
    assert_eq!(indices().len(), INDEX_COUNT);
    assert_eq!((layout.position.offset, layout.uv.offset), (0, 16));
    assert_eq!(layout.stride, 24);
    assert_eq!(layout.step_rate, 1);
    assert_eq!(data.len() * COMPONENT_BYTES, 3 * layout.stride);
}

#[test]
fn marker_names_are_distinct() {
    let markers = Marker::all();
    assert_eq!(markers.len(), 14);
    for (i, a) in markers.iter().enumerate() {
        assert!(a.name().starts_with("unienc_apple_vt::metal::custom_blit"));
        for b in &markers[i + 1..] {
            assert_ne!(a.name(), b.name());
        }
    }
    assert_eq!(
        Marker::CommandsRecord.name(),
        "unienc_apple_vt::metal::custom_blit::commands::record"
    );
    assert_eq!(
        Marker::ResourcesPixelBufferCreate.name(),
        "unienc_apple_vt::metal::custom_blit::resources::pixel_buffer_create"
    );
}

#[test]
fn graphics_event_runs_only_under_a_runtime() {
    let mut seen = None;
    assert!(deliver_graphics_event(Some("runtime"), 5, |r, t| seen = Some((*r, t))));
    assert_eq!(seen, Some(("runtime", 5)));
    let mut ran = false;
    assert!(!deliver_graphics_event(None::<u8>, 5, |_, _| ran = true));
    assert!(!ran);
}
