use sc_cap::engine::{ChannelItem, Engine, EngineError, EngineOutput, Platform, ProcessingError};
use sc_cap::frame::{AudioFrame, FrameType, Options};
use sc_cap::mac::{
    check_frame_status, check_video_sample, describe_import, map_pixel_format,
    map_texture_dimension, map_texture_usage, route_sample, ClockReading, MacEngine,
    MacOutput, MacProcessingError, MetalPixelFormat, MetalTextureInfo, MetalTextureType,
    MetalTextureUsage, NativeSample, OutputKind,
};
use sc_cap::texture::{TextureDimension, TextureFormat};
use sc_cap::timing::{reconcile_display_time, TimeBase, WallTime};

fn clocks(wall: i128, now: u64, frame: u64) -> ClockReading {
    ClockReading {
        wall_now: WallTime { nanos: wall },
        now_ticks: now,
        frame_ticks: frame,
        timebase: TimeBase { numer: 1, denom: 1 },
    }
}

fn sample(kind: OutputKind, status: Option<i32>, size: Option<(usize, usize)>) -> NativeSample {
    NativeSample {
        kind,
        stream_failed: false,
        status,
        image_size: size,
        clocks: clocks(1_000, 50, 50),
        audio: None,
    }
}

fn info(w: u64, h: u64, d: u64, format: MetalPixelFormat, ty: MetalTextureType) -> MetalTextureInfo {
    MetalTextureInfo {
        width: w,
        height: h,
        depth: d,
        pixel_format: format,
        texture_type: ty,
        usage: MetalTextureUsage { shader_read: true, shader_write: false, render_target: true },
        mipmap_level_count: 1,
        array_length: 0,
        sample_count: 0,
    }
}

#[test]
fn status_zero_is_success() {
    assert_eq!(check_frame_status(Some(0)), Ok(()));
}

#[test]
fn status_one_is_dropped() {
    assert_eq!(check_frame_status(Some(1)), Err(MacProcessingError::FrameDropped));
}

#[test]
fn other_status_is_unknown() {
    assert_eq!(check_frame_status(Some(7)), Err(MacProcessingError::UnknownFrameStatus(7)));
    assert_eq!(check_frame_status(Some(-3)), Err(MacProcessingError::UnknownFrameStatus(-3)));
}

#[test]
fn missing_status_is_an_error() {
    assert_eq!(check_frame_status(None), Err(MacProcessingError::MissingFrameStatus));
}

#[test]
fn missing_image_is_an_error() {
    assert_eq!(check_video_sample(Some(0), None), Err(MacProcessingError::MissingImageBuffer));
}

#[test]
fn compositor_zero_area_is_skipped() {
    assert_eq!(check_video_sample(Some(0), Some((0, 10))), Ok(None));
    assert_eq!(check_video_sample(Some(0), Some((10, 0))), Ok(None));
    assert_eq!(check_video_sample(Some(0), Some((3, 2))), Ok(Some((3, 2))));
}

#[test]
fn display_time_equals_wall_sample_when_presented_now() {
    let t = reconcile_display_time(WallTime { nanos: 5_000 }, 777, 777, TimeBase { numer: 1, denom: 1 });
    assert_eq!(t, WallTime { nanos: 5_000 });
}

#[test]
fn display_time_one_second_in_the_past() {
    let now: u64 = 10_000_000_000;
    let t = reconcile_display_time(
        WallTime { nanos: 1_700_000_000_000_000_000 },
        now,
        now - 1_000_000_000,
        TimeBase { numer: 1, denom: 1 },
    );
    assert_eq!(t, WallTime { nanos: 1_699_999_999_000_000_000 });
}

#[test]
fn display_time_scales_ticks_by_timebase() {
    let t = reconcile_display_time(WallTime { nanos: 0 }, 100, 103, TimeBase { numer: 125, denom: 3 });
    assert_eq!(t, WallTime { nanos: 125 });
    let t = reconcile_display_time(WallTime { nanos: 0 }, 100, 98, TimeBase { numer: 1, denom: 3 });
    assert_eq!(t, WallTime { nanos: 0 });
}

#[test]
fn pixel_formats_map_to_bgra_only() {
    assert_eq!(map_pixel_format(MetalPixelFormat::Bgra8Unorm), Ok(TextureFormat::Bgra8Unorm));
    assert_eq!(map_pixel_format(MetalPixelFormat::Bgra8UnormSrgb), Ok(TextureFormat::Bgra8UnormSrgb));
    assert_eq!(
        map_pixel_format(MetalPixelFormat::Other(70)),
        Err(MacProcessingError::UnsupportedPixelFormat(MetalPixelFormat::Other(70)))
    );
}

#[test]
fn texture_types_fold_to_dimensions() {
    assert_eq!(map_texture_dimension(MetalTextureType::D1Array), Ok(TextureDimension::D1));
    assert_eq!(map_texture_dimension(MetalTextureType::Cube), Ok(TextureDimension::D2));
    assert_eq!(map_texture_dimension(MetalTextureType::CubeArray), Ok(TextureDimension::D2));
    assert_eq!(map_texture_dimension(MetalTextureType::D3), Ok(TextureDimension::D3));
    assert_eq!(
        map_texture_dimension(MetalTextureType::TextureBuffer),
        Err(MacProcessingError::UnsupportedTextureType(MetalTextureType::TextureBuffer))
    );
}

#[test]
fn usage_bits_map_to_usages() {
    let u = map_texture_usage(MetalTextureUsage { shader_read: true, shader_write: true, render_target: false });
    assert!(u.texture_binding && u.storage_binding && !u.render_attachment && u.copy_src);
}

#[test]
fn import_always_allows_copying_out() {
    let s = describe_import(&info(1920, 1080, 1, MetalPixelFormat::Bgra8Unorm, MetalTextureType::D2)).unwrap();
    assert_eq!((s.width, s.height), (1920, 1080));
    assert_eq!(s.depth_or_array_layers, 1);
    assert_eq!(s.sample_count, 1);
    assert_eq!(s.dimension, TextureDimension::D2);
    assert!(s.usage.copy_src && s.usage.texture_binding && s.usage.render_attachment);
    assert!(!s.usage.storage_binding && !s.usage.copy_dst);
}

#[test]
fn import_of_3d_texture_uses_depth() {
    let s = describe_import(&info(4, 4, 6, MetalPixelFormat::Bgra8UnormSrgb, MetalTextureType::D3)).unwrap();
    assert_eq!(s.depth_or_array_layers, 6);
    assert_eq!(s.format, TextureFormat::Bgra8UnormSrgb);
}

#[test]
fn import_too_large_is_refused() {
    let big = u32::MAX as u64 + 1;
    let r = describe_import(&info(big, 4, 1, MetalPixelFormat::Bgra8Unorm, MetalTextureType::D2));
    assert_eq!(r, Err(MacProcessingError::DimensionsTooLarge(big)));
    let r = describe_import(&info(4, 4, big, MetalPixelFormat::Bgra8Unorm, MetalTextureType::D2));
    assert_eq!(r, Err(MacProcessingError::DimensionsTooLarge(big)));
}

#[test]
fn import_unsupported_type_is_refused() {
    let r = describe_import(&info(4, 4, 1, MetalPixelFormat::Bgra8Unorm, MetalTextureType::D2MultisampleArray));
    assert_eq!(r, Err(MacProcessingError::UnsupportedTextureType(MetalTextureType::D2MultisampleArray)));
}

#[test]
fn failed_stream_stops_every_sample() {
    assert_eq!(route_sample(true, OutputKind::Screen), Err(MacProcessingError::StreamStopped));
    assert_eq!(route_sample(false, OutputKind::Other), Err(MacProcessingError::UnexpectedOutputType));
    assert_eq!(route_sample(false, OutputKind::Audio), Ok(OutputKind::Audio));
}

#[test]
fn compositor_screen_sample_becomes_import_request() {
    let mut e = MacEngine::new();
    let mut s = sample(OutputKind::Screen, Some(0), Some((640, 480)));
    s.clocks = clocks(2_000, 100, 60);
    match e.process_channel_item(s) {
        Ok(Some(MacOutput::Import(q))) => {
            assert_eq!((q.width, q.height), (640, 480));
            assert_eq!(q.display_time, WallTime { nanos: 1_960 });
        }
        _ => panic!("expected an import request"),
    }
    assert_eq!(e.get_output_frame_size(), [640, 480]);
}

#[test]
fn compositor_audio_passes_through() {
    let mut e = MacEngine::new();
    let mut s = sample(OutputKind::Audio, None, None);
    s.audio = Some(AudioFrame { display_time: WallTime { nanos: 3 }, channels: 1, sample_rate: 44100, data: vec![1, 2] });
    match e.process_channel_item(s) {
        Ok(Some(MacOutput::Audio(a))) => assert_eq!(a.data, vec![1, 2]),
        _ => panic!("expected audio"),
    }
    let r = e.process_channel_item(sample(OutputKind::Audio, None, None));
    assert_eq!(r.err(), Some(MacProcessingError::AudioConversion));
}

#[test]
fn compositor_engine_wraps_backend_errors() {
    let o = Options { fps: 30, show_cursor: false, show_highlight: false, captures_audio: true, output_type: FrameType::BGRAFrame };
    let mut engine = Engine::new(&o, Platform::MacOs).unwrap();
    let r = engine.process_channel_item(ChannelItem::Sample(sample(OutputKind::Screen, Some(1), Some((2, 2)))));
    assert_eq!(r.err(), Some(ProcessingError::Mac(MacProcessingError::FrameDropped)));
    let r = engine.process_channel_item(ChannelItem::Sample(sample(OutputKind::Screen, Some(0), Some((0, 2)))));
    assert!(matches!(r, Ok(None)));
    let r = engine.process_channel_item(ChannelItem::Sample(sample(OutputKind::Screen, Some(0), Some((8, 2)))));
    assert!(matches!(r, Ok(Some(EngineOutput::Import(_)))));
    assert_eq!(engine.get_output_frame_size(), [8, 2]);
}

#[test]
fn engine_without_backend_is_unsupported() {
    let o = Options { fps: 30, show_cursor: false, show_highlight: false, captures_audio: false, output_type: FrameType::BGRAFrame };
    assert_eq!(Engine::new(&o, Platform::Other).err(), Some(EngineError::Unsupported));
}
