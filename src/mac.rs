use vstd::prelude::*;

use crate::frame::AudioFrame;
use crate::timing::{reconcile_display_time, reconciled, TimeBase, WallTime, WALL_LIMIT};
use crate::texture::{TextureDimension, TextureFormat, TextureShape, TextureUsages};

verus! {

/// Pixel format of a native Metal texture.
#[derive(Clone, Copy, Debug, PartialEq, Eq, Structural)]
pub enum MetalPixelFormat {
    Bgra8Unorm,
    Bgra8UnormSrgb,
    /// Any other format, by its raw native code.
    Other(u64),
}

/// Texture type of a native Metal texture.
#[derive(Clone, Copy, Debug, PartialEq, Eq, Structural)]
pub enum MetalTextureType {
    D1,
    D1Array,
    D2,
    D2Array,
    D2Multisample,
    Cube,
    CubeArray,
    D3,
    D2MultisampleArray,
    TextureBuffer,
}

/// Usage bits of a native Metal texture.
#[derive(Clone, Copy, Debug, PartialEq, Eq, Structural)]
pub struct MetalTextureUsage {
    pub shader_read: bool,
    pub shader_write: bool,
    pub render_target: bool,
}

/// What the compositor capture service tagged a sample as.
#[derive(Clone, Copy, Debug, PartialEq, Eq, Structural)]
pub enum OutputKind {
    Screen,
    Audio,
    /// A kind this library does not handle.
    Other,
}

/// What the native texture produced for a frame reports about itself.
#[derive(Clone, Copy, Debug, PartialEq, Eq, Structural)]
pub struct MetalTextureInfo {
    pub width: u64,
    pub height: u64,
    pub depth: u64,
    pub pixel_format: MetalPixelFormat,
    pub texture_type: MetalTextureType,
    pub usage: MetalTextureUsage,
    pub mipmap_level_count: u64,
    pub array_length: u64,
    pub sample_count: u64,
}

/// Errors of setting up the compositor backend.
#[derive(Clone, Debug, PartialEq, Eq)]
pub enum MacEngineError {
    /// The capture session could not be created; the message says why.
    CreateCapturer(String),
    /// The caller's GPU device is not backed by Metal.
    HalUnavailable,
    /// The native texture cache could not be created (native status code).
    TextureCache(i32),
}

/// Errors of turning one compositor sample into a frame.
#[derive(Clone, Copy, Debug, PartialEq, Eq, Structural)]
pub enum MacProcessingError {
    StreamStopped,
    FrameDropped,
    MissingFrameStatus,
    UnknownFrameStatus(i32),
    MissingImageBuffer,
    /// The texture cache refused the pixel buffer (native status code).
    TextureCache(i32),
    NullMetalTexture,
    DimensionsTooLarge(u64),
    HalUnavailable,
    UnsupportedPixelFormat(MetalPixelFormat),
    UnsupportedTextureType(MetalTextureType),
    UnexpectedOutputType,
    AudioConversion,
}

/// The frame status attached to a sample: `0` complete, `1` dropped, anything
/// else unknown, absence an error of its own.
pub open spec fn status_outcome(status: Option<i32>) -> Result<(), MacProcessingError> {
    match status {
        None => Err(MacProcessingError::MissingFrameStatus),
        Some(0i32) => Ok(()),
        Some(1i32) => Err(MacProcessingError::FrameDropped),
        Some(code) => Err(MacProcessingError::UnknownFrameStatus(code)),
    }
}

/// Checks the frame status attached to a sample.
pub fn check_frame_status(status: Option<i32>) -> (r: Result<(), MacProcessingError>)
    ensures
        r == status_outcome(status),
{
    match status {
        None => Err(MacProcessingError::MissingFrameStatus),
        Some(0) => Ok(()),
        Some(1) => Err(MacProcessingError::FrameDropped),
        Some(code) => Err(MacProcessingError::UnknownFrameStatus(code)),
    }
}

/// Every status value, and its absence, has exactly one outcome: only `0`
/// succeeds, only `1` is a dropped frame, and an unknown code is reported as it is.
pub proof fn lemma_status_total(status: Option<i32>)
    ensures
        status_outcome(status) is Ok <==> status == Some(0i32),
        status_outcome(status) == Err::<(), MacProcessingError>(MacProcessingError::FrameDropped)
            <==> status == Some(1i32),
        status_outcome(status) == Err::<(), MacProcessingError>(
            MacProcessingError::MissingFrameStatus,
        ) <==> status is None,
        forall|code: i32|
            code != 0 && code != 1 ==> (status == Some(code) <==> status_outcome(status) == Err::<
                (),
                MacProcessingError,
            >(MacProcessingError::UnknownFrameStatus(code))),
{
}

/// Outcome of checking a video sample before its pixels are imported: the
/// image size to import, or `None` for a frame to skip.
pub open spec fn sample_outcome(status: Option<i32>, image_size: Option<(usize, usize)>) -> Result<
    Option<(usize, usize)>,
    MacProcessingError,
> {
    match status_outcome(status) {
        Err(e) => Err(e),
        Ok(_) => match image_size {
            None => Err(MacProcessingError::MissingImageBuffer),
            Some((w, h)) => if w == 0 || h == 0 {
                Ok(None)
            } else {
                Ok(Some((w, h)))
            },
        },
    }
}

/// Validates a video sample: its status, that it carries an image, and that the
/// image has an area. A zero-area image is skipped, not an error.
pub fn check_video_sample(status: Option<i32>, image_size: Option<(usize, usize)>) -> (r: Result<
    Option<(usize, usize)>,
    MacProcessingError,
>)
    ensures
        r == sample_outcome(status, image_size),
{
    match check_frame_status(status) {
        Err(e) => Err(e),
        Ok(()) => match image_size {
            None => Err(MacProcessingError::MissingImageBuffer),
            Some((w, h)) => {
                if w == 0 || h == 0 {
                    Ok(None)
                } else {
                    Ok(Some((w, h)))
                }
            },
        },
    }
}

/// A complete sample with a zero-width or zero-height image is always skipped.
pub proof fn lemma_sample_zero_area_skipped(w: usize, h: usize)
    requires
        w == 0 || h == 0,
    ensures
        sample_outcome(Some(0i32), Some((w, h))) == Ok::<Option<(usize, usize)>, MacProcessingError>(
            None,
        ),
{
}

/// Maps a native pixel format to the delivered texture format: only 8-bit BGRA,
/// linear or sRGB, is accepted.
pub fn map_pixel_format(format: MetalPixelFormat) -> (r: Result<TextureFormat, MacProcessingError>)
    ensures
        format is Bgra8Unorm ==> r == Ok::<TextureFormat, MacProcessingError>(
            TextureFormat::Bgra8Unorm,
        ),
        format is Bgra8UnormSrgb ==> r == Ok::<TextureFormat, MacProcessingError>(
            TextureFormat::Bgra8UnormSrgb,
        ),
        format is Other ==> r == Err::<TextureFormat, MacProcessingError>(
            MacProcessingError::UnsupportedPixelFormat(format),
        ),
{
    match format {
        MetalPixelFormat::Bgra8Unorm => Ok(TextureFormat::Bgra8Unorm),
        MetalPixelFormat::Bgra8UnormSrgb => Ok(TextureFormat::Bgra8UnormSrgb),
        other => Err(MacProcessingError::UnsupportedPixelFormat(other)),
    }
}

/// The portable dimension of a native texture type, when it has one.
pub open spec fn dimension_of(ty: MetalTextureType) -> Option<TextureDimension> {
    match ty {
        MetalTextureType::D1 | MetalTextureType::D1Array => Some(TextureDimension::D1),
        MetalTextureType::D2
        | MetalTextureType::D2Array
        | MetalTextureType::D2Multisample
        | MetalTextureType::Cube
        | MetalTextureType::CubeArray => Some(TextureDimension::D2),
        MetalTextureType::D3 => Some(TextureDimension::D3),
        _ => None,
    }
}

/// Maps a native texture type to its dimension; cube textures count as 2D.
pub fn map_texture_dimension(ty: MetalTextureType) -> (r: Result<TextureDimension, MacProcessingError>)
    ensures
        dimension_of(ty) matches Some(d) ==> r == Ok::<TextureDimension, MacProcessingError>(d),
        dimension_of(ty) is None ==> r == Err::<TextureDimension, MacProcessingError>(
            MacProcessingError::UnsupportedTextureType(ty),
        ),
{
    match ty {
        MetalTextureType::D1 | MetalTextureType::D1Array => Ok(TextureDimension::D1),
        MetalTextureType::D2
        | MetalTextureType::D2Array
        | MetalTextureType::D2Multisample
        | MetalTextureType::Cube
        | MetalTextureType::CubeArray => Ok(TextureDimension::D2),
        MetalTextureType::D3 => Ok(TextureDimension::D3),
        other => Err(MacProcessingError::UnsupportedTextureType(other)),
    }
}

/// Maps native usage bits to texture usages: shader reads become texture
/// bindings, shader writes storage bindings, render targets render attachments,
/// and copying out is always allowed so that callers can read the frame back.
pub fn map_texture_usage(usage: MetalTextureUsage) -> (r: TextureUsages)
    ensures
        r.texture_binding == usage.shader_read,
        r.storage_binding == usage.shader_write,
        r.render_attachment == usage.render_target,
        r.copy_src,
        !r.copy_dst,
{
    let mut flags = TextureUsages::empty();
    flags.copy_src = true;
    if usage.shader_read {
        flags.texture_binding = true;
    }
    if usage.shader_write {
        flags.storage_binding = true;
    }
    if usage.render_target {
        flags.render_attachment = true;
    }
    flags
}

/// The larger of one and `n`.
pub open spec fn at_least_one(n: u32) -> u32 {
    if n == 0 {
        1
    } else {
        n
    }
}

/// The portable format of a native pixel format, when it has one.
pub open spec fn format_of(format: MetalPixelFormat) -> Option<TextureFormat> {
    match format {
        MetalPixelFormat::Bgra8Unorm => Some(TextureFormat::Bgra8Unorm),
        MetalPixelFormat::Bgra8UnormSrgb => Some(TextureFormat::Bgra8UnormSrgb),
        MetalPixelFormat::Other(_) => None,
    }
}

/// The texture that wraps a supported native texture.
pub open spec fn import_shape(info: MetalTextureInfo) -> TextureShape {
    let dimension = dimension_of(info.texture_type).unwrap();
    TextureShape {
        width: info.width as u32,
        height: info.height as u32,
        depth_or_array_layers: if dimension is D3 {
            at_least_one(info.depth as u32)
        } else {
            at_least_one(info.array_length as u32)
        },
        mip_level_count: info.mipmap_level_count as u32,
        sample_count: at_least_one(info.sample_count as u32),
        dimension,
        format: format_of(info.pixel_format).unwrap(),
        usage: TextureUsages {
            copy_src: true,
            copy_dst: false,
            texture_binding: info.usage.shader_read,
            storage_binding: info.usage.shader_write,
            render_attachment: info.usage.render_target,
        },
    }
}

/// Outcome of describing an imported native texture, checks in order: width,
/// height and depth must fit in 32 bits, then the format and the type must be
/// supported.
pub open spec fn import_outcome(info: MetalTextureInfo) -> Result<TextureShape, MacProcessingError> {
    if info.width > u32::MAX {
        Err(MacProcessingError::DimensionsTooLarge(info.width))
    } else if info.height > u32::MAX {
        Err(MacProcessingError::DimensionsTooLarge(info.height))
    } else if info.depth > u32::MAX {
        Err(MacProcessingError::DimensionsTooLarge(info.depth))
    } else if format_of(info.pixel_format) is None {
        Err(MacProcessingError::UnsupportedPixelFormat(info.pixel_format))
    } else if dimension_of(info.texture_type) is None {
        Err(MacProcessingError::UnsupportedTextureType(info.texture_type))
    } else {
        Ok(import_shape(info))
    }
}

/// Describes the texture that wraps an imported native texture: its size must
/// fit in 32 bits, its format and type must be supported, and the usages always
/// include copying out so that callers can read the frame back.
pub fn describe_import(info: &MetalTextureInfo) -> (r: Result<TextureShape, MacProcessingError>)
    ensures
        r == import_outcome(*info),
{
    if info.width > u32::MAX as u64 {
        return Err(MacProcessingError::DimensionsTooLarge(info.width));
    }
    if info.height > u32::MAX as u64 {
        return Err(MacProcessingError::DimensionsTooLarge(info.height));
    }
    let depth_raw: u64 = if info.depth == 0 {
        1
    } else {
        info.depth
    };
    if depth_raw > u32::MAX as u64 {
        return Err(MacProcessingError::DimensionsTooLarge(info.depth));
    }
    let format = match map_pixel_format(info.pixel_format) {
        Ok(f) => f,
        Err(e) => return Err(e),
    };
    let dimension = match map_texture_dimension(info.texture_type) {
        Ok(d) => d,
        Err(e) => return Err(e),
    };
    let usage = map_texture_usage(info.usage);
    let mip_level_count: u32 = info.mipmap_level_count as u32;
    let array_raw: u32 = info.array_length as u32;
    let array_layers: u32 = if array_raw == 0 {
        1
    } else {
        array_raw
    };
    let samples_raw: u32 = info.sample_count as u32;
    let sample_count: u32 = if samples_raw == 0 {
        1
    } else {
        samples_raw
    };
    let depth_or_array_layers: u32 = match dimension {
        TextureDimension::D3 => depth_raw as u32,
        _ => array_layers,
    };
    Ok(
        TextureShape {
            width: info.width as u32,
            height: info.height as u32,
            depth_or_array_layers,
            mip_level_count,
            sample_count,
            dimension,
            format,
            usage,
        },
    )
}

/// Decides what to do with a compositor sample: a failed stream stops every
/// sample; screen samples go to the texture path, audio samples to the audio
/// path, and any other kind is an error.
pub fn route_sample(stream_failed: bool, kind: OutputKind) -> (r: Result<OutputKind, MacProcessingError>)
    ensures
        stream_failed ==> r == Err::<OutputKind, MacProcessingError>(
            MacProcessingError::StreamStopped,
        ),
        !stream_failed && kind is Other ==> r == Err::<OutputKind, MacProcessingError>(
            MacProcessingError::UnexpectedOutputType,
        ),
        !stream_failed && !(kind is Other) ==> r == Ok::<OutputKind, MacProcessingError>(kind),
{
    if stream_failed {
        return Err(MacProcessingError::StreamStopped);
    }
    match kind {
        OutputKind::Other => Err(MacProcessingError::UnexpectedOutputType),
        k => Ok(k),
    }
}

/// One sample of the wall clock and of the host's monotonic clock, taken together
/// while a sample is processed, and the sample's presentation time in ticks.
#[derive(Clone, Copy, Debug, PartialEq, Eq, Structural)]
pub struct ClockReading {
    pub wall_now: WallTime,
    pub now_ticks: u64,
    pub frame_ticks: u64,
    pub timebase: TimeBase,
}

impl ClockReading {
    /// A usable reading: a nonzero tick denominator and a wall time that a
    /// system clock can hold.
    pub open spec fn valid(&self) -> bool {
        &&& self.timebase.denom > 0
        &&& -WALL_LIMIT <= self.wall_now.nanos <= WALL_LIMIT
    }

    /// The wall-clock time at which the sample is displayed.
    pub open spec fn display_nanos(&self) -> int {
        reconciled(self.wall_now.nanos as int, self.now_ticks, self.frame_ticks, self.timebase)
    }
}

/// What the compositor hands over for one sample, read out of the native
/// sample buffer.
#[derive(Clone, Debug)]
pub struct NativeSample {
    pub kind: OutputKind,
    /// Whether the capture stream had reported a failure when the sample was taken.
    pub stream_failed: bool,
    /// The frame status attached to the sample, if any.
    pub status: Option<i32>,
    /// Width and height of the sample's image, rounded, if it carries one.
    pub image_size: Option<(usize, usize)>,
    pub clocks: ClockReading,
    /// The sample decoded by the CPU audio path, if it could be.
    pub audio: Option<AudioFrame>,
}

/// A native image to import as a texture without copying it.
#[derive(Clone, Copy, Debug, PartialEq, Eq, Structural)]
pub struct ImportRequest {
    pub width: usize,
    pub height: usize,
    pub display_time: WallTime,
}

/// What one compositor sample becomes.
#[derive(Clone, Debug)]
pub enum MacOutput {
    Import(ImportRequest),
    Audio(AudioFrame),
}

/// What processing a compositor sample gives, checks in order: a failed stream,
/// the sample's kind, then for screen samples `sample_outcome` and for audio
/// samples whether the audio path decoded them.
pub open spec fn mac_result(s: NativeSample) -> Result<Option<MacOutput>, MacProcessingError> {
    if s.stream_failed {
        Err(MacProcessingError::StreamStopped)
    } else {
        match s.kind {
            OutputKind::Other => Err(MacProcessingError::UnexpectedOutputType),
            OutputKind::Audio => match s.audio {
                Some(a) => Ok(Some(MacOutput::Audio(a))),
                None => Err(MacProcessingError::AudioConversion),
            },
            OutputKind::Screen => match sample_outcome(s.status, s.image_size) {
                Err(e) => Err(e),
                Ok(None) => Ok(None),
                Ok(Some((w, h))) => Ok(
                    Some(
                        MacOutput::Import(
                            ImportRequest {
                                width: w,
                                height: h,
                                display_time: WallTime { nanos: s.clocks.display_nanos() as i128 },
                            },
                        ),
                    ),
                ),
            },
        }
    }
}

/// The size an import request records as the backend's output size: that of
/// the image, when it fits in 32 bits.
pub open spec fn recorded_size(r: Result<Option<MacOutput>, MacProcessingError>) -> Option<
    (u32, u32),
> {
    match r {
        Ok(Some(MacOutput::Import(q))) => if q.width <= u32::MAX && q.height <= u32::MAX {
            Some((q.width as u32, q.height as u32))
        } else {
            None
        },
        _ => None,
    }
}

/// The compositor backend: classifies samples, stamps display times, and
/// remembers the size of the last image it asked to import.
pub struct MacEngine {
    output_size: [u32; 2],
}

impl MacEngine {
    /// The size of the last image asked for, `[0, 0]` before the first.
    pub closed spec fn last_size(&self) -> (u32, u32) {
        (self.output_size[0], self.output_size[1])
    }

    /// A backend that has seen no frame yet.
    pub fn new() -> (e: MacEngine)
        ensures
            e.last_size() == (0u32, 0u32),
    {
        MacEngine { output_size: [0, 0] }
    }

    /// The size of the last image asked for, `[0, 0]` before the first.
    pub fn get_output_frame_size(&self) -> (r: [u32; 2])
        ensures
            (r[0], r[1]) == self.last_size(),
    {
        [self.output_size[0], self.output_size[1]]
    }

    /// Processes one compositor sample into an import request or an audio frame.
    pub fn process_channel_item(&mut self, data: NativeSample) -> (r: Result<
        Option<MacOutput>,
        MacProcessingError,
    >)
        requires
            data.clocks.valid(),
        ensures
            r == mac_result(data),
            recorded_size(r) matches Some(sz) ==> final(self).last_size() == sz,
            recorded_size(r) is None ==> final(self).last_size() == old(self).last_size(),
    {
        let NativeSample { kind, stream_failed, status, image_size, clocks, audio } = data;
        match route_sample(stream_failed, kind) {
            Err(e) => Err(e),
            Ok(OutputKind::Audio) => match audio {
                Some(a) => Ok(Some(MacOutput::Audio(a))),
                None => Err(MacProcessingError::AudioConversion),
            },
            Ok(_) => match check_video_sample(status, image_size) {
                Err(e) => Err(e),
                Ok(None) => Ok(None),
                Ok(Some((w, h))) => {
                    let display_time = reconcile_display_time(
                        clocks.wall_now,
                        clocks.now_ticks,
                        clocks.frame_ticks,
                        clocks.timebase,
                    );
                    if w <= u32::MAX as usize && h <= u32::MAX as usize {
                        self.output_size = [w as u32, h as u32];
                    }
                    Ok(Some(MacOutput::Import(ImportRequest { width: w, height: h, display_time })))
                },
            },
        }
    }
}

} // verus!
