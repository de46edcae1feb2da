use vstd::prelude::*;

use crate::engine::{ChannelItem, Engine, EngineError, EngineOutput, Platform, ProcessingError};
use crate::frame::{AudioFrame, FrameType, Options};
use crate::texture::TextureFormat;
use crate::timing::WallTime;

verus! {

#[verifier::external_type_specification]
#[verifier::external_body]
pub struct ExTexture(wgpu::Texture);

/// A delivered video frame: a GPU texture with its format, size and display time.
pub struct GpuVideoFrame {
    texture: wgpu::Texture,
    format: TextureFormat,
    size: [u32; 2],
    display_time: WallTime,
}

/// A delivered frame.
pub enum GpuFrame {
    Video(GpuVideoFrame),
    Audio(AudioFrame),
}

/// Wraps a texture that holds a captured image.
pub fn build_video_frame(
    texture: wgpu::Texture,
    format: TextureFormat,
    size: [u32; 2],
    display_time: WallTime,
) -> (f: GpuVideoFrame)
    ensures
        f.texture_view() == texture,
        f.format_view() == format,
        f.size_view() == (size[0], size[1]),
        f.display_time_view() == display_time,
{
    GpuVideoFrame { texture, format, size, display_time }
}

impl GpuVideoFrame {
    pub closed spec fn texture_view(&self) -> wgpu::Texture {
        self.texture
    }

    pub closed spec fn format_view(&self) -> TextureFormat {
        self.format
    }

    pub closed spec fn size_view(&self) -> (u32, u32) {
        (self.size[0], self.size[1])
    }

    pub closed spec fn display_time_view(&self) -> WallTime {
        self.display_time
    }

    /// The captured texture.
    pub fn texture(&self) -> (r: &wgpu::Texture)
        ensures
            *r == self.texture_view(),
    {
        &self.texture
    }

    /// Gives up the frame for its texture.
    pub fn into_texture(self) -> (r: wgpu::Texture)
        ensures
            r == self.texture_view(),
    {
        self.texture
    }

    /// The texture's pixel format.
    pub fn format(&self) -> (r: TextureFormat)
        ensures
            r == self.format_view(),
    {
        self.format
    }

    /// `[width, height]` of the frame.
    pub fn size(&self) -> (r: [u32; 2])
        ensures
            (r[0], r[1]) == self.size_view(),
    {
        [self.size[0], self.size[1]]
    }

    /// When the frame is to be displayed, on the wall clock.
    pub fn display_time(&self) -> (r: WallTime)
        ensures
            r == self.display_time_view(),
    {
        self.display_time
    }
}

impl From<GpuVideoFrame> for wgpu::Texture {
    /// Gives up the frame for its texture.
    fn from(value: GpuVideoFrame) -> (r: wgpu::Texture) {
        value.into_texture()
    }
}

impl vstd::std_specs::convert::FromSpecImpl<GpuVideoFrame> for wgpu::Texture {
    open spec fn obeys_from_spec() -> bool {
        true
    }

    open spec fn from_spec(v: GpuVideoFrame) -> wgpu::Texture {
        v.texture_view()
    }
}

/// Errors of building a capturer.
#[derive(Clone, Debug, PartialEq, Eq)]
pub enum GPUCapturerBuildError {
    NotSupported,
    PermissionNotGranted,
    /// The options ask for frames other than 32-bit BGRA.
    UnsupportedOutputType,
    /// No GPU capture engine exists here; the message says so.
    Engine(String),
    /// The engine's backend could not be created.
    Internal(EngineError),
}

/// Errors of waiting for a frame.
#[derive(Clone, Copy, Debug, PartialEq, Eq, Structural)]
pub enum GPUFrameError {
    /// The frame channel is closed: no frame will come.
    Recv,
    Processing(ProcessingError),
}

/// Errors of polling for a frame.
#[derive(Clone, Copy, Debug, PartialEq, Eq, Structural)]
pub enum GPUFrameTryError {
    /// The frame channel is closed: no frame will come.
    Channel,
    Processing(ProcessingError),
}

/// Outcome of the checks that precede building a capturer, in order: platform
/// support, permission, then the requested output format.
pub open spec fn build_check(options: Options, supported: bool, permitted: bool) -> Result<
    (),
    GPUCapturerBuildError,
> {
    if !supported {
        Err(GPUCapturerBuildError::NotSupported)
    } else if !permitted {
        Err(GPUCapturerBuildError::PermissionNotGranted)
    } else if !(options.output_type is BGRAFrame) {
        Err(GPUCapturerBuildError::UnsupportedOutputType)
    } else {
        Ok(())
    }
}

/// Whatever else the options say, asking for frames other than 32-bit BGRA on a
/// supported, permitted platform fails with `UnsupportedOutputType`.
pub proof fn lemma_build_rejects_output_type(options: Options)
    requires
        !(options.output_type is BGRAFrame),
    ensures
        build_check(options, true, true) == Err::<(), GPUCapturerBuildError>(
            GPUCapturerBuildError::UnsupportedOutputType,
        ),
{
}

/// What a receive from the frame channel without waiting found.
pub enum Received {
    Item(ChannelItem),
    /// Nothing is queued, but the channel is open.
    Empty,
    /// The channel is closed.
    Disconnected,
}

/// What to do after one receive while polling for a frame.
pub enum PollStep {
    /// Hand this frame to the caller.
    Deliver(EngineOutput),
    /// The item was skipped: receive again.
    Skip,
    /// Nothing is queued: report that no frame is ready.
    Idle,
}

/// A capturer: the engine behind the caller's frame requests.
pub struct GPUCapturer {
    engine: Engine,
}

impl GPUCapturer {
    pub closed spec fn engine_view(&self) -> Engine {
        self.engine
    }

    /// Builds a capturer for `platform` after the checks of `build_check`; a
    /// platform with no engine is an `Engine` error.
    pub fn build(options: &Options, supported: bool, permitted: bool, platform: Platform) -> (r:
        Result<GPUCapturer, GPUCapturerBuildError>)
        ensures
            build_check(*options, supported, permitted) matches Err(e) ==> r == Err::<
                GPUCapturer,
                GPUCapturerBuildError,
            >(e),
            build_check(*options, supported, permitted) is Ok ==> {
                &&& platform is Other <==> r is Err
                &&& r matches Err(e) ==> e is Engine && e->Engine_0@
                    == "GPU capture is not available for this platform"@
                &&& r matches Ok(c) ==> {
                    &&& c.engine_view().platform() == platform
                    &&& c.engine_view().options() == *options
                    &&& !c.engine_view().is_running()
                    &&& c.engine_view().last_size() == (0u32, 0u32)
                }
            },
    {
        if !supported {
            return Err(GPUCapturerBuildError::NotSupported);
        }
        if !permitted {
            return Err(GPUCapturerBuildError::PermissionNotGranted);
        }
        match options.output_type {
            FrameType::BGRAFrame => {},
            _ => return Err(GPUCapturerBuildError::UnsupportedOutputType),
        }
        match Engine::new(options, platform) {
            Ok(engine) => Ok(GPUCapturer { engine }),
            Err(_) => {
                let m = String::from_str("GPU capture is not available for this platform");
                proof {
                    reveal_strlit("GPU capture is not available for this platform");
                }
                Err(GPUCapturerBuildError::Engine(m))
            },
        }
    }

    /// Starts capturing. Returns whether the native session must be told.
    pub fn start_capture(&mut self) -> (r: bool)
        ensures
            r == !old(self).engine_view().is_running(),
            final(self).engine_view().is_running(),
            final(self).engine_view().platform() == old(self).engine_view().platform(),
            final(self).engine_view().last_size() == old(self).engine_view().last_size(),
    {
        self.engine.start()
    }

    /// Stops capturing. Returns whether the native session must be told.
    pub fn stop_capture(&mut self) -> (r: bool)
        ensures
            r == old(self).engine_view().is_running(),
            !final(self).engine_view().is_running(),
            final(self).engine_view().platform() == old(self).engine_view().platform(),
            final(self).engine_view().last_size() == old(self).engine_view().last_size(),
    {
        self.engine.stop()
    }

    /// The size of the last frame produced, `[0, 0]` before the first.
    pub fn get_output_frame_size(&mut self) -> (r: [u32; 2])
        ensures
            (r[0], r[1]) == old(self).engine_view().last_size(),
            *final(self) == *old(self),
    {
        self.engine.get_output_frame_size()
    }

    /// One step of waiting for a frame, given what the blocking receive returned
    /// (`None`: the channel is closed). `Ok(None)` means the item was skipped and
    /// the caller receives again.
    pub fn next_frame_step(&mut self, received: Option<ChannelItem>) -> (r: Result<
        Option<EngineOutput>,
        GPUFrameError,
    >)
        requires
            received matches Some(ChannelItem::Sample(s)) ==> s.clocks.valid(),
        ensures
            received is None ==> r == Err::<Option<EngineOutput>, GPUFrameError>(
                GPUFrameError::Recv,
            ) && *final(self) == *old(self),
            received matches Some(item) ==> exists|p: Result<Option<EngineOutput>, ProcessingError>|
                {
                    &&& #[trigger] old(self).engine_view().processes(
                        final(self).engine_view(),
                        item,
                        p,
                    )
                    &&& r == match p {
                        Ok(o) => Ok::<Option<EngineOutput>, GPUFrameError>(o),
                        Err(e) => Err(GPUFrameError::Processing(e)),
                    }
                },
    {
        match received {
            None => Err(GPUFrameError::Recv),
            Some(item) => {
                let ghost g_item = item;
                let p = self.engine.process_channel_item(item);
                proof {
                    assert(old(self).engine_view().processes(self.engine_view(), g_item, p));
                }
                match p {
                    Ok(o) => Ok(o),
                    Err(e) => Err(GPUFrameError::Processing(e)),
                }
            },
        }
    }

    /// One step of polling for a frame, given what a receive without waiting
    /// found: an empty channel is `Idle` at once, a closed one an error, an item
    /// is processed and either delivered or skipped.
    pub fn try_next_frame_step(&mut self, received: Received) -> (r: Result<
        PollStep,
        GPUFrameTryError,
    >)
        requires
            received matches Received::Item(ChannelItem::Sample(s)) ==> s.clocks.valid(),
        ensures
            received is Empty ==> r == Ok::<PollStep, GPUFrameTryError>(PollStep::Idle)
                && *final(self) == *old(self),
            received is Disconnected ==> r == Err::<PollStep, GPUFrameTryError>(
                GPUFrameTryError::Channel,
            ) && *final(self) == *old(self),
            received matches Received::Item(item) ==> exists|
                p: Result<Option<EngineOutput>, ProcessingError>,
            |
                {
                    &&& #[trigger] old(self).engine_view().processes(
                        final(self).engine_view(),
                        item,
                        p,
                    )
                    &&& r == match p {
                        Ok(Some(o)) => Ok::<PollStep, GPUFrameTryError>(PollStep::Deliver(o)),
                        Ok(None) => Ok(PollStep::Skip),
                        Err(e) => Err(GPUFrameTryError::Processing(e)),
                    }
                },
    {
        match received {
            Received::Empty => Ok(PollStep::Idle),
            Received::Disconnected => Err(GPUFrameTryError::Channel),
            Received::Item(item) => {
                let ghost g_item = item;
                let p = self.engine.process_channel_item(item);
                proof {
                    assert(old(self).engine_view().processes(self.engine_view(), g_item, p));
                }
                match p {
                    Ok(Some(o)) => Ok(PollStep::Deliver(o)),
                    Ok(None) => Ok(PollStep::Skip),
                    Err(e) => Err(GPUFrameTryError::Processing(e)),
                }
            },
        }
    }
}

} // verus!
