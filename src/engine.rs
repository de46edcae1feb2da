use vstd::prelude::*;

use crate::frame::{AudioFrame, Frame, Options};
use crate::linux::{
    frame_result_matches, LinuxEngine, LinuxEngineError, LinuxProcessingError, TextureUpload,
};
use crate::mac::{
    mac_result, recorded_size, ImportRequest, MacEngine, MacEngineError, MacOutput,
    MacProcessingError, NativeSample,
};

verus! {

/// The platform the library runs on.
#[derive(Clone, Copy, Debug, PartialEq, Eq, Structural)]
pub enum Platform {
    /// Frames are pushed by the operating system's compositor.
    MacOs,
    /// Frames come decoded through the desktop portal.
    Linux,
    /// No capture backend exists.
    Other,
}

/// What crosses the frame channel from the capture callback to the engine.
#[derive(Clone, Debug)]
pub enum ChannelItem {
    /// A compositor sample.
    Sample(NativeSample),
    /// A frame decoded by the portal capture path.
    Decoded(Frame),
}

/// What the engine makes of one channel item.
#[derive(Clone, Debug)]
pub enum EngineOutput {
    /// Converted pixels to write into a new texture.
    Upload(TextureUpload),
    /// A native image to wrap as a texture without copying.
    Import(ImportRequest),
    Audio(AudioFrame),
}

/// Errors of creating an engine.
#[derive(Clone, Debug, PartialEq, Eq)]
pub enum EngineError {
    Mac(MacEngineError),
    Linux(LinuxEngineError),
    /// No backend exists for this platform.
    Unsupported,
}

/// Errors of processing one channel item.
#[derive(Clone, Copy, Debug, PartialEq, Eq, Structural)]
pub enum ProcessingError {
    Mac(MacProcessingError),
    Linux(LinuxProcessingError),
    /// The item does not belong to the running backend.
    Unsupported,
}

/// The backend an engine drives.
pub enum Backend {
    Mac(MacEngine),
    Linux(LinuxEngine),
}

/// The engine: one backend, the options it was built with, and whether the
/// capture session is running.
pub struct Engine {
    options: Options,
    backend: Backend,
    running: bool,
}

/// Whether `r` is what the compositor backend's result `m` becomes.
pub open spec fn lifted_mac(
    r: Result<Option<EngineOutput>, ProcessingError>,
    m: Result<Option<MacOutput>, MacProcessingError>,
) -> bool {
    match m {
        Err(e) => r == Err::<Option<EngineOutput>, ProcessingError>(ProcessingError::Mac(e)),
        Ok(None) => r == Ok::<Option<EngineOutput>, ProcessingError>(None),
        Ok(Some(MacOutput::Import(q))) => r == Ok::<Option<EngineOutput>, ProcessingError>(
            Some(EngineOutput::Import(q)),
        ),
        Ok(Some(MacOutput::Audio(a))) => r == Ok::<Option<EngineOutput>, ProcessingError>(
            Some(EngineOutput::Audio(a)),
        ),
    }
}

/// Whether `r` is what the portal backend's result `l` becomes.
pub open spec fn lifted_linux(
    r: Result<Option<EngineOutput>, ProcessingError>,
    l: Result<Option<TextureUpload>, LinuxProcessingError>,
) -> bool {
    match l {
        Err(e) => r == Err::<Option<EngineOutput>, ProcessingError>(ProcessingError::Linux(e)),
        Ok(None) => r == Ok::<Option<EngineOutput>, ProcessingError>(None),
        Ok(Some(u)) => r == Ok::<Option<EngineOutput>, ProcessingError>(
            Some(EngineOutput::Upload(u)),
        ),
    }
}

impl Engine {
    /// The platform whose backend the engine drives.
    pub closed spec fn platform(&self) -> Platform {
        match self.backend {
            Backend::Mac(_) => Platform::MacOs,
            Backend::Linux(_) => Platform::Linux,
        }
    }

    /// Whether the capture session was started and not stopped since.
    pub closed spec fn is_running(&self) -> bool {
        self.running
    }

    /// The options the engine was built with.
    pub closed spec fn options(&self) -> Options {
        self.options
    }

    /// The size of the last frame the backend produced, `(0, 0)` before the first.
    pub closed spec fn last_size(&self) -> (u32, u32) {
        match self.backend {
            Backend::Mac(m) => m.last_size(),
            Backend::Linux(l) => l.last_size(),
        }
    }

    /// Whether processing `data` may take the engine from `self` to `after` with
    /// result `r`: the backend's own result, carried over into the engine's
    /// types, and the backend's record of the last frame size. An item of the
    /// other backend is `Unsupported` and changes nothing.
    pub open spec fn processes(
        &self,
        after: Engine,
        data: ChannelItem,
        r: Result<Option<EngineOutput>, ProcessingError>,
    ) -> bool {
        &&& !(self.platform() is Other)
        &&& after.platform() == self.platform()
        &&& after.options() == self.options()
        &&& after.is_running() == self.is_running()
        &&& self.platform() is MacOs && data is Sample ==> {
            let m = mac_result(data->Sample_0);
            &&& lifted_mac(r, m)
            &&& recorded_size(m) matches Some(sz) ==> after.last_size() == sz
            &&& recorded_size(m) is None ==> after.last_size() == self.last_size()
        }
        &&& self.platform() is Linux && data is Decoded ==> exists|
            l: Result<Option<TextureUpload>, LinuxProcessingError>,
        | {
            &&& #[trigger] lifted_linux(r, l)
            &&& frame_result_matches(l, data->Decoded_0)
            &&& l matches Ok(Some(u)) ==> after.last_size() == (u.width, u.height)
            &&& !(l matches Ok(Some(_))) ==> after.last_size() == self.last_size()
        }
        &&& (self.platform() is MacOs && data is Decoded) || (self.platform() is Linux
            && data is Sample) ==> r == Err::<Option<EngineOutput>, ProcessingError>(
            ProcessingError::Unsupported,
        ) && after.last_size() == self.last_size()
    }

    /// An engine always drives the backend of a supported platform.
    pub proof fn lemma_platform_supported(&self)
        ensures
            !(self.platform() is Other),
    {
    }

    /// Creates the engine of `platform`, not yet running; a platform without a
    /// backend is `Unsupported`.
    pub fn new(options: &Options, platform: Platform) -> (r: Result<Engine, EngineError>)
        ensures
            platform is Other ==> r == Err::<Engine, EngineError>(EngineError::Unsupported),
            !(platform is Other) ==> r is Ok,
            r matches Ok(e) ==> {
                &&& e.platform() == platform
                &&& e.options() == *options
                &&& !e.is_running()
                &&& e.last_size() == (0u32, 0u32)
            },
    {
        let backend = match platform {
            Platform::MacOs => Backend::Mac(MacEngine::new()),
            Platform::Linux => Backend::Linux(LinuxEngine::new()),
            Platform::Other => return Err(EngineError::Unsupported),
        };
        Ok(Engine { options: *options, backend, running: false })
    }

    /// Marks the capture session as running. Returns whether the native session
    /// must be told to start: only when it was not running already.
    pub fn start(&mut self) -> (r: bool)
        ensures
            r == !old(self).is_running(),
            final(self).is_running(),
            final(self).platform() == old(self).platform(),
            final(self).options() == old(self).options(),
            final(self).last_size() == old(self).last_size(),
    {
        let was_running = self.running;
        self.running = true;
        !was_running
    }

    /// Marks the capture session as stopped. Returns whether the native session
    /// must be told to stop: only when it was running. Frames already queued
    /// are still processed afterwards.
    pub fn stop(&mut self) -> (r: bool)
        ensures
            r == old(self).is_running(),
            !final(self).is_running(),
            final(self).platform() == old(self).platform(),
            final(self).options() == old(self).options(),
            final(self).last_size() == old(self).last_size(),
    {
        let was_running = self.running;
        self.running = false;
        was_running
    }

    /// The size of the last frame produced, `[0, 0]` before the first.
    pub fn get_output_frame_size(&mut self) -> (r: [u32; 2])
        ensures
            (r[0], r[1]) == old(self).last_size(),
            *final(self) == *old(self),
    {
        match &self.backend {
            Backend::Mac(m) => m.get_output_frame_size(),
            Backend::Linux(l) => l.get_output_frame_size(),
        }
    }

    /// Processes one channel item with the running backend: compositor samples
    /// on the compositor backend, decoded frames on the portal backend. An item
    /// of the other backend is `Unsupported`.
    pub fn process_channel_item(&mut self, data: ChannelItem) -> (r: Result<
        Option<EngineOutput>,
        ProcessingError,
    >)
        requires
            data matches ChannelItem::Sample(s) ==> s.clocks.valid(),
        ensures
            old(self).processes(*final(self), data, r),
    {
        match (&mut self.backend, data) {
            (Backend::Mac(m), ChannelItem::Sample(s)) => match m.process_channel_item(s) {
                Err(e) => Err(ProcessingError::Mac(e)),
                Ok(None) => Ok(None),
                Ok(Some(MacOutput::Import(q))) => Ok(Some(EngineOutput::Import(q))),
                Ok(Some(MacOutput::Audio(a))) => Ok(Some(EngineOutput::Audio(a))),
            },
            (Backend::Linux(l), ChannelItem::Decoded(f)) => {
                let res = l.process_channel_item(f);
                let r = match res {
                    Err(e) => Err(ProcessingError::Linux(e)),
                    Ok(None) => Ok(None),
                    Ok(Some(u)) => Ok(Some(EngineOutput::Upload(u))),
                };
                proof {
                    assert(lifted_linux(r, res));
                }
                r
            },
            _ => Err(ProcessingError::Unsupported),
        }
    }
}

} // verus!
