use vstd::prelude::*;
use vstd::arithmetic::div_mod::lemma_fundamental_div_mod_converse;

use crate::frame::{Frame, VideoFrame};
use crate::pixel::{
    canonical_byte, convert_to_bgra, is_convertible, pixel_count, source_channel,
    source_pixel_bytes, to_canonical, PixelLayout,
};
use crate::timing::WallTime;
use crate::upload::{align_rows, copy_row_alignment, padded_row_bytes, padded_rows, upload_fits};

verus! {

/// Errors of setting up the portal backend.
#[derive(Clone, Debug, PartialEq, Eq)]
pub enum LinuxEngineError {
    /// The capture session returned an error; the message says which.
    CreateCapturer(String),
    /// The capture session aborted while being created; the message is the
    /// abort's own, when it had one.
    CapturerPanicked(String),
}

/// Errors of turning one decoded frame into a texture upload.
#[derive(Clone, Copy, Debug, PartialEq, Eq, Structural)]
pub enum LinuxProcessingError {
    UnexpectedAudio,
    UnsupportedFormat,
    InvalidDimensions,
}

/// A converted image ready to be written into a new `width` x `height`
/// blue-green-red-alpha texture.
#[derive(Clone, Debug)]
pub struct TextureUpload {
    pub width: u32,
    pub height: u32,
    /// Distance in bytes between the starts of two rows of `data`.
    pub bytes_per_row: u32,
    pub data: Vec<u8>,
    pub display_time: WallTime,
}

/// Row alignment that the GPU API asks of uploads.
pub open spec fn upload_alignment() -> nat {
    256
}

/// The bytes uploaded for a canonical image: handed on as they are when rows are
/// already aligned, else copied into aligned rows.
pub open spec fn upload_bytes(canonical: Seq<u8>, width: nat, height: nat) -> Seq<u8> {
    let row = 4 * width;
    let stride = padded_row_bytes(row, upload_alignment());
    if stride == row {
        canonical
    } else {
        padded_rows(canonical, row, stride, height)
    }
}

/// Whether a frame's pixels can be converted and uploaded: the converted image
/// covers `width` x `height` pixels and every size fits in 32 bits.
pub open spec fn video_fits(layout: PixelLayout, data: Seq<u8>, width: nat, height: nat) -> bool {
    &&& 4 * pixel_count(layout, data) <= usize::MAX
    &&& upload_fits(4 * pixel_count(layout, data), width, height, upload_alignment())
}

/// What processing a decoded video frame yields, checks in order: a layout
/// that cannot be converted, negative dimensions, a zero-area frame (skipped),
/// then a frame whose pixels do not cover its size or whose sizes do not fit.
pub open spec fn video_outcome(v: VideoFrame) -> Result<Option<()>, LinuxProcessingError> {
    if !is_convertible(v.layout) {
        Err(LinuxProcessingError::UnsupportedFormat)
    } else if v.width < 0 || v.height < 0 {
        Err(LinuxProcessingError::InvalidDimensions)
    } else if v.width == 0 || v.height == 0 {
        Ok(None)
    } else if !video_fits(v.layout, v.data@, v.width as nat, v.height as nat) {
        Err(LinuxProcessingError::InvalidDimensions)
    } else {
        Ok(Some(()))
    }
}

/// A decoded frame in a convertible layout with a zero width or height is
/// always skipped, never an error.
pub proof fn lemma_video_zero_area_skipped(v: VideoFrame)
    requires
        is_convertible(v.layout),
        v.width >= 0,
        v.height >= 0,
        v.width == 0 || v.height == 0,
    ensures
        video_outcome(v) == Ok::<Option<()>, LinuxProcessingError>(None),
{
}

/// The upload a decoded video frame turns into, when `video_outcome` allows one.
pub open spec fn is_upload_of(u: TextureUpload, v: VideoFrame) -> bool {
    &&& u.width == v.width
    &&& u.height == v.height
    &&& u.display_time == v.display_time
    &&& u.bytes_per_row == padded_row_bytes(4 * v.width as nat, upload_alignment())
    &&& u.data@ == upload_bytes(
        to_canonical(v.layout, v.data@),
        v.width as nat,
        v.height as nat,
    )
}

/// In an upload of a frame, byte `k` (0 blue, 1 green, 2 red, 3 alpha) of the
/// pixel in row `y`, column `x` sits at `y * bytes_per_row + 4 * x + k`: alpha is
/// 255 and each colour comes from the source pixel `y * width + x` as the
/// layout's truth table says. The stride is the row length rounded up to the
/// GPU's alignment, and when the source holds exactly `width * height` pixels
/// the upload holds exactly `bytes_per_row * height` bytes.
pub proof fn lemma_upload_layout(u: TextureUpload, v: VideoFrame, y: int, x: int, k: int)
    requires
        video_outcome(v) == Ok::<Option<()>, LinuxProcessingError>(Some(())),
        is_upload_of(u, v),
        0 <= y < v.height,
        0 <= x < v.width,
        0 <= k < 4,
    ensures
        u.bytes_per_row == padded_row_bytes(4 * v.width as nat, upload_alignment()),
        u.data@[y * u.bytes_per_row + 4 * x + k] == (if k == 3 {
            255u8
        } else {
            v.data@[source_pixel_bytes(v.layout) * (y * v.width + x) + source_channel(v.layout, k)]
        }),
        v.data@.len() == source_pixel_bytes(v.layout) * (v.width * v.height) ==> u.data@.len()
            == u.bytes_per_row * v.height,
{
    let w = v.width as int;
    let h = v.height as int;
    let bpp = source_pixel_bytes(v.layout) as int;
    let row = 4 * w;
    let stride = u.bytes_per_row as int;
    let conv = to_canonical(v.layout, v.data@);
    let pc = pixel_count(v.layout, v.data@) as int;
    crate::upload::lemma_padding_law(conv, w as nat, h as nat, upload_alignment());
    assert(y * w + x < w * h) by (nonlinear_arith)
        requires
            0 <= y < h,
            0 <= x < w,
    ;
    let i = y * w + x;
    let src = 4 * i + k;
    assert(src == y * row + 4 * x + k) by (nonlinear_arith)
        requires
            i == y * w + x,
            src == 4 * i + k,
            row == 4 * w,
    ;
    lemma_fundamental_div_mod_converse(src, 4, i, k);
    assert(conv.len() == 4 * pc);
    assert(4 * w * h <= 4 * pc);
    assert(src < 4 * (w * h)) by (nonlinear_arith)
        requires
            src == 4 * i + k,
            i < w * h,
            k < 4,
    ;
    assert(4 * (w * h) == 4 * w * h) by (nonlinear_arith);
    assert(conv[src] == canonical_byte(v.layout, v.data@, src));
    let j = y * stride + 4 * x + k;
    if stride == row {
        assert(j == src);
        if v.data@.len() == bpp * (w * h) {
            assert(pc == w * h) by {
                vstd::arithmetic::div_mod::lemma_div_multiples_vanish(w * h, bpp);
            }
            assert(conv.len() == stride * h) by (nonlinear_arith)
                requires
                    conv.len() == 4 * pc,
                    pc == w * h,
                    stride == 4 * w,
            ;
        }
    } else {
        assert((y + 1) * stride <= h * stride) by (nonlinear_arith)
            requires
                y + 1 <= h,
                stride >= 0,
        ;
        assert((y + 1) * stride == y * stride + stride) by (nonlinear_arith);
        assert(h * stride == stride * h) by (nonlinear_arith);
        assert(j < stride * h);
        lemma_fundamental_div_mod_converse(j, stride, y, 4 * x + k);
    }
}

/// In an upload of a frame, the bytes after each row up to the stride are zero.
pub proof fn lemma_upload_gap(u: TextureUpload, v: VideoFrame, y: int, g: int)
    requires
        video_outcome(v) == Ok::<Option<()>, LinuxProcessingError>(Some(())),
        is_upload_of(u, v),
        0 <= y < v.height,
        4 * v.width <= g < u.bytes_per_row,
    ensures
        u.data@[y * u.bytes_per_row + g] == 0u8,
{
    let h = v.height as int;
    let row = 4 * v.width as int;
    let stride = u.bytes_per_row as int;
    let conv = to_canonical(v.layout, v.data@);
    crate::upload::lemma_padding_law(conv, v.width as nat, h as nat, upload_alignment());
    let jg = y * stride + g;
    assert((y + 1) * stride <= h * stride) by (nonlinear_arith)
        requires
            y + 1 <= h,
            stride >= 0,
    ;
    assert((y + 1) * stride == y * stride + stride) by (nonlinear_arith);
    assert(h * stride == stride * h) by (nonlinear_arith);
    assert(jg < stride * h);
    lemma_fundamental_div_mod_converse(jg, stride, y, g);
}

/// Converts a decoded video frame to blue-green-red-alpha with opaque alpha and
/// lays its rows out as the GPU upload requires.
pub fn process_video(video: VideoFrame) -> (r: Result<Option<TextureUpload>, LinuxProcessingError>)
    ensures
        r matches Err(e) ==> video_outcome(video) == Err::<Option<()>, LinuxProcessingError>(e),
        r matches Ok(None) ==> video_outcome(video) == Ok::<Option<()>, LinuxProcessingError>(
            None,
        ),
        r matches Ok(Some(u)) ==> video_outcome(video) == Ok::<Option<()>, LinuxProcessingError>(
            Some(()),
        ) && is_upload_of(u, video),
        video_outcome(video) is Ok ==> r is Ok,
{
    let VideoFrame { layout, display_time, width, height, data } = video;
    if let PixelLayout::BGRA = layout {
        return Err(LinuxProcessingError::UnsupportedFormat);
    }
    if width < 0 || height < 0 {
        return Err(LinuxProcessingError::InvalidDimensions);
    }
    if width == 0 || height == 0 {
        return Ok(None);
    }
    let bpp: usize = match layout {
        PixelLayout::RGB => 3,
        _ => 4,
    };
    if data.len() / bpp > usize::MAX / 4 {
        return Err(LinuxProcessingError::InvalidDimensions);
    }
    let converted = convert_to_bgra(layout, &data);
    let w: u32 = width as u32;
    let h: u32 = height as u32;
    let align = copy_row_alignment();
    match align_rows(converted, w, h, align) {
        None => Err(LinuxProcessingError::InvalidDimensions),
        Some(rows) => Ok(
            Some(
                TextureUpload {
                    width: w,
                    height: h,
                    bytes_per_row: rows.bytes_per_row,
                    data: rows.data,
                    display_time,
                },
            ),
        ),
    }
}

/// What processing a decoded frame yields: audio is unexpected, video as
/// `video_outcome` says.
pub open spec fn frame_outcome(data: Frame) -> Result<Option<()>, LinuxProcessingError> {
    match data {
        Frame::Audio(_) => Err(LinuxProcessingError::UnexpectedAudio),
        Frame::Video(v) => video_outcome(v),
    }
}

/// `r` is what processing `data` must give: the outcome `frame_outcome` names,
/// and for a produced upload, the upload of that very frame.
pub open spec fn frame_result_matches(
    r: Result<Option<TextureUpload>, LinuxProcessingError>,
    data: Frame,
) -> bool {
    match r {
        Err(e) => frame_outcome(data) == Err::<Option<()>, LinuxProcessingError>(e),
        Ok(None) => frame_outcome(data) == Ok::<Option<()>, LinuxProcessingError>(None),
        Ok(Some(u)) => frame_outcome(data) == Ok::<Option<()>, LinuxProcessingError>(Some(()))
            && data is Video && is_upload_of(u, data->Video_0),
    }
}

/// The portal backend: turns decoded CPU frames into texture uploads and
/// remembers the size of the last frame it produced.
pub struct LinuxEngine {
    output_size: [u32; 2],
}

impl LinuxEngine {
    /// The size of the last frame produced, `[0, 0]` before the first.
    pub closed spec fn last_size(&self) -> (u32, u32) {
        (self.output_size[0], self.output_size[1])
    }

    /// A backend that has produced no frame yet.
    pub fn new() -> (e: LinuxEngine)
        ensures
            e.last_size() == (0u32, 0u32),
    {
        LinuxEngine { output_size: [0, 0] }
    }

    /// The size of the last frame produced, `[0, 0]` before the first.
    pub fn get_output_frame_size(&self) -> (r: [u32; 2])
        ensures
            (r[0], r[1]) == self.last_size(),
    {
        [self.output_size[0], self.output_size[1]]
    }

    /// Processes one decoded frame: audio is not expected here, video goes
    /// through `process_video`, and each produced upload records its size.
    pub fn process_channel_item(&mut self, data: Frame) -> (r: Result<
        Option<TextureUpload>,
        LinuxProcessingError,
    >)
        ensures
            frame_result_matches(r, data),
            r matches Ok(Some(u)) ==> final(self).last_size() == (u.width, u.height),
            !(r matches Ok(Some(_))) ==> final(self).last_size() == old(self).last_size(),
    {
        match data {
            Frame::Audio(_) => Err(LinuxProcessingError::UnexpectedAudio),
            Frame::Video(video) => {
                let r = process_video(video);
                if let Ok(Some(u)) = &r {
                    self.output_size = [u.width, u.height];
                }
                r
            },
        }
    }
}

/// Message of a capture-session abort: its own text when it carried one.
pub fn panic_message(payload: Option<String>) -> (m: String)
    ensures
        payload matches Some(s) ==> m@ == s@,
        payload is None ==> m@ == "unknown panic"@,
{
    match payload {
        Some(s) => s,
        None => {
            let m = String::from_str("unknown panic");
            proof {
                reveal_strlit("unknown panic");
            }
            m
        },
    }
}

} // verus!
