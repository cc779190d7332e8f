//! The screen/OCR pipeline's computations: compressing a captured frame to
//! a JPEG payload, normalizing OCR text, the two-tier language fallback,
//! and the size-based heuristic used when no text can be extracted. The
//! capture itself and the OCR executable run in the unverified shell,
//! which hands their raw outcomes in as plain values.

use vstd::prelude::*;
use vstd::string::*;
use crate::text::{clean_ocr_text, clean_text_sp};

verus! {

/// A raw frame as the capture capability hands it over: RGBA, row-major,
/// four bytes per pixel.
pub struct ScreenFrame {
    pub width: u32,
    pub height: u32,
    pub rgba: Vec<u8>,
}

impl ScreenFrame {
    /// The buffer holds exactly the pixels the dimensions announce.
    pub open spec fn wf(self) -> bool {
        self.rgba@.len() == self.width * self.height * 4
    }
}

/// Why a frame could not be turned into a payload.
#[derive(Clone, Copy, PartialEq, Eq, Structural, Debug)]
pub enum CaptureError {
    /// No display to capture, or the system refused the capture.
    NoDisplay,
    /// The buffer length does not match the dimensions.
    BadDimensions,
    /// The image codec refused the frame.
    EncodingFailed,
}

/// The largest width or height the JPEG format can carry.
pub const MAX_JPEG_DIMENSION: u32 = 0xFFFF;

/// The JPEG encoding (quality 85) of an RGBA frame, as the image codec
/// computes it from the pixels alone.
pub uninterp spec fn jpeg_of(width: u32, height: u32, rgba: Seq<u8>) -> Seq<u8>;

/// Relies on image::DynamicImage::write_to with ImageOutputFormat::Jpeg(85)
/// (the buffer is wrapped through image::RgbaImage::from_raw first): the
/// encoded bytes are computed from the pixel data alone, and the encoder
/// succeeds whenever both dimensions fit the format's 16-bit bound — the
/// buffer length matches by the precondition, Rgba8 input is supported,
/// and the in-memory cursor it writes into cannot fail.
#[verifier::external_body]
fn encode_jpeg(width: u32, height: u32, rgba: &Vec<u8>) -> (r: Result<Vec<u8>, CaptureError>)
    requires
        rgba@.len() == width * height * 4,
    ensures
        r matches Ok(v) ==> v@ == jpeg_of(width, height, rgba@),
        width <= MAX_JPEG_DIMENSION && height <= MAX_JPEG_DIMENSION ==> r is Ok,
{
    let buffer = match image::RgbaImage::from_raw(width, height, rgba.clone()) {
        Some(b) => b,
        None => {
            return Err(CaptureError::BadDimensions);
        },
    };
    let dynamic = image::DynamicImage::ImageRgba8(buffer);
    let mut cursor = std::io::Cursor::new(Vec::new());
    match dynamic.write_to(&mut cursor, image::ImageOutputFormat::Jpeg(85)) {
        Ok(()) => Ok(cursor.into_inner()),
        Err(_) => Err(CaptureError::EncodingFailed),
    }
}

/// Compresses a captured frame into the JPEG payload the pipeline carries.
/// A frame whose buffer does not match its dimensions is refused as
/// `BadDimensions`; whatever comes back `Ok` is the frame's JPEG encoding;
/// and every well-formed frame whose dimensions fit the format encodes.
pub fn compress_screenshot(frame: &ScreenFrame) -> (r: Result<Vec<u8>, CaptureError>)
    ensures
        r matches Ok(v) ==> frame.wf() && v@ == jpeg_of(frame.width, frame.height, frame.rgba@),
        !frame.wf() ==> r == Result::<Vec<u8>, CaptureError>::Err(CaptureError::BadDimensions),
        frame.wf() && frame.width <= MAX_JPEG_DIMENSION && frame.height <= MAX_JPEG_DIMENSION
            ==> r is Ok,
{
    let w: u128 = frame.width as u128;
    let h: u128 = frame.height as u128;
    proof {
        assert(w * h <= 0xffff_ffffu128 * 0xffff_ffffu128) by (nonlinear_arith)
            requires
                w <= 0xffff_ffffu128,
                h <= 0xffff_ffffu128,
        ;
    }
    let expected: u128 = w * h * 4;
    if (frame.rgba.len() as u128) != expected {
        return Err(CaptureError::BadDimensions);
    }
    encode_jpeg(frame.width, frame.height, &frame.rgba)
}

/// What one tick does with the capture capability's outcome.
#[derive(Debug)]
pub enum TickCaptureAction {
    /// The classification cycle is abandoned for this tick only; the loop
    /// goes on to the next tick.
    AbandonCycle(CaptureError),
    /// Extraction proceeds on this compressed payload.
    ExtractText(Vec<u8>),
}

/// Decides the tick's fate from the capture outcome: any capture failure —
/// no display, a malformed frame, a refused encoding — abandons the cycle
/// for that tick only, while a good frame is compressed and carried on
/// into text extraction. A well-formed frame within the format's bounds
/// always goes on.
pub fn decide_capture(outcome: Result<ScreenFrame, CaptureError>) -> (r: TickCaptureAction)
    ensures
        outcome matches Err(e) ==> r == TickCaptureAction::AbandonCycle(e),
        outcome matches Ok(frame) ==> {
            &&& (r matches TickCaptureAction::ExtractText(p) ==> frame.wf() && p@ == jpeg_of(
                frame.width,
                frame.height,
                frame.rgba@,
            ))
            &&& (!frame.wf() ==> r == TickCaptureAction::AbandonCycle(CaptureError::BadDimensions))
            &&& (frame.wf() && frame.width <= MAX_JPEG_DIMENSION && frame.height
                <= MAX_JPEG_DIMENSION ==> r is ExtractText)
        },
{
    match outcome {
        Ok(frame) => match compress_screenshot(&frame) {
            Ok(payload) => TickCaptureAction::ExtractText(payload),
            Err(e) => TickCaptureAction::AbandonCycle(e),
        },
        Err(e) => TickCaptureAction::AbandonCycle(e),
    }
}

/// The coarse description the heuristic derives from the payload size
/// alone, in kilobytes: larger screens usually mean more text on them.
pub open spec fn heuristic_description(size_kb: nat) -> Seq<char> {
    if size_kb > 1000 {
        "高分辨率屏幕内容，可能包含大量文本信息，建议检查是否在进行文档编辑或网页浏览"@
    } else if size_kb > 500 {
        "中等分辨率屏幕内容，可能包含应用界面和文本，建议分析当前应用使用情况"@
    } else if size_kb > 100 {
        "标准分辨率屏幕内容，包含基本界面元素，可能正在使用桌面应用"@
    } else {
        "低分辨率或压缩度高的屏幕内容，文本信息有限"@
    }
}

/// The non-OCR fallback: a description of the screen from the payload's
/// size thresholds alone, so the pipeline can always produce some text.
pub fn smart_image_analysis(payload_len: usize) -> (r: String)
    ensures
        r@ == heuristic_description((payload_len / 1024) as nat),
{
    let size_kb = payload_len / 1024;
    if size_kb > 1000 {
        String::from_str("高分辨率屏幕内容，可能包含大量文本信息，建议检查是否在进行文档编辑或网页浏览")
    } else if size_kb > 500 {
        String::from_str("中等分辨率屏幕内容，可能包含应用界面和文本，建议分析当前应用使用情况")
    } else if size_kb > 100 {
        String::from_str("标准分辨率屏幕内容，包含基本界面元素，可能正在使用桌面应用")
    } else {
        String::from_str("低分辨率或压缩度高的屏幕内容，文本信息有限")
    }
}

/// What one OCR attempt yields after normalization, when it yields text.
pub open spec fn attempt_text(attempt: Option<Seq<char>>) -> Option<Seq<char>> {
    match attempt {
        Some(raw) => if clean_text_sp(raw).len() > 0 {
            Some(clean_text_sp(raw))
        } else {
            None
        },
        None => None,
    }
}

/// The pipeline's final text: the combined-language attempt if it yielded
/// text, else the single-language retry, else the size heuristic.
pub open spec fn resolved_text_sp(
    combined: Option<Seq<char>>,
    single: Option<Seq<char>>,
    payload_len: usize,
) -> Seq<char> {
    match attempt_text(combined) {
        Some(t) => t,
        None => match attempt_text(single) {
            Some(t) => t,
            None => heuristic_description((payload_len / 1024) as nat),
        },
    }
}

/// Composes the two-tier OCR fallback. Each argument is one attempt's raw
/// output — `None` when that attempt failed outright. The pipeline never
/// hard-fails: it degrades to the heuristic description, so the text that
/// comes out is never empty.
pub fn resolve_extracted_text(
    combined: Option<String>,
    single: Option<String>,
    payload_len: usize,
) -> (r: String)
    ensures
        r@ == resolved_text_sp(
            crate::model::opt_view(combined),
            crate::model::opt_view(single),
            payload_len,
        ),
        r@.len() > 0,
{
    proof {
        reveal_strlit("高分辨率屏幕内容，可能包含大量文本信息，建议检查是否在进行文档编辑或网页浏览");
        reveal_strlit("中等分辨率屏幕内容，可能包含应用界面和文本，建议分析当前应用使用情况");
        reveal_strlit("标准分辨率屏幕内容，包含基本界面元素，可能正在使用桌面应用");
        reveal_strlit("低分辨率或压缩度高的屏幕内容，文本信息有限");
    }
    if let Some(raw) = combined {
        let cleaned = clean_ocr_text(raw.as_str());
        if cleaned.as_str().unicode_len() > 0 {
            return cleaned;
        }
    }
    if let Some(raw) = single {
        let cleaned = clean_ocr_text(raw.as_str());
        if cleaned.as_str().unicode_len() > 0 {
            return cleaned;
        }
    }
    smart_image_analysis(payload_len)
}

} // verus!

