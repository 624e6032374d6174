//! Frame extraction: turning a capture result whose image bytes live in
//! driver-owned memory into an independently owned buffer.
//!
//! The driver hands back a record of metadata plus a pointer that is valid
//! only until the next call that may reuse the frame buffer slot. Host code
//! reads that pointer once, immediately, into a plain byte vector; the
//! functions here take the metadata and those bytes, validate them, and cut
//! the exact image out. Only the owned result may outlive the call that
//! produced it.

use vstd::prelude::*;

verus! {

/// The metadata of one capture result, as the driver reports it: a status
/// code (`0` means the frame is good), the image geometry, the declared image
/// byte size, and identification. The raw pointer of the driver's record is
/// not part of this type; its pointee travels separately as plain bytes.
#[derive(Debug, Clone, Copy, PartialEq, Eq, Structural)]
pub struct FrameMeta {
    pub status: i32,
    pub width: i32,
    pub height: i32,
    pub pixel_format: i32,
    pub img_size: i32,
    pub frame_id: u64,
    pub timestamp: u64,
}

/// A captured frame that owns its bytes: the driver's metadata plus an
/// independent copy of the image. This is the only frame representation that
/// may be stored or handed to callers.
pub struct GxiFrameData {
    pub frame_data: FrameMeta,
    pub image_buffer: Vec<u8>,
}

/// A frame copied out by a streaming callback, in the same owned form.
/// The callback runs on a driver-owned thread and must copy the image before
/// it returns; this is the value it keeps.
pub struct GxiFrameCallbackData {
    pub frame_callback_data: FrameMeta,
    pub image_buffer: Vec<u8>,
}

/// Mathematical view of an owned frame: metadata and the byte sequence.
pub struct FrameDataView {
    pub frame_data: FrameMeta,
    pub image_buffer: Seq<u8>,
}

impl View for GxiFrameData {
    type V = FrameDataView;

    open spec fn view(&self) -> FrameDataView {
        FrameDataView { frame_data: self.frame_data, image_buffer: self.image_buffer@ }
    }
}

impl View for GxiFrameCallbackData {
    type V = FrameDataView;

    open spec fn view(&self) -> FrameDataView {
        FrameDataView { frame_data: self.frame_callback_data, image_buffer: self.image_buffer@ }
    }
}

/// The geometry is consistent: non-negative dimensions, and the declared
/// image size equals `width * height` (one byte per pixel in the monochrome
/// formats this layer handles).
pub open spec fn frame_size_ok(meta: FrameMeta) -> bool {
    &&& 0 <= meta.width
    &&& 0 <= meta.height
    &&& meta.img_size == meta.width * meta.height
}

/// A raw capture may be copied out: the driver marked the frame good, the
/// geometry is consistent, and the bytes read from the driver buffer cover
/// the declared image size.
pub open spec fn frame_extractable(meta: FrameMeta, raw: Seq<u8>) -> bool {
    &&& meta.status == 0
    &&& frame_size_ok(meta)
    &&& raw.len() >= meta.img_size
}

/// Well-formedness of an owned frame: only good frames are kept, and the
/// buffer holds exactly the declared image size.
pub open spec fn frame_data_wf(f: FrameDataView) -> bool {
    &&& f.frame_data.status == 0
    &&& frame_size_ok(f.frame_data)
    &&& f.image_buffer.len() == f.frame_data.img_size
}

/// Computes the valid image byte range of a raw capture and returns an owned
/// copy of exactly that range, or nothing if the record is not trustworthy:
/// a nonzero frame status, inconsistent geometry, or fewer bytes than the
/// declared image size all make the frame unusable even when the driver call
/// itself reported success.
pub fn extract_image_data(meta: &FrameMeta, raw: &[u8]) -> (r: Option<Vec<u8>>)
    ensures
        match r {
            Some(data) => frame_extractable(*meta, raw@) && data@ == raw@.take(meta.img_size as int),
            None => !frame_extractable(*meta, raw@),
        },
{
    if meta.status != 0 {
        return None;
    }
    if meta.width < 0 || meta.height < 0 {
        return None;
    }
    let w = meta.width as i64;
    let h = meta.height as i64;
    assert(0 <= w * h <= 0x4000_0000_0000_0000i64) by (nonlinear_arith)
        requires
            0 <= w < 0x8000_0000i64,
            0 <= h < 0x8000_0000i64,
    ;
    if w * h != meta.img_size as i64 {
        return None;
    }
    let n = meta.img_size as usize;
    if raw.len() < n {
        return None;
    }
    let mut data: Vec<u8> = Vec::new();
    let mut i: usize = 0;
    while i < n
        invariant
            i <= n,
            n == meta.img_size,
            raw@.len() >= n,
            data@ == raw@.take(i as int),
        decreases n - i,
    {
        data.push(raw[i]);
        assert(data@ == raw@.take(i + 1 as int));
        i = i + 1;
    }
    Some(data)
}

/// Allocates a zero-filled buffer of the requested size, as handed to the
/// driver before a capture so it has somewhere to write the image.
pub fn alloc_image_buffer(size: usize) -> (buf: Vec<u8>)
    ensures
        buf@.len() == size,
        forall|i: int| 0 <= i < size ==> buf@[i] == 0u8,
{
    let mut buf: Vec<u8> = Vec::new();
    let mut i: usize = 0;
    while i < size
        invariant
            i <= size,
            buf@.len() == i,
            forall|j: int| 0 <= j < i ==> buf@[j] == 0u8,
        decreases size - i,
    {
        buf.push(0u8);
        i = i + 1;
    }
    buf
}

/// Builds the owned frame a streaming callback must keep: the same
/// validation and copy as the synchronous path, applied to the callback's
/// parameter record and the bytes read out of its transient pointer.
pub fn extract_frame_callback_data(meta: &FrameMeta, raw: &[u8]) -> (r: Option<
    GxiFrameCallbackData,
>)
    ensures
        match r {
            Some(f) => frame_extractable(*meta, raw@) && f.frame_callback_data == *meta && f@.image_buffer
                == raw@.take(meta.img_size as int),
            None => !frame_extractable(*meta, raw@),
        },
{
    match extract_image_data(meta, raw) {
        Some(data) => Some(GxiFrameCallbackData { frame_callback_data: *meta, image_buffer: data }),
        None => None,
    }
}

} // verus!
