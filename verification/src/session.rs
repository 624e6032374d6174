//! The device session and frame acquisition manager.
//!
//! A [`Session`] owns the three state slots of the layer: the library handle,
//! the device handle, and the most recently captured frame. Its observable
//! state moves through four phases, `Uninitialized`, `LibraryOpen`,
//! `DeviceOpen` and `Streaming`, and every operation that touches the driver
//! is split in two around the call that host code makes:
//!
//! * a *gate* (`gxci_init_ready`, `gxi_get_library_handle`,
//!   `gxi_check_device_handle`, `gxi_get_device_handle`) decides, before any
//!   driver call, whether the operation is allowed in the current phase and
//!   with which handle it must be made; an operation attempted in the wrong
//!   phase fails here with a semantic error and the driver is never reached;
//! * a *commit* (`gxci_init`, `gxi_open_device`, `gxi_get_image`, ...) takes
//!   the numeric status and data the driver returned, translates the status,
//!   validates the data, and updates the session. A commit that fails leaves
//!   the session exactly as it was.
//!
//! Each commit is proved equal to a specification-level transition function
//! (`init_step`, `open_device_step`, ...), and the state-machine laws are
//! proved once about those transitions.

use crate::descriptor::GX_DEVICE_BASE_INFO;
use crate::frame::{
    extract_image_data, frame_data_wf, frame_extractable, FrameDataView, FrameMeta, GxiFrameData,
};
use crate::status::ErrorKind;
use vstd::prelude::*;

verus! {

/// An opened device: the opaque handle the driver returned for it.
pub struct GxiDevice {
    pub device: u64,
}

/// The session state: at most one loaded library, at most one open device,
/// whether streaming capture is running, and the last captured frame.
pub struct Session {
    pub library: Option<u64>,
    pub device: Option<GxiDevice>,
    pub streaming: bool,
    pub last_frame: Option<GxiFrameData>,
}

/// Mathematical view of a session.
pub struct SessionView {
    pub library: Option<u64>,
    pub device: Option<u64>,
    pub streaming: bool,
    pub last_frame: Option<FrameDataView>,
}

impl View for Session {
    type V = SessionView;

    open spec fn view(&self) -> SessionView {
        SessionView {
            library: self.library,
            device: match self.device {
                Some(d) => Some(d.device),
                None => None,
            },
            streaming: self.streaming,
            last_frame: match self.last_frame {
                Some(f) => Some(f@),
                None => None,
            },
        }
    }
}

/// The externally observable phase of a session.
#[derive(Debug, Clone, Copy, PartialEq, Eq, Structural)]
pub enum Phase {
    Uninitialized,
    LibraryOpen,
    DeviceOpen,
    Streaming,
}

/// Which phase a session state is in.
pub open spec fn phase(v: SessionView) -> Phase {
    if v.library is None {
        Phase::Uninitialized
    } else if v.device is None {
        Phase::LibraryOpen
    } else if !v.streaming {
        Phase::DeviceOpen
    } else {
        Phase::Streaming
    }
}

/// Session invariant: a device exists only inside the library-open window,
/// streaming only with an open device, and a stored frame is always a good
/// frame whose buffer has exactly the declared image size.
pub open spec fn session_wf(v: SessionView) -> bool {
    &&& v.device is Some ==> v.library is Some
    &&& v.streaming ==> v.device is Some
    &&& match v.last_frame {
        Some(f) => frame_data_wf(f),
        None => true,
    }
}

/// The state of a fresh session.
pub open spec fn initial_session() -> SessionView {
    SessionView { library: None, device: None, streaming: false, last_frame: None }
}

impl Session {
    /// A fresh session: nothing loaded, nothing open, no frame.
    pub fn new() -> (s: Session)
        ensures
            s@ == initial_session(),
    {
        Session { library: None, device: None, streaming: false, last_frame: None }
    }
}

/// Reports the observable phase of the session.
pub fn current_phase(s: &Session) -> (p: Phase)
    ensures
        p == phase(s@),
{
    if s.library.is_none() {
        Phase::Uninitialized
    } else if s.device.is_none() {
        Phase::LibraryOpen
    } else if !s.streaming {
        Phase::DeviceOpen
    } else {
        Phase::Streaming
    }
}

/// Whether streaming capture is running.
pub fn is_streaming(s: &Session) -> (r: bool)
    ensures
        r == s@.streaming,
{
    s.streaming
}

// ---------------------------------------------------------------------------
// Gates: the checks made before any driver call.
// ---------------------------------------------------------------------------

/// Gate for initialization: succeeds only while nothing is loaded. Calling
/// init again inside the library-open window is a logic error, not a request
/// to reinitialize.
pub fn gxci_init_ready(s: &Session) -> (r: Result<(), ErrorKind>)
    ensures
        r is Ok <==> s@.library is None,
        r is Err ==> r == Err::<(), ErrorKind>(ErrorKind::GxiError),
{
    if s.library.is_none() {
        Ok(())
    } else {
        Err(ErrorKind::GxiError)
    }
}

/// Gate for every library-level operation: the loaded library's handle, or
/// `GxiError` when no library is open. No driver call may be made after a
/// failure here.
pub fn gxi_get_library_handle(s: &Session) -> (r: Result<u64, ErrorKind>)
    ensures
        match r {
            Ok(h) => s@.library == Some(h),
            Err(e) => s@.library is None && e == ErrorKind::GxiError,
        },
{
    match s.library {
        Some(h) => Ok(h),
        None => Err(ErrorKind::GxiError),
    }
}

/// Gate for closing the library: succeeds only inside the library-open window
/// and with the device already closed. Closing over an open device is a logic
/// error and must not reach the driver.
pub fn gxci_close_ready(s: &Session) -> (r: Result<(), ErrorKind>)
    ensures
        r is Ok <==> (s@.library is Some && s@.device is None),
        r is Err ==> r == Err::<(), ErrorKind>(ErrorKind::GxiError),
{
    if s.library.is_some() && s.device.is_none() {
        Ok(())
    } else {
        Err(ErrorKind::GxiError)
    }
}

/// Gate for every device-level operation: fails with `DeviceHandleError` when
/// no device is open. No driver call may be made after a failure here.
pub fn gxi_check_device_handle(s: &Session) -> (r: Result<(), ErrorKind>)
    ensures
        r is Ok <==> s@.device is Some,
        r is Err ==> r == Err::<(), ErrorKind>(ErrorKind::DeviceHandleError),
{
    if s.device.is_some() {
        Ok(())
    } else {
        Err(ErrorKind::DeviceHandleError)
    }
}

/// The open device's handle, or `DeviceHandleError` when no device is open.
pub fn gxi_get_device_handle(s: &Session) -> (r: Result<u64, ErrorKind>)
    ensures
        match r {
            Ok(h) => s@.device == Some(h),
            Err(e) => s@.device is None && e == ErrorKind::DeviceHandleError,
        },
{
    match &s.device {
        Some(d) => Ok(d.device),
        None => Err(ErrorKind::DeviceHandleError),
    }
}

// ---------------------------------------------------------------------------
// Specification-level transitions.
// ---------------------------------------------------------------------------

/// Init: `Uninitialized -> LibraryOpen`. Takes the handle of the loaded
/// library and the status of the driver's own init call.
pub open spec fn init_step(v: SessionView, handle: u64, status: i32) -> (SessionView, Result<
    (),
    ErrorKind,
>) {
    if v.library is Some {
        (v, Err(ErrorKind::GxiError))
    } else if status != 0 {
        (v, Err(ErrorKind::DriverError(status)))
    } else {
        (SessionView { library: Some(handle), ..v }, Ok(()))
    }
}

/// Close library: `LibraryOpen -> Uninitialized`. Requires the device to be
/// closed already; a close attempted with a device open is a logic error and
/// changes nothing. The last frame is kept: reading stale data after close is
/// an accepted read of last-known data.
pub open spec fn close_library_step(v: SessionView, status: i32) -> (SessionView, Result<
    (),
    ErrorKind,
>) {
    if v.library is None {
        (v, Err(ErrorKind::GxiError))
    } else if v.device is Some {
        (v, Err(ErrorKind::GxiError))
    } else if status != 0 {
        (v, Err(ErrorKind::DriverError(status)))
    } else {
        (SessionView { library: None, ..v }, Ok(()))
    }
}

/// Enumeration count: valid in `LibraryOpen` or above; returns the count the
/// driver reported.
pub open spec fn count_devices_step(v: SessionView, status: i32, device_num: u32) -> Result<
    u32,
    ErrorKind,
> {
    if v.library is None {
        Err(ErrorKind::GxiError)
    } else if status != 0 {
        Err(ErrorKind::DriverError(status))
    } else {
        Ok(device_num)
    }
}

/// Descriptor query: valid in `LibraryOpen` or above; returns the records the
/// driver filled in, unchanged.
pub open spec fn list_devices_step(
    v: SessionView,
    status: i32,
    infos: Seq<GX_DEVICE_BASE_INFO>,
) -> Result<Seq<GX_DEVICE_BASE_INFO>, ErrorKind> {
    if v.library is None {
        Err(ErrorKind::GxiError)
    } else if status != 0 {
        Err(ErrorKind::DriverError(status))
    } else {
        Ok(infos)
    }
}

/// Open: `LibraryOpen -> DeviceOpen`. Takes the count the preceding
/// enumeration reported, and the status and handle of the driver's open call.
/// An enumeration that reported no devices fails before any open is made.
pub open spec fn open_device_step(
    v: SessionView,
    device_num: u32,
    status: i32,
    handle: u64,
) -> (SessionView, Result<(), ErrorKind>) {
    if v.library is None {
        (v, Err(ErrorKind::GxiError))
    } else if v.device is Some {
        (v, Err(ErrorKind::DeviceHandleError))
    } else if device_num == 0 {
        (v, Err(ErrorKind::DeviceHandleError))
    } else if status != 0 {
        (v, Err(ErrorKind::DriverError(status)))
    } else {
        (SessionView { device: Some(handle), ..v }, Ok(()))
    }
}

/// Close device: `DeviceOpen | Streaming -> LibraryOpen`. If streaming was
/// running, host code has already stopped capture and unregistered the
/// callback before the driver's close call this commits.
pub open spec fn close_device_step(v: SessionView, status: i32) -> (SessionView, Result<
    (),
    ErrorKind,
>) {
    if v.device is None {
        (v, Err(ErrorKind::DeviceHandleError))
    } else if status != 0 {
        (v, Err(ErrorKind::DriverError(status)))
    } else {
        (SessionView { device: None, streaming: false, ..v }, Ok(()))
    }
}

/// Command dispatch: valid in `DeviceOpen` or `Streaming`; no state change.
pub open spec fn send_command_step(v: SessionView, status: i32) -> Result<(), ErrorKind> {
    if v.device is None {
        Err(ErrorKind::DeviceHandleError)
    } else if status != 0 {
        Err(ErrorKind::DriverError(status))
    } else {
        Ok(())
    }
}

/// Synchronous fetch: valid only in `DeviceOpen`. Takes the status of the
/// driver's get-image call, the record it filled in, and the bytes read out
/// of its transient buffer. A good frame replaces the stored one; on any
/// failure, including a frame the driver marked bad, the stored frame is kept.
pub open spec fn get_image_step(
    v: SessionView,
    status: i32,
    meta: FrameMeta,
    raw: Seq<u8>,
) -> (SessionView, Result<(), ErrorKind>) {
    if v.device is None {
        (v, Err(ErrorKind::DeviceHandleError))
    } else if v.streaming {
        (v, Err(ErrorKind::DeviceHandleError))
    } else if status != 0 {
        (v, Err(ErrorKind::DriverError(status)))
    } else if !frame_extractable(meta, raw) {
        (v, Err(ErrorKind::FrameDataError))
    } else {
        (
            SessionView {
                last_frame: Some(
                    FrameDataView { frame_data: meta, image_buffer: raw.take(meta.img_size as int) },
                ),
                ..v
            },
            Ok(()),
        )
    }
}

/// Begin streaming: `DeviceOpen -> Streaming`. Takes the statuses of the
/// driver's register-callback call and of the acquisition-start command, in
/// that order; the session enters `Streaming` only when both succeeded.
pub open spec fn open_stream_step(
    v: SessionView,
    register_status: i32,
    start_status: i32,
) -> (SessionView, Result<(), ErrorKind>) {
    if v.device is None {
        (v, Err(ErrorKind::DeviceHandleError))
    } else if v.streaming {
        (v, Err(ErrorKind::DeviceHandleError))
    } else if register_status != 0 {
        (v, Err(ErrorKind::DriverError(register_status)))
    } else if start_status != 0 {
        (v, Err(ErrorKind::DriverError(start_status)))
    } else {
        (SessionView { streaming: true, ..v }, Ok(()))
    }
}

/// End streaming: `Streaming -> DeviceOpen`, tolerating a device that was
/// already stopped. Takes the statuses of the acquisition-stop command and of
/// the unregister-callback call: capture is stopped first, so no callback can
/// fire against a missing handler.
pub open spec fn close_stream_step(
    v: SessionView,
    stop_status: i32,
    unregister_status: i32,
) -> (SessionView, Result<(), ErrorKind>) {
    if v.device is None {
        (v, Err(ErrorKind::DeviceHandleError))
    } else if stop_status != 0 {
        (v, Err(ErrorKind::DriverError(stop_status)))
    } else if unregister_status != 0 {
        (v, Err(ErrorKind::DriverError(unregister_status)))
    } else {
        (SessionView { streaming: false, ..v }, Ok(()))
    }
}

// ---------------------------------------------------------------------------
// Commits: the executable transitions, each proved equal to its step.
// ---------------------------------------------------------------------------

/// Commits initialization: records the loaded library's handle if the
/// driver's init call succeeded.
pub fn gxci_init(s: &mut Session, handle: u64, status: i32) -> (r: Result<(), ErrorKind>)
    ensures
        (final(s)@, r) == init_step(old(s)@, handle, status),
{
    if s.library.is_some() {
        return Err(ErrorKind::GxiError);
    }
    if status != 0 {
        return Err(ErrorKind::DriverError(status));
    }
    s.library = Some(handle);
    Ok(())
}

/// Commits library close: clears the library slot if the driver's close call
/// succeeded. Rejected, with the session untouched, while a device is open.
pub fn gxci_close(s: &mut Session, status: i32) -> (r: Result<(), ErrorKind>)
    ensures
        (final(s)@, r) == close_library_step(old(s)@, status),
{
    if s.library.is_none() {
        return Err(ErrorKind::GxiError);
    }
    if s.device.is_some() {
        return Err(ErrorKind::GxiError);
    }
    if status != 0 {
        return Err(ErrorKind::DriverError(status));
    }
    s.library = None;
    Ok(())
}

/// Commits an enumeration count: the number of devices the driver reported.
pub fn gxi_count_devices(s: &Session, status: i32, device_num: u32) -> (r: Result<u32, ErrorKind>)
    ensures
        r == count_devices_step(s@, status, device_num),
{
    if s.library.is_none() {
        return Err(ErrorKind::GxiError);
    }
    if status != 0 {
        return Err(ErrorKind::DriverError(status));
    }
    Ok(device_num)
}

/// Commits a descriptor query: the records the driver filled in, handed back
/// unchanged, so that two queries over an unchanged device set yield equal
/// lists.
pub fn gxi_list_devices(s: &Session, status: i32, infos: Vec<GX_DEVICE_BASE_INFO>) -> (r: Result<
    Vec<GX_DEVICE_BASE_INFO>,
    ErrorKind,
>)
    ensures
        match r {
            Ok(out) => list_devices_step(s@, status, infos@) == Ok::<_, ErrorKind>(out@),
            Err(e) => list_devices_step(s@, status, infos@) == Err::<Seq<GX_DEVICE_BASE_INFO>, _>(
                e,
            ),
        },
{
    if s.library.is_none() {
        return Err(ErrorKind::GxiError);
    }
    if status != 0 {
        return Err(ErrorKind::DriverError(status));
    }
    Ok(infos)
}

/// Commits a device open: records the handle the driver returned.
pub fn gxi_open_device(s: &mut Session, device_num: u32, status: i32, handle: u64) -> (r: Result<
    (),
    ErrorKind,
>)
    ensures
        (final(s)@, r) == open_device_step(old(s)@, device_num, status, handle),
{
    if s.library.is_none() {
        return Err(ErrorKind::GxiError);
    }
    if s.device.is_some() {
        return Err(ErrorKind::DeviceHandleError);
    }
    if device_num == 0 {
        return Err(ErrorKind::DeviceHandleError);
    }
    if status != 0 {
        return Err(ErrorKind::DriverError(status));
    }
    s.device = Some(GxiDevice { device: handle });
    Ok(())
}

/// Commits a device close: clears the device slot and leaves streaming off.
pub fn gxi_close_device(s: &mut Session, status: i32) -> (r: Result<(), ErrorKind>)
    ensures
        (final(s)@, r) == close_device_step(old(s)@, status),
{
    if s.device.is_none() {
        return Err(ErrorKind::DeviceHandleError);
    }
    if status != 0 {
        return Err(ErrorKind::DriverError(status));
    }
    s.device = None;
    s.streaming = false;
    Ok(())
}

/// Commits a command dispatch. The device handle is checked here as well as
/// in `gxi_get_device_handle`: a command with no device open fails locally,
/// never from a driver status.
pub fn gxi_send_command(s: &Session, status: i32) -> (r: Result<(), ErrorKind>)
    ensures
        r == send_command_step(s@, status),
{
    if s.device.is_none() {
        return Err(ErrorKind::DeviceHandleError);
    }
    if status != 0 {
        return Err(ErrorKind::DriverError(status));
    }
    Ok(())
}

/// Commits a synchronous fetch: validates the returned record, copies the
/// image out of the raw bytes, and stores it as the last frame. A frame the
/// driver marked bad is discarded and the previous frame is kept.
pub fn gxi_get_image(s: &mut Session, status: i32, meta: FrameMeta, raw: Vec<u8>) -> (r: Result<
    (),
    ErrorKind,
>)
    ensures
        (final(s)@, r) == get_image_step(old(s)@, status, meta, raw@),
{
    if s.device.is_none() {
        return Err(ErrorKind::DeviceHandleError);
    }
    if s.streaming {
        return Err(ErrorKind::DeviceHandleError);
    }
    if status != 0 {
        return Err(ErrorKind::DriverError(status));
    }
    match extract_image_data(&meta, raw.as_slice()) {
        Some(data) => {
            s.last_frame = Some(GxiFrameData { frame_data: meta, image_buffer: data });
            Ok(())
        },
        None => Err(ErrorKind::FrameDataError),
    }
}

/// Commits a synchronous fetch and returns the frame's metadata.
pub fn gxi_get_image_as_frame_data(
    s: &mut Session,
    status: i32,
    meta: FrameMeta,
    raw: Vec<u8>,
) -> (r: Result<FrameMeta, ErrorKind>)
    ensures
        final(s)@ == get_image_step(old(s)@, status, meta, raw@).0,
        match r {
            Ok(m) => get_image_step(old(s)@, status, meta, raw@).1 is Ok && m == meta,
            Err(e) => get_image_step(old(s)@, status, meta, raw@).1 == Err::<(), ErrorKind>(e),
        },
{
    match gxi_get_image(s, status, meta, raw) {
        Ok(()) => Ok(meta),
        Err(e) => Err(e),
    }
}

/// Commits a synchronous fetch and returns a copy of the image bytes.
pub fn gxi_get_image_as_bytes(s: &mut Session, status: i32, meta: FrameMeta, raw: Vec<u8>) -> (r:
    Result<Vec<u8>, ErrorKind>)
    ensures
        final(s)@ == get_image_step(old(s)@, status, meta, raw@).0,
        match r {
            Ok(out) => get_image_step(old(s)@, status, meta, raw@).1 is Ok && out@ == raw@.take(
                meta.img_size as int,
            ),
            Err(e) => get_image_step(old(s)@, status, meta, raw@).1 == Err::<(), ErrorKind>(e),
        },
{
    if s.device.is_none() {
        return Err(ErrorKind::DeviceHandleError);
    }
    if s.streaming {
        return Err(ErrorKind::DeviceHandleError);
    }
    if status != 0 {
        return Err(ErrorKind::DriverError(status));
    }
    match extract_image_data(&meta, raw.as_slice()) {
        Some(data) => {
            let out = copy_bytes(data.as_slice());
            s.last_frame = Some(GxiFrameData { frame_data: meta, image_buffer: data });
            Ok(out)
        },
        None => Err(ErrorKind::FrameDataError),
    }
}

/// Copies a byte slice into an owned vector.
fn copy_bytes(src: &[u8]) -> (out: Vec<u8>)
    ensures
        out@ == src@,
{
    let mut out: Vec<u8> = Vec::new();
    let mut i: usize = 0;
    while i < src.len()
        invariant
            i <= src@.len(),
            out@ == src@.take(i as int),
        decreases src@.len() - i,
    {
        out.push(src[i]);
        assert(out@ == src@.take(i + 1 as int));
        i = i + 1;
    }
    assert(out@ == src@);
    out
}

/// The stored last frame, or `FrameDataError` when nothing was captured yet.
pub fn gxi_last_frame(s: &Session) -> (r: Result<&GxiFrameData, ErrorKind>)
    ensures
        match r {
            Ok(f) => s@.last_frame == Some(f@),
            Err(e) => s@.last_frame is None && e == ErrorKind::FrameDataError,
        },
{
    match &s.last_frame {
        Some(f) => Ok(f),
        None => Err(ErrorKind::FrameDataError),
    }
}

/// Commits the start of streaming capture: callback registered, then
/// acquisition started.
pub fn gxi_open_stream(s: &mut Session, register_status: i32, start_status: i32) -> (r: Result<
    (),
    ErrorKind,
>)
    ensures
        (final(s)@, r) == open_stream_step(old(s)@, register_status, start_status),
{
    if s.device.is_none() {
        return Err(ErrorKind::DeviceHandleError);
    }
    if s.streaming {
        return Err(ErrorKind::DeviceHandleError);
    }
    if register_status != 0 {
        return Err(ErrorKind::DriverError(register_status));
    }
    if start_status != 0 {
        return Err(ErrorKind::DriverError(start_status));
    }
    s.streaming = true;
    Ok(())
}

/// Commits the end of streaming capture: acquisition stopped first, callback
/// unregistered second.
pub fn gxi_close_stream(s: &mut Session, stop_status: i32, unregister_status: i32) -> (r: Result<
    (),
    ErrorKind,
>)
    ensures
        (final(s)@, r) == close_stream_step(old(s)@, stop_status, unregister_status),
{
    if s.device.is_none() {
        return Err(ErrorKind::DeviceHandleError);
    }
    if stop_status != 0 {
        return Err(ErrorKind::DriverError(stop_status));
    }
    if unregister_status != 0 {
        return Err(ErrorKind::DriverError(unregister_status));
    }
    s.streaming = false;
    Ok(())
}

} // verus!
