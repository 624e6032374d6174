//! Laws of the session state machine, proved once over the
//! specification-level transitions of [`crate::session`].
//!
//! [`DriverOp`] packs one driver-backed operation together with the driver's
//! reply, and [`step`] is the whole machine as one function. The lemmas here
//! state the properties every transition obeys: a failed operation leaves the
//! session untouched, the session invariant is preserved forever, successful
//! operations move between exactly the phases of the design, and operations
//! attempted in the wrong phase are rejected with the semantic error kinds,
//! by a decision that never looks at a driver reply.

use crate::descriptor::GX_DEVICE_BASE_INFO;
use crate::frame::FrameMeta;
use crate::session::{
    close_device_step, close_library_step, close_stream_step, count_devices_step, get_image_step,
    init_step, list_devices_step, open_device_step, open_stream_step, phase, send_command_step,
    session_wf, Phase, SessionView,
};
use crate::status::ErrorKind;
use vstd::prelude::*;

verus! {

/// One driver-backed operation, carrying the values the driver handed back
/// for it. Ghost only: it exists so the laws can quantify over everything the
/// machine can do.
pub enum DriverOp {
    Init { handle: u64, status: i32 },
    CloseLibrary { status: i32 },
    CountDevices { status: i32, device_num: u32 },
    ListDevices { status: i32, infos: Seq<GX_DEVICE_BASE_INFO> },
    OpenDevice { device_num: u32, status: i32, handle: u64 },
    CloseDevice { status: i32 },
    SendCommand { status: i32 },
    GetImage { status: i32, meta: FrameMeta, raw: Seq<u8> },
    OpenStream { register_status: i32, start_status: i32 },
    CloseStream { stop_status: i32, unregister_status: i32 },
}

/// The whole state machine as one transition function: the session after the
/// operation, and success or the error it fails with.
pub open spec fn step(v: SessionView, op: DriverOp) -> (SessionView, Result<(), ErrorKind>) {
    match op {
        DriverOp::Init { handle, status } => init_step(v, handle, status),
        DriverOp::CloseLibrary { status } => close_library_step(v, status),
        DriverOp::CountDevices { status, device_num } => {
            match count_devices_step(v, status, device_num) {
                Ok(_) => (v, Ok(())),
                Err(e) => (v, Err(e)),
            }
        },
        DriverOp::ListDevices { status, infos } => {
            match list_devices_step(v, status, infos) {
                Ok(_) => (v, Ok(())),
                Err(e) => (v, Err(e)),
            }
        },
        DriverOp::OpenDevice { device_num, status, handle } => open_device_step(
            v,
            device_num,
            status,
            handle,
        ),
        DriverOp::CloseDevice { status } => close_device_step(v, status),
        DriverOp::SendCommand { status } => {
            match send_command_step(v, status) {
                Ok(_) => (v, Ok(())),
                Err(e) => (v, Err(e)),
            }
        },
        DriverOp::GetImage { status, meta, raw } => get_image_step(v, status, meta, raw),
        DriverOp::OpenStream { register_status, start_status } => open_stream_step(
            v,
            register_status,
            start_status,
        ),
        DriverOp::CloseStream { stop_status, unregister_status } => close_stream_step(
            v,
            stop_status,
            unregister_status,
        ),
    }
}

/// The phases in which the design allows each operation.
pub open spec fn op_allowed(p: Phase, op: DriverOp) -> bool {
    match op {
        DriverOp::Init { .. } => p is Uninitialized,
        DriverOp::CloseLibrary { .. } => p is LibraryOpen,
        DriverOp::CountDevices { .. } => !(p is Uninitialized),
        DriverOp::ListDevices { .. } => !(p is Uninitialized),
        DriverOp::OpenDevice { .. } => p is LibraryOpen,
        DriverOp::CloseDevice { .. } => p is DeviceOpen || p is Streaming,
        DriverOp::SendCommand { .. } => p is DeviceOpen || p is Streaming,
        DriverOp::GetImage { .. } => p is DeviceOpen,
        DriverOp::OpenStream { .. } => p is DeviceOpen,
        DriverOp::CloseStream { .. } => p is DeviceOpen || p is Streaming,
    }
}

/// A failed operation has no side effect: whatever the driver replied, an
/// error leaves the session exactly as it was.
pub proof fn lemma_error_leaves_state_unchanged(v: SessionView, op: DriverOp)
    ensures
        step(v, op).1 is Err ==> step(v, op).0 == v,
{
}

/// The session invariant is preserved by every operation: in particular, a
/// stored frame is always a good frame with a buffer of exactly the declared
/// image size, in every reachable state.
pub proof fn lemma_step_preserves_wf(v: SessionView, op: DriverOp)
    requires
        session_wf(v),
    ensures
        session_wf(step(v, op).0),
{
}

/// The session after a whole sequence of operations.
pub open spec fn run(v: SessionView, ops: Seq<DriverOp>) -> SessionView
    decreases ops.len(),
{
    if ops.len() == 0 {
        v
    } else {
        run(step(v, ops[0]).0, ops.skip(1))
    }
}

/// For every sequence of operations, however the driver replied to each, the
/// session stays well formed: any thread that reads the state between two
/// operations observes a fully-formed session, never a partial one.
pub proof fn lemma_run_preserves_wf(v: SessionView, ops: Seq<DriverOp>)
    requires
        session_wf(v),
    ensures
        session_wf(run(v, ops)),
    decreases ops.len(),
{
    if ops.len() > 0 {
        lemma_step_preserves_wf(v, ops[0]);
        lemma_run_preserves_wf(step(v, ops[0]).0, ops.skip(1));
    }
}

/// Every successful operation moves between exactly the phases of the design:
/// init takes `Uninitialized` to `LibraryOpen`, open takes `LibraryOpen` to
/// `DeviceOpen`, streaming moves between `DeviceOpen` and `Streaming`, the
/// closes walk back down, and enumeration, command dispatch and fetch leave
/// the phase where it was.
pub proof fn lemma_step_follows_diagram(v: SessionView, op: DriverOp)
    requires
        session_wf(v),
        step(v, op).1 is Ok,
    ensures
        match op {
            DriverOp::Init { .. } => phase(v) is Uninitialized && phase(step(v, op).0)
                is LibraryOpen,
            DriverOp::CloseLibrary { .. } => phase(v) is LibraryOpen && phase(step(v, op).0)
                is Uninitialized,
            DriverOp::CountDevices { .. } => !(phase(v) is Uninitialized) && step(v, op).0 == v,
            DriverOp::ListDevices { .. } => !(phase(v) is Uninitialized) && step(v, op).0 == v,
            DriverOp::OpenDevice { .. } => phase(v) is LibraryOpen && phase(step(v, op).0)
                is DeviceOpen,
            DriverOp::CloseDevice { .. } => (phase(v) is DeviceOpen || phase(v) is Streaming)
                && phase(step(v, op).0) is LibraryOpen,
            DriverOp::SendCommand { .. } => (phase(v) is DeviceOpen || phase(v) is Streaming)
                && step(v, op).0 == v,
            DriverOp::GetImage { .. } => phase(v) is DeviceOpen && phase(step(v, op).0)
                is DeviceOpen,
            DriverOp::OpenStream { .. } => phase(v) is DeviceOpen && phase(step(v, op).0)
                is Streaming,
            DriverOp::CloseStream { .. } => (phase(v) is DeviceOpen || phase(v) is Streaming)
                && phase(step(v, op).0) is DeviceOpen,
        },
{
}

/// An operation attempted in a phase the design does not allow is rejected
/// with the semantic error of its gate — `GxiError` for the library-level
/// operations, `DeviceHandleError` for the device-level ones — the session is
/// untouched, and the rejection is decided by the phase alone: the ensured
/// error is the same whatever driver replies the operation carries, because
/// no driver call is reached.
pub proof fn lemma_invalid_transition_rejected(v: SessionView, op: DriverOp)
    requires
        session_wf(v),
        !op_allowed(phase(v), op),
    ensures
        step(v, op).0 == v,
        match op {
            DriverOp::Init { .. } => step(v, op).1 == Err::<(), ErrorKind>(ErrorKind::GxiError),
            DriverOp::CloseLibrary { .. } => step(v, op).1 == Err::<(), ErrorKind>(
                ErrorKind::GxiError,
            ),
            DriverOp::CountDevices { .. } => step(v, op).1 == Err::<(), ErrorKind>(
                ErrorKind::GxiError,
            ),
            DriverOp::ListDevices { .. } => step(v, op).1 == Err::<(), ErrorKind>(
                ErrorKind::GxiError,
            ),
            DriverOp::OpenDevice { .. } => step(v, op).1 == Err::<(), ErrorKind>(
                if phase(v) is Uninitialized {
                    ErrorKind::GxiError
                } else {
                    ErrorKind::DeviceHandleError
                },
            ),
            DriverOp::CloseDevice { .. } => step(v, op).1 == Err::<(), ErrorKind>(
                ErrorKind::DeviceHandleError,
            ),
            DriverOp::SendCommand { .. } => step(v, op).1 == Err::<(), ErrorKind>(
                ErrorKind::DeviceHandleError,
            ),
            DriverOp::GetImage { .. } => step(v, op).1 == Err::<(), ErrorKind>(
                ErrorKind::DeviceHandleError,
            ),
            DriverOp::OpenStream { .. } => step(v, op).1 == Err::<(), ErrorKind>(
                ErrorKind::DeviceHandleError,
            ),
            DriverOp::CloseStream { .. } => step(v, op).1 == Err::<(), ErrorKind>(
                ErrorKind::DeviceHandleError,
            ),
        },
{
}

/// A fetch that fails — wrong phase, a driver error, or a frame the driver
/// marked bad — keeps the previously stored frame.
pub proof fn lemma_fetch_failure_keeps_last_frame(
    v: SessionView,
    status: i32,
    meta: FrameMeta,
    raw: Seq<u8>,
)
    ensures
        get_image_step(v, status, meta, raw).1 is Err ==> get_image_step(
            v,
            status,
            meta,
            raw,
        ).0.last_frame == v.last_frame,
{
}

/// After any fetch, a stored frame — whether newly stored or retained — has
/// status `0` and a buffer of exactly `width * height` bytes: a bad frame is
/// never what `gxi_last_frame` hands out.
pub proof fn lemma_stored_frame_is_good(v: SessionView, status: i32, meta: FrameMeta, raw: Seq<u8>)
    requires
        session_wf(v),
    ensures
        match get_image_step(v, status, meta, raw).0.last_frame {
            Some(f) => f.frame_data.status == 0 && f.image_buffer.len() == f.frame_data.width
                * f.frame_data.height,
            None => true,
        },
{
}

/// Enumerating twice with no topology change yields equal descriptor lists:
/// the result of a descriptor query depends only on whether a library is open
/// and on what the driver reported, so two sessions equally far along, given
/// the same driver data, agree exactly.
pub proof fn lemma_enumerate_round_trip(
    v1: SessionView,
    v2: SessionView,
    status: i32,
    infos: Seq<GX_DEVICE_BASE_INFO>,
)
    requires
        v1.library is Some <==> v2.library is Some,
    ensures
        list_devices_step(v1, status, infos) == list_devices_step(v2, status, infos),
{
}

/// Closing the library straight after a successful device close succeeds and
/// ends in `Uninitialized`.
pub proof fn lemma_close_library_after_close_device(v: SessionView, status: i32)
    requires
        session_wf(v),
        close_device_step(v, status).1 is Ok,
    ensures
        ({
            let v2 = close_device_step(v, status).0;
            close_library_step(v2, 0).1 is Ok && phase(close_library_step(v2, 0).0)
                is Uninitialized
        }),
{
}

/// Closing the library while a device is open is rejected without side
/// effects: the session is returned exactly as it was, whatever the driver
/// status, because no driver call is reached.
pub proof fn lemma_close_library_rejected_while_device_open(v: SessionView, status: i32)
    requires
        v.device is Some,
    ensures
        close_library_step(v, status) == (v, Err::<(), ErrorKind>(ErrorKind::GxiError)),
{
}

} // verus!
