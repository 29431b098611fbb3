//! The virtual pointer device.
//!
//! A [`PointerDevice`] owns the server-side synthetic pointer object and
//! emits the protocol's fire-and-forget requests onto it. The view of a
//! device is the ordered sequence of requests emitted through it; every
//! emission appends exactly one request.
//!
//! All requests use timestamp `0`, the accepted sentinel for "now": this tool
//! issues one gesture per invocation, so no finer ordering is needed.
//!
//! Motion and axis-value requests carry scalar magnitudes that the protocol
//! takes as floating-point arguments, which this library cannot hold; those
//! two requests are emitted by the transport-owning caller directly, and
//! [`PointerDevice::emit`] takes every other kind.

use vstd::prelude::*;
use wayland_protocols_wlr::virtual_pointer::v1::client::zwlr_virtual_pointer_v1::ZwlrVirtualPointerV1;
use crate::command::{PressState, Request, ScrollAxis, ScrollSource, carries_scalar};

verus! {

/// The wayland-protocols-wlr proxy for the server-side virtual pointer
/// object, held opaquely: nothing about its insides is assumed.
#[verifier::external_type_specification]
#[verifier::external_body]
pub struct ExZwlrVirtualPointerV1(ZwlrVirtualPointerV1);

/// Relies on `ZwlrVirtualPointerV1::axis_source`: sends one axis-source
/// declaration; fire-and-forget, nothing returned.
#[verifier::external_body]
fn send_axis_source(handle: &ZwlrVirtualPointerV1, source: ScrollSource) {
    let s = match source {
        ScrollSource::Wheel => wayland_client::protocol::wl_pointer::AxisSource::Wheel,
    };
    handle.axis_source(s);
}

/// Relies on `ZwlrVirtualPointerV1::axis_stop`: sends one axis-stop request;
/// fire-and-forget, nothing returned.
#[verifier::external_body]
fn send_axis_stop(handle: &ZwlrVirtualPointerV1, axis: ScrollAxis) {
    let a = match axis {
        ScrollAxis::Horizontal => wayland_client::protocol::wl_pointer::Axis::HorizontalScroll,
        ScrollAxis::Vertical => wayland_client::protocol::wl_pointer::Axis::VerticalScroll,
    };
    handle.axis_stop(0, a);
}

/// Relies on `ZwlrVirtualPointerV1::button`: sends one button state-change
/// request; fire-and-forget, nothing returned.
#[verifier::external_body]
fn send_button(handle: &ZwlrVirtualPointerV1, code: u32, state: PressState) {
    let s = match state {
        PressState::Pressed => wayland_client::protocol::wl_pointer::ButtonState::Pressed,
        PressState::Released => wayland_client::protocol::wl_pointer::ButtonState::Released,
    };
    handle.button(0, code, s);
}

/// Relies on `ZwlrVirtualPointerV1::frame`: sends one frame-boundary request,
/// closing the pending batch; fire-and-forget, nothing returned.
#[verifier::external_body]
fn send_frame(handle: &ZwlrVirtualPointerV1) {
    handle.frame();
}

/// One server-side synthetic pointer device, together with the ordered
/// sequence of requests emitted through it so far.
pub struct PointerDevice {
    handle: ZwlrVirtualPointerV1,
    log: Ghost<Seq<Request>>,
}

impl PointerDevice {
    /// Every request emitted through this device, oldest first.
    pub closed spec fn emitted(&self) -> Seq<Request> {
        self.log@
    }

    /// Takes ownership of a freshly created pointer object; nothing has been
    /// emitted on it.
    pub fn new(handle: ZwlrVirtualPointerV1) -> (d: PointerDevice)
        ensures
            d.emitted() == Seq::<Request>::empty(),
    {
        PointerDevice { handle, log: Ghost(Seq::empty()) }
    }

    /// Emits one scalar-free request, in order, onto the device.
    pub fn emit(&mut self, req: Request)
        requires
            !carries_scalar(req),
        ensures
            final(self).emitted() == old(self).emitted().push(req),
    {
        match req {
            Request::Motion { .. } => {
                proof {
                    assert(false);
                }
            },
            Request::AxisSource { source } => send_axis_source(&self.handle, source),
            Request::AxisStop { axis } => send_axis_stop(&self.handle, axis),
            Request::AxisValue { .. } => {
                proof {
                    assert(false);
                }
            },
            Request::Button { code, state } => send_button(&self.handle, code, state),
            Request::Frame => send_frame(&self.handle),
        }
        self.log = Ghost(self.log@.push(req));
    }
}

} // verus!
