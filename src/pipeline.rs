use vstd::prelude::*;
use crate::frame::{decode_frame, decode_spec, FRAME_SIZE};
use crate::link::{step, step_spec, LinkEvent, LinkState, Transition};
use crate::schema::{map_values, mapped, SensorReading, SensorSchema};

verus! {

/// What one outcome of the transport leads to: the state machine's step
/// and, where it delivered a frame, the resolved sample to emit.
pub struct Handled {
    pub transition: Transition,
    pub sample: Option<Vec<SensorReading>>,
}

/// Whether a read outcome claims no more bytes than the buffer holds.
pub open spec fn fits_buffer(event: LinkEvent, buf_len: int) -> bool {
    match event {
        LinkEvent::ReadBytes(n) => n <= buf_len,
        _ => true,
    }
}

/// Handles one outcome of the operation `state` asked for. Where the step
/// delivers (an exact frame was read into the front of `buf`), that frame
/// is decoded and mapped through `schema`; otherwise nothing is decoded.
pub fn handle_event(
    state: LinkState,
    running: bool,
    event: LinkEvent,
    buf: &[u8],
    schema: &SensorSchema,
) -> (r: Handled)
    requires
        fits_buffer(event, buf@.len() as int),
    ensures
        r.transition == step_spec(state, running, event),
        r.sample is Some <==> r.transition.deliver,
        r.sample is Some ==> r.sample->Some_0@.map_values(|e: SensorReading| e@) == mapped(
            decode_spec(buf@.take(FRAME_SIZE as int)),
            schema@,
        ),
{
    let transition = step(state, running, event);
    if !transition.deliver {
        return Handled { transition, sample: None };
    }
    let frame = slice_front(buf, FRAME_SIZE);
    match decode_frame(frame) {
        Ok(record) => Handled { transition, sample: Some(map_values(&record, schema)) },
        Err(_) => Handled { transition, sample: None },
    }
}

/// The first `n` bytes of `buf`.
fn slice_front(buf: &[u8], n: usize) -> (r: &[u8])
    requires
        n <= buf@.len(),
    ensures
        r@ == buf@.take(n as int),
{
    let r = vstd::slice::slice_subrange(buf, 0, n);
    r
}

} // verus!
