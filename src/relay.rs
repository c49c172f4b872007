use vstd::prelude::*;
use crate::hub::{publish_result, publish_spec, Hub, NoSubscribers};
use crate::message::Message;
use crate::serial::{SerialBridge, SerialError};
use crate::text::{chunk_message, is_blank_bytes, line_bytes, message_from_chunk};

verus! {

/// The publish path: `msg` goes to every hub subscriber, and its text goes
/// to the device as one line. The two effects are independent: whatever the
/// device write does, the hub publish has happened.
pub fn post(hub: &mut Hub, bridge: &mut SerialBridge, msg: Message) -> (r: (
    Result<usize, NoSubscribers>,
    Result<(), SerialError>,
))
    requires
        old(hub).wf(),
        old(hub)@.history.len() < u64::MAX,
    ensures
        final(hub).wf(),
        final(hub)@ == publish_spec(old(hub)@, msg@),
        r.0 == publish_result(old(hub)@),
        r.1 is Ok ==> final(bridge).sent_lines() == old(bridge).sent_lines().push(
            line_bytes(msg.message@),
        ),
        r.1 is Err ==> final(bridge).sent_lines() == old(bridge).sent_lines(),
{
    let text = msg.message.clone();
    let delivered = hub.publish(msg);
    let written = bridge.write_line(text.as_str());
    (delivered, written)
}

/// Publishes the message that a chunk of device output becomes, if any.
/// Returns what the publish returned, or none when the chunk held nothing
/// but white space.
pub fn relay_chunk(hub: &mut Hub, bytes: &[u8]) -> (r: Option<Result<usize, NoSubscribers>>)
    requires
        old(hub).wf(),
        old(hub)@.history.len() < u64::MAX,
    ensures
        final(hub).wf(),
        match chunk_message(bytes@) {
            Some(m) => final(hub)@ == publish_spec(old(hub)@, m) && r == Some(
                publish_result(old(hub)@),
            ),
            None => final(hub)@ == old(hub)@ && r is None,
        },
        is_blank_bytes(bytes@) ==> final(hub)@ == old(hub)@ && r is None,
{
    match message_from_chunk(bytes) {
        Some(m) => Some(hub.publish(m)),
        None => None,
    }
}

/// One tick of the poll loop after its read: a failed read is treated as no
/// data; what was read is relayed as `relay_chunk` does.
pub fn relay_read(hub: &mut Hub, read: Result<Vec<u8>, SerialError>) -> (r: Option<
    Result<usize, NoSubscribers>,
>)
    requires
        old(hub).wf(),
        old(hub)@.history.len() < u64::MAX,
    ensures
        final(hub).wf(),
        match read {
            Ok(bytes) => match chunk_message(bytes@) {
                Some(m) => final(hub)@ == publish_spec(old(hub)@, m) && r == Some(
                    publish_result(old(hub)@),
                ),
                None => final(hub)@ == old(hub)@ && r is None,
            },
            Err(_) => final(hub)@ == old(hub)@ && r is None,
        },
{
    match read {
        Ok(bytes) => relay_chunk(hub, bytes.as_slice()),
        Err(_) => None,
    }
}

} // verus!
