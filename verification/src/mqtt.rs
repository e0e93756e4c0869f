use std::sync::Arc;

use vstd::prelude::*;

verus! {

/// The byte buffer of the `bytes` crate, carried through unchanged as a
/// message payload.
#[verifier::external_type_specification]
#[verifier::external_body]
pub struct ExBytes(bytes::Bytes);

/// MQTT delivery guarantee of a published message.
#[derive(Clone, Copy, Debug, PartialEq, Eq, Structural)]
pub enum QoS {
    AtMostOnce,
    AtLeastOnce,
    ExactlyOnce,
}

/// A message published to the broker on `topic`.
#[derive(Debug)]
pub struct PublishPacket {
    pub topic: Arc<str>,
    pub payload: bytes::Bytes,
    pub qos: QoS,
    pub retain: bool,
    pub dup: bool,
    pub packet_id: Option<u16>,
}

} // verus!
