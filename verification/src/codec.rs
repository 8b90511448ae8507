//! Framing strategies of substreams.

use vstd::prelude::*;

verus! {

/// How the bytes of a substream are cut into messages.
#[derive(Debug, Clone, Copy, PartialEq, Eq, Structural)]
pub enum ProtocolCodec {
    /// Every message has the given size.
    Identity(usize),
    /// Every message is preceded by its length as an unsigned varint.
    UnsignedVarint,
}

} // verus!
