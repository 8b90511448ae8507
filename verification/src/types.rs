//! Names and identifiers shared by the whole stack.

use vstd::prelude::*;

verus! {

/// Identifier of an outbound substream, unique for one handle of one
/// connection.
pub type SubstreamId = usize;

/// Capacity of the channels between a connection and its protocol handlers.
pub const DEFAULT_CHANNEL_SIZE: usize = 64;

/// Name of an application protocol, the key by which substreams are routed.
#[derive(Debug, Hash, PartialOrd, Ord)]
pub struct ProtocolName {
    name: String,
}

impl View for ProtocolName {
    type V = Seq<char>;

    closed spec fn view(&self) -> Seq<char> {
        self.name@
    }
}

impl ProtocolName {
    /// The protocol name that reads `name`.
    pub fn new(name: &str) -> (r: ProtocolName)
        ensures
            r@ == name@,
    {
        ProtocolName { name: name.to_owned() }
    }

    /// The name as text.
    pub fn as_str(&self) -> (r: &str)
        ensures
            r@ == self@,
    {
        self.name.as_str()
    }

    /// The name as an owned string.
    pub fn to_string(&self) -> (r: String)
        ensures
            r@ == self@,
    {
        self.name.clone()
    }
}

impl Clone for ProtocolName {
    fn clone(&self) -> (r: ProtocolName)
        ensures
            r@ == self@,
    {
        ProtocolName { name: self.name.clone() }
    }
}

impl PartialEq for ProtocolName {
    fn eq(&self, other: &ProtocolName) -> (r: bool) {
        self.name == other.name
    }
}

impl Eq for ProtocolName {}

impl vstd::std_specs::cmp::PartialEqSpecImpl for ProtocolName {
    open spec fn obeys_eq_spec() -> bool {
        true
    }

    open spec fn eq_spec(&self, other: &ProtocolName) -> bool {
        self@ == other@
    }
}

} // verus!
