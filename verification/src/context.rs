//! The protocols that a node has enabled.

use vstd::prelude::*;
use crate::codec::ProtocolCodec;
use crate::error::Error;
use crate::types::ProtocolName;

verus! {

/// The handler that is registered under `name`: its position among the
/// registered names, or `None` if the name is not registered.
pub open spec fn handler_of(names: Seq<Seq<char>>, name: Seq<char>) -> Option<int> {
    if names.contains(name) {
        Some(choose|i: int| 0 <= i < names.len() && names[i] == name)
    } else {
        None
    }
}

/// Where names are distinct, the handler of a name is the one position at
/// which the name stands.
pub proof fn lemma_handler_of_position(names: Seq<Seq<char>>, i: int)
    requires
        names.no_duplicates(),
        0 <= i < names.len(),
    ensures
        handler_of(names, names[i]) == Some(i),
{
    assert(names.contains(names[i]));
}

/// A registered protocol: its name and the framing of its substreams.
#[derive(Debug)]
pub struct ProtocolInfo {
    /// Protocol name.
    pub name: ProtocolName,
    /// Framing strategy, fixed when the protocol is registered.
    pub codec: ProtocolCodec,
}

/// Transport context: the protocols in the order of their registration. The
/// position of a protocol identifies its handler.
#[derive(Debug)]
pub struct TransportContext {
    protocols: Vec<ProtocolInfo>,
}

impl TransportContext {
    /// The registered names, in the order of registration.
    pub closed spec fn names(&self) -> Seq<Seq<char>> {
        Seq::new(self.protocols@.len(), |i: int| self.protocols@[i].name@)
    }

    /// The framing strategies, in the order of registration.
    pub closed spec fn codecs(&self) -> Seq<ProtocolCodec> {
        Seq::new(self.protocols@.len(), |i: int| self.protocols@[i].codec)
    }

    /// No name is registered twice.
    pub open spec fn wf(&self) -> bool {
        self.names().no_duplicates()
    }

    /// Create new [`TransportContext`], with no protocol.
    pub fn new() -> (r: TransportContext)
        ensures
            r.wf(),
            r.names() == Seq::<Seq<char>>::empty(),
            r.codecs() == Seq::<ProtocolCodec>::empty(),
    {
        let r = TransportContext { protocols: Vec::new() };
        assert(r.names() =~= Seq::<Seq<char>>::empty());
        assert(r.codecs() =~= Seq::<ProtocolCodec>::empty());
        r
    }

    /// The number of registered protocols.
    pub fn len(&self) -> (r: usize)
        ensures
            r == self.names().len(),
            r == self.codecs().len(),
    {
        self.protocols.len()
    }

    /// The handler registered under `name`, if there is one.
    pub fn position(&self, name: &ProtocolName) -> (r: Option<usize>)
        requires
            self.wf(),
        ensures
            match r {
                Some(i) => handler_of(self.names(), name@) == Some(i as int) && i
                    < self.names().len(),
                None => handler_of(self.names(), name@) is None,
            },
    {
        let mut i: usize = 0;
        while i < self.protocols.len()
            invariant
                i <= self.protocols@.len(),
                self.names().no_duplicates(),
                forall|j: int| 0 <= j < i ==> self.names()[j] != name@,
            decreases self.protocols@.len() - i,
        {
            if self.protocols[i].name == *name {
                proof {
                    lemma_handler_of_position(self.names(), i as int);
                }
                return Some(i);
            }
            i += 1;
        }
        None
    }

    /// The name of the protocol of handler `handler`.
    pub fn name(&self, handler: usize) -> (r: &ProtocolName)
        requires
            handler < self.names().len(),
        ensures
            r@ == self.names()[handler as int],
    {
        &self.protocols[handler].name
    }

    /// The framing strategy of the protocol of handler `handler`.
    pub fn codec(&self, handler: usize) -> (r: ProtocolCodec)
        requires
            handler < self.names().len(),
        ensures
            r == self.codecs()[handler as int],
    {
        self.protocols[handler].codec
    }

    /// Add new protocol. A name that is registered already is refused and
    /// leaves the context as it was; a new name gets the next handler.
    pub fn add_protocol(&mut self, protocol: ProtocolName, codec: ProtocolCodec) -> (r: Result<
        usize,
        Error,
    >)
        requires
            old(self).wf(),
        ensures
            final(self).wf(),
            old(self).names().contains(protocol@) ==> {
                &&& r == Err::<usize, Error>(Error::ProtocolAlreadyExists(protocol))
                &&& final(self).names() == old(self).names()
                &&& final(self).codecs() == old(self).codecs()
            },
            !old(self).names().contains(protocol@) ==> {
                &&& r == Ok::<usize, Error>(old(self).names().len() as usize)
                &&& final(self).names() == old(self).names().push(protocol@)
                &&& final(self).codecs() == old(self).codecs().push(codec)
            },
    {
        match self.position(&protocol) {
            Some(_) => Err(Error::ProtocolAlreadyExists(protocol)),
            None => {
                let handler: usize = self.protocols.len();
                let ghost name = protocol@;
                let ghost before = self.names();
                self.protocols.push(ProtocolInfo { name: protocol, codec });
                assert(self.names() =~= before.push(name));
                assert(self.codecs() =~= old(self).codecs().push(codec));
                assert(self.names().no_duplicates()) by {
                    assert forall|i: int, j: int|
                        0 <= i < self.names().len() && 0 <= j < self.names().len() && i
                            != j implies self.names()[i] != self.names()[j] by {
                        if i < before.len() && j < before.len() {
                            assert(before[i] != before[j]);
                        } else if i < before.len() {
                            assert(before.contains(before[i]));
                        } else {
                            assert(before.contains(before[j]));
                        }
                    }
                }
                Ok(handler)
            },
        }
    }
}

} // verus!
