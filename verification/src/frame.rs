//! Frames as the bus driver hands them over.

use vstd::prelude::*;
use vstd::slice::slice_subrange;

verus! {

/// The largest payload of a CAN-FD frame, in bytes.
pub const MAX_PAYLOAD: usize = 64;

/// The identifier of a frame as the bus carries it: standard (11 bits) or
/// extended (29 bits).
#[derive(Clone, Copy, Debug, PartialEq, Eq, Structural)]
pub enum FrameId {
    Standard(u16),
    Extended(u32),
}

impl FrameId {
    /// The identifier in the one numeric space that the catalog is keyed by.
    pub open spec fn spec_effective(self) -> u32 {
        match self {
            FrameId::Standard(raw) => raw as u32,
            FrameId::Extended(raw) => raw,
        }
    }

    /// The identifier in the one numeric space that the catalog is keyed by:
    /// a standard identifier widened, an extended one as it is.
    #[verifier::when_used_as_spec(spec_effective)]
    pub fn effective(self) -> (id: u32)
        ensures
            id == self.spec_effective(),
    {
        match self {
            FrameId::Standard(raw) => raw as u32,
            FrameId::Extended(raw) => raw,
        }
    }
}

/// A frame that arrived: its effective identifier and its payload of at most
/// 64 bytes. It lives from the driver's hand-over to the end of routing.
#[derive(Clone, Copy, Debug)]
pub struct InboundFrame<'a> {
    identifier: u32,
    data: &'a [u8],
}

impl<'a> InboundFrame<'a> {
    #[verifier::type_invariant]
    spec fn fits(self) -> bool {
        self.data@.len() <= MAX_PAYLOAD
    }

    /// The effective identifier of the frame.
    pub closed spec fn spec_identifier(&self) -> u32 {
        self.identifier
    }

    /// The payload of the frame.
    pub closed spec fn payload(&self) -> Seq<u8> {
        self.data@
    }

    /// The frame with identifier `id` and payload `data`, or `None` where
    /// `data` is longer than a frame can carry.
    pub fn new(id: FrameId, data: &'a [u8]) -> (r: Option<InboundFrame<'a>>)
        ensures
            r is Some <==> data@.len() <= MAX_PAYLOAD,
            r matches Some(frame) ==> frame.identifier() == id.effective() && frame.payload()
                == data@,
    {
        if data.len() <= MAX_PAYLOAD {
            Some(InboundFrame { identifier: id.effective(), data })
        } else {
            None
        }
    }

    /// The effective identifier of the frame.
    #[verifier::when_used_as_spec(spec_identifier)]
    pub fn identifier(&self) -> (id: u32)
        ensures
            id == self.spec_identifier(),
    {
        self.identifier
    }

    /// The number of payload bytes, 0 to 64.
    pub fn length(&self) -> (n: u8)
        ensures
            n == self.payload().len(),
            n <= MAX_PAYLOAD,
    {
        proof {
            use_type_invariant(self);
        }
        self.data.len() as u8
    }

    /// The payload bytes.
    pub fn data(&self) -> (bytes: &'a [u8])
        ensures
            bytes@ == self.payload(),
            bytes@.len() <= MAX_PAYLOAD,
    {
        proof {
            use_type_invariant(self);
        }
        self.data
    }
}

/// A frame to send: the identifier of a package and the payload that stands
/// for a record of it.
#[derive(Clone, Copy, Debug)]
pub struct OutboundFrame {
    identifier: u32,
    length: usize,
    buffer: [u8; 64],
}

impl OutboundFrame {
    #[verifier::type_invariant]
    spec fn fits(self) -> bool {
        self.length <= MAX_PAYLOAD
    }

    /// The identifier of the frame.
    pub closed spec fn spec_identifier(&self) -> u32 {
        self.identifier
    }

    /// The payload of the frame.
    pub closed spec fn payload(&self) -> Seq<u8> {
        self.buffer@.subrange(0, self.length as int)
    }

    /// The frame of identifier `identifier` whose payload is the first
    /// `length` bytes of `buffer`, or `None` where `length` is more than a
    /// frame can carry.
    pub fn new(identifier: u32, buffer: [u8; 64], length: usize) -> (r: Option<OutboundFrame>)
        ensures
            r is Some <==> length <= MAX_PAYLOAD,
            r matches Some(frame) ==> frame.identifier() == identifier && frame.payload()
                == buffer@.subrange(0, length as int),
    {
        if length <= MAX_PAYLOAD {
            Some(OutboundFrame { identifier, length, buffer })
        } else {
            None
        }
    }

    /// The identifier of the frame.
    #[verifier::when_used_as_spec(spec_identifier)]
    pub fn identifier(&self) -> (id: u32)
        ensures
            id == self.spec_identifier(),
    {
        self.identifier
    }

    /// The payload bytes.
    pub fn data(&self) -> (bytes: &[u8])
        ensures
            bytes@ == self.payload(),
            bytes@.len() <= MAX_PAYLOAD,
    {
        proof {
            use_type_invariant(self);
        }
        slice_subrange(self.buffer.as_slice(), 0, self.length)
    }
}

} // verus!
