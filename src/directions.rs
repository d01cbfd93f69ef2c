use vstd::prelude::*;

verus! {

/// Data coming in.
#[derive(Clone, Copy, PartialEq, Eq, Structural, Debug)]
pub enum IncomingDirection {
    /// From the remote proxy.
    FromServer,
    /// From the tunnel device.
    FromClient,
}

/// Data going out.
#[derive(Clone, Copy, PartialEq, Eq, Structural, Debug)]
pub enum OutgoingDirection {
    /// To the remote proxy.
    ToServer,
    /// To the tunnel device.
    ToClient,
}

/// Which way a chunk of relayed data flows.
#[derive(Clone, Copy, PartialEq, Eq, Structural, Debug)]
pub enum Direction {
    Incoming(IncomingDirection),
    Outgoing(OutgoingDirection),
}

/// A buffer of relayed data, labelled with the way it flows; it borrows the
/// buffer and owns nothing.
#[derive(Clone, PartialEq, Eq, Debug)]
pub struct DataEvent<'a, T> {
    pub direction: T,
    pub buffer: &'a [u8],
}

/// Data coming in, with its buffer.
pub type IncomingDataEvent<'a> = DataEvent<'a, IncomingDirection>;

/// Data going out, with its buffer.
pub type OutgoingDataEvent<'a> = DataEvent<'a, OutgoingDirection>;

} // verus!
