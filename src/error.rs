//! Errors that the codec and the dispatcher report.
use vstd::prelude::*;

verus! {

/// What went wrong while framing or routing a message.
#[derive(Clone, Copy, Debug, PartialEq, Eq, Structural)]
pub enum ProtocolError {
    /// The first six bytes of a frame are not the magic tag. Byte alignment
    /// with the peer is lost and the connection must be discarded.
    BadMagic,
    /// An event tag whose value, with the event bit cleared, names no event
    /// kind.
    UnknownEventKind(u32),
    /// A reply tag that names no command.
    UnknownCommand(u32),
    /// A payload that could not be turned into or read from JSON.
    MalformedPayload,
    /// A header that announces a payload longer than a reader accepts.
    /// Reading on would mean skipping the payload to stay aligned, so the
    /// connection is dropped.
    PayloadTooLarge(u32),
}

/// Whether an error leaves the connection unusable: framing errors lose the
/// byte alignment or would need a payload skipped, and a tag outside the registries means it cannot be
/// trusted either; a payload that is not the expected JSON leaves the
/// framing sound.
pub open spec fn is_fatal(e: ProtocolError) -> bool {
    !(e is MalformedPayload)
}

impl ProtocolError {
    /// Whether the connection must be dropped after this error.
    pub fn ends_connection(&self) -> (r: bool)
        ensures
            r == is_fatal(*self),
    {
        match self {
            ProtocolError::MalformedPayload => false,
            _ => true,
        }
    }
}

} // verus!
