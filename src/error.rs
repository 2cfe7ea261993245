use vstd::prelude::*;

verus! {

/// What can go wrong while framing, encoding or decoding messages.
#[derive(Clone, Copy, Debug, PartialEq, Eq, Structural)]
pub enum MessageError {
    /// A frame's payload is not valid UTF-8.
    Framing,
    /// Outbound text falls outside the protocol's 7-bit character set, or is
    /// too long for a 4-byte length prefix.
    Encoding,
    /// The peer sent a message code that has no catalog entry.
    UnknownDiscriminant,
    /// A field count or a field's coercion does not match the catalog entry.
    MalformedPayload,
}

} // verus!
