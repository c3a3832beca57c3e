//! Error kinds of the transport layer.

use vstd::prelude::*;

verus! {

/// What can go wrong while speaking the servo protocol.
///
/// Socket-level and protocol-level failures are fatal to the connection;
/// payload codec failures and cancellation are local to the affected call.
#[derive(Clone, Copy, Debug, PartialEq, Eq, Structural)]
pub enum Error {
    /// Socket-level failure; fatal to the connection. Only the I/O shell
    /// constructs this kind.
    IOError,
    /// Malformed or disallowed packet; fatal to the connection.
    ProtocolError,
    /// A command payload could not be serialized.
    CodecError,
    /// A reply payload did not match the expected layout.
    DeserializeError,
    /// Cooperative shutdown observed by an in-flight call.
    Cancelled,
    /// A reply waiter or event listener that should be present is not.
    NotFound,
    /// A reply waiter was registered under a tag that already has one; at
    /// most one waiter may wait per tag.
    DuplicateTag,
}

} // verus!
