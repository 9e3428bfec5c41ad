use vstd::prelude::*;

verus! {

/// An error reported by the underlying socket toolkit, reduced to the
/// numeric code that this crate's logic can carry and compare.
#[derive(Clone, Copy, Debug, PartialEq, Eq, Structural)]
pub struct ToolkitError {
    pub code: u32,
}

/// A raw connection's stream could not be converted into a pollable
/// half-stream. This signals a broken environment, not a transient
/// condition; the variant names the half whose conversion failed.
#[derive(Clone, Copy, Debug, PartialEq, Eq, Structural)]
pub enum StreamConversionError {
    Input,
    Output,
}

/// Why a connect attempt produced no connection.
#[derive(Clone, Copy, Debug, PartialEq, Eq, Structural)]
pub enum ConnectError {
    /// The toolkit's connect operation itself failed.
    Connect(ToolkitError),
    /// The raw connection arrived but a half-stream conversion failed.
    Conversion(StreamConversionError),
}

/// Why an accept attempt produced no connection.
#[derive(Clone, Copy, Debug, PartialEq, Eq, Structural)]
pub enum AcceptError {
    /// The toolkit's accept operation itself failed.
    Accept(ToolkitError),
    /// The raw connection arrived but a half-stream conversion failed.
    Conversion(StreamConversionError),
}

/// Why a listener refused to take an address.
#[derive(Clone, Copy, Debug, PartialEq, Eq, Structural)]
pub enum BindError {
    /// The port or address is already registered with this listener.
    Conflict,
    /// The socket-type/protocol combination is not supported.
    Unsupported,
}

/// An endpoint query was made on a connection whose underlying socket has no
/// address bound on the queried side.
#[derive(Clone, Copy, Debug, PartialEq, Eq, Structural)]
pub struct AddressError {}

} // verus!
