use vstd::prelude::*;

use crate::connection::{
    compose, composes, conversion_failure, fresh_connection_view, RawConnection, SocketConnection,
};
use crate::error::{ConnectError, ToolkitError};

verus! {

/// The connect side of the adapter. The toolkit performs the one
/// asynchronous connect; this type owns what happens around that single
/// suspension point: turning the outcome into a composed connection or into
/// a `ConnectError`.
pub struct SocketClient {}

impl SocketClient {
    pub fn new() -> (r: SocketClient) {
        SocketClient {}
    }

    /// Completes one connect attempt from the toolkit's outcome. A failed
    /// connect surfaces the toolkit's error; a raw connection is composed
    /// through the shared composition path, and a connection comes back
    /// exactly when both of its streams convert. No retry happens here —
    /// retry policy belongs to the caller.
    pub fn connect(&self, outcome: Result<RawConnection, ToolkitError>) -> (r: Result<
        SocketConnection,
        ConnectError,
    >)
        ensures
            outcome matches Err(e) ==> r == Err::<SocketConnection, _>(ConnectError::Connect(e)),
            outcome matches Ok(raw) ==> (composes(raw) ==> (r matches Ok(c) && c@
                == fresh_connection_view(raw))),
            outcome matches Ok(raw) ==> (!composes(raw) ==> r == Err::<SocketConnection, _>(
                ConnectError::Conversion(conversion_failure(raw)),
            )),
    {
        match outcome {
            Err(e) => Err(ConnectError::Connect(e)),
            Ok(raw) => match compose(raw) {
                Ok(c) => Ok(c),
                Err(f) => Err(ConnectError::Conversion(f)),
            },
        }
    }
}

} // verus!
