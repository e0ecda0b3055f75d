//! How a delivery attempt can fail, and which failures are worth a retry.

use vstd::prelude::*;

verus! {

/// Why the Prowl client gave up on one attempt to deliver a notification.
#[derive(Clone, Copy, Debug, PartialEq, Eq, Structural)]
pub enum DeliveryFailure {
    /// The Prowl API answered, but did not accept the request.
    Api,
    /// The request never reached the Prowl API.
    Send,
    /// The request could not be put together.
    Format,
}

impl DeliveryFailure {
    /// A failure is transient exactly when the request was lost on the way.
    /// Anything the API or the client itself objects to would fail again.
    pub open spec fn spec_is_retryable(self) -> bool {
        self is Send
    }

    /// Whether the same notification may succeed if it is sent again.
    pub fn is_retryable(&self) -> (retryable: bool)
        ensures
            retryable == self.spec_is_retryable(),
    {
        match self {
            DeliveryFailure::Send => true,
            DeliveryFailure::Api => false,
            DeliveryFailure::Format => false,
        }
    }
}

} // verus!
