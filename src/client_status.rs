use std::sync::Arc;
use vstd::prelude::*;

verus! {

/// Availability of the out-of-process helper client.
///
/// State changes are driven by the helper's own lifecycle; this type only
/// records where it stands.
pub enum ClientStatus<C> {
    /// Not started yet.
    Pending,
    /// Started, not ready to serve requests yet.
    Starting(Arc<C>),
    /// Ready to serve requests.
    Ready(Arc<C>),
    /// Failed to start multiple times. No more actions will be taken.
    Crashed,
}

impl<C> ClientStatus<C> {
    pub fn is_pending(&self) -> (r: bool)
        ensures
            r == (self is Pending),
    {
        matches!(self, ClientStatus::Pending)
    }
}

impl<C> Default for ClientStatus<C> {
    fn default() -> (r: Self)
        ensures
            r is Pending,
    {
        ClientStatus::Pending
    }
}

} // verus!
