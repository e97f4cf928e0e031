//! The broker contract: the capability set `{publish, subscribe, shutdown}`
//! that every backend realizes, and the classified errors those operations
//! can return.

use vstd::prelude::*;

verus! {

/// Classified failure of a broker operation.
#[derive(Clone, Copy, Debug, PartialEq, Eq, Structural)]
pub enum BrokerError {
    /// Validation failure at build or construction.
    InvalidConfig,
    /// Payload exceeds the configured per-record size ceiling.
    TooLarge,
    /// Publish did not complete within the publish timeout.
    Timeout,
    /// Underlying client I/O, authentication, or broker failure.
    Transport,
    /// Duplicate `(topic, group)` registration on this backend instance.
    AlreadySubscribed,
    /// Operation after `shutdown`.
    ClosedBroker,
    /// A handler invocation failed; reported on the error channel,
    /// never returned from `subscribe`.
    HandlerFailed,
    /// Drain deadline exceeded during shutdown; non-fatal.
    ShutdownIncomplete,
}

/// The uniform broker contract. A caller holds this capability set, never a
/// concrete backend.
///
/// A backend exposes its abstract state through the spec functions: whether it
/// is terminal (`closed`), its per-record size ceiling (`max_bytes`), which
/// `(topic, group)` pairs carry a registration (`subscribed`), and the
/// sequence of records it has taken responsibility for on each topic
/// (`records`). The method contracts pin down, over that state, when each
/// classified error is returned and what every outcome does to the state.
pub trait Broker: Sized {
    /// Structural invariant of the backend, established at construction and
    /// preserved by every operation.
    spec fn inv(&self) -> bool;

    /// The backend has reached its terminal state.
    spec fn closed(&self) -> bool;

    /// Per-record payload size ceiling.
    spec fn max_bytes(&self) -> nat;

    /// A consumer-group pump is registered for `(topic, group)`.
    spec fn subscribed(&self, topic: Seq<char>, group: Seq<char>) -> bool;

    /// The records the backend has taken responsibility for on `topic`,
    /// in production order.
    spec fn records(&self, topic: Seq<char>) -> Seq<Seq<u8>>;

    /// Fire a record at `topic`. Completes once the backend has taken
    /// responsibility for the record; safe to call from many producers.
    fn publish(&mut self, topic: &str, msg: &[u8]) -> (r: Result<(), BrokerError>)
        requires
            old(self).inv(),
        ensures
            final(self).inv(),
            final(self).closed() == old(self).closed(),
            final(self).max_bytes() == old(self).max_bytes(),
            forall|t: Seq<char>, g: Seq<char>|
                #[trigger] final(self).subscribed(t, g) == old(self).subscribed(t, g),
            old(self).closed() ==> r == Err::<(), BrokerError>(BrokerError::ClosedBroker)
                && *final(self) == *old(self),
            !old(self).closed() && msg@.len() > old(self).max_bytes() ==> r == Err::<(),
            BrokerError>(BrokerError::TooLarge) && *final(self) == *old(self),
            r is Ok ==> !old(self).closed() && msg@.len() <= old(self).max_bytes()
                && final(self).records(topic@) == old(self).records(topic@).push(msg@),
            r matches Err(e) ==> (e == BrokerError::ClosedBroker <==> old(self).closed()),
            r matches Err(e) ==> (e == BrokerError::TooLarge <==> !old(self).closed()
                && msg@.len() > old(self).max_bytes()),
            r matches Err(e) ==> e == BrokerError::ClosedBroker || e == BrokerError::TooLarge
                || e == BrokerError::Timeout || e == BrokerError::Transport,
            forall|t: Seq<char>| t != topic@ ==> #[trigger] final(self).records(t)
                == old(self).records(t),
            r is Err ==> final(self).records(topic@) == old(self).records(topic@)
                || final(self).records(topic@) == old(self).records(topic@).push(msg@),
    ;

    /// Register a consumer-group pump for `(topic, group)`. Returns once
    /// registration has been acknowledged; delivery is driven afterwards.
    fn subscribe(&mut self, topic: &str, group: &str) -> (r: Result<(), BrokerError>)
        requires
            old(self).inv(),
        ensures
            final(self).inv(),
            final(self).closed() == old(self).closed(),
            final(self).max_bytes() == old(self).max_bytes(),
            forall|t: Seq<char>| #[trigger] final(self).records(t) == old(self).records(t),
            old(self).closed() ==> r == Err::<(), BrokerError>(BrokerError::ClosedBroker)
                && *final(self) == *old(self),
            !old(self).closed() && old(self).subscribed(topic@, group@) ==> r == Err::<(),
            BrokerError>(BrokerError::AlreadySubscribed) && *final(self) == *old(self),
            r is Ok ==> !old(self).closed() && !old(self).subscribed(topic@, group@)
                && final(self).subscribed(topic@, group@),
            r matches Err(e) ==> (e == BrokerError::ClosedBroker <==> old(self).closed()),
            r matches Err(e) ==> (e == BrokerError::AlreadySubscribed <==> !old(self).closed()
                && old(self).subscribed(topic@, group@)),
            r matches Err(e) ==> e == BrokerError::ClosedBroker
                || e == BrokerError::AlreadySubscribed || e == BrokerError::Transport
                || e == BrokerError::InvalidConfig,
            forall|t: Seq<char>, g: Seq<char>| !(t == topic@ && g == group@)
                ==> #[trigger] final(self).subscribed(t, g) == old(self).subscribed(t, g),
            r is Err ==> forall|t: Seq<char>, g: Seq<char>|
                #[trigger] final(self).subscribed(t, g) == old(self).subscribed(t, g),
    ;

    /// Transition the backend to its terminal state, draining in-flight work.
    /// Idempotent; best-effort, so the caller always receives `Ok`.
    fn shutdown(&mut self) -> (r: Result<(), BrokerError>)
        requires
            old(self).inv(),
        ensures
            final(self).inv(),
            final(self).closed(),
            final(self).max_bytes() == old(self).max_bytes(),
            forall|t: Seq<char>| #[trigger] final(self).records(t) == old(self).records(t),
            old(self).closed() ==> *final(self) == *old(self),
            r is Ok,
    ;
}

} // verus!
