//! The service facade: the single consumer of the event stream and the owner
//! of the cached snapshot of the node's current view of the chain.
//!
//! The snapshot fields are mutated only as a side effect of consuming an
//! event, which makes the cached state a deterministic left-fold (the spec
//! function [`consume`]) over the sequence of events observed so far.

use vstd::prelude::*;

use core::sync::atomic::AtomicU64;
use core::sync::atomic::Ordering;
use std::sync::Arc;

use crate::channels;

verus! {

/// Classifies how a newly recorded chain head relates to the previous one.
#[derive(Debug, Clone, PartialEq, Eq, Hash)]
pub enum ChainHeadUpdate {
    /// No change in the canonical head.
    NoUpdate,
    /// The new head strictly extends the old one.
    FastForward,
    /// The new head replaces a different branch; blocks after the fork point
    /// are no longer canonical.
    Reorg,
}

/// Event that happened on the service, reported by a background task.
#[derive(Debug, Clone, PartialEq, Eq, Hash)]
pub enum Event {
    /// Database state has been updated for the given block.
    NewChainHead { number: u64, hash: [u8; 32], head_update: ChainHeadUpdate },

    /// The finalized block has been updated to a different one.
    NewFinalized {
        /// Number of the finalized block.
        number: u64,
        /// Hash of the finalized block.
        hash: [u8; 32],
    },

    /// Received a block announce from the network.
    BlockAnnounceReceived {
        /// Block number.
        number: u64,
        /// Block hash.
        hash: [u8; 32],
    },

    /// Networking has detected a new external address.
    NewNetworkExternalAddress {
        /// The address in question, in textual form. Contains a `/p2p/`
        /// suffix.
        address: String,
    },
}

/// Request sent to the database task. Each request carries a single-use reply
/// slot on which the database task answers exactly once.
pub enum ToDatabase {
    /// Asks for the hash of the block the database has recorded at the given
    /// height; the answer is `None` if it has no record there.
    BlockHashGet {
        block_number: u64,
        send_back: futures::channel::oneshot::Sender<Option<[u8; 32]>>,
    },
}

/// Fatal, unrecoverable failure of the service: a channel that was promised
/// to stay open for the service's operational lifetime was found closed,
/// which means the background tasks behind it have all terminated.
#[derive(Debug, Clone, Copy, PartialEq, Eq, Structural)]
pub enum ServiceError {
    BackgroundTasksTerminated,
}

/// Mathematical view of the service's cached snapshot.
#[verifier::ext_equal]
pub struct Snapshot {
    /// Number of the best known block.
    pub best_number: u64,
    /// Hash of the best known block, as its 32 bytes.
    pub best_hash: Seq<u8>,
    /// Number of the latest finalized block.
    pub finalized_number: u64,
    /// Hash of the latest finalized block, as its 32 bytes.
    pub finalized_hash: Seq<u8>,
    /// Number of transport-level network connections, as sampled at the most
    /// recent event consumption.
    pub connections: u64,
}

/// The all-zero block hash.
pub open spec fn zero_hash() -> Seq<u8> {
    Seq::new(32, |i: int| 0u8)
}

/// The snapshot the service starts from: nothing known yet.
pub open spec fn initial_snapshot() -> Snapshot {
    Snapshot {
        best_number: 0,
        best_hash: zero_hash(),
        finalized_number: 0,
        finalized_hash: zero_hash(),
        connections: 0,
    }
}

/// One step of the left-fold that event consumption performs on the snapshot:
/// the connection count is refreshed from the sample `conns` on every event,
/// `NewChainHead` replaces the best-head fields, `NewFinalized` replaces the
/// finalized-head fields, and the other events leave both heads untouched.
pub open spec fn consume(s: Snapshot, conns: u64, event: Event) -> Snapshot {
    match event {
        Event::NewChainHead { number, hash, head_update: _ } => Snapshot {
            best_number: number,
            best_hash: hash@,
            finalized_number: s.finalized_number,
            finalized_hash: s.finalized_hash,
            connections: conns,
        },
        Event::NewFinalized { number, hash } => Snapshot {
            best_number: s.best_number,
            best_hash: s.best_hash,
            finalized_number: number,
            finalized_hash: hash@,
            connections: conns,
        },
        Event::BlockAnnounceReceived { number: _, hash: _ } => Snapshot {
            best_number: s.best_number,
            best_hash: s.best_hash,
            finalized_number: s.finalized_number,
            finalized_hash: s.finalized_hash,
            connections: conns,
        },
        Event::NewNetworkExternalAddress { address: _ } => Snapshot {
            best_number: s.best_number,
            best_hash: s.best_hash,
            finalized_number: s.finalized_number,
            finalized_hash: s.finalized_hash,
            connections: conns,
        },
    }
}

/// Left-fold of [`consume`] over a sequence of consumption steps, each a pair
/// of the connection-counter sample taken at that step and the event consumed
/// at that step: the snapshot the service caches after observing exactly
/// those steps, in that order.
pub open spec fn consume_all(s: Snapshot, steps: Seq<(u64, Event)>) -> Snapshot
    decreases steps.len(),
{
    if steps.len() == 0 {
        s
    } else {
        consume(consume_all(s, steps.drop_last()), steps.last().0, steps.last().1)
    }
}

/// Law: for any sequence of consumption steps, immediately after consuming a
/// step whose event is `NewChainHead`, the cached best-head fields equal
/// exactly that event's number and hash — whatever its `head_update`
/// classification (the classification does not gate the update), whatever the
/// connection samples, and whatever was consumed before.
pub proof fn lemma_best_head_tracks_chain_head(s: Snapshot, steps: Seq<(u64, Event)>, i: int)
    requires
        0 <= i < steps.len(),
        steps[i].1 is NewChainHead,
    ensures
        steps[i].1 matches Event::NewChainHead { number, hash, head_update: _ } ==> ({
            &&& consume_all(s, steps.take(i + 1)).best_number == number
            &&& consume_all(s, steps.take(i + 1)).best_hash == hash@
        }),
{
    let taken = steps.take(i + 1);
    assert(taken.drop_last() =~= steps.take(i));
    assert(taken.last() == steps[i]);
}

/// Law: consuming a `NewFinalized` event never changes the best-head fields,
/// and consuming any other event (`NewChainHead`, `BlockAnnounceReceived`,
/// `NewNetworkExternalAddress`) never changes the finalized-head fields.
pub proof fn lemma_head_fields_isolated(s: Snapshot, conns: u64, event: Event)
    ensures
        event is NewFinalized ==> ({
            &&& consume(s, conns, event).best_number == s.best_number
            &&& consume(s, conns, event).best_hash == s.best_hash
        }),
        !(event is NewFinalized) ==> ({
            &&& consume(s, conns, event).finalized_number == s.finalized_number
            &&& consume(s, conns, event).finalized_hash == s.finalized_hash
        }),
{
}

/// The service facade: owns the receiving end of the event channel, the
/// sending end of the database request channel, and the cached snapshot.
pub struct Service {
    /// Channel used by the background tasks to report what happens.
    /// This channel is bounded, and tasks back-pressure if the user does not
    /// process events. This is an intended behaviour.
    events_in: futures::channel::mpsc::Receiver<Event>,

    /// Sender for messages towards the database task.
    to_database: futures::channel::mpsc::Sender<ToDatabase>,

    /// Number of transport-level (e.g. TCP/IP) network connections. Only
    /// updated by receiving events.
    num_network_connections: u64,

    /// Shared counter whose content is updated by the network task. Used to
    /// refresh `num_network_connections`.
    num_connections_store: Arc<AtomicU64>,

    /// Number of the best known block. Only updated by receiving events.
    best_block_number: u64,

    /// Hash of the best known block. Only updated by receiving events.
    best_block_hash: [u8; 32],

    /// Number of the latest finalized block. Only updated by receiving
    /// events.
    finalized_block_number: u64,

    /// Hash of the latest finalized block. Only updated by receiving events.
    finalized_block_hash: [u8; 32],

    /// Optional threads pool that is used to dispatch tasks and that we keep
    /// alive for exactly the service's own lifetime.
    _threads_pool: Option<futures::executor::ThreadPool>,
}

impl View for Service {
    type V = Snapshot;

    closed spec fn view(&self) -> Snapshot {
        Snapshot {
            best_number: self.best_block_number,
            best_hash: self.best_block_hash@,
            finalized_number: self.finalized_block_number,
            finalized_hash: self.finalized_block_hash@,
            connections: self.num_network_connections,
        }
    }
}

impl Service {
    /// Creates the service from the receiving end of the event channel, the
    /// sending end of the database request channel, the shared connection
    /// counter, and an optional threads pool to keep alive.
    pub fn new(
        events_in: futures::channel::mpsc::Receiver<Event>,
        to_database: futures::channel::mpsc::Sender<ToDatabase>,
        num_connections_store: Arc<AtomicU64>,
        threads_pool: Option<futures::executor::ThreadPool>,
    ) -> (s: Service)
        ensures
            s@ == initial_snapshot(),
    {
        Service {
            events_in,
            to_database,
            num_network_connections: 0,
            num_connections_store,
            best_block_number: 0,
            best_block_hash: [0u8; 32],
            finalized_block_number: 0,
            finalized_block_hash: [0u8; 32],
            _threads_pool: threads_pool,
        }
    }

    /// Folds one consumed event into the cached snapshot, exactly as
    /// [`consume`] says: the connection count is replaced by the sample
    /// `conns`, `NewChainHead` replaces the best-head fields, `NewFinalized`
    /// replaces the finalized-head fields, the other events leave both heads
    /// untouched, and the event itself is handed back unchanged.
    pub fn apply_event(&mut self, conns: u64, event: Event) -> (r: Event)
        ensures
            r == event,
            final(self)@ == consume(old(self)@, conns, event),
    {
        self.num_network_connections = conns;

        match &event {
            Event::NewChainHead { number, hash, .. } => {
                self.best_block_number = *number;
                self.best_block_hash = *hash;
            },
            Event::NewFinalized { number, hash } => {
                self.finalized_block_number = *number;
                self.finalized_block_hash = *hash;
            },
            _ => {},
        }

        event
    }

    /// Returns the next event that happens in the service, and folds it into
    /// the cached snapshot through [`Service::apply_event`]: the connection
    /// count is refreshed from the shared counter, the head fields are
    /// updated as [`consume`] says, and the event itself is returned
    /// unchanged, in the order the channel delivered it. The event channel is
    /// promised to stay open for the service's operational lifetime; finding
    /// it closed means every background task has terminated, which is fatal
    /// and leaves the snapshot untouched.
    ///
    /// This call blocks the calling thread until an event arrives. It must
    /// not be made from inside a futures executor context: the blocking wait
    /// enters an executor of its own, and the entry panics on a thread that
    /// is already running one.
    pub fn next_event(&mut self) -> (r: Result<Event, ServiceError>)
        ensures
            match r {
                Ok(event) => final(self)@ == consume(
                    old(self)@,
                    final(self)@.connections,
                    event,
                ),
                Err(err) => ({
                    &&& err == ServiceError::BackgroundTasksTerminated
                    &&& final(self)@ == old(self)@
                }),
            },
    {
        let event = match channels::recv_event(&mut self.events_in) {
            Some(event) => event,
            None => {
                return Err(ServiceError::BackgroundTasksTerminated);
            },
        };

        let conns = self.num_connections_store.load(Ordering::Relaxed);
        Ok(self.apply_event(conns, event))
    }

    /// Queries the database task for the hash of the block it has recorded at
    /// the given height. `Ok(None)` is a normal answer, not an error: the
    /// height may be beyond the known chain, before the retained history, or
    /// on a pruned branch. The answer reflects the database's state at the
    /// moment the request is serviced and may be concurrently superseded by a
    /// reorg. The request channel and the reply slot are promised to be
    /// served for the service's operational lifetime; finding either closed
    /// means the database task has terminated, which is fatal.
    ///
    /// This call blocks the calling thread until the database task answers.
    /// It must not be made from inside a futures executor context: the
    /// blocking wait enters an executor of its own, and the entry panics on a
    /// thread that is already running one.
    pub fn best_effort_block_hash(&self, block_number: u64) -> (r: Result<
        Option<[u8; 32]>,
        ServiceError,
    >)
        ensures
            r matches Err(err) ==> err == ServiceError::BackgroundTasksTerminated,
    {
        let (send_back, reply) = channels::new_reply_slot();
        let request = ToDatabase::BlockHashGet { block_number, send_back };
        match channels::send_to_database(&self.to_database, request) {
            Ok(()) => {},
            Err(_) => {
                return Err(ServiceError::BackgroundTasksTerminated);
            },
        }
        resolve_reply(channels::await_reply(reply))
    }

    /// Returns the number of transport-level (e.g. TCP/IP) connections of the
    /// network. Only updated when calling [`Service::next_event`].
    pub fn num_network_connections(&self) -> (r: u64)
        ensures
            r == self@.connections,
    {
        self.num_network_connections
    }

    /// Returns the number of the best known block. Only updated when calling
    /// [`Service::next_event`].
    pub fn best_block_number(&self) -> (r: u64)
        ensures
            r == self@.best_number,
    {
        self.best_block_number
    }

    /// Returns the hash of the best known block. Only updated when calling
    /// [`Service::next_event`].
    pub fn best_block_hash(&self) -> (r: [u8; 32])
        ensures
            r@ == self@.best_hash,
    {
        self.best_block_hash
    }

    /// Returns the number of the latest finalized block. Only updated when
    /// calling [`Service::next_event`].
    pub fn finalized_block_number(&self) -> (r: u64)
        ensures
            r == self@.finalized_number,
    {
        self.finalized_block_number
    }

    /// Returns the hash of the latest finalized block. Only updated when
    /// calling [`Service::next_event`].
    pub fn finalized_block_hash(&self) -> (r: [u8; 32])
        ensures
            r@ == self@.finalized_hash,
    {
        self.finalized_block_hash
    }
}

/// Interprets the outcome of a single-use reply slot: an answer from the
/// database task passes through unchanged, and an abandoned slot is the fatal
/// condition, since the database task must answer every request exactly once
/// while it is alive.
pub fn resolve_reply(
    reply: Result<Option<[u8; 32]>, futures::channel::oneshot::Canceled>,
) -> (r: Result<Option<[u8; 32]>, ServiceError>)
    ensures
        match reply {
            Ok(answer) => r == Ok::<Option<[u8; 32]>, ServiceError>(answer),
            Err(_) => r == Err::<Option<[u8; 32]>, ServiceError>(
                ServiceError::BackgroundTasksTerminated,
            ),
        },
{
    match reply {
        Ok(answer) => Ok(answer),
        Err(_) => Err(ServiceError::BackgroundTasksTerminated),
    }
}

} // verus!
