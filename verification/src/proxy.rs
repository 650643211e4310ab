//! The proxy service: round-robin choice of the upstream peer, and the
//! connection permit that a connection holds from readiness to its end.
use crate::error::{ErrorType, ProxyError};
use std::sync::atomic::AtomicUsize;
use std::sync::atomic::Ordering;
use std::sync::Arc;
use tokio::sync::{OwnedSemaphorePermit, Semaphore};
use vstd::prelude::*;

verus! {

/// The semaphore of `tokio` that bounds the number of open connections;
/// carried here, acquired by the code that polls the service.
#[verifier::external_type_specification]
#[verifier::external_body]
pub struct ExSemaphore(Semaphore);

/// A permit of that semaphore; dropping it gives the slot back.
#[verifier::external_type_specification]
#[verifier::external_body]
pub struct ExOwnedSemaphorePermit(OwnedSemaphorePermit);

/// The socket address of a peer, by its plain values: an IPv4 address as a
/// big-endian `u32`, or an IPv6 address as a big-endian `u128` with its flow
/// information and scope id; and the port.
#[derive(Clone, Copy, PartialEq, Eq, Structural, Debug)]
pub enum PeerAddr {
    V4 { ip4: u32, port: u16 },
    V6 { ip6: u128, port: u16, flowinfo: u32, scope_id: u32 },
}

/// An upstream peer.
#[derive(Clone, Copy, PartialEq, Eq, Structural, Debug)]
pub struct Peer {
    pub sock_addr: PeerAddr,
}

/// What the proxy shares between all of its connections.
#[derive(Clone)]
pub struct MiniProxeeInner {
    /// The upstream peers, fixed for the life of the proxy.
    pub upstream_peers: Vec<Peer>,
    /// The round-robin counter: the ticket of the next connection.
    pub next_peer: Arc<AtomicUsize>,
    /// The permits that bound the number of open connections.
    pub conn_permits: Arc<Semaphore>,
}

/// The proxy service of one connection. `F` is the type of a pending
/// acquisition of a permit.
pub struct MiniProxee<F> {
    pub inner: Arc<MiniProxeeInner>,
    /// An acquisition of a permit that has not completed yet.
    pub permit_fut: Option<F>,
    /// The permit, once acquired and until the call takes it.
    pub permit: Option<OwnedSemaphorePermit>,
}

/// What polling an acquisition of a permit gave.
pub enum PermitPoll {
    /// The permit was acquired.
    Acquired(OwnedSemaphorePermit),
    /// The semaphore was closed.
    Closed,
    /// Not yet.
    Pending,
}

/// The answer to a readiness check.
pub enum ReadyPoll {
    Ready(Result<(), ProxyError>),
    Pending,
}

/// The peer that round robin gives the connection with ticket `ticket`.
pub open spec fn round_robin_index(ticket: usize, n: nat) -> int {
    ticket as int % n as int
}

/// The peer that the connection with ticket `ticket` is sent to.
pub fn round_robin_peer(peers: &Vec<Peer>, ticket: usize) -> (p: Peer)
    requires
        peers.len() > 0,
    ensures
        p == peers@[round_robin_index(ticket, peers@.len())],
{
    peers[ticket % peers.len()]
}

/// Text of the error when the semaphore of permits was closed.
pub open spec fn semaphore_closed_text() -> Seq<char> {
    "sempahore was closed!"@
}

impl<F> MiniProxee<F> {
    /// A service for one connection over the shared state, with neither an
    /// acquisition under way nor a permit.
    pub fn new(inner: Arc<MiniProxeeInner>) -> (mp: Self)
        ensures
            mp.inner == inner,
            mp.permit_fut is None,
            mp.permit is None,
    {
        MiniProxee { inner, permit_fut: None, permit: None }
    }

    /// Chooses the upstream peer of a connection: takes the next ticket from
    /// the shared counter and gives the peer at the ticket modulo the number
    /// of peers. The counter is shared between connections, so which ticket
    /// comes back is not known here; whichever it is, the peer is the one
    /// round robin assigns to it.
    pub fn select_peer(&self) -> (p: Peer)
        requires
            self.inner.upstream_peers.len() > 0,
        ensures
            exists|ticket: usize|
                p == #[trigger] self.inner.upstream_peers@[round_robin_index(
                    ticket,
                    self.inner.upstream_peers@.len(),
                )],
            self.inner.upstream_peers@.contains(p),
    {
        let ticket = self.inner.next_peer.fetch_add(1, Ordering::Relaxed);
        let p = round_robin_peer(&self.inner.upstream_peers, ticket);
        proof {
            let i = round_robin_index(ticket, self.inner.upstream_peers@.len());
            assert(0 <= i < self.inner.upstream_peers@.len());
            assert(self.inner.upstream_peers@[i] == p);
        }
        p
    }

    /// Settles a readiness check from the poll of the acquisition `fut`
    /// (the pending one, or a new one when none was pending). An acquired
    /// permit is kept for the call and the service is ready; a closed
    /// semaphore is an internal error; a pending acquisition is kept for the
    /// next check.
    pub fn on_permit_poll(&mut self, fut: F, poll: PermitPoll) -> (r: ReadyPoll)
        ensures
            final(self).inner == old(self).inner,
            match poll {
                PermitPoll::Acquired(p) => {
                    &&& final(self).permit == Some(p)
                    &&& final(self).permit_fut is None
                    &&& r matches ReadyPoll::Ready(Ok(()))
                },
                PermitPoll::Closed => {
                    &&& final(self).permit == old(self).permit
                    &&& final(self).permit_fut is None
                    &&& r matches ReadyPoll::Ready(Err(e))
                    &&& e.kind() matches ErrorType::Internal(msg)
                    &&& msg@ == semaphore_closed_text()
                },
                PermitPoll::Pending => {
                    &&& final(self).permit == old(self).permit
                    &&& final(self).permit_fut == Some(fut)
                    &&& r is Pending
                },
            },
    {
        match poll {
            PermitPoll::Acquired(p) => {
                self.permit_fut = None;
                self.permit = Some(p);
                ReadyPoll::Ready(Ok(()))
            },
            PermitPoll::Closed => {
                self.permit_fut = None;
                ReadyPoll::Ready(Err(ProxyError::new(ErrorType::Internal(
                    String::from_str("sempahore was closed!"),
                ))))
            },
            PermitPoll::Pending => {
                self.permit_fut = Some(fut);
                ReadyPoll::Pending
            },
        }
    }

    /// Takes the permit that the readiness check acquired, for the call to
    /// hold until the connection ends.
    pub fn take_permit(&mut self) -> (p: OwnedSemaphorePermit)
        requires
            old(self).permit is Some,
        ensures
            p == old(self).permit.unwrap(),
            final(self).permit is None,
            final(self).permit_fut == old(self).permit_fut,
            final(self).inner == old(self).inner,
    {
        self.permit.take().unwrap()
    }
}

/// Some ticket among the `n` from `ticket` on goes to peer `i`.
pub open spec fn chosen_within(ticket: usize, n: nat, i: int) -> bool {
    exists|k: int| 0 <= k < n && #[trigger] round_robin_index((ticket + k) as usize, n) == i
}

/// Round robin is fair: over any `n` consecutive tickets that do not wrap
/// around, each of the `n` peers is chosen exactly once, and consecutive
/// tickets go to consecutive peers.
pub proof fn lemma_round_robin_cycles(ticket: usize, n: nat)
    requires
        n > 0,
        ticket + n <= usize::MAX + 1,
    ensures
        forall|k: int|
            0 <= k < n ==> #[trigger] round_robin_index((ticket + k) as usize, n) == (
            round_robin_index(ticket, n) + k) % (n as int),
        forall|i: int| 0 <= i < n ==> #[trigger] chosen_within(ticket, n, i),
{
    assert forall|k: int| 0 <= k < n implies #[trigger] round_robin_index(
        (ticket + k) as usize,
        n,
    ) == (round_robin_index(ticket, n) + k) % (n as int) by {
        vstd::arithmetic::div_mod::lemma_add_mod_noop(ticket as int, k, n as int);
        vstd::arithmetic::div_mod::lemma_mod_twice(k, n as int);
        vstd::arithmetic::div_mod::lemma_small_mod(k as nat, n);
    }
    assert forall|i: int| 0 <= i < n implies #[trigger] chosen_within(ticket, n, i) by {
        let r = round_robin_index(ticket, n);
        let k = if i >= r { i - r } else { i - r + n };
        assert(0 <= k < n);
        assert(round_robin_index((ticket + k) as usize, n) == (r + k) % (n as int));
        if i >= r {
            vstd::arithmetic::div_mod::lemma_small_mod((r + k) as nat, n);
        } else {
            vstd::arithmetic::div_mod::lemma_mod_add_multiples_vanish(i, n as int);
            vstd::arithmetic::div_mod::lemma_small_mod(i as nat, n);
        }
    }
}

} // verus!
