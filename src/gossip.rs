//! The heartbeat broadcast: the message of each tick, and the bookkeeping of
//! one tick's pass over the known peers.

use vstd::prelude::*;
use crate::text::{decimal, push_decimal};

verus! {

/// The heartbeat text that carries `value`.
pub open spec fn heartbeat_text(value: u64) -> Seq<char> {
    "#Random message: "@ + decimal(value as nat) + "#"@
}

/// Relies on `rand::random::<u64>`: some value drawn from the thread-local
/// generator; nothing is known of which.
#[verifier::external_body]
fn random_u64() -> u64 {
    rand::random::<u64>()
}

/// The heartbeat that carries `value`.
pub fn heartbeat_message(value: u64) -> (r: String)
    ensures
        r@ == heartbeat_text(value),
{
    let mut s = "#Random message: ".to_owned();
    push_decimal(&mut s, value);
    s.append("#");
    s
}

/// A heartbeat with a freshly drawn random value.
pub fn next_heartbeat() -> (r: String)
    ensures
        exists|v: u64| r@ == heartbeat_text(v),
{
    let v = random_u64();
    heartbeat_message(v)
}

/// The texts of `parts` with `sep` between each two.
pub open spec fn joined(parts: Seq<Seq<char>>, sep: Seq<char>) -> Seq<char>
    decreases parts.len(),
{
    if parts.len() == 0 {
        Seq::empty()
    } else if parts.len() == 1 {
        parts[0]
    } else {
        joined(parts.drop_last(), sep) + sep + parts.last()
    }
}

/// The log line that closes a tick that reached `reached`.
pub open spec fn report_text(reached: Seq<Seq<char>>) -> Seq<char> {
    if reached.len() == 0 {
        "Waiting connections"@
    } else {
        "Sended msg to urls: "@ + joined(reached, ", "@)
    }
}

/// The texts of a list of strings.
pub open spec fn texts(v: Seq<String>) -> Seq<Seq<char>> {
    v.map_values(|s: String| s@)
}

/// One tick of the broadcast: the peers are visited one at a time, in order,
/// and each delivery or failure is recorded before the next peer is visited.
pub struct GossipTick {
    peers: Vec<String>,
    next: usize,
    reached: Vec<String>,
}

impl GossipTick {
    /// The peers of this tick, in visiting order.
    pub closed spec fn peers(&self) -> Seq<Seq<char>> {
        texts(self.peers@)
    }

    /// How many peers have been visited.
    pub closed spec fn visited(&self) -> nat {
        self.next as nat
    }

    /// The visited peers that the heartbeat reached, in visiting order.
    pub closed spec fn reached(&self) -> Seq<Seq<char>> {
        texts(self.reached@)
    }

    pub closed spec fn wf(&self) -> bool {
        self.next <= self.peers@.len() && self.reached@.len() <= self.next
    }

    /// A tick over `peers` that has visited none of them.
    pub fn new(peers: Vec<String>) -> (r: Self)
        ensures
            r.wf(),
            r.peers() == texts(peers@),
            r.visited() == 0,
            r.reached() == Seq::<Seq<char>>::empty(),
    {
        let r = GossipTick { peers, next: 0, reached: Vec::new() };
        assert(r.reached() =~= Seq::<Seq<char>>::empty());
        r
    }

    /// The peer to visit next, or none when every peer has been visited.
    pub fn next_peer(&self) -> (r: Option<&String>)
        requires
            self.wf(),
        ensures
            self.visited() < self.peers().len() ==> (r matches Some(p) && p@ == self.peers()[self.visited() as int]),
            self.visited() >= self.peers().len() ==> r is None,
    {
        if self.next < self.peers.len() {
            Some(&self.peers[self.next])
        } else {
            None
        }
    }

    /// Records whether the heartbeat reached the peer just visited, and moves
    /// on to the next. A failure only skips the peer.
    pub fn record(&mut self, delivered: bool)
        requires
            old(self).wf(),
            old(self).visited() < old(self).peers().len(),
        ensures
            final(self).wf(),
            final(self).peers() == old(self).peers(),
            final(self).visited() == old(self).visited() + 1,
            final(self).reached() == if delivered {
                old(self).reached().push(old(self).peers()[old(self).visited() as int])
            } else {
                old(self).reached()
            },
    {
        let ghost before = self.reached();
        let n = self.peers.len();
        assert(self.peers().len() == n);
        if delivered {
            let p = self.peers[self.next].clone();
            self.reached.push(p);
            assert(self.reached() =~= before.push(texts(self.peers@)[self.next as int]));
        }
        self.next += 1;
    }

    /// The log line that closes the tick.
    pub fn report(&self) -> (r: String)
        ensures
            r@ == report_text(self.reached()),
    {
        if self.reached.len() == 0 {
            return "Waiting connections".to_owned();
        }
        let mut out = "Sended msg to urls: ".to_owned();
        let ghost head = out@;
        out.append(self.reached[0].as_str());
        let mut i: usize = 1;
        proof {
            assert(self.reached().subrange(0, 1) =~= seq![self.reached()[0]]);
        }
        while i < self.reached.len()
            invariant
                1 <= i <= self.reached@.len(),
                out@ == head + joined(self.reached().subrange(0, i as int), ", "@),
            decreases self.reached@.len() - i,
        {
            let ghost prev = self.reached().subrange(0, i as int);
            out.append(", ");
            out.append(self.reached[i].as_str());
            i += 1;
            proof {
                let next = self.reached().subrange(0, i as int);
                assert(next.drop_last() =~= prev);
                assert(out@ =~= head + joined(next, ", "@));
            }
        }
        proof {
            assert(self.reached().subrange(0, i as int) =~= self.reached());
        }
        out
    }
}

} // verus!
