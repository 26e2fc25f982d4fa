//! Listener pool and supervisor: one listener per port of a contiguous
//! range, bind outcomes recorded independently, and a single shutdown
//! signal shared by every accept loop.

use vstd::prelude::*;
use vstd::string::StringExecFns;

verus! {

/// Lifecycle of one port listener.
#[derive(Clone, Copy, Debug, PartialEq, Eq, Structural)]
pub enum ListenerStatus {
    /// Created; its bind outcome is not yet known.
    Starting,
    /// Bound; its accept loop may admit connections.
    Listening,
    /// Its bind failed; terminal for this listener alone.
    BindFailed,
    /// Its accept loop has ended.
    Stopped,
}

/// The decimal digit character for `d`.
pub open spec fn spec_digit_char(d: nat) -> char {
    if d == 0 {
        '0'
    } else if d == 1 {
        '1'
    } else if d == 2 {
        '2'
    } else if d == 3 {
        '3'
    } else if d == 4 {
        '4'
    } else if d == 5 {
        '5'
    } else if d == 6 {
        '6'
    } else if d == 7 {
        '7'
    } else if d == 8 {
        '8'
    } else {
        '9'
    }
}

/// The decimal numeral of `n`, most significant digit first, no sign and no
/// leading zero (a single zero stands for itself).
pub open spec fn spec_decimal(n: nat) -> Seq<char>
    decreases n,
{
    if n < 10 {
        seq![spec_digit_char(n)]
    } else {
        spec_decimal(n / 10).push(spec_digit_char(n % 10))
    }
}

/// The one-character text of a single decimal digit.
fn digit_str(d: u16) -> (s: &'static str)
    requires
        d < 10,
    ensures
        s@ == seq![spec_digit_char(d as nat)],
{
    let s: &'static str = if d == 0 {
        "0"
    } else if d == 1 {
        "1"
    } else if d == 2 {
        "2"
    } else if d == 3 {
        "3"
    } else if d == 4 {
        "4"
    } else if d == 5 {
        "5"
    } else if d == 6 {
        "6"
    } else if d == 7 {
        "7"
    } else if d == 8 {
        "8"
    } else {
        "9"
    };
    proof {
        reveal_strlit("0");
        reveal_strlit("1");
        reveal_strlit("2");
        reveal_strlit("3");
        reveal_strlit("4");
        reveal_strlit("5");
        reveal_strlit("6");
        reveal_strlit("7");
        reveal_strlit("8");
        reveal_strlit("9");
        assert(s@ =~= seq![spec_digit_char(d as nat)]);
    }
    s
}

/// The decimal text of a port number.
pub fn decimal_string(n: u16) -> (s: String)
    ensures
        s@ == spec_decimal(n as nat),
    decreases n,
{
    if n < 10 {
        String::from_str(digit_str(n))
    } else {
        let mut s = decimal_string(n / 10);
        s.append(digit_str(n % 10));
        proof {
            assert(s@ =~= spec_decimal(n as nat));
        }
        s
    }
}

/// One address and port to bind; immutable once constructed, and owned by
/// at most one live port listener.
#[derive(Debug, Clone)]
pub struct BindTarget {
    pub host: String,
    pub port: u16,
}

/// The textual socket address of a target: the host, a colon, the port in
/// decimal.
pub open spec fn spec_bind_address(host: Seq<char>, port: nat) -> Seq<char> {
    host + ":"@ + spec_decimal(port)
}

impl BindTarget {
    /// A target for the given host and port.
    pub fn new(host: String, port: u16) -> (t: BindTarget)
        ensures
            t.host == host,
            t.port == port,
    {
        BindTarget { host, port }
    }

    /// The address this target binds, as text.
    pub fn address(&self) -> (s: String)
        ensures
            s@ == spec_bind_address(self.host@, self.port as nat),
    {
        let mut s = self.host.clone();
        s.append(":");
        let port_text = decimal_string(self.port);
        s.append(port_text.as_str());
        proof {
            assert(s@ =~= spec_bind_address(self.host@, self.port as nat));
        }
        s
    }
}

/// The contiguous run of `count` ports starting at `start`.
pub fn port_range(start: u16, count: u16) -> (v: Vec<u16>)
    requires
        start as int + count as int <= 65536,
    ensures
        v@.len() == count as int,
        forall|k: int| 0 <= k < count as int ==> #[trigger] v@[k] as int == start as int + k,
{
    let mut v: Vec<u16> = Vec::new();
    let mut k: u16 = 0;
    while k < count
        invariant
            start as int + count as int <= 65536,
            k <= count,
            v@.len() == k as int,
            forall|t: int| 0 <= t < k as int ==> #[trigger] v@[t] as int == start as int + t,
        decreases count as int - k as int,
    {
        v.push(start + k);
        k = k + 1;
    }
    v
}

/// Every listener's state plus the one shutdown flag: the only state that
/// the listeners share.
#[derive(Debug)]
pub struct ListenerPool {
    pub statuses: Vec<ListenerStatus>,
    pub shutdown: bool,
}

/// The pool admits a new connection on listener `i`: the shutdown signal
/// has not fired and that listener is in its accept loop.
pub open spec fn spec_accepts(pool: ListenerPool, i: int) -> bool {
    &&& !pool.shutdown
    &&& 0 <= i < pool.statuses@.len()
    &&& pool.statuses@[i] == ListenerStatus::Listening
}

impl ListenerPool {
    /// A fresh pool of `count` listeners, none yet bound, not shut down.
    pub fn new(count: usize) -> (p: ListenerPool)
        ensures
            p.statuses@.len() == count as int,
            forall|i: int|
                0 <= i < count as int ==> #[trigger] p.statuses@[i] == ListenerStatus::Starting,
            !p.shutdown,
    {
        let mut statuses: Vec<ListenerStatus> = Vec::new();
        let mut k: usize = 0;
        while k < count
            invariant
                k <= count,
                statuses@.len() == k as int,
                forall|i: int|
                    0 <= i < k as int ==> #[trigger] statuses@[i] == ListenerStatus::Starting,
            decreases count - k,
        {
            statuses.push(ListenerStatus::Starting);
            k = k + 1;
        }
        ListenerPool { statuses, shutdown: false }
    }

    /// How many listeners the pool owns.
    pub fn len(&self) -> (n: usize)
        ensures
            n == self.statuses@.len(),
    {
        self.statuses.len()
    }

    /// Record listener `i`'s bind outcome; no other listener's state and
    /// not the shutdown flag moves.
    pub fn record_bind(&mut self, i: usize, bound: bool)
        requires
            i < old(self).statuses@.len(),
        ensures
            final(self).statuses@ == old(self).statuses@.update(
                i as int,
                if bound {
                    ListenerStatus::Listening
                } else {
                    ListenerStatus::BindFailed
                },
            ),
            final(self).shutdown == old(self).shutdown,
    {
        let status = if bound {
            ListenerStatus::Listening
        } else {
            ListenerStatus::BindFailed
        };
        self.statuses.set(i, status);
    }

    /// Record that listener `i`'s accept loop has ended.
    pub fn mark_stopped(&mut self, i: usize)
        requires
            i < old(self).statuses@.len(),
        ensures
            final(self).statuses@ == old(self).statuses@.update(i as int, ListenerStatus::Stopped),
            final(self).shutdown == old(self).shutdown,
    {
        self.statuses.set(i, ListenerStatus::Stopped);
    }

    /// Raise the one shutdown signal; every listener's status is untouched,
    /// so work already dispatched is not cut short.
    pub fn trigger_shutdown(&mut self)
        ensures
            final(self).shutdown,
            final(self).statuses@ == old(self).statuses@,
    {
        self.shutdown = true;
    }

    /// Whether listener `i` may accept a new connection now.
    pub fn accepts_new(&self, i: usize) -> (b: bool)
        requires
            i < self.statuses@.len(),
        ensures
            b == spec_accepts(*self, i as int),
    {
        !self.shutdown && self.statuses[i] == ListenerStatus::Listening
    }

    /// The current status of listener `i`.
    pub fn status(&self, i: usize) -> (s: ListenerStatus)
        requires
            i < self.statuses@.len(),
        ensures
            s == self.statuses@[i as int],
    {
        self.statuses[i]
    }

    /// Whether the shutdown signal has fired.
    pub fn is_shutdown(&self) -> (b: bool)
        ensures
            b == self.shutdown,
    {
        self.shutdown
    }
}

/// Bind outcomes are independent: when one listener binds its free port
/// while another finds its port in use, the first still reaches the
/// listening state, only the second records the failure, every other
/// listener is untouched, and the order in which the two outcomes are
/// recorded does not matter.
pub proof fn lemma_bind_failure_isolated(before: Seq<ListenerStatus>, i: int, j: int)
    requires
        0 <= i < before.len(),
        0 <= j < before.len(),
        i != j,
    ensures
        before.update(i, ListenerStatus::Listening).update(j, ListenerStatus::BindFailed)[i]
            == ListenerStatus::Listening,
        before.update(i, ListenerStatus::Listening).update(j, ListenerStatus::BindFailed)[j]
            == ListenerStatus::BindFailed,
        forall|k: int|
            0 <= k < before.len() && k != i && k != j ==> before.update(
                i,
                ListenerStatus::Listening,
            ).update(j, ListenerStatus::BindFailed)[k] == before[k],
        before.update(i, ListenerStatus::Listening).update(j, ListenerStatus::BindFailed)
            == before.update(j, ListenerStatus::BindFailed).update(i, ListenerStatus::Listening),
{
    assert(before.update(i, ListenerStatus::Listening).update(j, ListenerStatus::BindFailed)
        =~= before.update(j, ListenerStatus::BindFailed).update(i, ListenerStatus::Listening));
}

/// After the shutdown signal fires, no listener of the pool accepts a new
/// connection, whatever state each listener is in. A handler already
/// holding a connection is unaffected: its decision is a function of its
/// read outcome alone and consults no pool state.
pub proof fn lemma_shutdown_stops_accepting(pool: ListenerPool)
    requires
        pool.shutdown,
    ensures
        forall|i: int| !spec_accepts(pool, i),
{
}

} // verus!
