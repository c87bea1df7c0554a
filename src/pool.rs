//! A pool of connections, one per shard address, created on first use and
//! shared by every later caller.
//!
//! Connecting is work done outside the pool: `checkout` tells the caller to
//! reuse a connection, to open one, or to wait for one that another caller is
//! opening, and `established` or `failed` reports how the opening went. An
//! address is never opened twice while it is being opened or once it is open,
//! and a failure is not remembered.

use vstd::prelude::*;

use crate::shards::ShardAddress;

verus! {

/// The view of a shard address: its host and its port.
pub type AddrView = (Seq<char>, u16);

/// Names an open connection: the position of its address among the pool's
/// open connections, in the order they were opened.
#[derive(Clone, Copy, Debug, PartialEq, Eq, Structural)]
pub struct ClientHandle {
    pub index: usize,
}

/// What a caller is to do to obtain a connection.
#[derive(Clone, Copy, Debug, PartialEq, Eq, Structural)]
pub enum Checkout {
    /// The connection is open: use it.
    Reuse(ClientHandle),
    /// No connection is open or being opened: this caller opens it.
    Connect,
    /// Another caller is opening the connection.
    Wait,
}

/// A pool state as (open connections in the order they were opened,
/// addresses being connected to) is consistent.
pub open spec fn pool_wf(v: (Seq<AddrView>, Set<AddrView>)) -> bool {
    &&& v.0.no_duplicates()
    &&& v.1.finite()
    &&& forall|a: AddrView| v.1.contains(a) ==> !v.0.contains(a)
}

/// What `checkout` of `a` answers in state `v`, and the state after it.
pub open spec fn checkout_step(v: (Seq<AddrView>, Set<AddrView>), a: AddrView) -> (
    Checkout,
    (Seq<AddrView>, Set<AddrView>),
) {
    if v.0.contains(a) {
        (Checkout::Reuse(ClientHandle { index: v.0.index_of(a) as usize }), v)
    } else if v.1.contains(a) {
        (Checkout::Wait, v)
    } else {
        (Checkout::Connect, (v.0, v.1.insert(a)))
    }
}

/// What reporting an opened connection to `a` answers in state `v`, and the
/// state after it.
pub open spec fn established_step(v: (Seq<AddrView>, Set<AddrView>), a: AddrView) -> (
    Option<ClientHandle>,
    (Seq<AddrView>, Set<AddrView>),
) {
    if v.1.contains(a) {
        (Some(ClientHandle { index: v.0.len() as usize }), (v.0.push(a), v.1.remove(a)))
    } else {
        (None, v)
    }
}

/// The state after reporting that connecting to `a` failed.
pub open spec fn failed_step(v: (Seq<AddrView>, Set<AddrView>), a: AddrView) -> (Seq<
    AddrView,
>, Set<AddrView>) {
    (v.0, v.1.remove(a))
}

/// The open connections and the addresses being connected to.
pub struct ConnectionPool {
    ready: Vec<ShardAddress>,
    pending: Vec<ShardAddress>,
}

pub open spec fn addr_views(v: Seq<ShardAddress>) -> Seq<AddrView> {
    v.map_values(|x: ShardAddress| x@)
}

impl View for ConnectionPool {
    type V = (Seq<AddrView>, Set<AddrView>);

    closed spec fn view(&self) -> (Seq<AddrView>, Set<AddrView>) {
        (addr_views(self.ready@), addr_views(self.pending@).to_set())
    }
}

fn position(v: &Vec<ShardAddress>, a: &ShardAddress) -> (r: Option<usize>)
    ensures
        match r {
            Some(i) => i < v@.len() && v@[i as int]@ == a@,
            None => !addr_views(v@).contains(a@),
        },
{
    let mut i: usize = 0;
    while i < v.len()
        invariant
            i <= v@.len(),
            forall|k: int| 0 <= k < i ==> v@[k]@ != a@,
        decreases v@.len() - i,
    {
        if v[i].same_as(a) {
            return Some(i);
        }
        i = i + 1;
    }
    assert(!addr_views(v@).contains(a@)) by {
        if addr_views(v@).contains(a@) {
            let k = choose|k: int| 0 <= k < addr_views(v@).len() && addr_views(v@)[k] == a@;
            assert(v@[k]@ == a@);
        }
    }
    None
}

proof fn lemma_push_contains(s: Seq<AddrView>, a: AddrView, x: AddrView)
    ensures
        s.push(a).contains(x) <==> (s.contains(x) || x == a),
{
    if s.contains(x) {
        let k = choose|k: int| 0 <= k < s.len() && s[k] == x;
        assert(s.push(a)[k] == x);
    }
    if x == a {
        assert(s.push(a)[s.len() as int] == x);
    }
    if s.push(a).contains(x) {
        let k = choose|k: int| 0 <= k < s.push(a).len() && s.push(a)[k] == x;
        if k < s.len() {
            assert(s[k] == x);
        }
    }
}

proof fn lemma_remove_contains(s: Seq<AddrView>, j: int, x: AddrView)
    requires
        0 <= j < s.len(),
        s.no_duplicates(),
    ensures
        s.remove(j).contains(x) <==> (s.contains(x) && x != s[j]),
{
    if s.remove(j).contains(x) {
        let k = choose|k: int| 0 <= k < s.remove(j).len() && s.remove(j)[k] == x;
        if k < j {
            assert(s[k] == x);
        } else {
            assert(s[k + 1] == x);
        }
    }
    if s.contains(x) && x != s[j] {
        let k = choose|k: int| 0 <= k < s.len() && s[k] == x;
        if k < j {
            assert(s.remove(j)[k] == x);
        } else {
            assert(s.remove(j)[k - 1] == x);
        }
    }
}

/// How many of `n` successive checkouts of `a`, starting in state `v` with
/// no report in between, are told to open a connection.
pub open spec fn connects_among_checkouts(
    v: (Seq<AddrView>, Set<AddrView>),
    a: AddrView,
    n: nat,
) -> nat
    decreases n,
{
    if n == 0 {
        0
    } else {
        let (c, w) = checkout_step(v, a);
        (if c == Checkout::Connect {
            1nat
        } else {
            0nat
        }) + connects_among_checkouts(w, a, (n - 1) as nat)
    }
}

proof fn lemma_no_connect_once_known(v: (Seq<AddrView>, Set<AddrView>), a: AddrView, n: nat)
    requires
        v.0.contains(a) || v.1.contains(a),
    ensures
        connects_among_checkouts(v, a, n) == 0,
    decreases n,
{
    if n > 0 {
        lemma_no_connect_once_known(v, a, (n - 1) as nat);
    }
}

/// However many callers ask for a connection to one address at once, at
/// most one of them is told to open it; the others wait for it or reuse it.
pub proof fn lemma_connects_at_most_once(
    v: (Seq<AddrView>, Set<AddrView>),
    a: AddrView,
    n: nat,
)
    ensures
        connects_among_checkouts(v, a, n) <= 1,
    decreases n,
{
    if n > 0 {
        let (c, w) = checkout_step(v, a);
        if c == Checkout::Connect {
            assert(w.1.contains(a));
            lemma_no_connect_once_known(w, a, (n - 1) as nat);
        } else {
            assert(w == v);
            lemma_connects_at_most_once(v, a, (n - 1) as nat);
        }
    }
}

/// A failed attempt to connect leaves the pool as it was before the attempt,
/// so the next checkout of the address is told to connect again; once that
/// attempt succeeds, every later checkout reuses the connection it opened.
pub proof fn lemma_failure_is_not_remembered(v: (Seq<AddrView>, Set<AddrView>), a: AddrView)
    requires
        pool_wf(v),
        checkout_step(v, a).0 == Checkout::Connect,
    ensures
        failed_step(checkout_step(v, a).1, a) == v,
        checkout_step(failed_step(checkout_step(v, a).1, a), a).0 == Checkout::Connect,
        ({
            let w = checkout_step(failed_step(checkout_step(v, a).1, a), a).1;
            let (h, u) = established_step(w, a);
            &&& h == Some(ClientHandle { index: v.0.len() as usize })
            &&& checkout_step(u, a).0 == Checkout::Reuse(h.unwrap())
        }),
{
    let w1 = checkout_step(v, a).1;
    assert(w1.1.remove(a) =~= v.1);
    assert(failed_step(w1, a) == v);
    let w = checkout_step(v, a).1;
    let u = established_step(w, a).1;
    assert(u.0 == v.0.push(a));
    assert(u.0[v.0.len() as int] == a);
    assert(u.0.contains(a));
    let i = u.0.index_of(a);
    if i < v.0.len() {
        assert(v.0[i] == a);
        assert(v.0.contains(a));
    }
    assert(i == v.0.len());
}

impl ConnectionPool {
    pub closed spec fn wf(&self) -> bool {
        &&& addr_views(self.ready@).no_duplicates()
        &&& addr_views(self.pending@).no_duplicates()
        &&& forall|a: AddrView|
            addr_views(self.pending@).contains(a) ==> !addr_views(self.ready@).contains(a)
    }

    /// In a consistent pool each address has at most one open connection, and
    /// no address is both open and being opened.
    pub proof fn lemma_view_wf(&self)
        requires
            self.wf(),
        ensures
            pool_wf(self@),
    {
    }

    /// An empty pool.
    pub fn new() -> (r: ConnectionPool)
        ensures
            r.wf(),
            r@.0 == Seq::<AddrView>::empty(),
            r@.1 == Set::<AddrView>::empty(),
    {
        let r = ConnectionPool { ready: Vec::new(), pending: Vec::new() };
        assert(addr_views(r.ready@) =~= Seq::<AddrView>::empty());
        assert(addr_views(r.pending@).to_set() =~= Set::<AddrView>::empty());
        r
    }

    /// The number of connections opened so far.
    pub fn len(&self) -> (r: usize)
        ensures
            r == self@.0.len(),
    {
        self.ready.len()
    }

    /// Asks for a connection to `addr`: reuse the open one, open it, or wait
    /// for the caller that is opening it.
    pub fn checkout(&mut self, addr: &ShardAddress) -> (r: Checkout)
        requires
            old(self).wf(),
        ensures
            final(self).wf(),
            (r, final(self)@) == checkout_step(old(self)@, addr@),
            r matches Checkout::Reuse(h) ==> h.index < final(self)@.0.len() && final(self)@.0[h.index as int]
                == addr@,
    {
        proof {
            self.lemma_view_wf();
        }
        match position(&self.ready, addr) {
            Some(i) => {
                let ghost rv = addr_views(self.ready@);
                assert(rv[i as int] == addr@);
                assert(rv.contains(addr@));
                assert(rv.index_of(addr@) == i as int);
                Checkout::Reuse(ClientHandle { index: i })
            },
            None => match position(&self.pending, addr) {
                Some(j) => {
                    assert(addr_views(self.pending@)[j as int] == addr@);
                    assert(addr_views(self.pending@).to_set().contains(addr@));
                    Checkout::Wait
                },
                None => {
                    let ghost old_pending = addr_views(self.pending@);
                    self.pending.push(addr.duplicate());
                    assert(addr_views(self.pending@) =~= old_pending.push(addr@));
                    assert forall|x: AddrView|
                        #![auto]
                        old_pending.push(addr@).contains(x) == (old_pending.contains(x) || x
                            == addr@) by {
                        lemma_push_contains(old_pending, addr@, x);
                    }
                    assert(old_pending.push(addr@).no_duplicates());
                    assert(addr_views(self.pending@).to_set() =~= old_pending.to_set().insert(
                        addr@,
                    ));
                    Checkout::Connect
                },
            },
        }
    }

    /// Reports that a connection to `addr` was opened by the caller that was
    /// told to open it; gives its handle, or `None` where no caller was.
    pub fn established(&mut self, addr: &ShardAddress) -> (r: Option<ClientHandle>)
        requires
            old(self).wf(),
        ensures
            final(self).wf(),
            (r, final(self)@) == established_step(old(self)@, addr@),
    {
        proof {
            self.lemma_view_wf();
        }
        match position(&self.pending, addr) {
            Some(j) => {
                let ghost old_pending = addr_views(self.pending@);
                let ghost old_ready = addr_views(self.ready@);
                assert(old_pending[j as int] == addr@);
                assert(old_pending.contains(addr@));
                assert(!old_ready.contains(addr@));
                assert forall|i: int| 0 <= i < old_ready.len() implies old_ready[i] != addr@ by {
                    if old_ready[i] == addr@ {
                        assert(old_ready.contains(addr@));
                    }
                }
                let index = self.ready.len();
                let a = self.pending.remove(j);
                self.ready.push(a);
                assert(addr_views(self.pending@) =~= old_pending.remove(j as int));
                assert(addr_views(self.ready@) =~= old_ready.push(addr@));
                assert forall|x: AddrView|
                    #![auto]
                    old_ready.push(addr@).contains(x) == (old_ready.contains(x) || x == addr@) by {
                    lemma_push_contains(old_ready, addr@, x);
                }
                assert(old_ready.push(addr@).no_duplicates()) by {
                    assert forall|p: int, q: int|
                        0 <= p < old_ready.push(addr@).len() && 0 <= q < old_ready.push(
                            addr@,
                        ).len() && p != q implies old_ready.push(addr@)[p] != old_ready.push(
                        addr@,
                    )[q] by {
                        if p < old_ready.len() && q < old_ready.len() {
                            assert(old_ready[p] != old_ready[q]);
                        }
                    }
                }
                assert(old_pending.remove(j as int).no_duplicates()) by {
                    assert forall|p: int, q: int|
                        0 <= p < old_pending.remove(j as int).len() && 0 <= q < old_pending.remove(
                            j as int,
                        ).len() && p != q implies old_pending.remove(j as int)[p]
                        != old_pending.remove(j as int)[q] by {
                        let pp = if p < j { p } else { p + 1 };
                        let qq = if q < j { q } else { q + 1 };
                        assert(old_pending.remove(j as int)[p] == old_pending[pp]);
                        assert(old_pending.remove(j as int)[q] == old_pending[qq]);
                    }
                }
                assert forall|x: AddrView|
                    #![auto]
                    old_pending.remove(j as int).contains(x) == (old_pending.contains(x) && x
                        != addr@) by {
                    lemma_remove_contains(old_pending, j as int, x);
                }
                assert(addr_views(self.pending@).to_set() =~= old_pending.to_set().remove(
                    addr@,
                ));
                assert forall|x: AddrView|
                    addr_views(self.pending@).contains(x) implies !addr_views(
                        self.ready@,
                    ).contains(x) by {
                    lemma_remove_contains(old_pending, j as int, x);
                    lemma_push_contains(old_ready, addr@, x);
                }
                Some(ClientHandle { index })
            },
            None => {
                assert(!self@.1.contains(addr@));
                None
            },
        }
    }

    /// Reports that connecting to `addr` failed; a later checkout of `addr`
    /// asks for a new attempt.
    pub fn failed(&mut self, addr: &ShardAddress)
        requires
            old(self).wf(),
        ensures
            final(self).wf(),
            final(self)@ == failed_step(old(self)@, addr@),
    {
        proof {
            self.lemma_view_wf();
        }
        match position(&self.pending, addr) {
            Some(j) => {
                let ghost old_pending = addr_views(self.pending@);
                assert(old_pending[j as int] == addr@);
                self.pending.remove(j);
                assert(addr_views(self.pending@) =~= old_pending.remove(j as int));
                assert forall|x: AddrView|
                    #![auto]
                    old_pending.remove(j as int).contains(x) == (old_pending.contains(x) && x
                        != addr@) by {
                    lemma_remove_contains(old_pending, j as int, x);
                }
                assert(addr_views(self.pending@).to_set() =~= old_pending.to_set().remove(
                    addr@,
                ));
            },
            None => {
                assert(self@.1.remove(addr@) =~= self@.1);
            },
        }
    }
}

} // verus!
