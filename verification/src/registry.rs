//! The registry of discovered peer addresses.
//!
//! The discovery listener records the sender of every `client_discovery`
//! request here, and the status-refresh task snapshots the members into the
//! session. Membership is an ordered set: insertion appends an address only
//! when it is not yet present, so the registry never holds an address twice.
use vstd::prelude::*;

verus! {

/// Insertion with deduplication: the sequence unchanged when the address is
/// already a member, else the address appended.
pub open spec fn dedup_insert(s: Seq<Seq<char>>, a: Seq<char>) -> Seq<Seq<char>> {
    if s.contains(a) {
        s
    } else {
        s.push(a)
    }
}

/// `n`-fold insertion of the same address.
pub open spec fn dedup_insert_n(s: Seq<Seq<char>>, a: Seq<char>, n: nat) -> Seq<Seq<char>>
    decreases n,
{
    if n == 0 {
        s
    } else {
        dedup_insert(dedup_insert_n(s, a, (n - 1) as nat), a)
    }
}

/// The set of peer addresses discovered during the current session.
pub struct ClientRegistry {
    clients: Vec<String>,
}

impl View for ClientRegistry {
    type V = Seq<Seq<char>>;

    closed spec fn view(&self) -> Seq<Seq<char>> {
        self.clients.deep_view()
    }
}

impl ClientRegistry {
    /// No address is a member twice.
    pub open spec fn wf(&self) -> bool {
        self@.no_duplicates()
    }

    /// An empty registry.
    pub fn new() -> (r: ClientRegistry)
        ensures
            r@ == Seq::<Seq<char>>::empty(),
            r.wf(),
    {
        let r = ClientRegistry { clients: Vec::new() };
        proof {
            assert(r@ =~= Seq::<Seq<char>>::empty());
        }
        r
    }

    /// The number of members.
    pub fn len(&self) -> (n: usize)
        ensures
            n == self@.len(),
    {
        self.clients.len()
    }

    /// Whether `addr` is already a member.
    pub fn contains_addr(&self, addr: &String) -> (r: bool)
        ensures
            r == self@.contains(addr@),
    {
        let mut i: usize = 0;
        while i < self.clients.len()
            invariant
                i <= self.clients.len(),
                self@.len() == self.clients@.len(),
                forall|k: int| 0 <= k < i ==> self@[k] != addr@,
            decreases self.clients.len() - i,
        {
            proof {
                assert(self@[i as int] == self.clients@[i as int]@);
            }
            if self.clients[i].eq(addr) {
                proof {
                    assert(self@[i as int] == addr@);
                }
                return true;
            }
            i = i + 1;
        }
        proof {
            if self@.contains(addr@) {
                let k = choose|k: int| 0 <= k < self@.len() && self@[k] == addr@;
                assert(false);
            }
        }
        false
    }

    /// Records `addr` unless it is already a member.
    pub fn add(&mut self, addr: String)
        ensures
            final(self)@ == dedup_insert(old(self)@, addr@),
            old(self).wf() ==> final(self).wf(),
    {
        let present = self.contains_addr(&addr);
        if !present {
            let ghost before: Seq<Seq<char>> = self@;
            self.clients.push(addr);
            proof {
                assert(self@ =~= before.push(addr@));
                if before.no_duplicates() {
                    assert forall|i: int, j: int|
                        0 <= i < j < self@.len() implies self@[i] != self@[j] by {
                        if j == self@.len() - 1 {
                            assert(!before.contains(addr@));
                            assert(before[i] != addr@);
                        }
                    }
                }
            }
        }
    }

    /// The current members, in discovery order.
    pub fn snapshot(&self) -> (r: Vec<String>)
        ensures
            r.deep_view() == self@,
    {
        let mut r: Vec<String> = Vec::new();
        let mut i: usize = 0;
        proof {
            assert(r.deep_view() =~= self@.subrange(0, 0));
        }
        while i < self.clients.len()
            invariant
                i <= self.clients.len(),
                self@.len() == self.clients@.len(),
                r.deep_view() == self@.subrange(0, i as int),
            decreases self.clients.len() - i,
        {
            let ghost before: Seq<Seq<char>> = r.deep_view();
            r.push(self.clients[i].clone());
            i = i + 1;
            proof {
                assert(r.deep_view() =~= before.push(self@[i - 1]));
                assert(self@.subrange(0, i as int) =~= self@.subrange(0, i - 1).push(self@[i - 1]));
            }
        }
        proof {
            assert(self@.subrange(0, self@.len() as int) =~= self@);
        }
        r
    }
}

/// Inserting an address that is already a member changes nothing, so a second
/// insertion of the same address is invisible.
pub proof fn lemma_dedup_insert_idempotent(s: Seq<Seq<char>>, a: Seq<char>)
    ensures
        dedup_insert(dedup_insert(s, a), a) == dedup_insert(s, a),
{
    if !s.contains(a) {
        assert(s.push(a)[s.len() as int] == a);
    }
}

/// Inserting the same address any number of times yields exactly what one
/// insertion yields: the address is a member, duplicate-freedom is kept, and
/// a duplicate-free registry then holds exactly one entry for it.
pub proof fn lemma_registry_dedup(s: Seq<Seq<char>>, a: Seq<char>, n: nat)
    requires
        n >= 1,
    ensures
        dedup_insert_n(s, a, n) == dedup_insert(s, a),
        dedup_insert(s, a).contains(a),
        s.no_duplicates() ==> dedup_insert(s, a).no_duplicates(),
        s.no_duplicates() ==> dedup_insert(s, a).to_multiset().count(a) == 1,
    decreases n,
{
    if n == 1 {
        assert(dedup_insert_n(s, a, 1) == dedup_insert(dedup_insert_n(s, a, 0), a));
        assert(dedup_insert_n(s, a, 0) == s);
    } else {
        lemma_registry_dedup(s, a, (n - 1) as nat);
        lemma_dedup_insert_idempotent(s, a);
        assert(dedup_insert_n(s, a, n) == dedup_insert(dedup_insert_n(s, a, (n - 1) as nat), a));
    }
    let out = dedup_insert(s, a);
    if !s.contains(a) {
        assert(s.push(a)[s.len() as int] == a);
        if s.no_duplicates() {
            assert forall|i: int, j: int| 0 <= i < j < out.len() implies out[i] != out[j] by {
                if j == out.len() - 1 {
                    assert(s[i] != a);
                }
            }
        }
    }
    if s.no_duplicates() {
        out.lemma_multiset_has_no_duplicates();
        broadcast use vstd::seq_lib::group_to_multiset_ensures;

        assert(out.contains(a));
        assert(out.to_multiset().count(a) > 0);
    }
}

} // verus!
