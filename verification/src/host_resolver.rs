use vstd::prelude::*;

verus! {

/// Picks the upstream host for each forwarded request, cycling through the
/// configured hosts in order.
pub struct HostResolver {
    next_host_id: usize,
    hosts: Vec<String>,
}

/// The counter value that follows `id`: the counter wraps around at `usize::MAX`.
pub open spec fn next_id_after(id: usize) -> usize {
    if id == usize::MAX {
        0
    } else {
        (id + 1) as usize
    }
}

impl HostResolver {
    /// The value of the request counter.
    pub closed spec fn next_id(&self) -> usize {
        self.next_host_id
    }

    /// The configured hosts, in order.
    pub closed spec fn host_list(&self) -> Seq<Seq<char>> {
        self.hosts@.map_values(|h: String| h@)
    }

    /// The host that is handed out when the counter holds `id`.
    pub open spec fn host_for(&self, id: usize) -> Seq<char> {
        self.host_list()[id as int % self.host_list().len() as int]
    }

    pub fn new(hosts: Vec<String>) -> (r: HostResolver)
        ensures
            r.next_id() == 0,
            r.host_list() == hosts@.map_values(|h: String| h@),
    {
        HostResolver { next_host_id: 0, hosts }
    }

    /// The number of configured hosts.
    pub fn host_count(&self) -> (n: usize)
        ensures
            n == self.host_list().len(),
    {
        self.hosts.len()
    }

    /// Hands out the host at the counter's position (modulo the number of
    /// hosts) and advances the counter.
    pub fn get_next(&mut self) -> (host: String)
        requires
            old(self).host_list().len() > 0,
        ensures
            host@ == old(self).host_for(old(self).next_id()),
            final(self).host_list() == old(self).host_list(),
            final(self).next_id() == next_id_after(old(self).next_id()),
    {
        let next = self.next_host_id;
        self.next_host_id = if next == usize::MAX { 0 } else { next + 1 };
        let idx = next % self.hosts.len();
        let host = self.hosts[idx].clone();
        host
    }
}

/// Round-robin order: the call that follows the one made with counter `id`
/// hands out the next host in the list, wrapping from the last host to the
/// first (while the counter itself does not wrap around).
pub proof fn lemma_next_call_takes_next_host(r: HostResolver, id: usize)
    requires
        r.host_list().len() > 0,
        id < usize::MAX,
    ensures
        ({
            let n = r.host_list().len() as int;
            &&& next_id_after(id) as int % n == (id as int % n + 1) % n
            &&& r.host_for(next_id_after(id)) == r.host_list()[(id as int % n + 1) % n]
        }),
{
    let n = r.host_list().len() as int;
    vstd::arithmetic::div_mod::lemma_add_mod_noop(id as int, 1, n);
    if n == 1 {
        vstd::arithmetic::div_mod::lemma_mod_self_0(1);
    } else {
        vstd::arithmetic::div_mod::lemma_small_mod(1, n as nat);
    }
}

/// Whether a call made with the counter at one of `start`, ..., `start + n - 1`
/// (`n` the number of hosts) hands out the host at position `k`.
pub open spec fn handed_out_in_round(r: HostResolver, start: usize, k: int) -> bool {
    exists|i: int|
        0 <= i < r.host_list().len() && (start + i) % (r.host_list().len() as int) == k
            && #[trigger] r.host_for((start + i) as usize) == r.host_list()[k]
}

/// Fairness: any `n` consecutive calls, `n` being the number of hosts, hand
/// out every configured host (while the counter does not wrap around).
pub proof fn lemma_every_host_within_one_round(r: HostResolver, start: usize)
    requires
        r.host_list().len() > 0,
        start + r.host_list().len() <= usize::MAX,
    ensures
        forall|k: int| 0 <= k < r.host_list().len() ==> #[trigger] handed_out_in_round(r, start, k),
{
    let n = r.host_list().len() as int;
    assert forall|k: int| 0 <= k < n implies #[trigger] handed_out_in_round(r, start, k) by {
        let rem = start as int % n;
        let q = start as int / n;
        vstd::arithmetic::div_mod::lemma_fundamental_div_mod(start as int, n);
        vstd::arithmetic::div_mod::lemma_mod_bound(start as int, n);
        let i = if k >= rem { k - rem } else { k - rem + n };
        if k >= rem {
            assert(start + i == n * q + k);
            vstd::arithmetic::div_mod::lemma_mod_multiples_vanish(q, k, n);
        } else {
            assert(start + i == n * (q + 1) + k) by (nonlinear_arith)
                requires start as int == n * q + rem, i == k - rem + n;
            vstd::arithmetic::div_mod::lemma_mod_multiples_vanish(q + 1, k, n);
        }
        vstd::arithmetic::div_mod::lemma_small_mod(k as nat, n as nat);
        assert((start + i) % n == k);
        assert(r.host_for((start + i) as usize) == r.host_list()[k]);
    }
}

/// The hosts handed out by the `n` calls made with the counter at `start`,
/// ..., `start + n - 1`, `n` being the number of hosts.
pub open spec fn round_from(r: HostResolver, start: usize) -> Seq<Seq<char>> {
    Seq::new(r.host_list().len(), |i: int| r.host_for((start + i) as usize))
}

/// Exactly once per round: the `n` hosts handed out by any `n` consecutive
/// calls are, as a multiset, the configured hosts (while the counter does
/// not wrap around).
pub proof fn lemma_each_host_once_per_round(r: HostResolver, start: usize)
    requires
        r.host_list().len() > 0,
        start + r.host_list().len() <= usize::MAX,
    ensures
        round_from(r, start).to_multiset() == r.host_list().to_multiset(),
{
    let h = r.host_list();
    let n = h.len() as int;
    let rem = start as int % n;
    let q = start as int / n;
    vstd::arithmetic::div_mod::lemma_fundamental_div_mod(start as int, n);
    vstd::arithmetic::div_mod::lemma_mod_bound(start as int, n);
    let rotated = h.subrange(rem, n) + h.subrange(0, rem);
    assert forall|i: int| 0 <= i < n implies #[trigger] round_from(r, start)[i] == rotated[i] by {
        if i < n - rem {
            assert(start + i == n * q + (rem + i));
            vstd::arithmetic::div_mod::lemma_mod_multiples_vanish(q, rem + i, n);
            vstd::arithmetic::div_mod::lemma_small_mod((rem + i) as nat, n as nat);
        } else {
            assert(start + i == n * (q + 1) + (i - (n - rem))) by (nonlinear_arith)
                requires
                    start as int == n * q + rem,
            ;
            vstd::arithmetic::div_mod::lemma_mod_multiples_vanish(q + 1, i - (n - rem), n);
            vstd::arithmetic::div_mod::lemma_small_mod((i - (n - rem)) as nat, n as nat);
        }
    }
    assert(round_from(r, start) =~= rotated);
    vstd::seq_lib::lemma_seq_union_to_multiset_commutative(h.subrange(rem, n), h.subrange(0, rem));
    assert(h.subrange(0, rem) + h.subrange(rem, n) =~= h);
}

/// The counter after `k` calls of `get_next` on a new resolver: each call
/// moves it from `id` to `next_id_after(id)`.
pub open spec fn counter_after(k: nat) -> usize
    decreases k,
{
    if k == 0 {
        0
    } else {
        next_id_after(counter_after((k - 1) as nat))
    }
}

/// The host handed out after any number of calls: on a new resolver, the
/// call made after `k` others (`k` may exceed `usize::MAX`: the counter
/// wraps) hands out the host at position `(k mod 2^BITS) % n`, `n` being the
/// number of hosts and `2^BITS` being `usize::MAX + 1`.
pub proof fn lemma_host_after_calls(r: HostResolver, k: nat)
    requires
        r.host_list().len() > 0,
    ensures
        counter_after(k) == k as int % (usize::MAX as int + 1),
        r.host_for(counter_after(k)) == r.host_list()[(k as int % (usize::MAX as int + 1)) % (
        r.host_list().len() as int)],
    decreases k,
{
    let m = usize::MAX as int + 1;
    if k == 0 {
        vstd::arithmetic::div_mod::lemma_small_mod(0, m as nat);
    } else {
        lemma_host_after_calls(r, (k - 1) as nat);
        let a = (k - 1) as int % m;
        let q = (k - 1) as int / m;
        vstd::arithmetic::div_mod::lemma_fundamental_div_mod((k - 1) as int, m);
        vstd::arithmetic::div_mod::lemma_mod_bound((k - 1) as int, m);
        if a == m - 1 {
            assert(k as int == m * (q + 1) + 0) by (nonlinear_arith)
                requires
                    (k - 1) as int == m * q + a,
                    a == m - 1,
            ;
            vstd::arithmetic::div_mod::lemma_mod_multiples_vanish(q + 1, 0, m);
            vstd::arithmetic::div_mod::lemma_small_mod(0, m as nat);
        } else {
            assert(k as int == m * q + (a + 1));
            vstd::arithmetic::div_mod::lemma_mod_multiples_vanish(q, a + 1, m);
            vstd::arithmetic::div_mod::lemma_small_mod((a + 1) as nat, m as nat);
        }
    }
}

} // verus!
