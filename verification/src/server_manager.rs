use vstd::prelude::*;

use rand::Rng;

verus! {

/// Draws a number from the thread-local generator of `rand`, with
/// `rand::thread_rng().gen_range(low, high)`.  Trusted: the contract claims
/// only that the number lies in `low..high`, which `gen_range` asserts of its
/// arguments (it panics when `low >= high`, hence the `requires`).
#[verifier::external_body]
fn gen_range(low: usize, high: usize) -> (r: usize)
    requires
        low < high,
    ensures
        low <= r < high,
{
    rand::thread_rng().gen_range(low, high)
}

/// How the server manager assigns an upstream server to each request.
#[derive(Clone, Copy, Debug)]
pub enum Strategy {
    /// The servers in turn.
    RoundRobin,
    /// A server drawn at random.
    Random,
}

/// The strategy a name stands for: `RR` for round robin, anything else random.
pub open spec fn strategy_named(name: Seq<char>) -> Strategy {
    if name == "RR"@ {
        Strategy::RoundRobin
    } else {
        Strategy::Random
    }
}

impl Strategy {
    /// The strategy a name stands for: `RR` for round robin, anything else
    /// (such as `RN`) random.
    pub fn from_name(name: &str) -> (r: Strategy)
        ensures
            r == strategy_named(name@),
    {
        proof {
            reveal_strlit("RR");
        }
        if name.unicode_len() == 2 && name.get_char(0) == 'R' && name.get_char(1) == 'R' {
            assert(name@ =~= "RR"@);
            Strategy::RoundRobin
        } else {
            Strategy::Random
        }
    }
}

/// The server that round robin takes after `last` among `len` servers.
pub open spec fn round_robin_after(last: usize, len: nat) -> usize {
    if last >= len - 1 {
        0
    } else {
        (last + 1) as usize
    }
}

/// Assigns upstream servers to the requests that the workers report.
pub struct ServerManager {
    strategy: Strategy,
    last_chosen: usize,
    enabled_servers: Vec<String>,
}

impl ServerManager {
    /// There is a server to choose, the round-robin position points at one,
    /// and a random draw has at least two servers (it never takes the last).
    #[verifier::type_invariant]
    closed spec fn well_formed(&self) -> bool {
        &&& self.last_chosen < self.enabled_servers.len()
        &&& self.strategy is Random ==> self.enabled_servers.len() >= 2
    }

    pub closed spec fn strategy(&self) -> Strategy {
        self.strategy
    }

    /// The position of the server that round robin takes next.
    pub closed spec fn last(&self) -> usize {
        self.last_chosen
    }

    pub closed spec fn servers(&self) -> Seq<Seq<char>> {
        self.enabled_servers@.map_values(|s: String| s@)
    }

    /// A manager with this strategy over these servers, starting the round
    /// robin at the first one.
    pub fn new(strategy: Strategy, enabled_servers: Vec<String>) -> (r: ServerManager)
        requires
            enabled_servers.len() >= 1,
            strategy is Random ==> enabled_servers.len() >= 2,
        ensures
            r.strategy() == strategy,
            r.last() == 0,
            r.servers() == enabled_servers@.map_values(|s: String| s@),
    {
        ServerManager { strategy, last_chosen: 0, enabled_servers }
    }

    /// The manager the load balancer runs: the strategy named `RN` (random)
    /// over the four servers `http://192.0.0.1` to `http://192.0.0.4`.
    pub fn with_defaults() -> (r: ServerManager)
        ensures
            r.strategy() is Random,
            r.last() == 0,
            r.servers() == seq![
                "http://192.0.0.1"@,
                "http://192.0.0.2"@,
                "http://192.0.0.3"@,
                "http://192.0.0.4"@,
            ],
    {
        proof {
            reveal_strlit("RR");
            reveal_strlit("RN");
        }
        let strategy = Strategy::from_name("RN");
        assert("RN"@ != "RR"@) by {
            assert("RN"@[1] != "RR"@[1]);
        }
        let mut servers: Vec<String> = Vec::new();
        servers.push(String::from_str("http://192.0.0.1"));
        servers.push(String::from_str("http://192.0.0.2"));
        servers.push(String::from_str("http://192.0.0.3"));
        servers.push(String::from_str("http://192.0.0.4"));
        let r = Self::new(strategy, servers);
        assert(r.servers() =~= seq![
            "http://192.0.0.1"@,
            "http://192.0.0.2"@,
            "http://192.0.0.3"@,
            "http://192.0.0.4"@,
        ]);
        r
    }

    /// The server of a random draw: the one at position `draw`.
    pub fn assign_drawn(&self, draw: usize) -> (server: String)
        requires
            draw < self.servers().len(),
        ensures
            server@ == self.servers()[draw as int],
    {
        self.enabled_servers[draw].clone()
    }

    /// The server for the next request.  Round robin hands out the server at
    /// its position and moves on to the next one, from the last back to the
    /// first; a random draw hands out one of the servers but the last, and
    /// moves nothing.
    pub fn assign_server(&mut self) -> (server: String)
        ensures
            final(self).strategy() == old(self).strategy(),
            final(self).servers() == old(self).servers(),
            old(self).strategy() is RoundRobin ==> {
                &&& server@ == old(self).servers()[old(self).last() as int]
                &&& final(self).last() == round_robin_after(old(self).last(), old(self).servers().len())
            },
            old(self).strategy() is Random ==> {
                &&& final(self).last() == old(self).last()
                &&& exists|i: int|
                    0 <= i < old(self).servers().len() - 1 && server@ == #[trigger] old(self).servers()[i]
            },
    {
        proof {
            use_type_invariant(&*self);
        }
        let len = self.enabled_servers.len();
        match self.strategy {
            Strategy::RoundRobin => {
                let server = self.enabled_servers[self.last_chosen].clone();
                if self.last_chosen >= len - 1 {
                    self.last_chosen = 0;
                } else {
                    self.last_chosen = self.last_chosen + 1;
                }
                server
            },
            Strategy::Random => {
                let draw = gen_range(0, len - 1);
                let server = self.assign_drawn(draw);
                assert(server@ == self.servers()[draw as int]);
                server
            },
        }
    }
}

/// Round robin goes through the servers in order: the position after `last`
/// is `last + 1`, wrapping from the last server back to the first.
pub proof fn lemma_round_robin_in_order(last: usize, len: nat)
    requires
        last < len,
        len <= usize::MAX,
    ensures
        round_robin_after(last, len) == (last + 1) % (len as int),
        round_robin_after(last, len) < len,
{
    if last + 1 == len {
        vstd::arithmetic::div_mod::lemma_mod_self_0(len as int);
    } else {
        vstd::arithmetic::div_mod::lemma_small_mod((last + 1) as nat, len);
    }
}

} // verus!
