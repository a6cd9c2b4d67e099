//! Finding agents by their identifier.
//!
//! [`StaticDiscovery`] holds the agents that are known from configuration.
//! Each identifier names at most one card; registering an identifier again
//! replaces its card. [`HttpDiscovery`] holds the endpoints that are asked
//! for cards and notes what they answered; the asking itself is left to
//! whoever runs it. [`DiscoveryManager`] looks among the first, then among
//! the second.
use crate::agent::a2a::types::AgentCard;
use crate::text::{join, str_eq, trim_end_matches, without_trailing};
use vstd::prelude::*;

verus! {

/// One registration: an identifier and the card it names.
pub struct Registration {
    pub agent_id: String,
    pub card: AgentCard,
}

/// The position of the registration of an identifier, searching from `from`.
pub open spec fn registered_from(entries: Seq<Registration>, agent_id: Seq<char>, from: int) -> Option<
    int,
>
    decreases entries.len() - from,
{
    if from < 0 || from >= entries.len() {
        None
    } else if entries[from].agent_id@ == agent_id {
        Some(from)
    } else {
        registered_from(entries, agent_id, from + 1)
    }
}

/// The card that an identifier names, if any.
pub open spec fn card_of(entries: Seq<Registration>, agent_id: Seq<char>) -> Option<AgentCard> {
    match registered_from(entries, agent_id, 0) {
        Some(k) => Some(entries[k].card),
        None => None,
    }
}

/// Whether no identifier is registered twice.
pub open spec fn distinct_agents(entries: Seq<Registration>) -> bool {
    forall|i: int, j: int|
        0 <= i < entries.len() && 0 <= j < entries.len() && i != j ==> (#[trigger] entries[i]).agent_id@
            != (#[trigger] entries[j]).agent_id@
}

/// A search finds the registration of an identifier exactly where there is
/// one.
pub proof fn lemma_registered(entries: Seq<Registration>, agent_id: Seq<char>, from: int)
    requires
        0 <= from,
    ensures
        match registered_from(entries, agent_id, from) {
            Some(k) => from <= k < entries.len() && entries[k].agent_id@ == agent_id,
            None => forall|j: int|
                from <= j < entries.len() ==> (#[trigger] entries[j]).agent_id@ != agent_id,
        },
    decreases entries.len() - from,
{
    if from < entries.len() && entries[from].agent_id@ != agent_id {
        lemma_registered(entries, agent_id, from + 1);
    }
}

/// The agents known from configuration, in the order in which their
/// identifiers were first registered.
pub struct StaticDiscovery {
    agents: Vec<Registration>,
}

impl StaticDiscovery {
    /// The registrations.
    pub closed spec fn entries(&self) -> Seq<Registration> {
        self.agents@
    }

    /// What holds of every registry: no identifier is registered twice.
    pub open spec fn wf(&self) -> bool {
        distinct_agents(self.entries())
    }

    pub fn new() -> (r: Self)
        ensures
            r.wf(),
            r.entries().len() == 0,
    {
        Self { agents: Vec::new() }
    }

    /// How many agents are registered.
    pub fn len(&self) -> (r: usize)
        ensures
            r == self.entries().len(),
    {
        self.agents.len()
    }

    fn position(&self, agent_id: &str) -> (r: Option<usize>)
        ensures
            match r {
                Some(k) => registered_from(self.entries(), agent_id@, 0) == Some(k as int) && k
                    < self.entries().len(),
                None => registered_from(self.entries(), agent_id@, 0) is None,
            },
    {
        let mut i: usize = 0;
        while i < self.agents.len()
            invariant
                i <= self.agents.len(),
                registered_from(self.agents@, agent_id@, 0) == registered_from(
                    self.agents@,
                    agent_id@,
                    i as int,
                ),
            decreases self.agents.len() - i,
        {
            if str_eq(self.agents[i].agent_id.as_str(), agent_id) {
                return Some(i);
            }
            i += 1;
        }
        None
    }

    /// Registers a card under an identifier. A card that was registered
    /// under it before is replaced; every other registration stays.
    pub fn with_agent(self, agent_id: &str, card: AgentCard) -> (r: Self)
        requires
            self.wf(),
        ensures
            r.wf(),
            card_of(r.entries(), agent_id@) == Some(card),
            forall|other: Seq<char>|
                other != agent_id@ ==> card_of(r.entries(), other) == card_of(self.entries(), other),
            r.entries().len() == if card_of(self.entries(), agent_id@) is Some {
                self.entries().len()
            } else {
                self.entries().len() + 1
            },
    {
        let found = self.position(agent_id);
        let mut this = self;
        let ghost before = this.agents@;
        let entry = Registration { agent_id: agent_id.to_owned(), card };
        match found {
            Some(k) => {
                this.agents.set(k, entry);
                proof {
                    let after = this.agents@;
                    lemma_registered(before, agent_id@, 0);
                    lemma_replaced(before, after, k as int, agent_id@);
                    assert forall|other: Seq<char>| other != agent_id@ implies card_of(after, other)
                        == card_of(before, other) by {
                        lemma_same_keys(before, after, other, 0);
                        lemma_registered(before, other, 0);
                    }
                }
            },
            None => {
                this.agents.push(entry);
                proof {
                    let after = this.agents@;
                    lemma_registered(before, agent_id@, 0);
                    lemma_appended(before, entry, agent_id@, 0);
                    assert forall|other: Seq<char>| other != agent_id@ implies card_of(after, other)
                        == card_of(before, other) by {
                        lemma_appended(before, entry, other, 0);
                    }
                }
            },
        }
        this
    }

    /// The card registered under an identifier.
    pub fn get(&self, agent_id: &str) -> (r: Option<&AgentCard>)
        ensures
            match r {
                Some(card) => card_of(self.entries(), agent_id@) == Some(*card),
                None => card_of(self.entries(), agent_id@) is None,
            },
    {
        match self.position(agent_id) {
            Some(k) => Some(&self.agents[k].card),
            None => None,
        }
    }

    /// Every registered card, in the order of registration.
    pub fn all(&self) -> (r: Vec<&AgentCard>)
        ensures
            r@.len() == self.entries().len(),
            forall|i: int| 0 <= i < r@.len() ==> *(#[trigger] r@[i]) == self.entries()[i].card,
    {
        let mut cards: Vec<&AgentCard> = Vec::new();
        let mut i: usize = 0;
        while i < self.agents.len()
            invariant
                i <= self.agents.len(),
                cards@.len() == i,
                forall|j: int| 0 <= j < i ==> *(#[trigger] cards@[j]) == self.agents@[j].card,
            decreases self.agents.len() - i,
        {
            cards.push(&self.agents[i].card);
            i += 1;
        }
        cards
    }
}

impl Default for StaticDiscovery {
    fn default() -> (r: Self)
        ensures
            r.wf(),
            r.entries().len() == 0,
    {
        Self::new()
    }
}

proof fn lemma_same_keys(before: Seq<Registration>, after: Seq<Registration>, key: Seq<char>, from: int)
    requires
        0 <= from,
        before.len() == after.len(),
        forall|i: int|
            0 <= i < before.len() ==> (#[trigger] before[i]).agent_id@ == after[i].agent_id@ && (
            before[i].agent_id@ == key ==> before[i].card == after[i].card),
    ensures
        registered_from(before, key, from) == registered_from(after, key, from),
        registered_from(before, key, from) matches Some(k) ==> before[k].card == after[k].card,
    decreases before.len() - from,
{
    if from < before.len() {
        assert(before[from].agent_id@ == after[from].agent_id@);
        if before[from].agent_id@ != key {
            lemma_same_keys(before, after, key, from + 1);
        }
    }
}

proof fn lemma_replaced(before: Seq<Registration>, after: Seq<Registration>, k: int, key: Seq<char>)
    requires
        0 <= k < before.len(),
        distinct_agents(before),
        before[k].agent_id@ == key,
        after == before.update(k, after[k]),
        after.len() == before.len(),
        after[k].agent_id@ == key,
    ensures
        distinct_agents(after),
        card_of(after, key) == Some(after[k].card),
        forall|i: int|
            0 <= i < before.len() ==> (#[trigger] before[i]).agent_id@ == after[i].agent_id@ && (
            before[i].agent_id@ != key ==> before[i].card == after[i].card),
{
    assert forall|i: int| 0 <= i < before.len() implies (#[trigger] before[i]).agent_id@
        == after[i].agent_id@ && (before[i].agent_id@ != key ==> before[i].card
        == after[i].card) by {
        if i != k {
            assert(after[i] == before[i]);
        }
    }
    assert forall|i: int, j: int|
        0 <= i < after.len() && 0 <= j < after.len() && i != j implies (#[trigger] after[i]).agent_id@
        != (#[trigger] after[j]).agent_id@ by {
        assert(before[i].agent_id@ == after[i].agent_id@);
        assert(before[j].agent_id@ == after[j].agent_id@);
    }
    lemma_registered(after, key, 0);
    let found = registered_from(after, key, 0);
    assert(found is Some) by {
        if found is None {
            assert(after[k].agent_id@ != key);
        }
    }
    if found->0 != k {
        assert(after[found->0].agent_id@ != after[k].agent_id@);
    }
}

proof fn lemma_appended(before: Seq<Registration>, entry: Registration, key: Seq<char>, from: int)
    requires
        0 <= from <= before.len(),
    ensures
        registered_from(before.push(entry), key, from) == match registered_from(before, key, from) {
            Some(k) => Some(k),
            None => if entry.agent_id@ == key {
                Some(before.len() as int)
            } else {
                None
            },
        },
        registered_from(before, key, from) matches Some(k) ==> before.push(entry)[k] == before[k],
    decreases before.len() - from,
{
    let after = before.push(entry);
    if from < before.len() {
        assert(after[from] == before[from]);
        if before[from].agent_id@ != key {
            lemma_appended(before, entry, key, from + 1);
        }
    } else {
        assert(after[from] == entry);
        assert(registered_from(after, key, from + 1) is None);
    }
}

/// The address under which an agent at an endpoint publishes its card.
pub open spec fn well_known(endpoint: Seq<char>) -> Seq<char> {
    without_trailing(endpoint, '/') + "/.well-known/agent-card.json"@
}

/// Writes the address under which an agent at an endpoint publishes its
/// card.
pub fn well_known_url(endpoint: &str) -> (r: String)
    ensures
        r@ == well_known(endpoint@),
{
    join(trim_end_matches(endpoint, '/'), "/.well-known/agent-card.json")
}

/// The time that has passed since something was noted, on a clock that does
/// not run backwards.
pub open spec fn elapsed(at: u64, now: u64) -> int {
    if now >= at {
        now - at
    } else {
        0
    }
}

/// Whether something noted at a time is still fresh at a later time. Times
/// are milliseconds on one clock; what was never noted is never fresh.
pub open spec fn fresh(cached_at: Option<u64>, now: u64, ttl_secs: u64) -> bool {
    match cached_at {
        Some(at) => elapsed(at, now) < ttl_secs * 1000,
        None => false,
    }
}

/// Tells whether something noted at a time is still fresh.
pub fn is_fresh(cached_at: Option<u64>, now: u64, ttl_secs: u64) -> (r: bool)
    ensures
        r == fresh(cached_at, now, ttl_secs),
{
    match cached_at {
        Some(at) => {
            let passed = if now >= at {
                now - at
            } else {
                0
            };
            assert((passed / 1000 < ttl_secs) == (passed < ttl_secs * 1000)) by (nonlinear_arith);
            passed / 1000 < ttl_secs
        },
        None => false,
    }
}

/// The agents that are asked for over HTTP, and the cards that they
/// answered with.
pub struct HttpDiscovery {
    endpoints: Vec<String>,
    cache: StaticDiscovery,
    cache_ttl_secs: u64,
}

impl HttpDiscovery {
    /// The endpoints that are asked, in their order.
    pub closed spec fn endpoints(&self) -> Seq<String> {
        self.endpoints@
    }

    /// The cards that were noted, by identifier.
    pub closed spec fn noted(&self) -> Seq<Registration> {
        self.cache.entries()
    }

    /// For how many seconds an endpoint is waited for.
    pub closed spec fn ttl(&self) -> u64 {
        self.cache_ttl_secs
    }

    /// What holds of every discovery: no identifier is noted twice.
    pub open spec fn wf(&self) -> bool {
        distinct_agents(self.noted())
    }

    /// A discovery without endpoints, which waits five minutes.
    pub fn new() -> (r: Self)
        ensures
            r.wf(),
            r.endpoints().len() == 0,
            r.noted().len() == 0,
            r.ttl() == 300,
    {
        Self { endpoints: Vec::new(), cache: StaticDiscovery::new(), cache_ttl_secs: 300 }
    }

    /// Adds an endpoint after those that are there.
    pub fn with_endpoint(self, endpoint: &str) -> (r: Self)
        ensures
            r.endpoints().len() == self.endpoints().len() + 1,
            r.endpoints().last()@ == endpoint@,
            r.endpoints().drop_last() == self.endpoints(),
            r.noted() == self.noted(),
            r.ttl() == self.ttl(),
    {
        let mut this = self;
        let ghost before = this.endpoints@;
        this.endpoints.push(endpoint.to_owned());
        assert(this.endpoints@.drop_last() =~= before);
        this
    }

    pub fn with_cache_ttl(self, ttl_secs: u64) -> (r: Self)
        ensures
            r.endpoints() == self.endpoints(),
            r.noted() == self.noted(),
            r.ttl() == ttl_secs,
    {
        Self { cache_ttl_secs: ttl_secs, ..self }
    }

    pub fn cache_ttl(&self) -> (r: u64)
        ensures
            r == self.ttl(),
    {
        self.cache_ttl_secs
    }

    /// The addresses that are asked for cards, one for each endpoint.
    pub fn urls(&self) -> (r: Vec<String>)
        ensures
            r@.len() == self.endpoints().len(),
            forall|i: int| 0 <= i < r@.len() ==> (#[trigger] r@[i])@ == well_known(self.endpoints()[i]@),
    {
        let mut urls: Vec<String> = Vec::new();
        let mut i: usize = 0;
        while i < self.endpoints.len()
            invariant
                i <= self.endpoints.len(),
                urls@.len() == i,
                forall|j: int|
                    0 <= j < i ==> (#[trigger] urls@[j])@ == well_known(self.endpoints@[j]@),
            decreases self.endpoints.len() - i,
        {
            urls.push(well_known_url(self.endpoints[i].as_str()));
            i += 1;
        }
        urls
    }

    /// Takes the card that an endpoint answered with. It is the card that
    /// is looked for where its name is the identifier; then it is noted
    /// under the identifier, in the place of a card noted before.
    pub fn accept(&mut self, agent_id: &str, card: AgentCard) -> (r: bool)
        requires
            old(self).wf(),
        ensures
            final(self).wf(),
            final(self).endpoints() == old(self).endpoints(),
            final(self).ttl() == old(self).ttl(),
            r == (card.name@ == agent_id@),
            r ==> card_of(final(self).noted(), agent_id@) == Some(card),
            r ==> forall|other: Seq<char>|
                other != agent_id@ ==> card_of(final(self).noted(), other) == card_of(
                    old(self).noted(),
                    other,
                ),
            !r ==> final(self).noted() == old(self).noted(),
    {
        if !str_eq(card.name.as_str(), agent_id) {
            return false;
        }
        let mut cache = StaticDiscovery::new();
        std::mem::swap(&mut cache, &mut self.cache);
        self.cache = cache.with_agent(agent_id, card);
        true
    }

    /// The card that was noted under an identifier.
    pub fn cached(&self, agent_id: &str) -> (r: Option<&AgentCard>)
        ensures
            match r {
                Some(card) => card_of(self.noted(), agent_id@) == Some(*card),
                None => card_of(self.noted(), agent_id@) is None,
            },
    {
        self.cache.get(agent_id)
    }
}

impl Default for HttpDiscovery {
    fn default() -> (r: Self)
        ensures
            r.wf(),
            r.endpoints().len() == 0,
            r.noted().len() == 0,
            r.ttl() == 300,
    {
        Self::new()
    }
}

/// Finds agents among those known from configuration first, then among
/// those that answer over HTTP.
pub struct DiscoveryManager {
    pub static_discovery: StaticDiscovery,
    pub http_discovery: HttpDiscovery,
}

impl DiscoveryManager {
    pub open spec fn wf(&self) -> bool {
        self.static_discovery.wf() && self.http_discovery.wf()
    }

    pub fn new() -> (r: Self)
        ensures
            r.wf(),
            r.static_discovery.entries().len() == 0,
            r.http_discovery.endpoints().len() == 0,
            r.http_discovery.noted().len() == 0,
    {
        Self { static_discovery: StaticDiscovery::new(), http_discovery: HttpDiscovery::new() }
    }

    /// Registers a card from configuration under an identifier.
    pub fn with_static_agent(self, agent_id: &str, card: AgentCard) -> (r: Self)
        requires
            self.wf(),
        ensures
            r.wf(),
            r.http_discovery == self.http_discovery,
            card_of(r.static_discovery.entries(), agent_id@) == Some(card),
            forall|other: Seq<char>|
                other != agent_id@ ==> card_of(r.static_discovery.entries(), other) == card_of(
                    self.static_discovery.entries(),
                    other,
                ),
    {
        Self {
            static_discovery: self.static_discovery.with_agent(agent_id, card),
            http_discovery: self.http_discovery,
        }
    }

    /// Adds an endpoint that is asked over HTTP.
    pub fn with_http_endpoint(self, endpoint: &str) -> (r: Self)
        ensures
            r.static_discovery == self.static_discovery,
            r.http_discovery.endpoints().len() == self.http_discovery.endpoints().len() + 1,
            r.http_discovery.endpoints().last()@ == endpoint@,
            r.http_discovery.endpoints().drop_last() == self.http_discovery.endpoints(),
            r.http_discovery.noted() == self.http_discovery.noted(),
    {
        Self {
            static_discovery: self.static_discovery,
            http_discovery: self.http_discovery.with_endpoint(endpoint),
        }
    }

    /// The card of an agent as far as it is known without asking anyone:
    /// the one from configuration; where there is none, the one that was
    /// noted from an answer. Agents that answer over HTTP are asked only
    /// where configuration knows no card.
    pub fn find_known(&self, agent_id: &str) -> (r: Option<&AgentCard>)
        ensures
            match r {
                Some(card) => Some(*card) == match card_of(
                    self.static_discovery.entries(),
                    agent_id@,
                ) {
                    Some(c) => Some(c),
                    None => card_of(self.http_discovery.noted(), agent_id@),
                },
                None => card_of(self.static_discovery.entries(), agent_id@) is None && card_of(
                    self.http_discovery.noted(),
                    agent_id@,
                ) is None,
            },
    {
        match self.static_discovery.get(agent_id) {
            Some(card) => Some(card),
            None => self.http_discovery.cached(agent_id),
        }
    }

    /// The card under which an agent is exposed: the card itself.
    pub fn expose_agent_card(&self, card: AgentCard) -> (r: AgentCard)
        ensures
            r == card,
    {
        card
    }
}

impl Default for DiscoveryManager {
    fn default() -> (r: Self)
        ensures
            r.wf(),
            r.static_discovery.entries().len() == 0,
            r.http_discovery.endpoints().len() == 0,
    {
        Self::new()
    }
}

} // verus!
