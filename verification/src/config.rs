//! The agents that the gateway is configured with.
use vstd::prelude::*;

use crate::text::{
    law_precedes_asymmetric, law_precedes_total, law_precedes_transitive, name_precedes, precedes,
};

verus! {

/// What is configured for one agent.
#[derive(Debug, Clone, Copy, PartialEq, Eq)]
pub struct AliasedAgentConfig {
    /// Whether the agent may be picked where a request names none.
    pub enabled: bool,
}

#[derive(Debug)]
struct AgentEntry {
    alias: String,
    agent: AliasedAgentConfig,
}

/// The configured agents by alias. An alias stands for at most one agent.
#[derive(Debug)]
pub struct AgentTable {
    entries: Vec<AgentEntry>,
}

/// The part of the configuration that requests are routed by.
#[derive(Debug)]
pub struct Config {
    pub agents: AgentTable,
}

/// Whether the entry at `i` is the one for `alias`.
spec fn is_entry(entries: Seq<AgentEntry>, alias: Seq<char>, i: int) -> bool {
    0 <= i < entries.len() && entries[i].alias@ == alias
}

/// What a list of entries says, alias by alias.
spec fn by_alias(entries: Seq<AgentEntry>) -> Map<Seq<char>, AliasedAgentConfig> {
    Map::new(
        |alias: Seq<char>| exists|i: int| is_entry(entries, alias, i),
        |alias: Seq<char>| entries[choose|i: int| is_entry(entries, alias, i)].agent,
    )
}

/// Whether no two entries are for the same alias.
spec fn are_distinct(entries: Seq<AgentEntry>) -> bool {
    forall|i: int, j: int|
        0 <= i < j < entries.len() ==> (#[trigger] entries[i]).alias@ != (
        #[trigger] entries[j]).alias@
}

proof fn lemma_by_alias(entries: Seq<AgentEntry>, alias: Seq<char>, i: int)
    requires
        are_distinct(entries),
        is_entry(entries, alias, i),
    ensures
        by_alias(entries).dom().contains(alias),
        by_alias(entries)[alias] == entries[i].agent,
{
    let k = choose|k: int| is_entry(entries, alias, k);
    assert(k == i);
}

/// Where one entry is put in, in place of that for the same alias or behind all
/// others, the list says the same of every other alias.
proof fn lemma_by_alias_insert(
    before: Seq<AgentEntry>,
    after: Seq<AgentEntry>,
    entry: AgentEntry,
    i: int,
)
    requires
        are_distinct(before),
        is_entry(before, entry.alias@, i) && after == before.update(i, entry) || (forall|j: int|
            !is_entry(before, entry.alias@, j)) && after == before.push(entry),
    ensures
        are_distinct(after),
        by_alias(after) == by_alias(before).insert(entry.alias@, entry.agent),
{
    let alias = entry.alias@;
    let place = if after.len() == before.len() {
        i
    } else {
        before.len() as int
    };
    assert forall|j: int| 0 <= j < before.len() && j != place implies (
    #[trigger] before[j]).alias@ != alias by {
        assert(!is_entry(before, alias, j));
    }
    assert forall|j: int, k: int| 0 <= j < k < after.len() implies (#[trigger] after[j]).alias@ != (
    #[trigger] after[k]).alias@ by {
        assert(j == place || after[j] == before[j]);
        assert(k == place || after[k] == before[k]);
    }
    assert(is_entry(after, alias, place));
    lemma_by_alias(after, alias, place);
    let expected = by_alias(before).insert(alias, entry.agent);
    assert forall|other: Seq<char>| #[trigger]
        by_alias(after).dom().contains(other) == expected.dom().contains(other) by {
        if other != alias {
            assert(forall|j: int| is_entry(after, other, j) == is_entry(before, other, j));
        }
    }
    assert forall|other: Seq<char>| #[trigger]
        by_alias(after).dom().contains(other) implies by_alias(after)[other] == expected[other] by {
        if other != alias {
            let k = choose|k: int| is_entry(after, other, k);
            assert(is_entry(before, other, k));
            lemma_by_alias(before, other, k);
            lemma_by_alias(after, other, k);
        }
    }
    assert(by_alias(after) =~= expected);
}

impl View for AgentTable {
    type V = Map<Seq<char>, AliasedAgentConfig>;

    closed spec fn view(&self) -> Map<Seq<char>, AliasedAgentConfig> {
        by_alias(self.entries@)
    }
}

impl AgentTable {
    #[verifier::type_invariant]
    spec fn has_distinct_aliases(self) -> bool {
        are_distinct(self.entries@)
    }

    /// A table without agents.
    pub fn new() -> (agents: AgentTable)
        ensures
            agents@ == Map::<Seq<char>, AliasedAgentConfig>::empty(),
    {
        let agents = AgentTable { entries: Vec::new() };
        assert(agents@ =~= Map::<Seq<char>, AliasedAgentConfig>::empty());
        agents
    }

    /// The position of the entry for `alias`.
    fn find(&self, alias: &str) -> (position: Option<usize>)
        ensures
            match position {
                Some(i) => is_entry(self.entries@, alias@, i as int),
                None => forall|i: int| !is_entry(self.entries@, alias@, i),
            },
    {
        let mut i: usize = 0;
        while i < self.entries.len()
            invariant
                i <= self.entries.len(),
                forall|j: int| 0 <= j < i ==> !is_entry(self.entries@, alias@, j),
            decreases self.entries.len() - i,
        {
            if *self.entries[i].alias.as_str() == *alias {
                return Some(i);
            }
            i += 1;
        }
        None
    }

    /// The agent that `alias` stands for.
    pub fn get(&self, alias: &str) -> (agent: Option<&AliasedAgentConfig>)
        ensures
            agent == if self@.dom().contains(alias@) {
                Some(&self@[alias@])
            } else {
                None
            },
    {
        proof {
            use_type_invariant(self);
        }
        match self.find(alias) {
            Some(i) => {
                proof {
                    lemma_by_alias(self.entries@, alias@, i as int);
                }
                Some(&self.entries[i].agent)
            },
            None => None,
        }
    }

    /// Lets `alias` stand for `agent`, and gives back what it stood for before.
    pub fn insert(&mut self, alias: String, agent: AliasedAgentConfig) -> (previous: Option<
        AliasedAgentConfig,
    >)
        ensures
            final(self)@ == old(self)@.insert(alias@, agent),
            previous == if old(self)@.dom().contains(alias@) {
                Some(old(self)@[alias@])
            } else {
                None
            },
    {
        proof {
            use_type_invariant(&*self);
        }
        let position = self.find(alias.as_str());
        let mut entries = Vec::new();
        std::mem::swap(&mut entries, &mut self.entries);
        let ghost before = entries@;
        let entry = AgentEntry { alias, agent };
        let ghost inserted = entry;
        let previous = match position {
            Some(i) => {
                proof {
                    lemma_by_alias(before, alias@, i as int);
                }
                let previous = entries[i].agent;
                entries.set(i, entry);
                Some(previous)
            },
            None => {
                entries.push(entry);
                None
            },
        };
        proof {
            let i = match position {
                Some(i) => i as int,
                None => 0,
            };
            lemma_by_alias_insert(before, entries@, inserted, i);
        }
        self.entries = entries;
        previous
    }
}

/// Whether `alias` is that of an enabled agent.
pub open spec fn is_enabled(
    agents: Map<Seq<char>, AliasedAgentConfig>,
    alias: Seq<char>,
) -> bool {
    agents.dom().contains(alias) && agents[alias].enabled
}

/// Whether `alias` is the first, in the order of names, of those whose agents
/// are enabled.
pub open spec fn is_first_enabled(
    agents: Map<Seq<char>, AliasedAgentConfig>,
    alias: Seq<char>,
) -> bool {
    &&& is_enabled(agents, alias)
    &&& forall|other: Seq<char>| #[trigger]
        is_enabled(agents, other) && other != alias ==> precedes(alias, other)
}

/// The agent that answers where a request names none: the one called `default`,
/// enabled or not; where there is none of that name, the first enabled one.
pub open spec fn default_agent(agents: Map<Seq<char>, AliasedAgentConfig>) -> Option<Seq<char>> {
    if agents.dom().contains("default"@) {
        Some("default"@)
    } else if exists|alias: Seq<char>| is_first_enabled(agents, alias) {
        Some(choose|alias: Seq<char>| is_first_enabled(agents, alias))
    } else {
        None
    }
}

/// At most one alias is the first of the enabled ones.
pub(crate) proof fn lemma_first_enabled_unique(
    agents: Map<Seq<char>, AliasedAgentConfig>,
    a: Seq<char>,
    b: Seq<char>,
)
    requires
        is_first_enabled(agents, a),
        is_first_enabled(agents, b),
    ensures
        a == b,
{
    if a != b {
        law_precedes_asymmetric(a, b);
    }
}

impl AgentTable {
    /// The first of the enabled aliases, in the order of names.
    fn first_enabled(&self) -> (alias: Option<&str>)
        ensures
            match alias {
                Some(a) => is_first_enabled(self@, a@),
                None => forall|a: Seq<char>| !is_enabled(self@, a),
            },
    {
        proof {
            use_type_invariant(self);
        }
        let mut first: Option<usize> = None;
        let mut i: usize = 0;
        while i < self.entries.len()
            invariant
                i <= self.entries.len(),
                are_distinct(self.entries@),
                match first {
                    Some(f) => f < i && self.entries@[f as int].agent.enabled && forall|j: int|
                        0 <= j < i && j != f && (#[trigger] self.entries@[j]).agent.enabled
                            ==> precedes(self.entries@[f as int].alias@, self.entries@[j].alias@),
                    None => forall|j: int|
                        0 <= j < i ==> !(#[trigger] self.entries@[j]).agent.enabled,
                },
            decreases self.entries.len() - i,
        {
            if self.entries[i].agent.enabled {
                match first {
                    Some(f) => {
                        if name_precedes(
                            self.entries[i].alias.as_str(),
                            self.entries[f].alias.as_str(),
                        ) {
                            proof {
                                assert forall|j: int|
                                    0 <= j < i && (#[trigger] self.entries@[j]).agent.enabled implies precedes(
                                    self.entries@[i as int].alias@,
                                    self.entries@[j].alias@,
                                ) by {
                                    if j != f {
                                        law_precedes_transitive(
                                            self.entries@[i as int].alias@,
                                            self.entries@[f as int].alias@,
                                            self.entries@[j].alias@,
                                        );
                                    }
                                }
                            }
                            first = Some(i);
                        } else {
                            proof {
                                law_precedes_total(
                                    self.entries@[i as int].alias@,
                                    self.entries@[f as int].alias@,
                                );
                            }
                        }
                    },
                    None => {
                        first = Some(i);
                    },
                }
            }
            i += 1;
        }
        proof {
            assert forall|a: Seq<char>| is_enabled(self@, a) implies exists|j: int| #[trigger]
                is_entry(self.entries@, a, j) && self.entries@[j].agent.enabled by {
                let j = choose|j: int| is_entry(self.entries@, a, j);
                lemma_by_alias(self.entries@, a, j);
            }
        }
        match first {
            Some(f) => {
                proof {
                    assert(is_entry(self.entries@, self.entries@[f as int].alias@, f as int));
                    lemma_by_alias(self.entries@, self.entries@[f as int].alias@, f as int);
                }
                Some(self.entries[f].alias.as_str())
            },
            None => None,
        }
    }
}

impl Config {
    /// The agent that answers where a request names none.
    pub fn resolved_runtime_agent_alias(&self) -> (alias: Option<&str>)
        ensures
            match alias {
                Some(a) => default_agent(self.agents@) == Some(a@),
                None => default_agent(self.agents@) is None,
            },
            alias is None <==> !self.agents@.dom().contains("default"@) && forall|a: Seq<char>|
                !is_enabled(self.agents@, a),
            alias matches Some(a) ==> self.agents@.dom().contains(a@),
            self.agents@.dom().contains("default"@) ==> (alias matches Some(a) && a@
                == "default"@),
            !self.agents@.dom().contains("default"@) ==> (alias matches Some(a)
                ==> self.agents@[a@].enabled),
            alias is None <==> forall|a: Seq<char>| #[trigger]
                self.agents@.dom().contains(a) ==> a != "default"@ && !self.agents@[a].enabled,
    {
        if self.agents.get("default").is_some() {
            return Some("default");
        }
        let first = self.agents.first_enabled();
        proof {
            match first {
                Some(a) => {
                    let chosen = choose|alias: Seq<char>| is_first_enabled(self.agents@, alias);
                    lemma_first_enabled_unique(self.agents@, a@, chosen);
                },
                None => {
                    assert forall|a: Seq<char>| #[trigger]
                        self.agents@.dom().contains(a) implies a != "default"@
                        && !self.agents@[a].enabled by {
                        assert(!is_enabled(self.agents@, a));
                    }
                },
            }
        }
        first
    }

    /// What is configured for the agent called `alias`.
    pub fn agent(&self, alias: &str) -> (agent: Option<&AliasedAgentConfig>)
        ensures
            agent == if self.agents@.dom().contains(alias@) {
                Some(&self.agents@[alias@])
            } else {
                None
            },
    {
        self.agents.get(alias)
    }
}

impl Default for Config {
    /// A configuration without agents.
    fn default() -> (config: Config)
        ensures
            config.agents@ == Map::<Seq<char>, AliasedAgentConfig>::empty(),
    {
        Config { agents: AgentTable::new() }
    }
}

/// Only finitely many aliases stand for an agent.
pub proof fn law_agents_are_finite(table: AgentTable)
    ensures
        table@.dom().finite(),
{
    let aliases = table.entries@.map_values(|entry: AgentEntry| entry.alias@);
    vstd::seq_lib::seq_to_set_is_finite(aliases);
    assert forall|alias: Seq<char>| #[trigger]
        table@.dom().contains(alias) implies aliases.to_set().contains(alias) by {
        let i = choose|i: int| is_entry(table.entries@, alias, i);
        assert(aliases[i] == alias);
    }
    vstd::set_lib::lemma_set_subset_finite(aliases.to_set(), table@.dom());
}

/// A finite set of names has one that comes before all others.
pub(crate) proof fn lemma_first_name(names: Set<Seq<char>>) -> (first: Seq<char>)
    requires
        names.finite(),
        names.len() > 0,
    ensures
        names.contains(first),
        forall|other: Seq<char>| #[trigger]
            names.contains(other) && other != first ==> precedes(first, other),
    decreases names.len(),
{
    let some = names.choose();
    let rest = names.remove(some);
    if rest.len() == 0 {
        assert forall|other: Seq<char>| #[trigger]
            names.contains(other) && other != some implies precedes(some, other) by {
            assert(rest.contains(other));
        }
        some
    } else {
        let least = lemma_first_name(rest);
        if precedes(some, least) {
            assert forall|other: Seq<char>| #[trigger]
                names.contains(other) && other != some implies precedes(some, other) by {
                assert(rest.contains(other));
                if other != least {
                    law_precedes_transitive(some, least, other);
                }
            }
            some
        } else {
            assert(rest.contains(least));
            law_precedes_total(some, least);
            assert forall|other: Seq<char>| #[trigger]
                names.contains(other) && other != least implies precedes(least, other) by {
                if other != some {
                    assert(rest.contains(other));
                }
            }
            least
        }
    }
}

}
