use vstd::prelude::*;

use crate::transform::TransformRule;

verus! {

/// One route entry: messages arriving on the exact source topic `from` are
/// republished to the destination topic `to` with their payload rewritten by
/// `payload`. Topic strings are literal keys: no wildcard expansion, no
/// normalization, case-sensitive exact match.
pub struct Topic {
    pub from: String,
    pub to: String,
    pub payload: TransformRule,
}

impl Topic {
    /// Payload rule used when the configuration names none.
    pub fn default_payload() -> (r: TransformRule)
        ensures
            r == TransformRule::CopyAsIs,
    {
        TransformRule::CopyAsIs
    }
}

/// The mapping a sequence of route entries denotes: keyed by source topic,
/// built in order, so a later entry with the same source topic overwrites an
/// earlier one (last wins).
pub open spec fn route_map(entries: Seq<Topic>) -> Map<Seq<char>, Topic>
    decreases entries.len(),
{
    if entries.len() == 0 {
        Map::<Seq<char>, Topic>::empty()
    } else {
        route_map(entries.drop_last()).insert(entries.last().from@, entries.last())
    }
}

/// The immutable topic route table, built once at startup from the ordered
/// route entries and read-only afterwards. Its view is the entry sequence;
/// `route_map` gives the mapping it denotes.
pub struct RouteTable {
    entries: Vec<Topic>,
}

impl View for RouteTable {
    type V = Seq<Topic>;

    closed spec fn view(&self) -> Seq<Topic> {
        self.entries@
    }
}

/// What a lookup result must be: the route the table's mapping holds for the
/// topic, or nothing when the topic is unmapped.
pub open spec fn lookup_post(entries: Seq<Topic>, topic: Seq<char>, r: Option<Topic>) -> bool {
    match r {
        Some(t) => route_map(entries).contains_key(topic) && t == route_map(entries)[topic],
        None => !route_map(entries).contains_key(topic),
    }
}

/// Lifts a borrowed lookup result to the owned value `lookup_post` speaks of.
pub open spec fn deref_route(r: Option<&Topic>) -> Option<Topic> {
    match r {
        Some(t) => Some(*t),
        None => None,
    }
}

/// If an entry's source topic occurs nowhere later in the sequence, that
/// entry is what the mapping holds for it: every earlier duplicate is
/// shadowed, so of two entries sharing a source topic only the later one is
/// reflected.
pub proof fn lemma_route_map_last_match(entries: Seq<Topic>, topic: Seq<char>, i: int)
    requires
        0 <= i < entries.len(),
        entries[i].from@ == topic,
        forall|j: int| i < j < entries.len() ==> entries[j].from@ != topic,
    ensures
        route_map(entries).contains_key(topic),
        route_map(entries)[topic] == entries[i],
    decreases entries.len(),
{
    if i == entries.len() - 1 {
        assert(entries.last() == entries[i]);
    } else {
        assert(entries.last().from@ != topic);
        assert(entries.drop_last()[i] == entries[i]);
        lemma_route_map_last_match(entries.drop_last(), topic, i);
    }
}

/// A topic that no entry carries as its source topic is absent from the
/// mapping.
pub proof fn lemma_route_map_no_match(entries: Seq<Topic>, topic: Seq<char>)
    requires
        forall|j: int| 0 <= j < entries.len() ==> entries[j].from@ != topic,
    ensures
        !route_map(entries).contains_key(topic),
    decreases entries.len(),
{
    if entries.len() > 0 {
        assert(entries.last().from@ != topic);
        lemma_route_map_no_match(entries.drop_last(), topic);
    }
}

/// Lookup results are a pure function of the table and the topic: two lookups
/// of the same topic in the same table agree, and a topic the mapping does
/// not hold always yields no route, never an error.
pub proof fn lemma_lookup_idempotent(entries: Seq<Topic>, topic: Seq<char>, r1: Option<Topic>, r2: Option<Topic>)
    requires
        lookup_post(entries, topic, r1),
        lookup_post(entries, topic, r2),
    ensures
        r1 == r2,
        !route_map(entries).contains_key(topic) ==> r1 is None,
{
}

impl RouteTable {
    /// Builds the table from the ordered route entries.
    pub fn build(entries: Vec<Topic>) -> (table: RouteTable)
        ensures
            table@ == entries@,
    {
        RouteTable { entries }
    }

    /// Looks a topic up in the table: the route of the latest entry whose
    /// source topic equals it exactly, or nothing when there is none.
    pub fn lookup<'a>(&'a self, topic: &String) -> (r: Option<&'a Topic>)
        ensures
            lookup_post(self@, topic@, deref_route(r)),
    {
        let mut i: usize = self.entries.len();
        while i > 0
            invariant
                i <= self.entries.len(),
                forall|j: int| i <= j < self.entries@.len() ==> self.entries@[j].from@ != topic@,
            decreases i,
        {
            i = i - 1;
            if self.entries[i].from.eq(topic) {
                proof {
                    lemma_route_map_last_match(self.entries@, topic@, i as int);
                }
                return Some(&self.entries[i]);
            }
        }
        proof {
            lemma_route_map_no_match(self.entries@, topic@);
        }
        None
    }

    /// The source topics of all entries, in entry order: exactly the topics
    /// the source connection subscribes to, so every subscribed topic has an
    /// entry in the table.
    pub fn source_topics(&self) -> (topics: Vec<String>)
        ensures
            topics@ == source_topics_of(self@),
    {
        let mut topics: Vec<String> = Vec::new();
        let mut i: usize = 0;
        while i < self.entries.len()
            invariant
                i <= self.entries.len(),
                topics@ == source_topics_of(self.entries@.take(i as int)),
            decreases self.entries.len() - i,
        {
            topics.push(self.entries[i].from.clone());
            i = i + 1;
            proof {
                assert(self.entries@.take(i as int).drop_last() =~= self.entries@.take(
                    i as int - 1,
                ));
                assert(topics@ =~= source_topics_of(self.entries@.take(i as int)));
            }
        }
        proof {
            assert(self.entries@.take(self.entries@.len() as int) =~= self.entries@);
        }
        topics
    }
}

/// The source topics of a sequence of route entries, in order.
pub open spec fn source_topics_of(entries: Seq<Topic>) -> Seq<String>
    decreases entries.len(),
{
    if entries.len() == 0 {
        Seq::<String>::empty()
    } else {
        source_topics_of(entries.drop_last()).push(entries.last().from)
    }
}

/// The source topics are exactly the entries' source topics, in entry order:
/// one subscribed topic per entry, so every subscribed topic has its entry in
/// the table.
pub proof fn lemma_source_topics_of(entries: Seq<Topic>)
    ensures
        source_topics_of(entries).len() == entries.len(),
        forall|i: int|
            0 <= i < entries.len() ==> source_topics_of(entries)[i] == entries[i].from,
    decreases entries.len(),
{
    if entries.len() > 0 {
        lemma_source_topics_of(entries.drop_last());
    }
}

} // verus!
