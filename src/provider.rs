//! The behaviour registries: they map entity ids and edge keys to the live
//! behaviours of the instances the host reports. A behaviour that leaves a
//! registry, removed or replaced, is handed back to the caller, whose duty is
//! its teardown.

use crate::broker::{BehaviourCreationError, MqttBroker};
use crate::json::text_equals;
use crate::model::{EdgeKey, EdgeKeyView, EntityInstance, RelationInstance};
use crate::properties::MqttEndpointProperties;
use crate::relation::{MqttPublishes, MqttSubscribes};
use std::collections::HashMap;
use vstd::prelude::*;

verus! {

broadcast use vstd::std_specs::hash::group_hash_axioms;

/// The entity type that carries a broker behaviour.
pub const MQTT_BROKER: &'static str = "mqtt_broker";

/// The relation type that carries a publishes behaviour.
pub const MQTT_PUBLISHES: &'static str = "mqtt_publishes";

/// The relation type that carries a subscribes behaviour.
pub const MQTT_SUBSCRIBES: &'static str = "mqtt_subscribes";

/// The broker behaviours, by entity id.
pub struct MqttBrokerStorage(pub HashMap<u128, MqttBroker>);

/// The registry of broker behaviours.
pub struct MqttEntityBehaviourProviderImpl {
    mqtt_brokers: MqttBrokerStorage,
}

impl MqttEntityBehaviourProviderImpl {
    /// The live broker behaviours, by entity id.
    pub closed spec fn view(&self) -> Map<u128, MqttBroker> {
        self.mqtt_brokers.0@
    }

    /// An empty registry.
    pub fn new() -> (r: MqttEntityBehaviourProviderImpl)
        ensures
            r@ == Map::<u128, MqttBroker>::empty(),
    {
        MqttEntityBehaviourProviderImpl { mqtt_brokers: MqttBrokerStorage(HashMap::new()) }
    }

    /// The behaviour of entity `id`, if one is live.
    pub fn get(&self, id: u128) -> (r: Option<&MqttBroker>)
        ensures
            match r {
                Some(b) => self@.contains_key(id) && self@[id] == *b,
                None => !self@.contains_key(id),
            },
    {
        self.mqtt_brokers.0.get(&id)
    }

    /// Builds and registers the broker behaviour of `e`. Where it cannot be
    /// built nothing changes; otherwise it takes the place of the behaviour
    /// registered for the same entity, which is handed back.
    pub fn create_broker(&mut self, e: &EntityInstance) -> (r: Option<MqttBroker>)
        ensures
            MqttBroker::buildable(*e) ==> {
                &&& final(self)@.contains_key(e.id)
                &&& MqttBroker::built_from(final(self)@[e.id], *e)
                &&& final(self)@.remove(e.id) == old(self)@.remove(e.id)
                &&& match r {
                    Some(b) => old(self)@.contains_key(e.id) && old(self)@[e.id] == b,
                    None => !old(self)@.contains_key(e.id),
                }
            },
            !MqttBroker::buildable(*e) ==> final(self)@ == old(self)@ && r is None,
    {
        match MqttBroker::new(e) {
            Ok(broker) => {
                let r = self.mqtt_brokers.0.insert(e.id, broker);
                proof {
                    assert(self@.remove(e.id) =~= old(self)@.remove(e.id));
                }
                r
            },
            Err(BehaviourCreationError) => None,
        }
    }

    /// Unregisters the behaviour of entity `id` and hands it back.
    pub fn remove_by_id(&mut self, id: u128) -> (r: Option<MqttBroker>)
        ensures
            final(self)@ == old(self)@.remove(id),
            match r {
                Some(b) => old(self)@.contains_key(id) && old(self)@[id] == b,
                None => !old(self)@.contains_key(id),
            },
    {
        self.mqtt_brokers.0.remove(&id)
    }

    /// Unregisters the behaviour of `e` and hands it back.
    pub fn remove_broker(&mut self, e: &EntityInstance) -> (r: Option<MqttBroker>)
        ensures
            final(self)@ == old(self)@.remove(e.id),
            match r {
                Some(b) => old(self)@.contains_key(e.id) && old(self)@[e.id] == b,
                None => !old(self)@.contains_key(e.id),
            },
    {
        self.remove_by_id(e.id)
    }

    /// The host reports a new entity: a broker entity gets its behaviour; other
    /// entities are passed over.
    pub fn add_behaviours(&mut self, e: &EntityInstance) -> (r: Option<MqttBroker>)
        ensures
            e.type_label@ == MQTT_BROKER@ && MqttBroker::buildable(*e) ==> {
                &&& final(self)@.contains_key(e.id)
                &&& MqttBroker::built_from(final(self)@[e.id], *e)
                &&& final(self)@.remove(e.id) == old(self)@.remove(e.id)
                &&& match r {
                    Some(b) => old(self)@.contains_key(e.id) && old(self)@[e.id] == b,
                    None => !old(self)@.contains_key(e.id),
                }
            },
            !(e.type_label@ == MQTT_BROKER@ && MqttBroker::buildable(*e)) ==> final(self)@ == old(
                self,
            )@ && r is None,
    {
        if text_equals(e.type_label.as_str(), MQTT_BROKER) {
            self.create_broker(e)
        } else {
            None
        }
    }

    /// The host removes an entity: the behaviour of a broker entity is
    /// unregistered and handed back; other entities are passed over.
    pub fn remove_behaviours(&mut self, e: &EntityInstance) -> (r: Option<MqttBroker>)
        ensures
            e.type_label@ == MQTT_BROKER@ ==> final(self)@ == old(self)@.remove(e.id) && match r {
                Some(b) => old(self)@.contains_key(e.id) && old(self)@[e.id] == b,
                None => !old(self)@.contains_key(e.id),
            },
            e.type_label@ != MQTT_BROKER@ ==> final(self)@ == old(self)@ && r is None,
    {
        if text_equals(e.type_label.as_str(), MQTT_BROKER) {
            self.remove_broker(e)
        } else {
            None
        }
    }

    /// The host removes the entity `id`: its behaviour, if any, is unregistered
    /// and handed back.
    pub fn remove_behaviours_by_id(&mut self, id: u128) -> (r: Option<MqttBroker>)
        ensures
            final(self)@ == old(self)@.remove(id),
            match r {
                Some(b) => old(self)@.contains_key(id) && old(self)@[id] == b,
                None => !old(self)@.contains_key(id),
            },
    {
        self.remove_by_id(id)
    }
}

/// Behaviours keyed by edge. Each key appears at most once.
pub struct EdgeBehaviours<B> {
    entries: Vec<(EdgeKey, B)>,
}

/// The publishes behaviours, by edge.
pub type MqttPublishesRelationBehaviourStorage = EdgeBehaviours<MqttPublishes>;

/// The subscribes behaviours, by edge.
pub type MqttSubscribesRelationBehaviourStorage = EdgeBehaviours<MqttSubscribes>;

/// Some entry of `entries` has key `k`.
pub open spec fn keyed<B>(entries: Seq<(EdgeKey, B)>, k: EdgeKeyView) -> bool {
    exists|i: int| 0 <= i < entries.len() && (#[trigger] entries[i]).0@ == k
}

/// The behaviours of `entries` as a map from edge keys.
pub open spec fn edge_map<B>(entries: Seq<(EdgeKey, B)>) -> Map<EdgeKeyView, B> {
    Map::new(
        |k: EdgeKeyView| keyed(entries, k),
        |k: EdgeKeyView| entries[choose|i: int| 0 <= i < entries.len() && (#[trigger] entries[i]).0@ == k].1,
    )
}

/// No key appears twice in `entries`.
pub open spec fn distinct_keys<B>(entries: Seq<(EdgeKey, B)>) -> bool {
    forall|i: int, j: int|
        0 <= i < entries.len() && 0 <= j < entries.len() && i != j ==> (#[trigger] entries[i]).0@
            != (#[trigger] entries[j]).0@
}

proof fn lemma_edge_map_at<B>(entries: Seq<(EdgeKey, B)>, i: int)
    requires
        distinct_keys(entries),
        0 <= i < entries.len(),
    ensures
        edge_map(entries).contains_key(entries[i].0@),
        edge_map(entries)[entries[i].0@] == entries[i].1,
{
    let k = entries[i].0@;
    assert(keyed(entries, k));
    let j = choose|j: int| 0 <= j < entries.len() && (#[trigger] entries[j]).0@ == k;
    assert(j == i);
}

/// Removing entry `i` from a list of distinct keys removes its key from the map.
proof fn lemma_edge_map_remove<B>(entries: Seq<(EdgeKey, B)>, i: int)
    requires
        distinct_keys(entries),
        0 <= i < entries.len(),
    ensures
        distinct_keys(entries.remove(i)),
        edge_map(entries.remove(i)) == edge_map(entries).remove(entries[i].0@),
{
    let rest = entries.remove(i);
    let k = entries[i].0@;
    assert forall|a: int, b: int|
        0 <= a < rest.len() && 0 <= b < rest.len() && a != b implies (#[trigger] rest[a]).0@
        != (#[trigger] rest[b]).0@ by {
        let a2 = if a < i { a } else { a + 1 };
        let b2 = if b < i { b } else { b + 1 };
        assert(rest[a] == entries[a2]);
        assert(rest[b] == entries[b2]);
    }
    let m = edge_map(entries).remove(k);
    assert forall|x: EdgeKeyView| #[trigger] edge_map(rest).contains_key(x) <==> m.contains_key(x) by {
        if keyed(rest, x) {
            let a = choose|a: int| 0 <= a < rest.len() && (#[trigger] rest[a]).0@ == x;
            let a2 = if a < i { a } else { a + 1 };
            assert(rest[a] == entries[a2]);
            assert(keyed(entries, x));
            assert(x != k);
        }
        if m.contains_key(x) {
            let a2 = choose|a: int| 0 <= a < entries.len() && (#[trigger] entries[a]).0@ == x;
            assert(a2 != i);
            let a = if a2 < i { a2 } else { a2 - 1 };
            assert(rest[a] == entries[a2]);
            assert(keyed(rest, x));
        }
    }
    assert forall|x: EdgeKeyView| #[trigger] edge_map(rest).contains_key(x) implies edge_map(rest)[x]
        == m[x] by {
        let a = choose|a: int| 0 <= a < rest.len() && (#[trigger] rest[a]).0@ == x;
        let a2 = if a < i { a } else { a + 1 };
        assert(rest[a] == entries[a2]);
        lemma_edge_map_at(rest, a);
        lemma_edge_map_at(entries, a2);
    }
    assert(edge_map(rest) =~= m);
}

/// Appending an entry whose key is new adds it to the map.
proof fn lemma_edge_map_push<B>(entries: Seq<(EdgeKey, B)>, e: (EdgeKey, B))
    requires
        distinct_keys(entries),
        !keyed(entries, e.0@),
    ensures
        distinct_keys(entries.push(e)),
        edge_map(entries.push(e)) == edge_map(entries).insert(e.0@, e.1),
{
    let more = entries.push(e);
    let n = entries.len() as int;
    assert forall|a: int, b: int|
        0 <= a < more.len() && 0 <= b < more.len() && a != b implies (#[trigger] more[a]).0@
        != (#[trigger] more[b]).0@ by {
        if a < n && b < n {
            assert(more[a] == entries[a] && more[b] == entries[b]);
        } else if a < n {
            assert(more[a] == entries[a]);
        } else {
            assert(more[b] == entries[b]);
        }
    }
    let m = edge_map(entries).insert(e.0@, e.1);
    assert forall|x: EdgeKeyView| #[trigger] edge_map(more).contains_key(x) <==> m.contains_key(x) by {
        if keyed(more, x) {
            let a = choose|a: int| 0 <= a < more.len() && (#[trigger] more[a]).0@ == x;
            if a < n {
                assert(more[a] == entries[a]);
                assert(keyed(entries, x));
            }
        }
        if m.contains_key(x) {
            if x == e.0@ {
                assert(more[n] == e);
            } else {
                let a = choose|a: int| 0 <= a < entries.len() && (#[trigger] entries[a]).0@ == x;
                assert(more[a] == entries[a]);
            }
            assert(keyed(more, x));
        }
    }
    assert forall|x: EdgeKeyView| #[trigger] edge_map(more).contains_key(x) implies edge_map(more)[x]
        == m[x] by {
        let a = choose|a: int| 0 <= a < more.len() && (#[trigger] more[a]).0@ == x;
        lemma_edge_map_at(more, a);
        if a < n {
            assert(more[a] == entries[a]);
            lemma_edge_map_at(entries, a);
        } else {
            assert(more[a] == e);
        }
    }
    assert(edge_map(more) =~= m);
}

impl<B> EdgeBehaviours<B> {
    /// The behaviours, by edge key.
    pub closed spec fn view(&self) -> Map<EdgeKeyView, B> {
        edge_map(self.entries@)
    }

    /// The table's invariant: no edge is listed twice.
    pub closed spec fn well_formed(&self) -> bool {
        distinct_keys(self.entries@)
    }

    /// An empty table.
    pub fn new() -> (r: EdgeBehaviours<B>)
        ensures
            r.well_formed(),
            r@ == Map::<EdgeKeyView, B>::empty(),
    {
        let r = EdgeBehaviours { entries: Vec::new() };
        assert(r@ =~= Map::<EdgeKeyView, B>::empty());
        r
    }

    fn position(&self, k: &EdgeKey) -> (r: Option<usize>)
        ensures
            match r {
                Some(i) => i < self.entries@.len() && self.entries@[i as int].0@ == k@,
                None => !keyed(self.entries@, k@),
            },
    {
        let mut i: usize = 0;
        while i < self.entries.len()
            invariant
                i <= self.entries@.len(),
                forall|j: int| 0 <= j < i ==> (#[trigger] self.entries@[j]).0@ != k@,
            decreases self.entries@.len() - i,
        {
            if self.entries[i].0.matches(k) {
                return Some(i);
            }
            i += 1;
        }
        None
    }

    /// Whether a behaviour is registered for edge `k`.
    pub fn contains_key(&self, k: &EdgeKey) -> (r: bool)
        ensures
            r == self@.contains_key(k@),
    {
        self.position(k).is_some()
    }

    /// Unregisters the behaviour of edge `k` and hands it back.
    pub fn remove(&mut self, k: &EdgeKey) -> (r: Option<B>)
        requires
            old(self).well_formed(),
        ensures
            final(self).well_formed(),
            final(self)@ == old(self)@.remove(k@),
            match r {
                Some(b) => old(self)@.contains_key(k@) && old(self)@[k@] == b,
                None => !old(self)@.contains_key(k@),
            },
    {
        match self.position(k) {
            Some(i) => {
                proof {
                    lemma_edge_map_remove(self.entries@, i as int);
                    lemma_edge_map_at(self.entries@, i as int);
                }
                let (_, b) = self.entries.remove(i);
                Some(b)
            },
            None => None,
        }
    }

    /// Registers `b` for edge `k`, handing back the behaviour it replaces.
    pub fn insert(&mut self, k: EdgeKey, b: B) -> (r: Option<B>)
        requires
            old(self).well_formed(),
        ensures
            final(self).well_formed(),
            final(self)@ == old(self)@.insert(k@, b),
            match r {
                Some(x) => old(self)@.contains_key(k@) && old(self)@[k@] == x,
                None => !old(self)@.contains_key(k@),
            },
    {
        let replaced = self.remove(&k);
        proof {
            assert(!self@.contains_key(k@));
            assert(!keyed(self.entries@, k@));
            lemma_edge_map_push(self.entries@, (k, b));
        }
        self.entries.push((k, b));
        proof {
            assert(old(self)@.remove(k@).insert(k@, b) =~= old(self)@.insert(k@, b));
        }
        replaced
    }
}

proof fn lemma_relation_types_differ()
    ensures
        MQTT_PUBLISHES@ != MQTT_SUBSCRIBES@,
{
    reveal_strlit("mqtt_publishes");
    reveal_strlit("mqtt_subscribes");
    assert(MQTT_PUBLISHES@.len() != MQTT_SUBSCRIBES@.len());
}

/// The behaviours that leave the relation registry in one call, for teardown.
pub struct ReleasedBehaviours {
    pub publishes: Option<MqttPublishes>,
    pub subscribes: Option<MqttSubscribes>,
}

/// The registry of publishes and subscribes behaviours.
pub struct MqttRelationBehaviourProviderImpl {
    mqtt_publishes_relation_behaviour: MqttPublishesRelationBehaviourStorage,
    mqtt_subscribes_relation_behaviour: MqttSubscribesRelationBehaviourStorage,
}

/// `r` is what `m` held under `k`, and `m` held nothing there where `r` is nothing.
pub open spec fn released<B>(m: Map<EdgeKeyView, B>, k: EdgeKeyView, r: Option<B>) -> bool {
    match r {
        Some(b) => m.contains_key(k) && m[k] == b,
        None => !m.contains_key(k),
    }
}

impl MqttRelationBehaviourProviderImpl {
    /// The live publishes behaviours, by edge key.
    pub closed spec fn publishes(&self) -> Map<EdgeKeyView, MqttPublishes> {
        self.mqtt_publishes_relation_behaviour@
    }

    /// The live subscribes behaviours, by edge key.
    pub closed spec fn subscribes(&self) -> Map<EdgeKeyView, MqttSubscribes> {
        self.mqtt_subscribes_relation_behaviour@
    }

    /// The registry's invariant.
    pub closed spec fn well_formed(&self) -> bool {
        self.mqtt_publishes_relation_behaviour.well_formed()
            && self.mqtt_subscribes_relation_behaviour.well_formed()
    }

    /// An empty registry.
    pub fn new() -> (r: MqttRelationBehaviourProviderImpl)
        ensures
            r.well_formed(),
            r.publishes() == Map::<EdgeKeyView, MqttPublishes>::empty(),
            r.subscribes() == Map::<EdgeKeyView, MqttSubscribes>::empty(),
    {
        MqttRelationBehaviourProviderImpl {
            mqtt_publishes_relation_behaviour: EdgeBehaviours::new(),
            mqtt_subscribes_relation_behaviour: EdgeBehaviours::new(),
        }
    }

    /// Builds and registers the publishes behaviour of `r`, handing back the one
    /// it replaces. An edge whose source has no `payload` is passed over.
    pub fn create_publishes_behaviour(&mut self, r: &RelationInstance) -> (res: Option<MqttPublishes>)
        requires
            old(self).well_formed(),
        ensures
            final(self).well_formed(),
            final(self).subscribes() == old(self).subscribes(),
            MqttPublishes::buildable(*r) ==> {
                &&& final(self).publishes().contains_key(r.key_spec()@)
                &&& MqttPublishes::built_from(final(self).publishes()[r.key_spec()@], *r)
                &&& final(self).publishes().remove(r.key_spec()@) == old(self).publishes().remove(
                    r.key_spec()@,
                )
                &&& released(old(self).publishes(), r.key_spec()@, res)
            },
            !MqttPublishes::buildable(*r) ==> final(self).publishes() == old(self).publishes()
                && res is None,
    {
        if r.outbound.get(MqttEndpointProperties::PAYLOAD.as_ref()).is_none() {
            return None;
        }
        let b = MqttPublishes::new(r);
        let res = self.mqtt_publishes_relation_behaviour.insert(r.get_key(), b);
        proof {
            assert(self.publishes().remove(r.key_spec()@) =~= old(self).publishes().remove(
                r.key_spec()@,
            ));
        }
        res
    }

    /// Unregisters the publishes behaviour of `r` and hands it back.
    pub fn remove_publishes_behaviour(&mut self, r: &RelationInstance) -> (res: Option<MqttPublishes>)
        requires
            old(self).well_formed(),
        ensures
            final(self).well_formed(),
            final(self).subscribes() == old(self).subscribes(),
            final(self).publishes() == old(self).publishes().remove(r.key_spec()@),
            released(old(self).publishes(), r.key_spec()@, res),
    {
        let k = r.get_key();
        self.mqtt_publishes_relation_behaviour.remove(&k)
    }

    /// Builds and registers the subscribes behaviour of `r`, handing back the one
    /// it replaces. An edge whose target has no `payload` is passed over.
    pub fn create_subscribes_behaviour(&mut self, r: &RelationInstance) -> (res: Option<MqttSubscribes>)
        requires
            old(self).well_formed(),
        ensures
            final(self).well_formed(),
            final(self).publishes() == old(self).publishes(),
            MqttSubscribes::buildable(*r) ==> {
                &&& final(self).subscribes().contains_key(r.key_spec()@)
                &&& MqttSubscribes::built_from(final(self).subscribes()[r.key_spec()@], *r)
                &&& final(self).subscribes().remove(r.key_spec()@) == old(self).subscribes().remove(
                    r.key_spec()@,
                )
                &&& released(old(self).subscribes(), r.key_spec()@, res)
            },
            !MqttSubscribes::buildable(*r) ==> final(self).subscribes() == old(self).subscribes()
                && res is None,
    {
        if r.inbound.get(MqttEndpointProperties::PAYLOAD.as_ref()).is_none() {
            return None;
        }
        let b = MqttSubscribes::new(r);
        let res = self.mqtt_subscribes_relation_behaviour.insert(r.get_key(), b);
        proof {
            assert(self.subscribes().remove(r.key_spec()@) =~= old(self).subscribes().remove(
                r.key_spec()@,
            ));
        }
        res
    }

    /// Unregisters the subscribes behaviour of `r` and hands it back.
    pub fn remove_subscribes_behaviour(&mut self, r: &RelationInstance) -> (res: Option<MqttSubscribes>)
        requires
            old(self).well_formed(),
        ensures
            final(self).well_formed(),
            final(self).publishes() == old(self).publishes(),
            final(self).subscribes() == old(self).subscribes().remove(r.key_spec()@),
            released(old(self).subscribes(), r.key_spec()@, res),
    {
        let k = r.get_key();
        self.mqtt_subscribes_relation_behaviour.remove(&k)
    }

    /// Unregisters every behaviour of edge `k` and hands them back.
    pub fn remove_by_key(&mut self, k: &EdgeKey) -> (res: ReleasedBehaviours)
        requires
            old(self).well_formed(),
        ensures
            final(self).well_formed(),
            final(self).publishes() == old(self).publishes().remove(k@),
            final(self).subscribes() == old(self).subscribes().remove(k@),
            released(old(self).publishes(), k@, res.publishes),
            released(old(self).subscribes(), k@, res.subscribes),
    {
        let publishes = self.mqtt_publishes_relation_behaviour.remove(k);
        let subscribes = self.mqtt_subscribes_relation_behaviour.remove(k);
        ReleasedBehaviours { publishes, subscribes }
    }

    /// The host reports a new edge: a publishes or subscribes edge gets its
    /// behaviour; other edges are passed over. The behaviour replaced is handed back.
    pub fn add_behaviours(&mut self, r: &RelationInstance) -> (res: ReleasedBehaviours)
        requires
            old(self).well_formed(),
        ensures
            final(self).well_formed(),
            r.type_label@ == MQTT_PUBLISHES@ ==> {
                &&& final(self).subscribes() == old(self).subscribes()
                &&& res.subscribes is None
                &&& MqttPublishes::buildable(*r) ==> {
                    &&& final(self).publishes().contains_key(r.key_spec()@)
                    &&& MqttPublishes::built_from(final(self).publishes()[r.key_spec()@], *r)
                    &&& final(self).publishes().remove(r.key_spec()@) == old(
                        self,
                    ).publishes().remove(r.key_spec()@)
                    &&& released(old(self).publishes(), r.key_spec()@, res.publishes)
                }
                &&& !MqttPublishes::buildable(*r) ==> final(self).publishes() == old(
                    self,
                ).publishes() && res.publishes is None
            },
            r.type_label@ == MQTT_SUBSCRIBES@ ==> {
                &&& final(self).publishes() == old(self).publishes()
                &&& res.publishes is None
                &&& MqttSubscribes::buildable(*r) ==> {
                    &&& final(self).subscribes().contains_key(r.key_spec()@)
                    &&& MqttSubscribes::built_from(final(self).subscribes()[r.key_spec()@], *r)
                    &&& final(self).subscribes().remove(r.key_spec()@) == old(
                        self,
                    ).subscribes().remove(r.key_spec()@)
                    &&& released(old(self).subscribes(), r.key_spec()@, res.subscribes)
                }
                &&& !MqttSubscribes::buildable(*r) ==> final(self).subscribes() == old(
                    self,
                ).subscribes() && res.subscribes is None
            },
            r.type_label@ != MQTT_PUBLISHES@ && r.type_label@ != MQTT_SUBSCRIBES@ ==> {
                &&& final(self).publishes() == old(self).publishes()
                &&& final(self).subscribes() == old(self).subscribes()
                &&& res.publishes is None
                &&& res.subscribes is None
            },
    {
        proof {
            lemma_relation_types_differ();
        }
        if text_equals(r.type_label.as_str(), MQTT_PUBLISHES) {
            let publishes = self.create_publishes_behaviour(r);
            ReleasedBehaviours { publishes, subscribes: None }
        } else if text_equals(r.type_label.as_str(), MQTT_SUBSCRIBES) {
            let subscribes = self.create_subscribes_behaviour(r);
            ReleasedBehaviours { publishes: None, subscribes }
        } else {
            ReleasedBehaviours { publishes: None, subscribes: None }
        }
    }

    /// The host removes an edge: the behaviour of a publishes or subscribes
    /// edge is unregistered and handed back; other edges are passed over.
    pub fn remove_behaviours(&mut self, r: &RelationInstance) -> (res: ReleasedBehaviours)
        requires
            old(self).well_formed(),
        ensures
            final(self).well_formed(),
            r.type_label@ == MQTT_PUBLISHES@ ==> {
                &&& final(self).publishes() == old(self).publishes().remove(r.key_spec()@)
                &&& final(self).subscribes() == old(self).subscribes()
                &&& released(old(self).publishes(), r.key_spec()@, res.publishes)
                &&& res.subscribes is None
            },
            r.type_label@ == MQTT_SUBSCRIBES@ ==> {
                &&& final(self).subscribes() == old(self).subscribes().remove(r.key_spec()@)
                &&& final(self).publishes() == old(self).publishes()
                &&& released(old(self).subscribes(), r.key_spec()@, res.subscribes)
                &&& res.publishes is None
            },
            r.type_label@ != MQTT_PUBLISHES@ && r.type_label@ != MQTT_SUBSCRIBES@ ==> {
                &&& final(self).publishes() == old(self).publishes()
                &&& final(self).subscribes() == old(self).subscribes()
                &&& res.publishes is None
                &&& res.subscribes is None
            },
    {
        proof {
            lemma_relation_types_differ();
        }
        if text_equals(r.type_label.as_str(), MQTT_PUBLISHES) {
            let publishes = self.remove_publishes_behaviour(r);
            ReleasedBehaviours { publishes, subscribes: None }
        } else if text_equals(r.type_label.as_str(), MQTT_SUBSCRIBES) {
            let subscribes = self.remove_subscribes_behaviour(r);
            ReleasedBehaviours { publishes: None, subscribes }
        } else {
            ReleasedBehaviours { publishes: None, subscribes: None }
        }
    }

    /// The host removes the edge `k`: its behaviours are unregistered and handed back.
    pub fn remove_behaviours_by_key(&mut self, k: &EdgeKey) -> (res: ReleasedBehaviours)
        requires
            old(self).well_formed(),
        ensures
            final(self).well_formed(),
            final(self).publishes() == old(self).publishes().remove(k@),
            final(self).subscribes() == old(self).subscribes().remove(k@),
            released(old(self).publishes(), k@, res.publishes),
            released(old(self).subscribes(), k@, res.subscribes),
    {
        self.remove_by_key(k)
    }
}

} // verus!
