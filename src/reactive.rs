//! Observers on property streams. Every observer is keyed by a handle id, the
//! 128-bit form of the identifier of the property it was derived from; the
//! behaviour that installed it removes it by the same handle on teardown.

use crate::model::PropertyInstance;
use vstd::prelude::*;

verus! {

/// Where an observer sits: the stream of property `property` of entity
/// `entity_id`, under the handle `handle_id`.
#[derive(Debug, PartialEq)]
pub struct ObserverKey {
    pub entity_id: u128,
    pub property: String,
    pub handle_id: u128,
}

/// An observer's place as plain values: entity, property name, handle.
pub type ObserverKeyView = (u128, Seq<char>, u128);

impl ObserverKey {
    pub open spec fn view(&self) -> ObserverKeyView {
        (self.entity_id, self.property@, self.handle_id)
    }
}

/// The handle id derived from a property: its identifier as a 128-bit integer.
pub open spec fn handle_of(p: PropertyInstance) -> u128 {
    p.id
}

/// The handle id that observers derived from `p` are keyed by.
pub fn handle_id_of(p: &PropertyInstance) -> (r: u128)
    ensures
        r == handle_of(*p),
{
    p.id
}

/// The observers of one property stream, by handle. A handle is registered at
/// most once: registering it again replaces the earlier observer.
pub struct PropertyObservers {
    handles: Vec<u128>,
}

impl PropertyObservers {
    /// The handles, in the order they were first registered.
    pub closed spec fn view(&self) -> Seq<u128> {
        self.handles@
    }

    /// No handle is registered twice.
    pub open spec fn well_formed(&self) -> bool {
        self@.no_duplicates()
    }

    /// A stream with no observer.
    pub fn new() -> (r: PropertyObservers)
        ensures
            r@ == Seq::<u128>::empty(),
            r.well_formed(),
    {
        PropertyObservers { handles: Vec::new() }
    }

    fn position(&self, handle_id: u128) -> (r: Option<usize>)
        ensures
            match r {
                Some(i) => i < self@.len() && self@[i as int] == handle_id,
                None => !self@.contains(handle_id),
            },
    {
        let mut i: usize = 0;
        while i < self.handles.len()
            invariant
                i <= self.handles@.len(),
                forall|j: int| 0 <= j < i ==> self.handles@[j] != handle_id,
            decreases self.handles@.len() - i,
        {
            if self.handles[i] == handle_id {
                return Some(i);
            }
            i += 1;
        }
        None
    }

    /// Whether an observer is registered under `handle_id`.
    pub fn is_observed_by(&self, handle_id: u128) -> (r: bool)
        ensures
            r == self@.contains(handle_id),
    {
        self.position(handle_id).is_some()
    }

    /// Registers an observer under `handle_id`; one registered under the same
    /// handle before is replaced, so the handle stays listed once.
    pub fn observe_with_handle(&mut self, handle_id: u128)
        requires
            old(self).well_formed(),
        ensures
            final(self).well_formed(),
            old(self)@.contains(handle_id) ==> final(self)@ == old(self)@,
            !old(self)@.contains(handle_id) ==> final(self)@ == old(self)@.push(handle_id),
            final(self)@.contains(handle_id),
            forall|h: u128| h != handle_id ==> (final(self)@.contains(h) <==> old(self)@.contains(h)),
    {
        if self.position(handle_id).is_none() {
            let ghost before = self.handles@;
            self.handles.push(handle_id);
            proof {
                assert(self@[before.len() as int] == handle_id);
                assert forall|h: u128| h != handle_id implies (self@.contains(h) <==> before.contains(h)) by {
                    if self@.contains(h) {
                        let k = choose|k: int| 0 <= k < self@.len() && self@[k] == h;
                        assert(k < before.len());
                        assert(before[k] == h);
                    }
                    if before.contains(h) {
                        let k = choose|k: int| 0 <= k < before.len() && before[k] == h;
                        assert(self@[k] == h);
                    }
                }
            }
        }
    }

    /// Removes the observer registered under `handle_id`. This succeeds, and
    /// returns true, exactly when an observer was registered under that handle.
    pub fn remove(&mut self, handle_id: u128) -> (r: bool)
        requires
            old(self).well_formed(),
        ensures
            r == old(self)@.contains(handle_id),
            final(self).well_formed(),
            !final(self)@.contains(handle_id),
            forall|h: u128| h != handle_id ==> (final(self)@.contains(h) <==> old(self)@.contains(h)),
    {
        match self.position(handle_id) {
            Some(i) => {
                let ghost before = self.handles@;
                self.handles.remove(i);
                proof {
                    assert forall|h: u128| h != handle_id implies (self@.contains(h) <==> before.contains(h)) by {
                        if before.contains(h) {
                            let k = choose|k: int| 0 <= k < before.len() && before[k] == h;
                            if k < i {
                                assert(self@[k] == h);
                            } else {
                                assert(k != i);
                                assert(self@[k - 1] == h);
                            }
                        }
                        if self@.contains(h) {
                            let k = choose|k: int| 0 <= k < self@.len() && self@[k] == h;
                            if k < i {
                                assert(before[k] == h);
                            } else {
                                assert(before[k + 1] == h);
                            }
                        }
                    }
                    assert(self@ == before.remove(i as int));
                    assert(!self@.contains(handle_id)) by {
                        if self@.contains(handle_id) {
                            let k = choose|k: int| 0 <= k < self@.len() && self@[k] == handle_id;
                            if k < i {
                                assert(before[k] == handle_id);
                            } else {
                                assert(before[k + 1] == handle_id);
                            }
                        }
                    }
                }
                true
            },
            None => false,
        }
    }

    /// The handles whose observers a write to the stream invokes, in order.
    pub fn notified(&self) -> (r: Vec<u128>)
        ensures
            r@ == self@,
    {
        let mut r: Vec<u128> = Vec::new();
        let mut i: usize = 0;
        while i < self.handles.len()
            invariant
                i <= self.handles@.len(),
                r@ == self.handles@.subrange(0, i as int),
            decreases self.handles@.len() - i,
        {
            r.push(self.handles[i]);
            i += 1;
        }
        assert(r@ =~= self.handles@);
        r
    }
}

} // verus!
