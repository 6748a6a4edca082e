//! In-memory implementations of the two ports, verified against the same
//! contracts the real backends are trusted to meet: the storage port as a
//! hash table keyed by identifier bits, the notification port as a growing
//! log of facts. They double as test backends — the broker can be told to
//! fail its next publish, which lets a caller observe a committed write whose
//! notification failed.

use crate::errors::{BrokerError, StoreError};
use crate::ids::Identifiable;
use crate::ports::{Database, Fact, MessageBroker, Record};
use std::collections::HashMap;
use vstd::prelude::*;

verus! {

broadcast use vstd::std_specs::hash::group_hash_axioms;

/// An in-memory storage port: every record lives in a hash table under its
/// own key. It is never unavailable.
pub struct MemoryStore<I: Record> {
    table: HashMap<u128, I>,
}

impl<I: Record> MemoryStore<I> {
    /// Every record is filed under its own key.
    #[verifier::type_invariant]
    spec fn keys_consistent(self) -> bool {
        forall|k: u128|
            self.table@.dom().contains(k) ==> (#[trigger] self.table@[k]).key() == k
    }

    /// An empty store.
    pub fn new() -> (r: Self)
        ensures
            r.contents() == Map::<u128, I>::empty(),
    {
        MemoryStore { table: HashMap::new() }
    }
}

impl<I: Record> Database<I> for MemoryStore<I> {
    closed spec fn contents(&self) -> Map<u128, I> {
        self.table@
    }

    fn add(&mut self, item: I) -> (r: Result<(), StoreError>) {
        proof {
            use_type_invariant(&*self);
        }
        let k = item.key_value();
        if self.table.contains_key(&k) {
            Err(StoreError::Conflict)
        } else {
            let mut table = HashMap::new();
            std::mem::swap(&mut table, &mut self.table);
            table.insert(k, item);
            std::mem::swap(&mut table, &mut self.table);
            Ok(())
        }
    }

    fn delete(&mut self, id: u128) -> (r: Result<(), StoreError>) {
        proof {
            use_type_invariant(&*self);
        }
        let mut table = HashMap::new();
        std::mem::swap(&mut table, &mut self.table);
        table.remove(&id);
        std::mem::swap(&mut table, &mut self.table);
        Ok(())
    }

    fn get(&self, id: u128) -> (r: Result<Option<I>, StoreError>) {
        proof {
            use_type_invariant(&*self);
        }
        match self.table.get(&id) {
            Some(item) => Ok(Some(item.duplicate())),
            None => Ok(None),
        }
    }

    fn update(&mut self, item: I) -> (r: Result<(), StoreError>) {
        proof {
            use_type_invariant(&*self);
        }
        let k = item.key_value();
        if self.table.contains_key(&k) {
            let mut table = HashMap::new();
            std::mem::swap(&mut table, &mut self.table);
            table.insert(k, item);
            std::mem::swap(&mut table, &mut self.table);
            Ok(())
        } else {
            Err(StoreError::NotFound)
        }
    }
}

/// One notification as a value: the executable form of a fact.
pub struct Notification {
    pub topic: String,
    pub action: String,
    pub entity_id: String,
}

impl View for Notification {
    type V = Fact;

    open spec fn view(&self) -> Fact {
        Fact { topic: self.topic@, action: self.action@, entity_id: self.entity_id@ }
    }
}

/// An in-memory notification port: appends every published fact to a log, in
/// order. When told to, it fails its next publish and delivers nothing.
pub struct MemoryBroker {
    pub log: Vec<Notification>,
    pub fail_next: bool,
}

impl MemoryBroker {
    /// A broker with an empty log that publishes without failing.
    pub fn new() -> (r: Self)
        ensures
            r.sent() == Seq::<Fact>::empty(),
            r.fail_next == false,
    {
        let r = MemoryBroker { log: Vec::new(), fail_next: false };
        proof {
            assert(r.sent() =~= Seq::<Fact>::empty());
        }
        r
    }
}

impl MessageBroker for MemoryBroker {
    open spec fn sent(&self) -> Seq<Fact> {
        self.log@.map(|i: int, n: Notification| n@)
    }

    fn send<M: Identifiable>(&mut self, topic: &str, action: &str, message: &M) -> (r: Result<
        (),
        BrokerError,
    >) {
        if self.fail_next {
            self.fail_next = false;
            return Err(BrokerError::Unavailable);
        }
        let n = Notification {
            topic: topic.to_owned(),
            action: action.to_owned(),
            entity_id: message.id(),
        };
        self.log.push(n);
        proof {
            assert(self.sent() =~= old(self).sent().push(
                (Fact { topic: topic@, action: action@, entity_id: message.id_spec() }),
            ));
        }
        Ok(())
    }
}

} // verus!
