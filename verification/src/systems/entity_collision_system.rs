//! The contact classifier.
//!
//! The engine reports contacts as a stream of events. This system turns the
//! events of one tick into a state on each tracked entity: the latest
//! contact that names it, or none.

use vstd::prelude::*;
use crate::components::CollisionComponent;
use crate::engine::{ContactEvent, Entity};

verus! {

/// The latest of `events` that names `entity`, if any does.
pub open spec fn last_contact(events: Seq<ContactEvent>, entity: Entity) -> Option<ContactEvent>
    decreases events.len(),
{
    if events.len() == 0 {
        None
    } else if events.last().names(entity) {
        Some(events.last())
    } else {
        last_contact(events.drop_last(), entity)
    }
}

/// `last_contact` is `None` exactly when no event names the entity;
/// otherwise it is an event that names the entity and that no later event
/// naming the entity follows.
pub proof fn lemma_last_contact(events: Seq<ContactEvent>, entity: Entity)
    ensures
        last_contact(events, entity) is None <==> forall|j: int|
            0 <= j < events.len() ==> !(#[trigger] events[j]).names(entity),
        last_contact(events, entity) matches Some(event) ==> exists|j: int|
            0 <= j < events.len() && #[trigger] events[j] == event && event.names(entity)
                && forall|k: int| j < k < events.len() ==> !(#[trigger] events[k]).names(entity),
    decreases events.len(),
{
    if events.len() > 0 {
        let last: int = events.len() - 1;
        if events.last().names(entity) {
            assert(events[last] == events.last());
        } else {
            let front = events.drop_last();
            lemma_last_contact(front, entity);
            assert forall|j: int| 0 <= j < front.len() implies front[j] == events[j] by {}
            if last_contact(front, entity) is None {
                assert forall|j: int| 0 <= j < events.len() implies !(#[trigger] events[j]).names(
                    entity,
                ) by {
                    if j < last {
                        assert(front[j] == events[j]);
                    }
                }
            } else {
                let event = last_contact(front, entity)->Some_0;
                let j = choose|j: int|
                    0 <= j < front.len() && #[trigger] front[j] == event && event.names(entity)
                        && forall|k: int|
                        j < k < front.len() ==> !(#[trigger] front[k]).names(entity);
                assert(events[j] == event);
                assert forall|k: int| j < k < events.len() implies !(#[trigger] events[k]).names(
                    entity,
                ) by {
                    if k < last {
                        assert(front[k] == events[k]);
                    }
                }
            }
        }
    }
}

/// The rows of `components` after the contacts of one tick have been
/// classified: each entity keeps its row, and its state is the latest of
/// `contacts` that names it.
pub open spec fn classified(
    components: Seq<(Entity, CollisionComponent)>,
    contacts: Seq<ContactEvent>,
) -> Seq<(Entity, CollisionComponent)> {
    Seq::new(
        components.len(),
        |i: int|
            (
                components[i].0,
                CollisionComponent { contact_event: last_contact(contacts, components[i].0) },
            ),
    )
}

/// The rows of `components` after one contact has been recorded for one of
/// its bodies: the rows of `body` hold `contact`, the others are as before.
pub open spec fn recorded(
    components: Seq<(Entity, CollisionComponent)>,
    body: Entity,
    contact: ContactEvent,
) -> Seq<(Entity, CollisionComponent)> {
    Seq::new(
        components.len(),
        |i: int|
            (
                components[i].0,
                CollisionComponent {
                    contact_event: if components[i].0 == body {
                        Some(contact)
                    } else {
                        components[i].1.contact_event
                    },
                },
            ),
    )
}

/// The system that turns contact events into a contact state.
#[derive(Debug, Clone, Copy)]
pub struct EntityCollisionSystem;

impl Default for EntityCollisionSystem {
    fn default() -> (system: Self) {
        EntityCollisionSystem
    }
}

impl EntityCollisionSystem {
    /// Sets the contact state of every row that belongs to `body` to `contact`.
    fn record(
        components: &mut Vec<(Entity, CollisionComponent)>,
        body: Entity,
        contact: ContactEvent,
    )
        ensures
            final(components)@ == recorded(old(components)@, body, contact),
    {
        let mut index: usize = 0;
        while index < components.len()
            invariant
                components@.len() == old(components)@.len(),
                index <= components@.len(),
                forall|i: int|
                    0 <= i < index ==> components@[i] == recorded(
                        old(components)@,
                        body,
                        contact,
                    )[i],
                forall|i: int|
                    index <= i < components@.len() ==> components@[i] == old(components)@[i],
            decreases components@.len() - index,
        {
            let (entity, _) = components[index];
            if entity == body {
                components.set(
                    index,
                    (entity, CollisionComponent { contact_event: Some(contact) }),
                );
            }
            index = index + 1;
        }
        proof {
            assert(components@ =~= recorded(old(components)@, body, contact));
        }
    }

    /// Classifies the contacts of one tick.
    ///
    /// `contacts` holds the events since the last call, in the order in
    /// which the engine reported them; each row of `components` holds a
    /// tracked entity and its contact state. Every state is first cleared
    /// and then set by each event that names its entity, so the last such
    /// event stays. An event that names an untracked entity changes nothing
    /// for that body.
    pub fn run(
        &mut self,
        components: &mut Vec<(Entity, CollisionComponent)>,
        contacts: &Vec<ContactEvent>,
    )
        ensures
            final(components)@ == classified(old(components)@, contacts@),
    {
        let mut index: usize = 0;
        while index < components.len()
            invariant
                components@.len() == old(components)@.len(),
                index <= components@.len(),
                forall|i: int|
                    0 <= i < index ==> components@[i] == classified(
                        old(components)@,
                        Seq::empty(),
                    )[i],
                forall|i: int|
                    index <= i < components@.len() ==> components@[i] == old(components)@[i],
            decreases components@.len() - index,
        {
            let (entity, _) = components[index];
            components.set(index, (entity, CollisionComponent { contact_event: None }));
            index = index + 1;
        }
        proof {
            assert(contacts@.take(0) =~= Seq::empty());
            assert(components@ =~= classified(old(components)@, contacts@.take(0)));
        }
        let mut read: usize = 0;
        while read < contacts.len()
            invariant
                read <= contacts@.len(),
                components@ == classified(old(components)@, contacts@.take(read as int)),
            decreases contacts@.len() - read,
        {
            let contact: ContactEvent = contacts[read];
            Self::record(components, contact.bodies.0, contact);
            Self::record(components, contact.bodies.1, contact);
            proof {
                let seen = contacts@.take(read as int + 1);
                assert(seen.last() == contact);
                assert(seen.drop_last() =~= contacts@.take(read as int));
                assert(components@ =~= classified(old(components)@, seen));
            }
            read = read + 1;
        }
        proof {
            assert(contacts@.take(contacts@.len() as int) =~= contacts@);
        }
    }
}

} // verus!
