//! The contact state of an entity.
//!
//! The engine reports contacts only as events. The contact classifier turns
//! them into a state that holds for the whole tick: in contact, or not.

use vstd::prelude::*;
use crate::engine::ContactEvent;

verus! {

/// The current contact state of an entity.
#[derive(Debug, Copy, Clone, PartialEq, Eq)]
pub struct CollisionComponent {
    /// The latest contact of this tick that names the entity; `None` = no contact.
    pub contact_event: Option<ContactEvent>,
}

impl Default for CollisionComponent {
    fn default() -> (component: Self)
        ensures
            component.contact_event is None,
    {
        CollisionComponent { contact_event: None }
    }
}

impl CollisionComponent {
    /// What `is_in_collision` returns.
    pub open spec fn spec_is_in_collision(&self) -> bool {
        self.contact_event is Some
    }

    /// Whether the entity touches another body in this tick.
    #[verifier::when_used_as_spec(spec_is_in_collision)]
    pub fn is_in_collision(&self) -> (in_collision: bool)
        ensures
            in_collision == (self.contact_event is Some),
    {
        self.contact_event.is_some()
    }
}

} // verus!
