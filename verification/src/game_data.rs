//! The groups of systems that the game loop can switch on and off.
//!
//! Besides the systems that always run, a game holds named groups of
//! systems. A state of the game picks, tick by tick, the groups to run; it
//! names them by their place in the list of groups, which it looks up by
//! name. The dispatchers behind the groups are the engine's; what is kept
//! here is the list of names.

use vstd::prelude::*;

verus! {

/// A named group of systems.
#[derive(Debug, Clone)]
pub struct DispatchGroup {
    /// The name of the group.
    pub name: String,
}

/// The groups of systems of a game, in the order in which they were added.
#[derive(Debug, Clone)]
pub struct GameData {
    /// The groups whose running a state of the game controls.
    pub dispatchers: Vec<DispatchGroup>,
}

impl GameData {
    /// The game data with the given groups.
    pub fn new(dispatch_groups: Vec<DispatchGroup>) -> (game_data: Self)
        ensures
            game_data.dispatchers == dispatch_groups,
    {
        GameData { dispatchers: dispatch_groups }
    }

    /// The place of the first group called `name`, or `None` if there is no
    /// group of that name.
    pub fn get_dispatcher_id(&self, name: &str) -> (id: Option<usize>)
        ensures
            match id {
                Some(found) => {
                    &&& found < self.dispatchers@.len()
                    &&& self.dispatchers@[found as int].name@ == name@
                    &&& forall|earlier: int|
                        0 <= earlier < found ==> (#[trigger] self.dispatchers@[earlier]).name@
                            != name@
                },
                None => forall|i: int|
                    0 <= i < self.dispatchers@.len() ==> (#[trigger] self.dispatchers@[i]).name@
                        != name@,
            },
    {
        let wanted: String = name.to_owned();
        let mut index: usize = 0;
        while index < self.dispatchers.len()
            invariant
                index <= self.dispatchers@.len(),
                wanted@ == name@,
                forall|earlier: int|
                    0 <= earlier < index ==> (#[trigger] self.dispatchers@[earlier]).name@ != name@,
            decreases self.dispatchers@.len() - index,
        {
            if self.dispatchers[index].name == wanted {
                return Some(index);
            }
            index = index + 1;
        }
        None
    }
}

} // verus!
