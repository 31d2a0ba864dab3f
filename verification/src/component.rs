//! What every part of the user interface can do.

use vstd::prelude::*;
use crate::action::Action;
use crate::key::KeyEvent;
use crate::state::State;

verus! {

/// A part of the user interface: it follows the state of the application,
/// has a name, and turns key events into actions.
pub trait Component {
    /// The invariant of the component.
    spec fn wf(&self) -> bool;

    /// Brings the component up to date with `state`.
    fn update_from_state(&mut self, state: &State)
        requires
            old(self).wf(),
        ensures
            final(self).wf(),
    ;

    /// The name that describes the component to the user.
    fn name(&self) -> &str;

    /// Takes in a key event and says what it asks of the application.
    fn handle_key_event(&mut self, key: KeyEvent) -> (action: Action)
        requires
            old(self).wf(),
        ensures
            final(self).wf(),
    ;
}

} // verus!
