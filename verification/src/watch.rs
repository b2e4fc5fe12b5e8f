//! State that two ends of a conversation watch.

use vstd::prelude::*;

verus! {

/// A value that one end changes and the other waits for. The state is live
/// while the other end is there; a state that is not live no longer changes.
#[derive(Debug)]
pub struct State<T> {
    pub value: T,
    pub live: bool,
}

impl<T> State<T> {
    /// A live state.
    pub fn new(value: T) -> (state: Self)
        ensures
            state.value == value,
            state.live,
    {
        State { value, live: true }
    }

    /// The value as it is.
    pub fn lock(&self) -> (value: &T)
        ensures
            *value == self.value,
    {
        &self.value
    }

    /// The value for a change, while the state is live.
    pub fn lock_mut(&mut self) -> (value: Option<&mut T>)
        ensures
            match value {
                Some(value) => {
                    &&& old(self).live
                    &&& *value == old(self).value
                    &&& final(self).live
                    &&& final(self).value == *final(value)
                },
                None => !old(self).live && *final(self) == *old(self),
            },
    {
        if self.live {
            Some(&mut self.value)
        } else {
            None
        }
    }

    /// The other end is gone.
    pub fn hang_up(&mut self)
        ensures
            !final(self).live,
            final(self).value == old(self).value,
    {
        self.live = false;
    }
}

/// Where a wait stands.
#[derive(Debug, PartialEq, Eq)]
pub enum Progress<T> {
    /// Nothing has happened yet.
    Pending,
    Ready(T),
}

/// A state changes while it is live and not afterwards, and what it was at the
/// end stays.
pub proof fn dead_state_stays<T>(
    value: T,
    made: State<T>,
    state: &mut State<T>,
)
    requires
        call_ensures(State::<T>::new, (value,), made),
        *old(state) == made,
        call_ensures(State::<T>::hang_up, (state,), ()),
    ensures
        made.live,
        made.value == value,
        !final(state).live,
        final(state).value == value,
{
}

} // verus!
