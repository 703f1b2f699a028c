use vstd::prelude::*;

verus! {

/// The abstract state of a one-shot result slot.
pub enum SlotState<T> {
    /// No result, and nobody waiting.
    Idle,
    /// No result yet; this many waiters are registered.
    Waiting(nat),
    /// The result, delivered to every waiter. Terminal.
    Completed(T),
}

impl<T> SlotState<T> {
    pub open spec fn is_completed(self) -> bool {
        self is Completed
    }

    pub open spec fn waiters(self) -> nat {
        match self {
            SlotState::Waiting(n) => n,
            _ => 0,
        }
    }

    /// Registering a waiter before the result has come; once it has come the
    /// waiter takes it at once and the slot is unchanged.
    pub open spec fn after_register(self) -> SlotState<T> {
        match self {
            SlotState::Idle => SlotState::Waiting(1),
            SlotState::Waiting(n) => SlotState::Waiting(n + 1),
            SlotState::Completed(v) => SlotState::Completed(v),
        }
    }

    /// The first completion stores its value and releases every waiter; any later one
    /// leaves the slot as it is.
    pub open spec fn after_complete(self, value: T) -> SlotState<T> {
        if self.is_completed() {
            self
        } else {
            SlotState::Completed(value)
        }
    }
}

/// Single completion: once a slot has been completed, no further completion changes the
/// value that its waiters receive; in particular the first of two completions wins.
pub proof fn lemma_single_completion<T>(s: SlotState<T>, first: T, second: T)
    ensures
        s.is_completed() ==> s.after_complete(second) == s,
        !s.is_completed() ==> s.after_complete(first).after_complete(second)
            == SlotState::Completed(first),
{
}

/// No missed completion: a waiter that registered before the action that triggers the
/// completion finds the result, even when the completion arrives before the action has
/// returned, and a waiter that registers after it finds the result at once.
pub proof fn lemma_completion_not_missed<T>(s: SlotState<T>, value: T)
    requires
        !s.is_completed(),
    ensures
        s.after_register().after_complete(value) == SlotState::Completed(value),
        s.after_complete(value).after_register() == SlotState::Completed(value),
{
}

/// A one-shot slot that hands the result of an operation, completed from a callback
/// context, to the tasks awaiting it. The locking and the wakeups belong to whoever
/// shares it; this type decides who must wait and which value they get.
pub struct AsyncCall<T> {
    waiters: usize,
    result: Option<T>,
}

impl<T> View for AsyncCall<T> {
    type V = SlotState<T>;

    closed spec fn view(&self) -> SlotState<T> {
        match self.result {
            Some(v) => SlotState::Completed(v),
            None => if self.waiters == 0 {
                SlotState::Idle
            } else {
                SlotState::Waiting(self.waiters as nat)
            },
        }
    }
}

impl<T> AsyncCall<T> {
    /// A new slot, with no pending result.
    pub fn new() -> (r: AsyncCall<T>)
        ensures
            r@ == SlotState::<T>::Idle,
    {
        AsyncCall { waiters: 0, result: None }
    }

    pub fn is_completed(&self) -> (r: bool)
        ensures
            r == self@.is_completed(),
    {
        self.result.is_some()
    }

    pub fn waiters(&self) -> (r: usize)
        ensures
            r == self@.waiters(),
    {
        if self.result.is_some() {
            0
        } else {
            self.waiters
        }
    }

    /// Registers one more waiter, to be done before the action whose completion it awaits
    /// is started. Returns whether the waiter has to suspend: false once the result is in.
    pub fn register_waiter(&mut self) -> (must_wait: bool)
        requires
            old(self)@.waiters() < usize::MAX,
        ensures
            must_wait == !old(self)@.is_completed(),
            final(self)@ == old(self)@.after_register(),
    {
        if self.result.is_some() {
            false
        } else {
            self.waiters = self.waiters + 1;
            true
        }
    }

    /// Stores the result and releases every waiter, unless the slot was completed
    /// already: then the value is dropped and the slot keeps the first one. Returns
    /// whether this call completed the slot.
    pub fn complete(&mut self, value: T) -> (completed: bool)
        ensures
            completed == !old(self)@.is_completed(),
            final(self)@ == old(self)@.after_complete(value),
    {
        if self.result.is_some() {
            false
        } else {
            self.result = Some(value);
            self.waiters = 0;
            true
        }
    }

    /// The result, once the slot has been completed.
    pub fn result(&self) -> (r: Option<&T>)
        ensures
            match self@ {
                SlotState::Completed(v) => r == Some(&v),
                _ => r is None,
            },
    {
        match &self.result {
            Some(v) => Some(v),
            None => None,
        }
    }
}

} // verus!
