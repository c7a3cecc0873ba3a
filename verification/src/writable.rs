use vstd::prelude::*;

verus! {

/// A reactive store: a value, and subscribers that are called with the new
/// value whenever it changes.
pub struct Writable<T, F> {
    value: T,
    subscribers: Vec<F>,
}

impl<T: Clone, F: Fn(T)> Writable<T, F> {
    /// The store's current value.
    pub closed spec fn spec_value(self) -> T {
        self.value
    }

    /// The subscribed callbacks, in subscription order.
    pub closed spec fn spec_subscribers(self) -> Seq<F> {
        self.subscribers@
    }

    /// Every stored callback accepts every value: the store may call any of
    /// them with whatever is set later.
    pub closed spec fn wf(self) -> bool {
        forall|i: int, v: T|
            0 <= i < self.subscribers@.len() ==> #[trigger] self.subscribers@[i].requires((v,))
    }

    /// Creates a store holding `value`, with no subscribers.
    pub fn new(value: T) -> (r: Writable<T, F>)
        ensures
            r.wf(),
            r.spec_value() == value,
            r.spec_subscribers().len() == 0,
    {
        Writable { value, subscribers: Vec::new() }
    }

    /// Subscribes to change notifications. The callback is called once with
    /// the current value right away, and on every later `set`; it must
    /// accept every value. Returns the identifier to unsubscribe with.
    pub fn subscribe(&mut self, callback: F) -> (r: usize)
        requires
            old(self).wf(),
            forall|v: T| callback.requires((v,)),
        ensures
            final(self).wf(),
            final(self).spec_value() == old(self).spec_value(),
            final(self).spec_subscribers() == old(self).spec_subscribers().push(callback),
            r == old(self).spec_subscribers().len(),
    {
        callback(self.value.clone());
        self.subscribers.push(callback);
        self.subscribers.len() - 1
    }

    /// Unsubscribes from change notifications; `i` is an identifier returned
    /// by `subscribe`. Callbacks subscribed later shift down by one.
    pub fn unsubscribe(&mut self, i: usize)
        requires
            old(self).wf(),
            i < old(self).spec_subscribers().len(),
        ensures
            final(self).wf(),
            final(self).spec_value() == old(self).spec_value(),
            final(self).spec_subscribers() == old(self).spec_subscribers().remove(i as int),
    {
        self.subscribers.remove(i);
    }

    /// Sets the store's value and notifies every subscriber, in subscription
    /// order, each with its own clone of the new value.
    pub fn set(&mut self, value: T)
        requires
            old(self).wf(),
        ensures
            final(self).wf(),
            final(self).spec_value() == value,
            final(self).spec_subscribers() == old(self).spec_subscribers(),
    {
        let mut i: usize = 0;
        while i < self.subscribers.len()
            invariant
                self.wf(),
                self.spec_subscribers() == old(self).spec_subscribers(),
                self.spec_value() == old(self).spec_value(),
            decreases self.subscribers@.len() - i,
        {
            (self.subscribers[i])(value.clone());
            i = i + 1;
        }
        self.value = value;
    }
}

} // verus!
