//! Interrupt numbers, the handler interface and handler descriptors.

use vstd::prelude::*;

verus! {

/// An integer bounded to `0..=MAX_INCLUSIVE`.
#[derive(Clone, Copy, Debug)]
pub struct BoundedUsize<const MAX_INCLUSIVE: usize> {
    value: usize,
}

impl<const MAX_INCLUSIVE: usize> BoundedUsize<MAX_INCLUSIVE> {
    /// The number held.
    pub closed spec fn value(&self) -> usize {
        self.value
    }

    #[verifier::type_invariant]
    spec fn in_range(&self) -> bool {
        self.value <= MAX_INCLUSIVE
    }

    /// Wraps `number`, which must not exceed the bound.
    pub fn new(number: usize) -> (r: Self)
        requires
            number <= MAX_INCLUSIVE,
        ensures
            r.value() == number,
    {
        BoundedUsize { value: number }
    }

    /// Wraps `number` if it does not exceed the bound.
    pub fn try_new(number: usize) -> (r: Option<Self>)
        ensures
            r is Some <==> number <= MAX_INCLUSIVE,
            r matches Some(b) ==> b.value() == number,
    {
        if number <= MAX_INCLUSIVE {
            Some(BoundedUsize { value: number })
        } else {
            None
        }
    }

    /// The number held.
    pub fn get(&self) -> (r: usize)
        ensures
            r == self.value(),
            r <= MAX_INCLUSIVE,
    {
        proof {
            use_type_invariant(self);
        }
        self.value
    }
}

/// Implemented by anything that wants interrupts delivered to it.
pub trait IRQHandler {
    /// What the handler promises of a result `r` of [`IRQHandler::handle`].
    spec fn handle_ensures(&self, r: Result<(), &'static str>) -> bool;

    /// Services the interrupt; an error names what went wrong.
    fn handle(&self) -> (r: Result<(), &'static str>)
        ensures
            self.handle_ensures(r),
    ;
}

/// A handler together with the interrupt number it serves and a label for it.
pub struct IRQHandlerDescriptor<T, H> {
    number: T,
    name: &'static str,
    handler: H,
}

impl<T: Copy, H> IRQHandlerDescriptor<T, H> {
    /// The interrupt number served.
    pub closed spec fn number_spec(&self) -> T {
        self.number
    }

    /// The label.
    pub closed spec fn name_spec(&self) -> &'static str {
        self.name
    }

    /// The handler.
    pub closed spec fn handler_spec(&self) -> H {
        self.handler
    }

    /// Pairs `handler` with the number it serves and its label.
    pub fn new(number: T, name: &'static str, handler: H) -> (r: Self)
        ensures
            r.number_spec() == number,
            r.name_spec() == name,
            r.handler_spec() == handler,
    {
        IRQHandlerDescriptor { number, name, handler }
    }

    /// The interrupt number served.
    pub fn number(&self) -> (r: T)
        ensures
            r == self.number_spec(),
    {
        self.number
    }

    /// The label.
    pub fn name(&self) -> (r: &'static str)
        ensures
            r == self.name_spec(),
    {
        self.name
    }

    /// The handler.
    pub fn handler(&self) -> (r: &H)
        ensures
            *r == self.handler_spec(),
    {
        &self.handler
    }
}

} // verus!
