//! TCP: the listener and the connector, for addresses of type `A`. Binding
//! and connecting are I/O and happen outside the verified library.
use std::marker::PhantomData;
use vstd::prelude::*;

verus! {

/// The TCP listener kind, bound to addresses of type `A`.
pub struct Endpoint<A> {
    _phantom: PhantomData<A>,
}

/// The TCP connector kind, connecting to addresses of type `A`.
pub struct Connection<A> {
    _phantom: PhantomData<A>,
}

} // verus!
