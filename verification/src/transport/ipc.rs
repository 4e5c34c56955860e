//! Local sockets and named pipes. Binding and connecting are I/O and happen
//! outside the verified library.
use vstd::prelude::*;

verus! {

/// The IPC listener kind.
pub struct Endpoint {}

/// The IPC connector kind.
pub struct Connection {}

} // verus!
