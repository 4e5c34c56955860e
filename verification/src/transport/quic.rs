//! QUIC: one bidirectional stream per connection. Binding and connecting are
//! I/O and happen outside the verified library.
use vstd::prelude::*;

verus! {

/// The QUIC listener kind.
pub struct Endpoint {}

/// The QUIC connector kind.
pub struct Connection {}

} // verus!
