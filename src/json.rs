use vstd::prelude::*;

verus! {

/// A value that crosses process boundaries as JSON text rather than in the
/// default binary encoding.
#[derive(Debug, Clone, PartialEq, Eq, PartialOrd, Ord)]
pub struct Json<T>(pub T);

} // verus!
