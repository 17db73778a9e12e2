use vstd::prelude::*;

verus! {

/// The readiness that futures reports for one poll; its variants are
/// matched on in verified code.
#[verifier::external_type_specification]
#[verifier::reject_recursive_types(T)]
pub struct ExAsync<T>(futures::Async<T>);

} // verus!
