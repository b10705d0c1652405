use vstd::prelude::*;

verus! {

#[verifier::external_type_specification]
#[verifier::external_body]
pub struct ExUuid(uuid::Uuid);

/// Relies on `uuid::Uuid::new_v4`: a random identifier; nothing is promised of its value.
pub assume_specification[ uuid::Uuid::new_v4 ]() -> uuid::Uuid;

/// Relies on the `Clone` that `uuid::Uuid` derives beside `Copy`: the clone is the
/// same identifier.
pub assume_specification[ <uuid::Uuid as Clone>::clone ](u: &uuid::Uuid) -> (r: uuid::Uuid)
    ensures
        r == *u,
;

} // verus!
