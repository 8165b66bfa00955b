//! The database library's error type, as the verifier sees it.
use vstd::prelude::*;

use diesel::result::Error as DbError;

verus! {

#[verifier::external_type_specification]
#[verifier::external_body]
pub struct ExDbError(DbError);

} // verus!
