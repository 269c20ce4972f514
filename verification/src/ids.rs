//! The process-wide unique-id generator: a snowflake-style generator whose
//! ids become the string primary keys of users and wallets. Generation can
//! fail under clock drift or exhaustion; such failures surface as an internal
//! error.

use crate::errors::create_error;
use crate::errors::is_id_generation_error;
use crate::errors::ErrorBody;
use vstd::prelude::*;

verus! {

/// The generator type of the `snowflake_me` crate, opaque to this library:
/// it is constructed by the surrounding process and handed into every
/// request-processing path.
#[verifier::external_type_specification]
#[verifier::external_body]
pub struct ExSnowflake(snowflake_me::Snowflake);

/// Relies on `snowflake_me::Snowflake::next_id`: it returns a fresh id or an
/// error. The id depends on the clock and the generator's internal counters,
/// so nothing is claimed of its value.
#[verifier::external_body]
fn next_id_string(sf: &snowflake_me::Snowflake) -> (r: Result<String, String>) {
    match sf.next_id() {
        Ok(id) => Ok(id.to_string()),
        Err(err) => Err(err.to_string()),
    }
}

/// Draws a fresh id from the generator, shaping a generator failure into the
/// uniform error envelope.
pub fn generate_id(sf: &snowflake_me::Snowflake) -> (r: Result<String, ErrorBody>)
    ensures
        r matches Err(e) ==> is_id_generation_error(e),
{
    match next_id_string(sf) {
        Ok(id) => Ok(id),
        Err(msg) => Err(create_error(500, "Failed to generate id", msg.as_str())),
    }
}

} // verus!
