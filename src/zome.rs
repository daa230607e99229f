//! Zome callbacks that work on plain values alone: greetings, an age gate and
//! validation hooks that accept everything.

use vstd::prelude::*;
use vstd::string::*;

verus! {

/// Error a zome function hands back to its caller.
pub enum ZomeError {
    /// A failure raised by the zome itself, with its message.
    Guest(String),
}

/// Outcome of a validation callback.
pub enum ValidateCallbackResult {
    Valid,
    Invalid(String),
}

pub open spec fn greeting(name: Seq<char>) -> Seq<char> {
    "Hello "@ + name + "!"@
}

/// The age from which the restricted film may be watched.
pub const ADULT_AGE: u32 = 18;

/// Set-up hook: nothing to prepare, so it always succeeds.
pub fn init() -> (r: Result<(), ZomeError>)
    ensures
        r is Ok,
{
    Ok(())
}

/// Agent validation hook: every agent is admitted.
pub fn validate_agent() -> (r: Result<(), ZomeError>)
    ensures
        r is Ok,
{
    Ok(())
}

/// Operation validation hook: every operation is valid.
pub fn validate() -> (r: Result<ValidateCallbackResult, ZomeError>)
    ensures
        r matches Ok(ValidateCallbackResult::Valid),
{
    Ok(ValidateCallbackResult::Valid)
}

/// Returns the fixed greeting `Hello Holo`.
pub fn hello_holo() -> (r: Result<String, ZomeError>)
    ensures
        r matches Ok(s) && s@ == "Hello Holo"@,
{
    Ok(String::from_str("Hello Holo"))
}

/// Greets `name`: `Hello <name>!`.
pub fn say_hello(name: String) -> (r: Result<String, ZomeError>)
    ensures
        r matches Ok(s) && s@ == greeting(name@),
{
    let mut s = String::from_str("Hello ");
    s.append(name.as_str());
    s.append("!");
    Ok(s)
}

/// Admits a viewer of the given age to the restricted film only from
/// `ADULT_AGE` on.
pub fn check_age_for_18a_movie(age: u32) -> (r: Result<(), ZomeError>)
    ensures
        r is Ok <==> age >= ADULT_AGE,
        r matches Err(ZomeError::Guest(m)) ==> m@ == "You are too young to watch this movie."@,
{
    if age >= ADULT_AGE {
        return Ok(());
    }
    Err(ZomeError::Guest(String::from_str("You are too young to watch this movie.")))
}

} // verus!
