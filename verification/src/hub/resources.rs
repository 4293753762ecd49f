//! The hub's command executors for the command UART.
use vstd::prelude::*;
use crate::shared::{hello, lol, same_command, spec_hello, spec_lol, spec_unknown_command, spec_wow, wow};

verus! {

/// The hub's command table: `hello…` is echoed, `lol…` answered `wow…`.
pub open spec fn spec_hub_table(command: Seq<u8>) -> Option<Seq<u8>> {
    if command == spec_hello() {
        Some(spec_hello())
    } else if command == spec_lol() {
        Some(spec_wow())
    } else {
        None
    }
}

/// Executor between the computer and the hub: answers a known command from
/// the table and refuses any other.
pub fn executor0(input: [u8; 16]) -> (r: Result<[u8; 16], &'static str>)
    ensures
        match r {
            Ok(out) => spec_hub_table(input@) == Some(out@),
            Err(e) => spec_hub_table(input@) is None && e@ == spec_unknown_command(),
        },
        input@ == spec_hello() ==> r == Ok::<[u8; 16], &'static str>(input),
        input@ == spec_lol() ==> (r matches Ok(out) && out@ == spec_wow()),
        input@ != spec_hello() && input@ != spec_lol() ==> (r matches Err(e) && e@ == "Negative number!"@),
{
    if same_command(&input, &hello()) {
        return Ok(input);
    }
    if same_command(&input, &lol()) {
        return Ok(wow());
    }
    Err("Negative number!")
}

/// Executor between the sensor station and the hub: passes every command on.
pub fn executor1(input: [u8; 16]) -> (r: Result<[u8; 16], &'static str>)
    ensures
        r == Ok::<[u8; 16], &'static str>(input),
{
    Ok(input)
}

} // verus!
