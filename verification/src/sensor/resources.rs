//! The sensor station's command executor for the command UART.
use vstd::prelude::*;
use crate::shared::{hello, lol, same_command, spec_hello, spec_lol, spec_unknown_command};

verus! {

/// The command handler that both known commands are routed to; it hands
/// the command back as it came.
pub fn dummy(input: [u8; 16]) -> (r: Result<[u8; 16], &'static str>)
    ensures
        r == Ok::<[u8; 16], &'static str>(input),
{
    Ok(input)
}

/// Whether the sensor station's command table routes `command` to a handler
/// (both `hello…` and `lol…` go to [`dummy`]).
pub open spec fn spec_sensor_known(command: Seq<u8>) -> bool {
    command == spec_hello() || command == spec_lol()
}

/// Executor between the hub and the sensor station: runs the handler of a
/// known command, passing its error on, and refuses any other command.
pub fn executor0(input: [u8; 16]) -> (r: Result<[u8; 16], &'static str>)
    ensures
        spec_sensor_known(input@) ==> r == Ok::<[u8; 16], &'static str>(input),
        !spec_sensor_known(input@) ==> (r matches Err(e) && e@ == spec_unknown_command()),
        input@ == spec_hello() || input@ == spec_lol() ==> r == Ok::<[u8; 16], &'static str>(input),
        input@ != spec_hello() && input@ != spec_lol() ==> (r matches Err(e) && e@ == "Negative number!"@),
{
    if same_command(&input, &hello()) || same_command(&input, &lol()) {
        let output = dummy(input)?;
        Ok(output)
    } else {
        Err("Negative number!")
    }
}

} // verus!
