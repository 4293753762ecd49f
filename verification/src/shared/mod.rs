pub mod data;
pub mod uart;
pub mod adv;

use vstd::prelude::*;

verus! {

/// Size of one command on the command UART.
pub const BUF_SIZE: usize = 16;

/// Capacity of the pipe between the command reader and writer.
pub const PIPE_SIZE: usize = 128;

/// Receive FIFO threshold of the command UART.
pub const UART_SIZE: usize = 128;

/// End-of-transmission character of the command UART: carriage return.
pub const AT_CMD: u8 = 0x0D;

/// The error that a command executor answers an unknown command with.
pub open spec fn spec_unknown_command() -> Seq<char> {
    "Negative number!"@
}

/// Whether two commands are the same bytes.
pub fn same_command(a: &[u8; 16], b: &[u8; 16]) -> (r: bool)
    ensures
        r == (a@ == b@),
{
    for i in 0..16
        invariant
            forall|j: int| 0 <= j < i ==> a@[j] == b@[j],
    {
        if a[i] != b[i] {
            return false;
        }
    }
    assert(a@ =~= b@);
    true
}

/// The command `hello00000000000`.
pub open spec fn spec_hello() -> Seq<u8> {
    seq![104u8, 101, 108, 108, 111, 48, 48, 48, 48, 48, 48, 48, 48, 48, 48, 48]
}

/// The command `lol0000000000000`.
pub open spec fn spec_lol() -> Seq<u8> {
    seq![108u8, 111, 108, 48, 48, 48, 48, 48, 48, 48, 48, 48, 48, 48, 48, 48]
}

/// The answer `wow0000000000000`.
pub open spec fn spec_wow() -> Seq<u8> {
    seq![119u8, 111, 119, 48, 48, 48, 48, 48, 48, 48, 48, 48, 48, 48, 48, 48]
}

/// The three commands are the ASCII bytes of their names, 16 each, and
/// all differ.
pub proof fn law_command_bytes_spell_their_names()
    ensures
        spec_hello().len() == 16 && spec_lol().len() == 16 && spec_wow().len() == 16,
        forall|i: int| 0 <= i < 16 ==> spec_hello()[i] as char == #[trigger] "hello00000000000"@[i],
        forall|i: int| 0 <= i < 16 ==> spec_lol()[i] as char == #[trigger] "lol0000000000000"@[i],
        forall|i: int| 0 <= i < 16 ==> spec_wow()[i] as char == #[trigger] "wow0000000000000"@[i],
        spec_hello() != spec_lol() && spec_hello() != spec_wow() && spec_lol() != spec_wow(),
{
    reveal_strlit("hello00000000000");
    reveal_strlit("lol0000000000000");
    reveal_strlit("wow0000000000000");
    assert(spec_hello()[0] != spec_lol()[0]);
    assert(spec_hello()[0] != spec_wow()[0]);
    assert(spec_lol()[0] != spec_wow()[0]);
}

/// The bytes of `hello00000000000`.
pub fn hello() -> (r: [u8; 16])
    ensures
        r@ == spec_hello(),
{
    let r = [104u8, 101, 108, 108, 111, 48, 48, 48, 48, 48, 48, 48, 48, 48, 48, 48];
    assert(r@ =~= spec_hello());
    r
}

/// The bytes of `lol0000000000000`.
pub fn lol() -> (r: [u8; 16])
    ensures
        r@ == spec_lol(),
{
    let r = [108u8, 111, 108, 48, 48, 48, 48, 48, 48, 48, 48, 48, 48, 48, 48, 48];
    assert(r@ =~= spec_lol());
    r
}

/// The bytes of `wow0000000000000`.
pub fn wow() -> (r: [u8; 16])
    ensures
        r@ == spec_wow(),
{
    let r = [119u8, 111, 119, 48, 48, 48, 48, 48, 48, 48, 48, 48, 48, 48, 48, 48];
    assert(r@ =~= spec_wow());
    r
}

} // verus!
