//! The conditions under which an instruction cannot be carried out.

use vstd::prelude::*;

verus! {

/// Why the interpreter refused an instruction.
///
/// `UnknownOpcode` and `UnknownFunct` mark encodings outside the
/// recognized RV32I set: the first when the 7-bit opcode itself is
/// unknown, the second when the opcode is known but its secondary
/// discriminator (`funct3`, `funct7`, or the immediate's upper bits)
/// is not. `MemoryOutOfBounds` reports a load or store whose byte
/// span falls outside the memory's capacity; the machine state is
/// left untouched. `Unimplemented` marks encodings that are
/// recognized but deliberately not executed here: `ecall`, `ebreak`,
/// the multiply/divide extension, and compressed instructions.
#[derive(Clone, Copy, Debug, PartialEq, Eq, Structural)]
pub enum Fault {
    UnknownOpcode,
    UnknownFunct,
    MemoryOutOfBounds,
    Unimplemented,
}

} // verus!
