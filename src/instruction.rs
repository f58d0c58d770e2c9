use vstd::prelude::*;
use crate::meta_list::execute_discriminator;
use spl_transfer_hook_interface::instruction::TransferHookInstruction as Ix;

verus! {

/// The instructions of the transfer-hook interface, as the dispatch adapter sees them.
#[derive(Clone, Copy, Debug, PartialEq, Eq, Structural)]
pub enum HookInstruction {
    /// Run the hook for a transfer of `amount`.
    Execute { amount: u64 },
    /// Register the extra-account list through the interface.
    InitializeExtraAccountMetaList,
    /// Replace the extra-account list through the interface.
    UpdateExtraAccountMetaList,
}

/// Little-endian value of eight bytes.
pub open spec fn le64(b: Seq<u8>) -> int {
    b[0] + b[1] * 0x100 + b[2] * 0x10000 + b[3] * 0x1000000 + b[4] * 0x100000000 + b[5]
        * 0x10000000000 + b[6] * 0x1000000000000 + b[7] * 0x100000000000000
}

/// The amount of an execute instruction: its discriminator, then the amount in eight
/// little-endian bytes (later bytes are ignored).
pub open spec fn execute_amount(data: Seq<u8>) -> Option<u64> {
    if data.len() >= 16 && data.subrange(0, 8) == execute_discriminator() {
        Some(le64(data.subrange(8, 16)) as u64)
    } else {
        None
    }
}

/// Data that does not start with the execute discriminator is never taken for an
/// execute instruction.
pub proof fn lemma_other_tags_rejected(data: Seq<u8>)
    requires
        data.len() < 8 || data.subrange(0, 8) != execute_discriminator(),
    ensures
        execute_amount(data) is None,
{
}

/// Relies on TransferHookInstruction::unpack, on data that starts with the execute
/// discriminator: with eight more bytes it is Execute with those bytes read little-endian,
/// else an error. (Other discriminators are kept out: unpack can panic on a list
/// instruction whose item count exceeds its bytes.)
#[verifier::external_body]
fn unpack_instruction(data: &[u8]) -> (r: Option<HookInstruction>)
    requires
        data@.len() >= 8,
        data@.subrange(0, 8) == execute_discriminator(),
    ensures
        r matches Some(HookInstruction::Execute { amount }) ==> execute_amount(data@) == Some(
            amount,
        ),
        execute_amount(data@) matches Some(amount) ==> r == Some(
            HookInstruction::Execute { amount },
        ),
{
    match Ix::unpack(data) {
        Ok(Ix::Execute { amount }) => Some(HookInstruction::Execute { amount }),
        Ok(Ix::InitializeExtraAccountMetaList { .. }) => Some(HookInstruction::InitializeExtraAccountMetaList),
        Ok(Ix::UpdateExtraAccountMetaList { .. }) => Some(HookInstruction::UpdateExtraAccountMetaList),
        Err(_) => None,
    }
}

fn execute_tag_byte(i: usize) -> (r: u8)
    requires
        i < 8,
    ensures
        r == execute_discriminator()[i as int],
{
    let tag: [u8; 8] = [105, 37, 101, 197, 75, 251, 102, 26];
    assert(tag@ =~= execute_discriminator());
    tag[i]
}

/// Decodes instruction data into the amount of an execute instruction, if it is one.
pub fn decode_execute(data: &[u8]) -> (r: Option<u64>)
    ensures
        r == execute_amount(data@),
{
    if data.len() < 8 {
        return None;
    }
    let mut i: usize = 0;
    while i < 8
        invariant
            i <= 8 <= data@.len(),
            forall|j: int| 0 <= j < i ==> data@[j] == #[trigger] execute_discriminator()[j],
        decreases 8 - i,
    {
        if data[i] != execute_tag_byte(i) {
            return None;
        }
        i = i + 1;
    }
    assert(data@.subrange(0, 8) =~= execute_discriminator());
    match unpack_instruction(data) {
        Some(HookInstruction::Execute { amount }) => Some(amount),
        _ => None,
    }
}

} // verus!
