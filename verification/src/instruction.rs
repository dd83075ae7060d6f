//! The instructions of the escrow program and their byte layout.
//!
//! An instruction is one tag byte, its variant's position, followed by the
//! variant's fields: `Initialize` carries the amount as 8 little-endian bytes
//! and 32 description bytes, `Resolve` one byte that is 0 (refund the
//! depositor) or 1 (pay the recipient), the others nothing. Instruction data
//! must be exactly one instruction, with no byte left over.
//!
//! | Web2 REST endpoint        | Instruction |
//! |---------------------------|-------------|
//! | POST /escrow              | Initialize  |
//! | POST /escrow/:id/fund     | Fund        |
//! | POST /escrow/:id/release  | Release     |
//! | POST /escrow/:id/dispute  | Dispute     |
//! | POST /escrow/:id/resolve  | Resolve     |
//! | DELETE /escrow/:id        | Cancel      |

use vstd::prelude::*;
use vstd::bytes::{
    lemma_auto_spec_u64_to_from_le_bytes, spec_u64_from_le_bytes, spec_u64_to_le_bytes,
    u64_from_le_bytes, u64_to_le_bytes,
};
use vstd::slice::slice_subrange;
use crate::bytes::{push_bytes, push_key, read_key};

verus! {

/// An instruction of the escrow program.
#[derive(Clone, Copy, Debug, PartialEq, Eq)]
pub enum EscrowInstruction {
    /// Create a new escrow.
    /// Accounts: [depositor (signer), recipient, escrow_pda, vault_pda, system_program]
    Initialize { amount: u64, description: [u8; 32] },
    /// Fund the escrow with the agreed amount.
    /// Accounts: [depositor (signer), escrow_pda, vault_pda, system_program]
    Fund,
    /// Release funds to recipient. Depositor authorizes.
    /// Accounts: [depositor (signer), recipient, escrow_pda, vault_pda], then
    /// optionally the system program.
    Release,
    /// Raise a dispute. Either party can call this.
    /// Accounts: [disputer (signer), escrow_pda]
    Dispute,
    /// Resolve a dispute. Currently depositor acts as arbiter.
    /// Accounts: [arbiter (signer), depositor, recipient, escrow_pda, vault_pda],
    /// then optionally the system program.
    Resolve { release_to_recipient: bool },
    /// Cancel an unfunded escrow and reclaim rent.
    /// Accounts: [depositor (signer), escrow_pda, vault_pda]
    Cancel,
}

/// The mathematical value of an instruction: the description as a byte
/// sequence.
pub enum InstructionModel {
    Initialize { amount: u64, description: Seq<u8> },
    Fund,
    Release,
    Dispute,
    Resolve { release_to_recipient: bool },
    Cancel,
}

impl View for EscrowInstruction {
    type V = InstructionModel;

    open spec fn view(&self) -> InstructionModel {
        match *self {
            EscrowInstruction::Initialize { amount, description } => InstructionModel::Initialize {
                amount,
                description: description@,
            },
            EscrowInstruction::Fund => InstructionModel::Fund,
            EscrowInstruction::Release => InstructionModel::Release,
            EscrowInstruction::Dispute => InstructionModel::Dispute,
            EscrowInstruction::Resolve { release_to_recipient } => InstructionModel::Resolve {
                release_to_recipient,
            },
            EscrowInstruction::Cancel => InstructionModel::Cancel,
        }
    }
}

impl InstructionModel {
    /// The description, where there is one, has its fixed length of 32 bytes.
    pub open spec fn wf(self) -> bool {
        match self {
            InstructionModel::Initialize { description, .. } => description.len() == 32,
            _ => true,
        }
    }
}

/// The bytes of an instruction.
pub open spec fn spec_encode_instruction(i: InstructionModel) -> Seq<u8> {
    match i {
        InstructionModel::Initialize { amount, description } => seq![0u8] + spec_u64_to_le_bytes(
            amount,
        ) + description,
        InstructionModel::Fund => seq![1u8],
        InstructionModel::Release => seq![2u8],
        InstructionModel::Dispute => seq![3u8],
        InstructionModel::Resolve { release_to_recipient } => seq![
            4u8,
            if release_to_recipient {
                1u8
            } else {
                0u8
            },
        ],
        InstructionModel::Cancel => seq![5u8],
    }
}

/// The instruction that instruction data holds, if it holds exactly one.
pub open spec fn spec_decode_instruction(b: Seq<u8>) -> Option<InstructionModel> {
    if b.len() == 0 {
        None
    } else if b[0] == 0 {
        if b.len() == 41 {
            Some(
                InstructionModel::Initialize {
                    amount: spec_u64_from_le_bytes(b.subrange(1, 9)),
                    description: b.subrange(9, 41),
                },
            )
        } else {
            None
        }
    } else if b[0] == 4 {
        if b.len() == 2 && b[1] <= 1 {
            Some(InstructionModel::Resolve { release_to_recipient: b[1] == 1 })
        } else {
            None
        }
    } else if b.len() != 1 {
        None
    } else if b[0] == 1 {
        Some(InstructionModel::Fund)
    } else if b[0] == 2 {
        Some(InstructionModel::Release)
    } else if b[0] == 3 {
        Some(InstructionModel::Dispute)
    } else if b[0] == 5 {
        Some(InstructionModel::Cancel)
    } else {
        None
    }
}

/// The view of an optional instruction.
pub open spec fn opt_instruction_view(r: Option<EscrowInstruction>) -> Option<InstructionModel> {
    match r {
        Some(i) => Some(i@),
        None => None,
    }
}

impl EscrowInstruction {
    /// Serializes the instruction into instruction data.
    pub fn to_bytes(&self) -> (out: Vec<u8>)
        ensures
            out@ == spec_encode_instruction(self@),
            self matches EscrowInstruction::Initialize { amount, description } ==> out@ == seq![0u8]
                + spec_u64_to_le_bytes(*amount) + description@,
            *self == EscrowInstruction::Fund ==> out@ == seq![1u8],
            *self == EscrowInstruction::Release ==> out@ == seq![2u8],
            *self == EscrowInstruction::Dispute ==> out@ == seq![3u8],
            *self == (EscrowInstruction::Resolve { release_to_recipient: true }) ==> out@ == seq![4u8, 1u8],
            *self == (EscrowInstruction::Resolve { release_to_recipient: false }) ==> out@ == seq![
                4u8,
                0u8,
            ],
            *self == EscrowInstruction::Cancel ==> out@ == seq![5u8],
    {
        let mut out: Vec<u8> = Vec::new();
        match self {
            EscrowInstruction::Initialize { amount, description } => {
                out.push(0u8);
                let le = u64_to_le_bytes(*amount);
                push_bytes(&mut out, le.as_slice());
                push_key(&mut out, description);
            },
            EscrowInstruction::Fund => {
                out.push(1u8);
            },
            EscrowInstruction::Release => {
                out.push(2u8);
            },
            EscrowInstruction::Dispute => {
                out.push(3u8);
            },
            EscrowInstruction::Resolve { release_to_recipient } => {
                out.push(4u8);
                out.push(
                    if *release_to_recipient {
                        1u8
                    } else {
                        0u8
                    },
                );
            },
            EscrowInstruction::Cancel => {
                out.push(5u8);
            },
        }
        assert(out@ =~= spec_encode_instruction(self@));
        out
    }

    /// Reads instruction data; `None` unless it is exactly one instruction.
    pub fn try_from_slice(data: &[u8]) -> (r: Option<EscrowInstruction>)
        ensures
            opt_instruction_view(r) == spec_decode_instruction(data@),
            (data@.len() == 41 && data@[0] == 0) <==> r matches Some(
                EscrowInstruction::Initialize { .. },
            ),
            r matches Some(EscrowInstruction::Initialize { amount, description }) ==> amount
                == spec_u64_from_le_bytes(data@.subrange(1, 9)) && description@ == data@.subrange(9, 41),
            r == Some(EscrowInstruction::Fund) <==> data@ == seq![1u8],
            r == Some(EscrowInstruction::Release) <==> data@ == seq![2u8],
            r == Some(EscrowInstruction::Dispute) <==> data@ == seq![3u8],
            r == Some(EscrowInstruction::Resolve { release_to_recipient: true }) <==> data@ == seq![4u8, 1u8],
            r == Some(EscrowInstruction::Resolve { release_to_recipient: false }) <==> data@ == seq![
                4u8,
                0u8,
            ],
            r == Some(EscrowInstruction::Cancel) <==> data@ == seq![5u8],
    {
        let n = data.len();
        proof {
            if data@.len() == 1 {
                assert(data@ =~= seq![data@[0]]);
            }
            if data@.len() == 2 {
                assert(data@ =~= seq![data@[0], data@[1]]);
            }
        }
        if n == 0 {
            return None;
        }
        let tag = data[0];
        if tag == 0 {
            if n == 41 {
                let amount = u64_from_le_bytes(slice_subrange(data, 1, 9));
                let description = read_key(data, 9);
                Some(EscrowInstruction::Initialize { amount, description })
            } else {
                None
            }
        } else if tag == 4 {
            if n == 2 && data[1] <= 1 {
                Some(EscrowInstruction::Resolve { release_to_recipient: data[1] == 1 })
            } else {
                None
            }
        } else if n != 1 {
            None
        } else if tag == 1 {
            Some(EscrowInstruction::Fund)
        } else if tag == 2 {
            Some(EscrowInstruction::Release)
        } else if tag == 3 {
            Some(EscrowInstruction::Dispute)
        } else if tag == 5 {
            Some(EscrowInstruction::Cancel)
        } else {
            None
        }
    }
}

/// Reading back the bytes of a well-formed instruction gives that
/// instruction.
pub proof fn lemma_instruction_decode_encode(i: InstructionModel)
    requires
        i.wf(),
    ensures
        spec_decode_instruction(spec_encode_instruction(i)) == Some(i),
{
    lemma_auto_spec_u64_to_from_le_bytes();
    let b = spec_encode_instruction(i);
    match i {
        InstructionModel::Initialize { amount, description } => {
            assert(b.subrange(1, 9) =~= spec_u64_to_le_bytes(amount));
            assert(b.subrange(9, 41) =~= description);
        },
        _ => {},
    }
}

/// Instruction data that decodes to an instruction is exactly the bytes of
/// that instruction: the layout has one encoding per instruction.
pub proof fn lemma_instruction_encode_decode(b: Seq<u8>)
    requires
        spec_decode_instruction(b) is Some,
    ensures
        spec_decode_instruction(b).unwrap().wf(),
        spec_encode_instruction(spec_decode_instruction(b).unwrap()) == b,
{
    lemma_auto_spec_u64_to_from_le_bytes();
    let i = spec_decode_instruction(b).unwrap();
    if b[0] == 0 {
        assert(b.subrange(1, 9).len() == 8);
        assert(spec_u64_to_le_bytes(spec_u64_from_le_bytes(b.subrange(1, 9))) == b.subrange(1, 9));
    }
    assert(spec_encode_instruction(i) =~= b);
}

} // verus!
