//! The escrow record kept in the escrow account, and its byte layout.
//!
//! The layout is the fields in declaration order: the two keys as 32 raw
//! bytes each, the amount as 8 little-endian bytes, the status as one tag
//! byte (its position among the variants), the 32 description bytes and the
//! two bump bytes: 107 bytes in all.

use vstd::prelude::*;
use vstd::bytes::{lemma_auto_spec_u64_to_from_le_bytes, spec_u64_from_le_bytes, spec_u64_to_le_bytes, u64_from_le_bytes, u64_to_le_bytes};
use vstd::slice::slice_subrange;
use crate::bytes::{push_bytes, push_key, read_key};

verus! {

/// Where an escrow stands in its lifecycle.
#[derive(Clone, Copy, Debug, PartialEq, Eq, Structural)]
pub enum EscrowStatus {
    /// Created but not yet funded.
    Initialized,
    /// The depositor has sent the funds to the vault.
    Funded,
    /// The funds went to the recipient.
    Released,
    /// The escrow was called off and the depositor got the funds back.
    Cancelled,
    /// One party raised a dispute.
    Disputed,
}

impl EscrowStatus {
    /// The tag byte of a status: its position among the variants.
    pub open spec fn tag(self) -> u8 {
        match self {
            EscrowStatus::Initialized => 0,
            EscrowStatus::Funded => 1,
            EscrowStatus::Released => 2,
            EscrowStatus::Cancelled => 3,
            EscrowStatus::Disputed => 4,
        }
    }

    /// The status that a tag byte names, if any.
    pub open spec fn from_tag(t: u8) -> Option<EscrowStatus> {
        if t == 0 {
            Some(EscrowStatus::Initialized)
        } else if t == 1 {
            Some(EscrowStatus::Funded)
        } else if t == 2 {
            Some(EscrowStatus::Released)
        } else if t == 3 {
            Some(EscrowStatus::Cancelled)
        } else if t == 4 {
            Some(EscrowStatus::Disputed)
        } else {
            None
        }
    }

    /// The tag byte that encodes this status.
    pub fn to_tag(&self) -> (t: u8)
        ensures
            t == self.tag(),
    {
        match self {
            EscrowStatus::Initialized => 0,
            EscrowStatus::Funded => 1,
            EscrowStatus::Released => 2,
            EscrowStatus::Cancelled => 3,
            EscrowStatus::Disputed => 4,
        }
    }

    /// Reads a tag byte back into a status.
    pub fn try_from_tag(t: u8) -> (r: Option<EscrowStatus>)
        ensures
            r == EscrowStatus::from_tag(t),
    {
        if t == 0 {
            Some(EscrowStatus::Initialized)
        } else if t == 1 {
            Some(EscrowStatus::Funded)
        } else if t == 2 {
            Some(EscrowStatus::Released)
        } else if t == 3 {
            Some(EscrowStatus::Cancelled)
        } else if t == 4 {
            Some(EscrowStatus::Disputed)
        } else {
            None
        }
    }
}

/// Length in bytes of an encoded escrow record.
pub const ESCROW_LEN: usize = 107;

/// The escrow record stored in the escrow account.
#[derive(Clone, Copy, Debug, PartialEq, Eq)]
pub struct Escrow {
    /// The party depositing funds.
    pub depositor: [u8; 32],
    /// The party receiving funds on release.
    pub recipient: [u8; 32],
    /// Agreed escrow amount in lamports.
    pub amount: u64,
    /// Current lifecycle state.
    pub status: EscrowStatus,
    /// Short reference chosen by the depositor.
    pub description: [u8; 32],
    /// Bump seed of the escrow account's program address.
    pub escrow_bump: u8,
    /// Bump seed of the vault's program address.
    pub vault_bump: u8,
}

/// The mathematical value of an escrow record: keys and description as
/// byte sequences.
pub struct EscrowModel {
    pub depositor: Seq<u8>,
    pub recipient: Seq<u8>,
    pub amount: u64,
    pub status: EscrowStatus,
    pub description: Seq<u8>,
    pub escrow_bump: u8,
    pub vault_bump: u8,
}

impl View for Escrow {
    type V = EscrowModel;

    open spec fn view(&self) -> EscrowModel {
        EscrowModel {
            depositor: self.depositor@,
            recipient: self.recipient@,
            amount: self.amount,
            status: self.status,
            description: self.description@,
            escrow_bump: self.escrow_bump,
            vault_bump: self.vault_bump,
        }
    }
}

impl EscrowModel {
    /// Keys and description have their fixed length of 32 bytes.
    pub open spec fn wf(self) -> bool {
        &&& self.depositor.len() == 32
        &&& self.recipient.len() == 32
        &&& self.description.len() == 32
    }

    /// The same record with another status.
    pub open spec fn with_status(self, status: EscrowStatus) -> EscrowModel {
        EscrowModel { status, ..self }
    }
}

/// The bytes of an escrow record.
pub open spec fn spec_encode_escrow(m: EscrowModel) -> Seq<u8> {
    m.depositor + m.recipient + spec_u64_to_le_bytes(m.amount) + seq![m.status.tag()]
        + m.description + seq![m.escrow_bump, m.vault_bump]
}

/// The record that account bytes hold: exactly 107 bytes with a known status
/// tag, and nothing else.
pub open spec fn spec_decode_escrow(b: Seq<u8>) -> Option<EscrowModel> {
    if b.len() != 107 {
        None
    } else {
        match EscrowStatus::from_tag(b[72]) {
            Some(status) => Some(
                EscrowModel {
                    depositor: b.subrange(0, 32),
                    recipient: b.subrange(32, 64),
                    amount: spec_u64_from_le_bytes(b.subrange(64, 72)),
                    status,
                    description: b.subrange(73, 105),
                    escrow_bump: b[105],
                    vault_bump: b[106],
                },
            ),
            None => None,
        }
    }
}

/// The view of an optional record.
pub open spec fn opt_escrow_view(r: Option<Escrow>) -> Option<EscrowModel> {
    match r {
        Some(e) => Some(e@),
        None => None,
    }
}

impl Escrow {
    /// Serializes the record into its 107 bytes.
    pub fn to_bytes(&self) -> (out: Vec<u8>)
        ensures
            out@ == spec_encode_escrow(self@),
            out@.len() == ESCROW_LEN,
            out@.subrange(0, 32) == self.depositor@,
            out@.subrange(32, 64) == self.recipient@,
            out@.subrange(64, 72) == spec_u64_to_le_bytes(self.amount),
            out@[72] == self.status.tag(),
            out@.subrange(73, 105) == self.description@,
            out@[105] == self.escrow_bump,
            out@[106] == self.vault_bump,
    {
        let mut out: Vec<u8> = Vec::new();
        push_key(&mut out, &self.depositor);
        push_key(&mut out, &self.recipient);
        let amount = u64_to_le_bytes(self.amount);
        push_bytes(&mut out, amount.as_slice());
        out.push(self.status.to_tag());
        push_key(&mut out, &self.description);
        out.push(self.escrow_bump);
        out.push(self.vault_bump);
        proof {
            lemma_auto_spec_u64_to_from_le_bytes();
        }
        assert(out@ =~= spec_encode_escrow(self@));
        assert(out@.subrange(0, 32) =~= self.depositor@);
        assert(out@.subrange(32, 64) =~= self.recipient@);
        assert(out@.subrange(64, 72) =~= spec_u64_to_le_bytes(self.amount));
        assert(out@.subrange(73, 105) =~= self.description@);
        out
    }

    /// Reads a record from account bytes; `None` unless the bytes are exactly
    /// one well-formed record.
    pub fn try_from_slice(data: &[u8]) -> (r: Option<Escrow>)
        ensures
            opt_escrow_view(r) == spec_decode_escrow(data@),
            r is Some <==> (data@.len() == 107 && data@[72] <= 4),
            r matches Some(e) ==> {
                &&& e.depositor@ == data@.subrange(0, 32)
                &&& e.recipient@ == data@.subrange(32, 64)
                &&& e.amount == spec_u64_from_le_bytes(data@.subrange(64, 72))
                &&& e.status.tag() == data@[72]
                &&& e.description@ == data@.subrange(73, 105)
                &&& e.escrow_bump == data@[105]
                &&& e.vault_bump == data@[106]
            },
    {
        if data.len() != ESCROW_LEN {
            return None;
        }
        match EscrowStatus::try_from_tag(data[72]) {
            None => None,
            Some(status) => {
                let depositor = read_key(data, 0);
                let recipient = read_key(data, 32);
                let amount = u64_from_le_bytes(slice_subrange(data, 64, 72));
                let description = read_key(data, 73);
                let e = Escrow {
                    depositor,
                    recipient,
                    amount,
                    status,
                    description,
                    escrow_bump: data[105],
                    vault_bump: data[106],
                };
                Some(e)
            },
        }
    }
}

/// Reading back the bytes of a well-formed record gives that record.
pub proof fn lemma_escrow_decode_encode(m: EscrowModel)
    requires
        m.wf(),
    ensures
        spec_decode_escrow(spec_encode_escrow(m)) == Some(m),
{
    lemma_auto_spec_u64_to_from_le_bytes();
    let b = spec_encode_escrow(m);
    let amount = spec_u64_to_le_bytes(m.amount);
    assert(b.len() == 107);
    assert(b[72] == m.status.tag());
    assert(b.subrange(0, 32) =~= m.depositor);
    assert(b.subrange(32, 64) =~= m.recipient);
    assert(b.subrange(64, 72) =~= amount);
    assert(b.subrange(73, 105) =~= m.description);
}

/// Bytes that decode to a record are exactly the bytes of that record: the
/// layout has one encoding per record.
pub proof fn lemma_escrow_encode_decode(b: Seq<u8>)
    requires
        spec_decode_escrow(b) is Some,
    ensures
        spec_decode_escrow(b).unwrap().wf(),
        spec_encode_escrow(spec_decode_escrow(b).unwrap()) == b,
{
    lemma_auto_spec_u64_to_from_le_bytes();
    let m = spec_decode_escrow(b).unwrap();
    assert(b.subrange(64, 72).len() == 8);
    assert(spec_u64_to_le_bytes(m.amount) == b.subrange(64, 72));
    assert(spec_encode_escrow(m) =~= b);
}

} // verus!
