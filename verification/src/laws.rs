//! Properties of the program as a whole, stated over the processor's
//! specification and proved from it.

use vstd::prelude::*;
use crate::error::ProcessError;
use crate::instruction::{spec_decode_instruction, InstructionModel};
use crate::pda::spec_try_find_program_address;
use crate::processor::{
    escrow_seeds, record_of, set_balance, spec_process_cancel, spec_process_dispute,
    spec_process_fund, spec_process_initialize, spec_process_instruction, spec_process_resolve,
    vault_seeds, with_bump, AccountSnapshot, EffectModel, Funding,
};
use crate::state::{
    lemma_escrow_decode_encode, lemma_escrow_encode_decode, spec_decode_escrow,
    spec_encode_escrow, EscrowModel, EscrowStatus,
};
use crate::instruction::spec_encode_instruction;
use crate::processor::spec_process_release;
use vstd::bytes::{lemma_auto_spec_u64_to_from_le_bytes, spec_u64_from_le_bytes, spec_u64_to_le_bytes};

verus! {

/// Position of the escrow account among an instruction's accounts.
pub open spec fn escrow_account_of(i: InstructionModel) -> int {
    match i {
        InstructionModel::Initialize { .. } => 2,
        InstructionModel::Fund => 1,
        InstructionModel::Release => 2,
        InstructionModel::Dispute => 1,
        InstructionModel::Resolve { .. } => 3,
        InstructionModel::Cancel => 1,
    }
}

/// The status an accepted instruction leaves the escrow in.
pub open spec fn status_after(i: InstructionModel) -> EscrowStatus {
    match i {
        InstructionModel::Initialize { .. } => EscrowStatus::Initialized,
        InstructionModel::Fund => EscrowStatus::Funded,
        InstructionModel::Release => EscrowStatus::Released,
        InstructionModel::Dispute => EscrowStatus::Disputed,
        InstructionModel::Resolve { release_to_recipient } => if release_to_recipient {
            EscrowStatus::Released
        } else {
            EscrowStatus::Cancelled
        },
        InstructionModel::Cancel => EscrowStatus::Cancelled,
    }
}

/// The arrows of the escrow state machine: Initialized to Funded or
/// Cancelled, Funded to Released or Disputed, Disputed to Released or
/// Cancelled.
pub open spec fn lifecycle_step(from: EscrowStatus, to: EscrowStatus) -> bool {
    ||| from == EscrowStatus::Initialized && to == EscrowStatus::Funded
    ||| from == EscrowStatus::Initialized && to == EscrowStatus::Cancelled
    ||| from == EscrowStatus::Funded && to == EscrowStatus::Released
    ||| from == EscrowStatus::Funded && to == EscrowStatus::Disputed
    ||| from == EscrowStatus::Disputed && to == EscrowStatus::Released
    ||| from == EscrowStatus::Disputed && to == EscrowStatus::Cancelled
}

/// An accepted instruction other than Initialize found a record in the
/// escrow account, moved its status along one arrow of the state machine,
/// kept every other field, and wrote it back as its last effect; the account
/// then reads back as that record.
pub proof fn law_lifecycle(program_id: Seq<u8>, accounts: Seq<AccountSnapshot>, data: Seq<u8>)
    requires
        spec_process_instruction(program_id, accounts, data) is Ok,
        !(spec_decode_instruction(data).unwrap() is Initialize),
    ensures
        ({
            let i = spec_decode_instruction(data).unwrap();
            let k = escrow_account_of(i);
            let effects = spec_process_instruction(program_id, accounts, data)->Ok_0;
            let old = record_of(accounts, k).unwrap();
            let new = old.with_status(status_after(i));
            &&& record_of(accounts, k) is Some
            &&& lifecycle_step(old.status, new.status)
            &&& effects.len() > 0
            &&& effects.last() == (EffectModel::WriteData { account: k, data: spec_encode_escrow(new) })
            &&& spec_decode_escrow(spec_encode_escrow(new)) == Some(new)
        }),
{
    let i = spec_decode_instruction(data).unwrap();
    let k = escrow_account_of(i);
    lemma_escrow_encode_decode(accounts[k].data@);
    let old = record_of(accounts, k).unwrap();
    lemma_escrow_decode_encode(old.with_status(status_after(i)));
}

/// A released or cancelled escrow is settled for good: every instruction but
/// Initialize is refused on it.
pub proof fn law_settled_is_final(program_id: Seq<u8>, accounts: Seq<AccountSnapshot>, data: Seq<u8>)
    requires
        spec_decode_instruction(data) is Some,
        !(spec_decode_instruction(data).unwrap() is Initialize),
        accounts.len() > escrow_account_of(spec_decode_instruction(data).unwrap()),
        record_of(accounts, escrow_account_of(spec_decode_instruction(data).unwrap())) matches Some(
            e,
        ) && (e.status == EscrowStatus::Released || e.status == EscrowStatus::Cancelled),
    ensures
        spec_process_instruction(program_id, accounts, data) is Err,
{
    if spec_process_instruction(program_id, accounts, data) is Ok {
        law_lifecycle(program_id, accounts, data);
    }
}

/// Only a signing party acts on an escrow: the first account of every
/// accepted instruction signed, and it is the depositor recorded in the
/// escrow, or for a dispute the depositor or the recipient.
pub proof fn law_only_parties_act(program_id: Seq<u8>, accounts: Seq<AccountSnapshot>, data: Seq<u8>)
    requires
        spec_process_instruction(program_id, accounts, data) is Ok,
        !(spec_decode_instruction(data).unwrap() is Initialize),
    ensures
        ({
            let i = spec_decode_instruction(data).unwrap();
            let e = record_of(accounts, escrow_account_of(i)).unwrap();
            &&& accounts[0].is_signer
            &&& i is Dispute ==> (accounts[0].key@ == e.depositor || accounts[0].key@ == e.recipient)
            &&& !(i is Dispute) ==> accounts[0].key@ == e.depositor
        }),
{
}

/// Funds move only as the record says. Fund sends exactly the agreed amount
/// from the depositor to the vault at the escrow's program address; Release
/// pays exactly that amount from the vault to the recorded recipient; Resolve
/// pays it from the vault to the recorded recipient or back to the recorded
/// depositor, as asked; both sign with the vault's recorded bump. Dispute
/// moves nothing. Cancel empties only the vault at the escrow's program
/// address, and moves balances only by setting them.
pub proof fn law_funds_follow_the_record(
    program_id: Seq<u8>,
    accounts: Seq<AccountSnapshot>,
    data: Seq<u8>,
)
    requires
        spec_process_instruction(program_id, accounts, data) is Ok,
    ensures
        ({
            let i = spec_decode_instruction(data).unwrap();
            let effects = spec_process_instruction(program_id, accounts, data)->Ok_0;
            let e = record_of(accounts, escrow_account_of(i)).unwrap();
            let vault_signer = with_bump(vault_seeds(accounts[escrow_account_of(i)].key@), e.vault_bump);
            &&& i is Fund ==> {
                &&& effects[0] == EffectModel::Transfer {
                    from: 0,
                    to: 2,
                    system_program: Some(3),
                    lamports: e.amount,
                    signer_seeds: Seq::empty(),
                }
                &&& spec_try_find_program_address(vault_seeds(accounts[1].key@), program_id) matches Some(
                    (pda, _),
                ) && pda == accounts[2].key@
            }
            &&& i is Release ==> {
                &&& effects[0] == EffectModel::Transfer {
                    from: 3,
                    to: 1,
                    system_program: if accounts.len() > 4 { Some(4) } else { None },
                    lamports: e.amount,
                    signer_seeds: vault_signer,
                }
                &&& accounts[1].key@ == e.recipient
            }
            &&& i matches InstructionModel::Resolve { release_to_recipient } ==> {
                &&& effects[0] == EffectModel::Transfer {
                    from: 4,
                    to: if release_to_recipient { 2 } else { 1 },
                    system_program: if accounts.len() > 5 { Some(5) } else { None },
                    lamports: e.amount,
                    signer_seeds: vault_signer,
                }
                &&& release_to_recipient ==> accounts[2].key@ == e.recipient
                &&& !release_to_recipient ==> accounts[1].key@ == e.depositor
            }
            &&& i is Dispute ==> effects.len() == 1
            &&& i is Cancel ==> {
                &&& spec_try_find_program_address(vault_seeds(accounts[1].key@), program_id) matches Some(
                    (pda, _),
                ) && pda == accounts[2].key@
                &&& forall|j: int|
                    0 <= j < effects.len() ==> !(#[trigger] effects[j] is Transfer)
                        && !(effects[j] is CreateAccount)
            }
        }),
{
}

/// An accepted Initialize took a positive amount from a signing depositor,
/// used the escrow account at the program address of ("escrow", depositor,
/// recipient) and the vault at that of ("vault", escrow account), created the
/// escrow account exactly as large as the record it then writes, and that
/// record reads back as a new Initialized escrow with the given terms and
/// both bump seeds; the vault is created empty.
pub proof fn law_initialize_creates_record(
    program_id: Seq<u8>,
    accounts: Seq<AccountSnapshot>,
    amount: u64,
    description: Seq<u8>,
)
    requires
        spec_process_initialize(program_id, accounts, amount, description) is Ok,
        description.len() == 32,
    ensures
        ({
            let effects = spec_process_initialize(program_id, accounts, amount, description)->Ok_0;
            let (escrow_pda, escrow_bump) = spec_try_find_program_address(
                escrow_seeds(accounts[0].key@, accounts[1].key@),
                program_id,
            ).unwrap();
            let (vault_pda, vault_bump) = spec_try_find_program_address(
                vault_seeds(accounts[2].key@),
                program_id,
            ).unwrap();
            let record = EscrowModel {
                depositor: accounts[0].key@,
                recipient: accounts[1].key@,
                amount,
                status: EscrowStatus::Initialized,
                description,
                escrow_bump,
                vault_bump,
            };
            &&& amount > 0
            &&& accounts[0].is_signer
            &&& escrow_pda == accounts[2].key@
            &&& vault_pda == accounts[3].key@
            &&& effects.len() == 3
            &&& effects[0] matches EffectModel::CreateAccount { account, funding, space, .. } && account
                == 2 && funding == Funding::RentExempt && space == spec_encode_escrow(record).len()
            &&& effects[1] == (EffectModel::WriteData { account: 2, data: spec_encode_escrow(record) })
            &&& spec_decode_escrow(spec_encode_escrow(record)) == Some(record)
            &&& effects[2] matches EffectModel::CreateAccount { account, funding, space, .. } && account
                == 3 && funding == Funding::Lamports(0) && space == 0
        }),
{
    let (escrow_pda, escrow_bump) = spec_try_find_program_address(
        escrow_seeds(accounts[0].key@, accounts[1].key@),
        program_id,
    ).unwrap();
    let (vault_pda, vault_bump) = spec_try_find_program_address(
        vault_seeds(accounts[2].key@),
        program_id,
    ).unwrap();
    let record = EscrowModel {
        depositor: accounts[0].key@,
        recipient: accounts[1].key@,
        amount,
        status: EscrowStatus::Initialized,
        description,
        escrow_bump,
        vault_bump,
    };
    lemma_escrow_decode_encode(record);
}

/// Lamport balances, by account key.
pub type Ledger = spec_fn(Seq<u8>) -> int;

/// The ledger after `amount` is added to the balance of `key`.
pub open spec fn credit(ledger: Ledger, key: Seq<u8>, amount: int) -> Ledger {
    |k: Seq<u8>| if k == key { ledger(k) + amount } else { ledger(k) }
}

/// The ledger after the balance of `key` is set to `v`.
pub open spec fn set_balance_of(ledger: Ledger, key: Seq<u8>, v: int) -> Ledger {
    |k: Seq<u8>| if k == key { v } else { ledger(k) }
}

/// Balances after effects that name `accounts` by position: a transfer moves
/// its lamports from one key to the other, a balance setting sets one, and
/// data writes leave balances alone. Account creation, whose rent the
/// runtime fixes, is not counted.
pub open spec fn balances_after(effects: Seq<EffectModel>, accounts: Seq<AccountSnapshot>, ledger: Ledger) -> Ledger
    decreases effects.len(),
{
    if effects.len() == 0 {
        ledger
    } else {
        let rest = balances_after(effects.drop_last(), accounts, ledger);
        match effects.last() {
            EffectModel::Transfer { from, to, lamports, .. } => credit(
                credit(rest, accounts[from].key@, -(lamports as int)),
                accounts[to].key@,
                lamports as int,
            ),
            EffectModel::SetLamports { account, lamports } => set_balance_of(
                rest,
                accounts[account].key@,
                lamports as int,
            ),
            _ => rest,
        }
    }
}

/// Cancelling conserves lamports: when the depositor, escrow and vault are
/// three distinct accounts, the third is the escrow's vault, and the escrow
/// can be cancelled, the cancellation succeeds exactly when their total fits
/// in a balance, and then leaves the whole total with the depositor, the
/// escrow account and the vault empty, and every other balance as it was.
pub proof fn law_cancel_conserves_lamports(
    program_id: Seq<u8>,
    accounts: Seq<AccountSnapshot>,
    ledger: Ledger,
)
    requires
        accounts.len() >= 3,
        accounts[0].key@ != accounts[1].key@,
        accounts[0].key@ != accounts[2].key@,
        accounts[1].key@ != accounts[2].key@,
        accounts[0].is_signer,
        record_of(accounts, 1) matches Some(e) && e.depositor == accounts[0].key@ && e.status
            == EscrowStatus::Initialized,
        spec_try_find_program_address(vault_seeds(accounts[1].key@), program_id) matches Some((pda, _))
            && pda == accounts[2].key@,
        ledger(accounts[0].key@) == accounts[0].lamports,
        ledger(accounts[1].key@) == accounts[1].lamports,
        ledger(accounts[2].key@) == accounts[2].lamports,
    ensures
        ({
            let total = accounts[0].lamports + accounts[1].lamports + accounts[2].lamports;
            let r = spec_process_cancel(program_id, accounts);
            let after = balances_after(r->Ok_0, accounts, ledger);
            &&& r is Ok <==> total <= u64::MAX
            &&& r is Ok ==> {
                &&& after(accounts[0].key@) == total
                &&& after(accounts[1].key@) == 0
                &&& after(accounts[2].key@) == 0
                &&& forall|k: Seq<u8>|
                    k != accounts[0].key@ && k != accounts[1].key@ && k != accounts[2].key@
                        ==> #[trigger] after(k) == ledger(k)
            }
        }),
{
    let k0 = accounts[0].key@;
    let k1 = accounts[1].key@;
    let k2 = accounts[2].key@;
    let l0 = accounts[0].lamports;
    let l1 = accounts[1].lamports;
    let l2 = accounts[2].lamports;
    let keys = seq![k0, k1, k2];
    let balances = seq![l0, l1, l2];
    let e = record_of(accounts, 1).unwrap();
    let write = EffectModel::WriteData {
        account: 1,
        data: spec_encode_escrow(e.with_status(EscrowStatus::Cancelled)),
    };
    let b1 = set_balance(keys, balances, 1, 0);
    assert(b1 =~= seq![l0, 0u64, l2]);
    if l0 + l1 <= u64::MAX {
        let d1 = (l0 + l1) as u64;
        let b2 = set_balance(keys, b1, 0, d1);
        assert(b2 =~= seq![d1, 0u64, l2]);
        let first = seq![
            EffectModel::SetLamports { account: 1, lamports: 0 },
            EffectModel::SetLamports { account: 0, lamports: d1 },
        ];
        assert(first.drop_last().drop_last() =~= Seq::<EffectModel>::empty());
        assert(first.drop_last() =~= seq![EffectModel::SetLamports { account: 1, lamports: 0 }]);
        assert(balances_after(first.drop_last().drop_last(), accounts, ledger) == ledger);
        let m0 = balances_after(first.drop_last(), accounts, ledger);
        assert(m0 =~= set_balance_of(ledger, k1, 0));
        let m1 = balances_after(first, accounts, ledger);
        assert(m1 == set_balance_of(m0, k0, d1 as int));
        if l2 == 0 {
            let effects = first.push(write);
            assert(spec_process_cancel(program_id, accounts)->Ok_0 == effects);
            assert(effects.drop_last() =~= first);
            assert(balances_after(effects, accounts, ledger) == m1);
        } else {
            let b3 = set_balance(keys, b2, 2, 0);
            assert(b3 =~= seq![d1, 0u64, 0u64]);
            if d1 + l2 <= u64::MAX {
                let d2 = (d1 + l2) as u64;
                let refund = first + seq![
                    EffectModel::SetLamports { account: 2, lamports: 0 },
                    EffectModel::SetLamports { account: 0, lamports: d2 },
                ];
                let effects = refund.push(write);
                assert(spec_process_cancel(program_id, accounts)->Ok_0 == effects);
                assert(effects.drop_last() =~= refund);
                assert(refund.drop_last().drop_last() =~= first);
                assert(refund.drop_last() =~= first.push(EffectModel::SetLamports { account: 2, lamports: 0 }));
                let m2 = balances_after(refund.drop_last(), accounts, ledger);
                assert(m2 == set_balance_of(m1, k2, 0));
                assert(balances_after(refund.drop_last().drop_last(), accounts, ledger) == m1);
                assert(balances_after(refund, accounts, ledger) == set_balance_of(m2, k0, d2 as int));
                assert(balances_after(effects, accounts, ledger) == set_balance_of(m2, k0, d2 as int));
            }
        }
    }
}

/// A refund undoes the funding: when an escrow account is funded, disputed,
/// and resolved in the depositor's favour, with the funded vault passed to
/// the resolution, every balance ends where it was before the funding.
pub proof fn law_refund_restores_balances(
    program_id: Seq<u8>,
    fund_accounts: Seq<AccountSnapshot>,
    dispute_accounts: Seq<AccountSnapshot>,
    resolve_accounts: Seq<AccountSnapshot>,
    ledger: Ledger,
)
    requires
        spec_process_fund(program_id, fund_accounts) is Ok,
        spec_process_dispute(dispute_accounts) is Ok,
        spec_process_resolve(resolve_accounts, false) is Ok,
        dispute_accounts[1].key@ == fund_accounts[1].key@,
        resolve_accounts[3].key@ == fund_accounts[1].key@,
        record_of(dispute_accounts, 1) == Some(
            record_of(fund_accounts, 1).unwrap().with_status(EscrowStatus::Funded),
        ),
        record_of(resolve_accounts, 3) == Some(
            record_of(fund_accounts, 1).unwrap().with_status(EscrowStatus::Disputed),
        ),
        resolve_accounts[4].key@ == fund_accounts[2].key@,
    ensures
        balances_after(
            spec_process_resolve(resolve_accounts, false)->Ok_0,
            resolve_accounts,
            balances_after(
                spec_process_dispute(dispute_accounts)->Ok_0,
                dispute_accounts,
                balances_after(spec_process_fund(program_id, fund_accounts)->Ok_0, fund_accounts, ledger),
            ),
        ) == ledger,
{
    let e = record_of(fund_accounts, 1).unwrap();
    let a = e.amount as int;
    let d = fund_accounts[0].key@;
    let v = fund_accounts[2].key@;
    let fund = spec_process_fund(program_id, fund_accounts)->Ok_0;
    let dispute = spec_process_dispute(dispute_accounts)->Ok_0;
    let resolve = spec_process_resolve(resolve_accounts, false)->Ok_0;
    assert(fund.drop_last().drop_last() =~= Seq::<EffectModel>::empty());
    assert(fund.drop_last() =~= seq![fund[0]]);
    let l1 = balances_after(fund, fund_accounts, ledger);
    assert(balances_after(fund.drop_last().drop_last(), fund_accounts, ledger) == ledger);
    assert(balances_after(fund.drop_last(), fund_accounts, ledger) == credit(credit(ledger, d, -a), v, a));
    assert(l1 == credit(credit(ledger, d, -a), v, a));
    assert(dispute.drop_last() =~= Seq::<EffectModel>::empty());
    let l2 = balances_after(dispute, dispute_accounts, l1);
    assert(balances_after(dispute.drop_last(), dispute_accounts, l1) == l1);
    assert(l2 == l1);
    assert(resolve.drop_last().drop_last() =~= Seq::<EffectModel>::empty());
    assert(resolve.drop_last() =~= seq![resolve[0]]);
    let l3 = balances_after(resolve, resolve_accounts, l2);
    assert(resolve_accounts[1].key@ == d);
    assert(balances_after(resolve.drop_last().drop_last(), resolve_accounts, l2) == l2);
    assert(balances_after(resolve.drop_last(), resolve_accounts, l2) == credit(credit(l2, v, -a), d, a));
    assert(l3 == credit(credit(l1, v, -a), d, a));
    assert(l3 =~= ledger);
}

/// Instruction data that is not exactly one instruction is refused as
/// invalid instruction data, whatever the accounts.
pub proof fn law_malformed_data_refused(program_id: Seq<u8>, accounts: Seq<AccountSnapshot>, data: Seq<u8>)
    requires
        spec_decode_instruction(data) is None,
    ensures
        spec_process_instruction(program_id, accounts, data) == Err::<Seq<EffectModel>, ProcessError>(
            ProcessError::InvalidInstructionData,
        ),
{
}

// ------------------------------------------------------------ Wire formats

/// The tag byte of each status is its position among the variants, and a
/// tag byte past the last variant names none.
pub proof fn law_status_tags(t: u8)
    ensures
        EscrowStatus::Initialized.tag() == 0,
        EscrowStatus::Funded.tag() == 1,
        EscrowStatus::Released.tag() == 2,
        EscrowStatus::Cancelled.tag() == 3,
        EscrowStatus::Disputed.tag() == 4,
        t <= 4 ==> EscrowStatus::from_tag(t) is Some && EscrowStatus::from_tag(t).unwrap().tag() == t,
        t > 4 ==> EscrowStatus::from_tag(t) is None,
{
}

/// The bytes of a record are its fields in declaration order: the depositor
/// key as bytes 0..32, the recipient key as 32..64, the amount's
/// little-endian bytes as 64..72, the status tag at 72, the description as
/// 73..105 and the two bump seeds at 105 and 106.
pub proof fn law_escrow_layout(m: EscrowModel)
    requires
        m.wf(),
    ensures
        ({
            let b = spec_encode_escrow(m);
            &&& b.len() == 107
            &&& b.subrange(0, 32) == m.depositor
            &&& b.subrange(32, 64) == m.recipient
            &&& b.subrange(64, 72) == spec_u64_to_le_bytes(m.amount)
            &&& b[72] == m.status.tag()
            &&& b.subrange(73, 105) == m.description
            &&& b[105] == m.escrow_bump
            &&& b[106] == m.vault_bump
        }),
{
    lemma_auto_spec_u64_to_from_le_bytes();
    let b = spec_encode_escrow(m);
    assert(b.subrange(0, 32) =~= m.depositor);
    assert(b.subrange(32, 64) =~= m.recipient);
    assert(b.subrange(64, 72) =~= spec_u64_to_le_bytes(m.amount));
    assert(b.subrange(73, 105) =~= m.description);
}

/// Account bytes hold a record exactly when they are 107 bytes with a known
/// status tag at 72, and then the record's fields are read from the same
/// positions, in order.
pub proof fn law_escrow_reading(b: Seq<u8>)
    ensures
        spec_decode_escrow(b) is Some <==> (b.len() == 107 && b[72] <= 4),
        spec_decode_escrow(b) matches Some(m) ==> {
            &&& m.depositor == b.subrange(0, 32)
            &&& m.recipient == b.subrange(32, 64)
            &&& m.amount == spec_u64_from_le_bytes(b.subrange(64, 72))
            &&& m.status.tag() == b[72]
            &&& m.description == b.subrange(73, 105)
            &&& m.escrow_bump == b[105]
            &&& m.vault_bump == b[106]
        },
{
}

/// The bytes of each instruction: the tag byte 0 to 5 in variant order, then
/// for Initialize the amount's little-endian bytes and the 32 description
/// bytes in order, for Resolve one byte 1 (pay the recipient) or 0 (refund).
pub proof fn law_instruction_layout(amount: u64, description: Seq<u8>, release_to_recipient: bool)
    ensures
        spec_encode_instruction(InstructionModel::Initialize { amount, description }) == seq![0u8]
            + spec_u64_to_le_bytes(amount) + description,
        spec_encode_instruction(InstructionModel::Fund) == seq![1u8],
        spec_encode_instruction(InstructionModel::Release) == seq![2u8],
        spec_encode_instruction(InstructionModel::Dispute) == seq![3u8],
        spec_encode_instruction(InstructionModel::Resolve { release_to_recipient }) == seq![
            4u8,
            if release_to_recipient { 1u8 } else { 0u8 },
        ],
        spec_encode_instruction(InstructionModel::Cancel) == seq![5u8],
{
}

/// Instruction data is read as: 41 bytes starting with 0 are an Initialize
/// whose amount is bytes 1..9 read little-endian and whose description is
/// bytes 9..41 in order; the single bytes 1, 2, 3, 5 are Fund, Release,
/// Dispute, Cancel; the pairs [4, 1] and [4, 0] are Resolve paying the
/// recipient or refunding; anything else is no instruction.
pub proof fn law_instruction_reading(b: Seq<u8>)
    ensures
        (b.len() == 41 && b[0] == 0) ==> spec_decode_instruction(b) == Some(
            InstructionModel::Initialize {
                amount: spec_u64_from_le_bytes(b.subrange(1, 9)),
                description: b.subrange(9, 41),
            },
        ),
        b == seq![1u8] ==> spec_decode_instruction(b) == Some(InstructionModel::Fund),
        b == seq![2u8] ==> spec_decode_instruction(b) == Some(InstructionModel::Release),
        b == seq![3u8] ==> spec_decode_instruction(b) == Some(InstructionModel::Dispute),
        b == seq![4u8, 1u8] ==> spec_decode_instruction(b) == Some(
            InstructionModel::Resolve { release_to_recipient: true },
        ),
        b == seq![4u8, 0u8] ==> spec_decode_instruction(b) == Some(
            InstructionModel::Resolve { release_to_recipient: false },
        ),
        b == seq![5u8] ==> spec_decode_instruction(b) == Some(InstructionModel::Cancel),
        spec_decode_instruction(b) is Some ==> {
            ||| b.len() == 41 && b[0] == 0
            ||| b == seq![1u8]
            ||| b == seq![2u8]
            ||| b == seq![3u8]
            ||| b == seq![4u8, 1u8]
            ||| b == seq![4u8, 0u8]
            ||| b == seq![5u8]
        },
{
    if b.len() == 1 {
        assert(b =~= seq![b[0]]);
    }
    if b.len() == 2 {
        assert(b =~= seq![b[0], b[1]]);
    }
}

// ------------------------------------------------------------ Addresses

/// The bytes of "escrow".
pub open spec fn escrow_text() -> Seq<u8> {
    seq![101u8, 115u8, 99u8, 114u8, 111u8, 119u8]
}

/// The bytes of "vault".
pub open spec fn vault_text() -> Seq<u8> {
    seq![118u8, 97u8, 117u8, 108u8, 116u8]
}

/// Initialize looks up the escrow account's address under the seeds
/// ["escrow", depositor key, recipient key] and the vault's under ["vault",
/// escrow account key], in that order: a signing depositor with a positive
/// amount whose escrow and vault accounts sit at those addresses is
/// accepted, and an accepted Initialize signs each creation with those seeds
/// followed by the bump seed that was found.
pub proof fn law_initialize_addresses(
    program_id: Seq<u8>,
    accounts: Seq<AccountSnapshot>,
    amount: u64,
    description: Seq<u8>,
)
    requires
        accounts.len() >= 5,
    ensures
        ({
            let escrow_seeds = seq![escrow_text(), accounts[0].key@, accounts[1].key@];
            let vault_seeds = seq![vault_text(), accounts[2].key@];
            let escrow_found = spec_try_find_program_address(escrow_seeds, program_id);
            let vault_found = spec_try_find_program_address(vault_seeds, program_id);
            let r = spec_process_initialize(program_id, accounts, amount, description);
            &&& (accounts[0].is_signer && amount > 0 && escrow_found is Some && escrow_found.unwrap().0
                == accounts[2].key@ && vault_found is Some && vault_found.unwrap().0
                == accounts[3].key@) ==> r is Ok
            &&& r is Ok ==> {
                &&& escrow_found is Some
                &&& escrow_found.unwrap().0 == accounts[2].key@
                &&& r->Ok_0[0] is CreateAccount
                &&& r->Ok_0[0]->CreateAccount_signer_seeds == escrow_seeds.push(seq![escrow_found.unwrap().1])
                &&& vault_found is Some
                &&& vault_found.unwrap().0 == accounts[3].key@
                &&& r->Ok_0[2] is CreateAccount
                &&& r->Ok_0[2]->CreateAccount_signer_seeds == vault_seeds.push(seq![vault_found.unwrap().1])
            }
        }),
{
    assert(escrow_seeds(accounts[0].key@, accounts[1].key@) =~= seq![
        escrow_text(),
        accounts[0].key@,
        accounts[1].key@,
    ]);
    assert(vault_seeds(accounts[2].key@) =~= seq![vault_text(), accounts[2].key@]);
}

/// Fund, Release, Resolve and Cancel use the vault at the address found
/// under ["vault", escrow account key]: Fund and Cancel accept only that
/// account as the vault, and Release and Resolve sign their payment with
/// those seeds followed by the vault's recorded bump seed.
pub proof fn law_vault_address(program_id: Seq<u8>, accounts: Seq<AccountSnapshot>, data: Seq<u8>)
    requires
        spec_process_instruction(program_id, accounts, data) is Ok,
    ensures
        ({
            let i = spec_decode_instruction(data).unwrap();
            let k = escrow_account_of(i);
            let vault_seeds = seq![vault_text(), accounts[k].key@];
            let effects = spec_process_instruction(program_id, accounts, data)->Ok_0;
            let e = record_of(accounts, k).unwrap();
            let vault_found = spec_try_find_program_address(vault_seeds, program_id);
            &&& (i is Fund || i is Cancel) ==> vault_found is Some && vault_found.unwrap().0
                == accounts[2].key@
            &&& (i is Release || i is Resolve) ==> effects[0] is Transfer
                && effects[0]->Transfer_signer_seeds == vault_seeds.push(seq![e.vault_bump])
        }),
{
    let i = spec_decode_instruction(data).unwrap();
    let k = escrow_account_of(i);
    assert(vault_seeds(accounts[k].key@) =~= seq![vault_text(), accounts[k].key@]);
}

// ------------------------------------------------------------ Balances

/// A ledger that differs from `ledger` by `amount` moved from `from` to
/// `to`, stated key by key.
pub open spec fn moved(ledger: Ledger, after: Ledger, from: Seq<u8>, to: Seq<u8>, amount: int) -> bool {
    forall|k: Seq<u8>|
        #[trigger] after(k) == ledger(k) - (if k == from { amount } else { 0 }) + (if k == to {
            amount
        } else {
            0
        })
}

/// One transfer followed by one data write, as balances see it.
proof fn lemma_transfer_then_write(effects: Seq<EffectModel>, accounts: Seq<AccountSnapshot>, ledger: Ledger)
    requires
        effects.len() == 2,
        effects[0] is Transfer,
        effects[1] is WriteData,
    ensures
        moved(
            ledger,
            balances_after(effects, accounts, ledger),
            accounts[effects[0]->Transfer_from].key@,
            accounts[effects[0]->Transfer_to].key@,
            effects[0]->Transfer_lamports as int,
        ),
{
    assert(effects.drop_last().drop_last() =~= Seq::<EffectModel>::empty());
    assert(effects.drop_last() =~= seq![effects[0]]);
    assert(balances_after(effects.drop_last().drop_last(), accounts, ledger) == ledger);
    let once = balances_after(effects.drop_last(), accounts, ledger);
    assert(balances_after(effects, accounts, ledger) == once);
}

/// An accepted Release has exactly two effects, one payment and the record
/// write, and moves exactly the escrow's amount from the vault to the
/// recorded recipient, every other balance unchanged.
pub proof fn law_release_pays_once(accounts: Seq<AccountSnapshot>, ledger: Ledger)
    requires
        spec_process_release(accounts) is Ok,
    ensures
        ({
            let e = record_of(accounts, 2).unwrap();
            let effects = spec_process_release(accounts)->Ok_0;
            &&& effects.len() == 2
            &&& accounts[1].key@ == e.recipient
            &&& moved(ledger, balances_after(effects, accounts, ledger), accounts[3].key@, e.recipient, e.amount as int)
        }),
{
    lemma_transfer_then_write(spec_process_release(accounts)->Ok_0, accounts, ledger);
}

/// An accepted Resolve has exactly two effects, one payment and the record
/// write, and moves exactly the escrow's amount from the vault to the
/// recorded recipient or back to the recorded depositor, as asked, every
/// other balance unchanged.
pub proof fn law_resolve_pays_once(accounts: Seq<AccountSnapshot>, release_to_recipient: bool, ledger: Ledger)
    requires
        spec_process_resolve(accounts, release_to_recipient) is Ok,
    ensures
        ({
            let e = record_of(accounts, 3).unwrap();
            let effects = spec_process_resolve(accounts, release_to_recipient)->Ok_0;
            let payee = if release_to_recipient { e.recipient } else { e.depositor };
            &&& effects.len() == 2
            &&& moved(ledger, balances_after(effects, accounts, ledger), accounts[4].key@, payee, e.amount as int)
        }),
{
    lemma_transfer_then_write(spec_process_resolve(accounts, release_to_recipient)->Ok_0, accounts, ledger);
}

/// An accepted Fund has exactly two effects and moves exactly the agreed
/// amount from the recorded depositor to the vault, every other balance
/// unchanged.
pub proof fn law_fund_pays_once(program_id: Seq<u8>, accounts: Seq<AccountSnapshot>, ledger: Ledger)
    requires
        spec_process_fund(program_id, accounts) is Ok,
    ensures
        ({
            let e = record_of(accounts, 1).unwrap();
            let effects = spec_process_fund(program_id, accounts)->Ok_0;
            &&& effects.len() == 2
            &&& moved(ledger, balances_after(effects, accounts, ledger), e.depositor, accounts[2].key@, e.amount as int)
        }),
{
    lemma_transfer_then_write(spec_process_fund(program_id, accounts)->Ok_0, accounts, ledger);
}

/// An accepted Dispute has one effect, the record write, and moves no
/// lamports.
pub proof fn law_dispute_moves_nothing(accounts: Seq<AccountSnapshot>, ledger: Ledger)
    requires
        spec_process_dispute(accounts) is Ok,
    ensures
        spec_process_dispute(accounts)->Ok_0.len() == 1,
        balances_after(spec_process_dispute(accounts)->Ok_0, accounts, ledger) == ledger,
{
    let effects = spec_process_dispute(accounts)->Ok_0;
    assert(effects.drop_last() =~= Seq::<EffectModel>::empty());
    assert(balances_after(effects.drop_last(), accounts, ledger) == ledger);
}

// ------------------------------------------------------------ Refusals

/// The outcome refuses with `e`.
pub open spec fn refused(r: Result<Seq<EffectModel>, ProcessError>, e: ProcessError) -> bool {
    r == Err::<Seq<EffectModel>, ProcessError>(e)
}

/// Why Release refuses, in the order of its checks: too few accounts, an
/// unsigned depositor, an escrow account that holds no record, a signer that
/// is not the recorded depositor, a recipient account that is not the
/// recorded recipient, a record that is not funded; otherwise it is accepted.
pub proof fn law_release_refusals(accounts: Seq<AccountSnapshot>)
    ensures
        ({
            let r = spec_process_release(accounts);
            let e = record_of(accounts, 2);
            &&& accounts.len() < 4 ==> refused(r, ProcessError::NotEnoughAccountKeys)
            &&& accounts.len() >= 4 && !accounts[0].is_signer ==> refused(
                r,
                ProcessError::MissingRequiredSignature,
            )
            &&& accounts.len() >= 4 && accounts[0].is_signer && e is None ==> refused(
                r,
                ProcessError::InvalidAccountData,
            )
            &&& accounts.len() >= 4 && accounts[0].is_signer && e is Some && e.unwrap().depositor
                != accounts[0].key@ ==> refused(r, ProcessError::IllegalOwner)
            &&& accounts.len() >= 4 && accounts[0].is_signer && e is Some && e.unwrap().depositor
                == accounts[0].key@ && e.unwrap().recipient != accounts[1].key@ ==> refused(
                r,
                ProcessError::InvalidArgument,
            )
            &&& accounts.len() >= 4 && accounts[0].is_signer && e is Some && e.unwrap().depositor
                == accounts[0].key@ && e.unwrap().recipient == accounts[1].key@ && e.unwrap().status
                != EscrowStatus::Funded ==> refused(r, ProcessError::InvalidAccountData)
            &&& accounts.len() >= 4 && accounts[0].is_signer && e is Some && e.unwrap().depositor
                == accounts[0].key@ && e.unwrap().recipient == accounts[1].key@ && e.unwrap().status
                == EscrowStatus::Funded ==> r is Ok
        }),
{
}

/// Why Dispute refuses: too few accounts, an unsigned disputer, an escrow
/// account that holds no record, a disputer that is neither recorded party,
/// a record that is not funded; otherwise it is accepted.
pub proof fn law_dispute_refusals(accounts: Seq<AccountSnapshot>)
    ensures
        ({
            let r = spec_process_dispute(accounts);
            let e = record_of(accounts, 1);
            let party = e is Some && (e.unwrap().depositor == accounts[0].key@ || e.unwrap().recipient
                == accounts[0].key@);
            &&& accounts.len() < 2 ==> refused(r, ProcessError::NotEnoughAccountKeys)
            &&& accounts.len() >= 2 && !accounts[0].is_signer ==> refused(
                r,
                ProcessError::MissingRequiredSignature,
            )
            &&& accounts.len() >= 2 && accounts[0].is_signer && e is None ==> refused(
                r,
                ProcessError::InvalidAccountData,
            )
            &&& accounts.len() >= 2 && accounts[0].is_signer && e is Some && !party ==> refused(
                r,
                ProcessError::IllegalOwner,
            )
            &&& accounts.len() >= 2 && accounts[0].is_signer && party && e.unwrap().status
                != EscrowStatus::Funded ==> refused(r, ProcessError::InvalidAccountData)
            &&& accounts.len() >= 2 && accounts[0].is_signer && party && e.unwrap().status
                == EscrowStatus::Funded ==> r is Ok
        }),
{
}

/// Why Resolve refuses: too few accounts, an unsigned arbiter, an escrow
/// account that holds no record, an arbiter that is not the recorded
/// depositor, a record that is not disputed, a payee account that is not the
/// recorded party to be paid; otherwise it is accepted.
pub proof fn law_resolve_refusals(accounts: Seq<AccountSnapshot>, release_to_recipient: bool)
    ensures
        ({
            let r = spec_process_resolve(accounts, release_to_recipient);
            let e = record_of(accounts, 3);
            let base = accounts.len() >= 5 && accounts[0].is_signer;
            let payee_ok = if release_to_recipient {
                accounts[2].key@ == e.unwrap().recipient
            } else {
                accounts[1].key@ == e.unwrap().depositor
            };
            &&& accounts.len() < 5 ==> refused(r, ProcessError::NotEnoughAccountKeys)
            &&& accounts.len() >= 5 && !accounts[0].is_signer ==> refused(
                r,
                ProcessError::MissingRequiredSignature,
            )
            &&& base && e is None ==> refused(r, ProcessError::InvalidAccountData)
            &&& base && e is Some && e.unwrap().depositor != accounts[0].key@ ==> refused(
                r,
                ProcessError::IllegalOwner,
            )
            &&& base && e is Some && e.unwrap().depositor == accounts[0].key@ && e.unwrap().status
                != EscrowStatus::Disputed ==> refused(r, ProcessError::InvalidAccountData)
            &&& base && e is Some && e.unwrap().depositor == accounts[0].key@ && e.unwrap().status
                == EscrowStatus::Disputed && !payee_ok ==> refused(r, ProcessError::InvalidArgument)
            &&& base && e is Some && e.unwrap().depositor == accounts[0].key@ && e.unwrap().status
                == EscrowStatus::Disputed && payee_ok ==> r is Ok
        }),
{
}

/// Why Fund refuses: too few accounts, an unsigned depositor, an escrow
/// account that holds no record, a signer that is not the recorded
/// depositor, a record that is not initialized, a vault account that is not
/// at the address found under ["vault", escrow account key]; otherwise it is
/// accepted.
pub proof fn law_fund_refusals(program_id: Seq<u8>, accounts: Seq<AccountSnapshot>)
    ensures
        ({
            let r = spec_process_fund(program_id, accounts);
            let e = record_of(accounts, 1);
            let base = accounts.len() >= 4 && accounts[0].is_signer;
            let checked = base && e is Some && e.unwrap().depositor == accounts[0].key@
                && e.unwrap().status == EscrowStatus::Initialized;
            let found = spec_try_find_program_address(seq![vault_text(), accounts[1].key@], program_id);
            &&& accounts.len() < 4 ==> refused(r, ProcessError::NotEnoughAccountKeys)
            &&& accounts.len() >= 4 && !accounts[0].is_signer ==> refused(
                r,
                ProcessError::MissingRequiredSignature,
            )
            &&& base && e is None ==> refused(r, ProcessError::InvalidAccountData)
            &&& base && e is Some && e.unwrap().depositor != accounts[0].key@ ==> refused(
                r,
                ProcessError::IllegalOwner,
            )
            &&& base && e is Some && e.unwrap().depositor == accounts[0].key@ && e.unwrap().status
                != EscrowStatus::Initialized ==> refused(r, ProcessError::InvalidAccountData)
            &&& checked && found is None ==> refused(r, ProcessError::NoViableProgramAddress)
            &&& checked && found is Some && found.unwrap().0 != accounts[2].key@ ==> refused(
                r,
                ProcessError::InvalidSeeds,
            )
            &&& checked && found is Some && found.unwrap().0 == accounts[2].key@ ==> r is Ok
        }),
{
    assert(vault_seeds(accounts[1].key@) =~= seq![vault_text(), accounts[1].key@]);
}

/// Why Cancel refuses: too few accounts, an unsigned depositor, an escrow
/// account that holds no record, a signer that is not the recorded
/// depositor, a record that is not initialized, a vault account that is not
/// at the address found under ["vault", escrow account key], and a refund
/// that overflows a balance.
pub proof fn law_cancel_refusals(program_id: Seq<u8>, accounts: Seq<AccountSnapshot>)
    ensures
        ({
            let r = spec_process_cancel(program_id, accounts);
            let e = record_of(accounts, 1);
            let base = accounts.len() >= 3 && accounts[0].is_signer;
            let checked = base && e is Some && e.unwrap().depositor == accounts[0].key@
                && e.unwrap().status == EscrowStatus::Initialized;
            let found = spec_try_find_program_address(seq![vault_text(), accounts[1].key@], program_id);
            &&& accounts.len() < 3 ==> refused(r, ProcessError::NotEnoughAccountKeys)
            &&& accounts.len() >= 3 && !accounts[0].is_signer ==> refused(
                r,
                ProcessError::MissingRequiredSignature,
            )
            &&& base && e is None ==> refused(r, ProcessError::InvalidAccountData)
            &&& base && e is Some && e.unwrap().depositor != accounts[0].key@ ==> refused(
                r,
                ProcessError::IllegalOwner,
            )
            &&& base && e is Some && e.unwrap().depositor == accounts[0].key@ && e.unwrap().status
                != EscrowStatus::Initialized ==> refused(r, ProcessError::InvalidAccountData)
            &&& checked && found is None ==> refused(r, ProcessError::NoViableProgramAddress)
            &&& checked && found is Some && found.unwrap().0 != accounts[2].key@ ==> refused(
                r,
                ProcessError::InvalidSeeds,
            )
            &&& checked && found is Some && found.unwrap().0 == accounts[2].key@ && r is Err ==> refused(
                r,
                ProcessError::ArithmeticOverflow,
            )
        }),
{
    assert(vault_seeds(accounts[1].key@) =~= seq![vault_text(), accounts[1].key@]);
}

/// Why Initialize refuses: too few accounts, an unsigned depositor, a zero
/// amount, an escrow account that is not at the address found under
/// ["escrow", depositor key, recipient key], a vault account that is not at
/// the address found under ["vault", escrow account key].
pub proof fn law_initialize_refusals(
    program_id: Seq<u8>,
    accounts: Seq<AccountSnapshot>,
    amount: u64,
    description: Seq<u8>,
)
    ensures
        ({
            let r = spec_process_initialize(program_id, accounts, amount, description);
            let base = accounts.len() >= 5 && accounts[0].is_signer && amount > 0;
            let escrow_found = spec_try_find_program_address(
                seq![escrow_text(), accounts[0].key@, accounts[1].key@],
                program_id,
            );
            let vault_found = spec_try_find_program_address(seq![vault_text(), accounts[2].key@], program_id);
            &&& accounts.len() < 5 ==> refused(r, ProcessError::NotEnoughAccountKeys)
            &&& accounts.len() >= 5 && !accounts[0].is_signer ==> refused(
                r,
                ProcessError::MissingRequiredSignature,
            )
            &&& accounts.len() >= 5 && accounts[0].is_signer && amount == 0 ==> refused(
                r,
                ProcessError::InvalidArgument,
            )
            &&& base && escrow_found is None ==> refused(r, ProcessError::NoViableProgramAddress)
            &&& base && escrow_found is Some && escrow_found.unwrap().0 != accounts[2].key@ ==> refused(
                r,
                ProcessError::InvalidSeeds,
            )
            &&& base && escrow_found is Some && escrow_found.unwrap().0 == accounts[2].key@
                && vault_found is None ==> refused(r, ProcessError::NoViableProgramAddress)
            &&& base && escrow_found is Some && escrow_found.unwrap().0 == accounts[2].key@
                && vault_found is Some && vault_found.unwrap().0 != accounts[3].key@ ==> refused(
                r,
                ProcessError::InvalidSeeds,
            )
        }),
{
    if accounts.len() >= 5 {
        assert(escrow_seeds(accounts[0].key@, accounts[1].key@) =~= seq![
            escrow_text(),
            accounts[0].key@,
            accounts[1].key@,
        ]);
        assert(vault_seeds(accounts[2].key@) =~= seq![vault_text(), accounts[2].key@]);
    }
}

} // verus!
