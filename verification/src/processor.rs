//! What each instruction does: the checks that decide whether it is accepted,
//! in the order in which they are made, and the effects it has when it is.
//!
//! The processor reads the accounts as the runtime hands them over and
//! returns the effects to apply, in order: calls into the system program,
//! lamport balances to set, and bytes to write into account data. The
//! runtime applies all of them or, when one fails, none.

use vstd::prelude::*;
use crate::bytes::{keys_equal, push_key};
use crate::error::ProcessError;
use crate::instruction::{spec_decode_instruction, EscrowInstruction, InstructionModel};
use crate::pda::{spec_try_find_program_address, try_find_program_address};
use crate::state::{spec_decode_escrow, spec_encode_escrow, Escrow, EscrowModel, EscrowStatus};

verus! {

/// What the processor reads of an account passed to the program.
#[derive(Clone, Debug, PartialEq, Eq)]
pub struct AccountSnapshot {
    pub key: [u8; 32],
    pub is_signer: bool,
    pub lamports: u64,
    pub data: Vec<u8>,
}

/// How a new account is funded.
#[derive(Clone, Copy, Debug, PartialEq, Eq, Structural)]
pub enum Funding {
    /// The minimum balance that makes an account of its size rent exempt.
    RentExempt,
    /// Exactly this many lamports.
    Lamports(u64),
}

/// One effect of an accepted instruction. Accounts are named by their
/// position in the instruction's account list; the signer seeds, where not
/// empty, are those of the program address that signs the call.
#[derive(Clone, Debug, PartialEq, Eq)]
pub enum Effect {
    /// The system program creates `account`, owned by this program, with
    /// `space` bytes of data, paid for by `payer`.
    CreateAccount {
        payer: usize,
        account: usize,
        system_program: usize,
        funding: Funding,
        space: u64,
        signer_seeds: Vec<Vec<u8>>,
    },
    /// The system program moves `lamports` from `from` to `to`; the system
    /// program's own account is passed along where the instruction got one.
    Transfer {
        from: usize,
        to: usize,
        system_program: Option<usize>,
        lamports: u64,
        signer_seeds: Vec<Vec<u8>>,
    },
    /// `data` is written at the start of the account's data.
    WriteData { account: usize, data: Vec<u8> },
    /// The account's balance becomes `lamports`.
    SetLamports { account: usize, lamports: u64 },
}

/// The mathematical value of an effect.
pub enum EffectModel {
    CreateAccount {
        payer: int,
        account: int,
        system_program: int,
        funding: Funding,
        space: u64,
        signer_seeds: Seq<Seq<u8>>,
    },
    Transfer {
        from: int,
        to: int,
        system_program: Option<int>,
        lamports: u64,
        signer_seeds: Seq<Seq<u8>>,
    },
    WriteData { account: int, data: Seq<u8> },
    SetLamports { account: int, lamports: u64 },
}

impl View for Effect {
    type V = EffectModel;

    open spec fn view(&self) -> EffectModel {
        match self {
            Effect::CreateAccount { payer, account, system_program, funding, space, signer_seeds } =>
                EffectModel::CreateAccount {
                payer: *payer as int,
                account: *account as int,
                system_program: *system_program as int,
                funding: *funding,
                space: *space,
                signer_seeds: signer_seeds.deep_view(),
            },
            Effect::Transfer { from, to, system_program, lamports, signer_seeds } =>
                EffectModel::Transfer {
                from: *from as int,
                to: *to as int,
                system_program: match system_program {
                    Some(i) => Some(*i as int),
                    None => None,
                },
                lamports: *lamports,
                signer_seeds: signer_seeds.deep_view(),
            },
            Effect::WriteData { account, data } => EffectModel::WriteData {
                account: *account as int,
                data: data@,
            },
            Effect::SetLamports { account, lamports } => EffectModel::SetLamports {
                account: *account as int,
                lamports: *lamports,
            },
        }
    }
}

/// The outcome of processing, as mathematical values.
pub type Outcome = Result<Seq<EffectModel>, ProcessError>;

/// The view of a processing result.
pub open spec fn outcome_view(r: Result<Vec<Effect>, ProcessError>) -> Outcome {
    match r {
        Ok(effects) => Ok(effects@.map_values(|e: Effect| e@)),
        Err(e) => Err(e),
    }
}

/// The first seed of the escrow account's address: the bytes of "escrow".
pub open spec fn escrow_seed_prefix() -> Seq<u8> {
    seq![101u8, 115u8, 99u8, 114u8, 111u8, 119u8]
}

/// The first seed of the vault's address: the bytes of "vault".
pub open spec fn vault_seed_prefix() -> Seq<u8> {
    seq![118u8, 97u8, 117u8, 108u8, 116u8]
}

/// Seeds of the escrow account between a depositor and a recipient.
pub open spec fn escrow_seeds(depositor: Seq<u8>, recipient: Seq<u8>) -> Seq<Seq<u8>> {
    seq![escrow_seed_prefix(), depositor, recipient]
}

/// Seeds of the vault that belongs to an escrow account.
pub open spec fn vault_seeds(escrow: Seq<u8>) -> Seq<Seq<u8>> {
    seq![vault_seed_prefix(), escrow]
}

/// Seeds followed by the one-byte bump seed, as a program address signs.
pub open spec fn with_bump(seeds: Seq<Seq<u8>>, bump: u8) -> Seq<Seq<u8>> {
    seeds.push(seq![bump])
}

/// The escrow record held by account `i`, if it holds one.
pub open spec fn record_of(accounts: Seq<AccountSnapshot>, i: int) -> Option<EscrowModel> {
    spec_decode_escrow(accounts[i].data@)
}

/// The bytes of a key as a vector.
fn key_bytes(key: &[u8; 32]) -> (v: Vec<u8>)
    ensures
        v@ == key@,
        v.deep_view() == key@,
{
    let mut v: Vec<u8> = Vec::new();
    push_key(&mut v, key);
    assert(v.deep_view() =~= v@);
    v
}

/// Seeds of the escrow account, with a bump seed where one is given.
fn make_escrow_seeds(depositor: &[u8; 32], recipient: &[u8; 32], bump: Option<u8>) -> (s: Vec<Vec<u8>>)
    ensures
        s.deep_view() == match bump {
            Some(b) => with_bump(escrow_seeds(depositor@, recipient@), b),
            None => escrow_seeds(depositor@, recipient@),
        },
        s@.len() == if bump is Some { 4int } else { 3int },
        s@[0]@ == seq![101u8, 115u8, 99u8, 114u8, 111u8, 119u8],
        s@[1]@ == depositor@,
        s@[2]@ == recipient@,
{
    let prefix: Vec<u8> = vec![101u8, 115u8, 99u8, 114u8, 111u8, 119u8];
    assert(prefix.deep_view() =~= escrow_seed_prefix());
    assert(prefix@ =~= seq![101u8, 115u8, 99u8, 114u8, 111u8, 119u8]);
    let mut s: Vec<Vec<u8>> = Vec::new();
    s.push(prefix);
    s.push(key_bytes(depositor));
    s.push(key_bytes(recipient));
    match bump {
        Some(b) => {
            let last: Vec<u8> = vec![b];
            assert(last.deep_view() =~= seq![b]);
            s.push(last);
            assert(s.deep_view() =~= with_bump(escrow_seeds(depositor@, recipient@), b));
        },
        None => {
            assert(s.deep_view() =~= escrow_seeds(depositor@, recipient@));
        },
    }
    s
}

/// Seeds of the vault, with a bump seed where one is given.
fn make_vault_seeds(escrow: &[u8; 32], bump: Option<u8>) -> (s: Vec<Vec<u8>>)
    ensures
        s.deep_view() == match bump {
            Some(b) => with_bump(vault_seeds(escrow@), b),
            None => vault_seeds(escrow@),
        },
        s@.len() == if bump is Some { 3int } else { 2int },
        s@[0]@ == seq![118u8, 97u8, 117u8, 108u8, 116u8],
        s@[1]@ == escrow@,
{
    let prefix: Vec<u8> = vec![118u8, 97u8, 117u8, 108u8, 116u8];
    assert(prefix.deep_view() =~= vault_seed_prefix());
    assert(prefix@ =~= seq![118u8, 97u8, 117u8, 108u8, 116u8]);
    let mut s: Vec<Vec<u8>> = Vec::new();
    s.push(prefix);
    s.push(key_bytes(escrow));
    match bump {
        Some(b) => {
            let last: Vec<u8> = vec![b];
            assert(last.deep_view() =~= seq![b]);
            s.push(last);
            assert(s.deep_view() =~= with_bump(vault_seeds(escrow@), b));
        },
        None => {
            assert(s.deep_view() =~= vault_seeds(escrow@));
        },
    }
    s
}

// ---------------------------------------------------------------- Dispute

/// Dispute: `[disputer (signer), escrow]`. Either party of a funded escrow
/// marks it disputed.
pub open spec fn spec_process_dispute(accounts: Seq<AccountSnapshot>) -> Outcome {
    if accounts.len() < 2 {
        Err(ProcessError::NotEnoughAccountKeys)
    } else if !accounts[0].is_signer {
        Err(ProcessError::MissingRequiredSignature)
    } else {
        match record_of(accounts, 1) {
            None => Err(ProcessError::InvalidAccountData),
            Some(e) => if e.depositor != accounts[0].key@ && e.recipient != accounts[0].key@ {
                Err(ProcessError::IllegalOwner)
            } else if e.status != EscrowStatus::Funded {
                Err(ProcessError::InvalidAccountData)
            } else {
                Ok(
                    seq![
                        EffectModel::WriteData {
                            account: 1,
                            data: spec_encode_escrow(e.with_status(EscrowStatus::Disputed)),
                        },
                    ],
                )
            },
        }
    }
}

/// Raises a dispute on a funded escrow.
pub fn process_dispute(accounts: &[AccountSnapshot]) -> (r: Result<Vec<Effect>, ProcessError>)
    ensures
        outcome_view(r) == spec_process_dispute(accounts@),
{
    if accounts.len() < 2 {
        return Err(ProcessError::NotEnoughAccountKeys);
    }
    let disputer = &accounts[0];
    let escrow_account = &accounts[1];
    if !disputer.is_signer {
        return Err(ProcessError::MissingRequiredSignature);
    }
    let mut escrow = match Escrow::try_from_slice(escrow_account.data.as_slice()) {
        Some(e) => e,
        None => return Err(ProcessError::InvalidAccountData),
    };
    if !keys_equal(&escrow.depositor, &disputer.key) && !keys_equal(&escrow.recipient, &disputer.key) {
        return Err(ProcessError::IllegalOwner);
    }
    if escrow.status != EscrowStatus::Funded {
        return Err(ProcessError::InvalidAccountData);
    }
    escrow.status = EscrowStatus::Disputed;
    let mut effects: Vec<Effect> = Vec::new();
    effects.push(Effect::WriteData { account: 1, data: escrow.to_bytes() });
    assert(effects@.map_values(|e: Effect| e@) =~= spec_process_dispute(accounts@)->Ok_0);
    Ok(effects)
}

// ---------------------------------------------------------------- Fund

/// Fund: `[depositor (signer), escrow, vault, system_program]`. The
/// depositor of an initialized escrow sends the agreed amount to the vault,
/// which must sit at `vault_address`, the program address found for
/// ("vault", escrow account).
pub open spec fn spec_fund_with_vault_address(
    accounts: Seq<AccountSnapshot>,
    vault_address: Option<(Seq<u8>, u8)>,
) -> Outcome {
    if accounts.len() < 4 {
        Err(ProcessError::NotEnoughAccountKeys)
    } else if !accounts[0].is_signer {
        Err(ProcessError::MissingRequiredSignature)
    } else {
        match record_of(accounts, 1) {
            None => Err(ProcessError::InvalidAccountData),
            Some(e) => if e.depositor != accounts[0].key@ {
                Err(ProcessError::IllegalOwner)
            } else if e.status != EscrowStatus::Initialized {
                Err(ProcessError::InvalidAccountData)
            } else {
                match vault_address {
                    None => Err(ProcessError::NoViableProgramAddress),
                    Some((vault_pda, _)) => if vault_pda != accounts[2].key@ {
                        Err(ProcessError::InvalidSeeds)
                    } else {
                        Ok(
                            seq![
                                EffectModel::Transfer {
                                    from: 0,
                                    to: 2,
                                    system_program: Some(3),
                                    lamports: e.amount,
                                    signer_seeds: seq![],
                                },
                                EffectModel::WriteData {
                                    account: 1,
                                    data: spec_encode_escrow(e.with_status(EscrowStatus::Funded)),
                                },
                            ],
                        )
                    },
                }
            },
        }
    }
}

/// Fund, with the vault's address looked up for the program.
pub open spec fn spec_process_fund(program_id: Seq<u8>, accounts: Seq<AccountSnapshot>) -> Outcome {
    if accounts.len() < 4 {
        Err(ProcessError::NotEnoughAccountKeys)
    } else {
        spec_fund_with_vault_address(
            accounts,
            spec_try_find_program_address(vault_seeds(accounts[1].key@), program_id),
        )
    }
}

/// Funds an initialized escrow with its agreed amount, given the address and
/// bump seed found for the vault (`None` where none was found).
pub fn fund_with_vault_address(
    accounts: &[AccountSnapshot],
    vault_address: Option<([u8; 32], u8)>,
) -> (r: Result<Vec<Effect>, ProcessError>)
    ensures
        outcome_view(r) == spec_fund_with_vault_address(accounts@, vault_address.deep_view()),
{
    if accounts.len() < 4 {
        return Err(ProcessError::NotEnoughAccountKeys);
    }
    let depositor = &accounts[0];
    let escrow_account = &accounts[1];
    let vault = &accounts[2];
    if !depositor.is_signer {
        return Err(ProcessError::MissingRequiredSignature);
    }
    let mut escrow = match Escrow::try_from_slice(escrow_account.data.as_slice()) {
        Some(e) => e,
        None => return Err(ProcessError::InvalidAccountData),
    };
    if !keys_equal(&escrow.depositor, &depositor.key) {
        return Err(ProcessError::IllegalOwner);
    }
    if escrow.status != EscrowStatus::Initialized {
        return Err(ProcessError::InvalidAccountData);
    }
    let vault_pda = match vault_address {
        Some(found) => found.0,
        None => return Err(ProcessError::NoViableProgramAddress),
    };
    assert(vault_pda.deep_view() =~= vault_pda@);
    if !keys_equal(&vault_pda, &vault.key) {
        return Err(ProcessError::InvalidSeeds);
    }
    escrow.status = EscrowStatus::Funded;
    let mut effects: Vec<Effect> = Vec::new();
    let no_seeds: Vec<Vec<u8>> = Vec::new();
    assert(no_seeds.deep_view() =~= Seq::<Seq<u8>>::empty());
    effects.push(
        Effect::Transfer { from: 0, to: 2, system_program: Some(3), lamports: escrow.amount, signer_seeds: no_seeds },
    );
    effects.push(Effect::WriteData { account: 1, data: escrow.to_bytes() });
    assert(effects@.map_values(|e: Effect| e@) =~= spec_fund_with_vault_address(
        accounts@,
        vault_address.deep_view(),
    )->Ok_0);
    Ok(effects)
}

/// Funds an initialized escrow with its agreed amount.
pub fn process_fund(program_id: &[u8; 32], accounts: &[AccountSnapshot]) -> (r: Result<Vec<Effect>, ProcessError>)
    ensures
        outcome_view(r) == spec_process_fund(program_id@, accounts@),
{
    if accounts.len() < 4 {
        return Err(ProcessError::NotEnoughAccountKeys);
    }
    let seeds = make_vault_seeds(&accounts[1].key, None);
    let vault_address = try_find_program_address(&seeds, program_id);
    fund_with_vault_address(accounts, vault_address)
}

// ---------------------------------------------------------------- Release

/// Release: `[depositor (signer), recipient, escrow, vault]`, optionally
/// followed by the system program. The depositor of a funded escrow pays its
/// amount out of the vault to the recipient recorded in it.
pub open spec fn spec_process_release(accounts: Seq<AccountSnapshot>) -> Outcome {
    if accounts.len() < 4 {
        Err(ProcessError::NotEnoughAccountKeys)
    } else if !accounts[0].is_signer {
        Err(ProcessError::MissingRequiredSignature)
    } else {
        match record_of(accounts, 2) {
            None => Err(ProcessError::InvalidAccountData),
            Some(e) => if e.depositor != accounts[0].key@ {
                Err(ProcessError::IllegalOwner)
            } else if e.recipient != accounts[1].key@ {
                Err(ProcessError::InvalidArgument)
            } else if e.status != EscrowStatus::Funded {
                Err(ProcessError::InvalidAccountData)
            } else {
                Ok(
                    seq![
                        EffectModel::Transfer {
                            from: 3,
                            to: 1,
                            system_program: if accounts.len() > 4 { Some(4) } else { None },
                            lamports: e.amount,
                            signer_seeds: with_bump(vault_seeds(accounts[2].key@), e.vault_bump),
                        },
                        EffectModel::WriteData {
                            account: 2,
                            data: spec_encode_escrow(e.with_status(EscrowStatus::Released)),
                        },
                    ],
                )
            },
        }
    }
}

/// Pays a funded escrow out to its recipient.
pub fn process_release(accounts: &[AccountSnapshot]) -> (r: Result<Vec<Effect>, ProcessError>)
    ensures
        outcome_view(r) == spec_process_release(accounts@),
{
    if accounts.len() < 4 {
        return Err(ProcessError::NotEnoughAccountKeys);
    }
    let depositor = &accounts[0];
    let recipient = &accounts[1];
    let escrow_account = &accounts[2];
    if !depositor.is_signer {
        return Err(ProcessError::MissingRequiredSignature);
    }
    let mut escrow = match Escrow::try_from_slice(escrow_account.data.as_slice()) {
        Some(e) => e,
        None => return Err(ProcessError::InvalidAccountData),
    };
    if !keys_equal(&escrow.depositor, &depositor.key) {
        return Err(ProcessError::IllegalOwner);
    }
    if !keys_equal(&escrow.recipient, &recipient.key) {
        return Err(ProcessError::InvalidArgument);
    }
    if escrow.status != EscrowStatus::Funded {
        return Err(ProcessError::InvalidAccountData);
    }
    let seeds = make_vault_seeds(&escrow_account.key, Some(escrow.vault_bump));
    let system_program: Option<usize> = if accounts.len() > 4 { Some(4) } else { None };
    escrow.status = EscrowStatus::Released;
    let mut effects: Vec<Effect> = Vec::new();
    effects.push(
        Effect::Transfer { from: 3, to: 1, system_program, lamports: escrow.amount, signer_seeds: seeds },
    );
    effects.push(Effect::WriteData { account: 2, data: escrow.to_bytes() });
    assert(effects@.map_values(|e: Effect| e@) =~= spec_process_release(accounts@)->Ok_0);
    Ok(effects)
}

// ---------------------------------------------------------------- Resolve

/// Resolve: `[arbiter (signer), depositor, recipient, escrow, vault]`,
/// optionally followed by the system program. The depositor, acting as arbiter, pays a disputed
/// escrow's amount out of the vault to its recorded recipient or back to its
/// recorded depositor; the account paid must be that party.
pub open spec fn spec_process_resolve(accounts: Seq<AccountSnapshot>, release_to_recipient: bool) -> Outcome {
    if accounts.len() < 5 {
        Err(ProcessError::NotEnoughAccountKeys)
    } else if !accounts[0].is_signer {
        Err(ProcessError::MissingRequiredSignature)
    } else {
        match record_of(accounts, 3) {
            None => Err(ProcessError::InvalidAccountData),
            Some(e) => if e.depositor != accounts[0].key@ {
                Err(ProcessError::IllegalOwner)
            } else if e.status != EscrowStatus::Disputed {
                Err(ProcessError::InvalidAccountData)
            } else if release_to_recipient && accounts[2].key@ != e.recipient {
                Err(ProcessError::InvalidArgument)
            } else if !release_to_recipient && accounts[1].key@ != e.depositor {
                Err(ProcessError::InvalidArgument)
            } else {
                Ok(
                    seq![
                        EffectModel::Transfer {
                            from: 4,
                            to: if release_to_recipient { 2 } else { 1 },
                            system_program: if accounts.len() > 5 { Some(5) } else { None },
                            lamports: e.amount,
                            signer_seeds: with_bump(vault_seeds(accounts[3].key@), e.vault_bump),
                        },
                        EffectModel::WriteData {
                            account: 3,
                            data: spec_encode_escrow(
                                e.with_status(
                                    if release_to_recipient {
                                        EscrowStatus::Released
                                    } else {
                                        EscrowStatus::Cancelled
                                    },
                                ),
                            ),
                        },
                    ],
                )
            },
        }
    }
}

/// Settles a disputed escrow in favour of the recipient or the depositor.
pub fn process_resolve(accounts: &[AccountSnapshot], release_to_recipient: bool) -> (r: Result<Vec<Effect>, ProcessError>)
    ensures
        outcome_view(r) == spec_process_resolve(accounts@, release_to_recipient),
{
    if accounts.len() < 5 {
        return Err(ProcessError::NotEnoughAccountKeys);
    }
    let arbiter = &accounts[0];
    let escrow_account = &accounts[3];
    if !arbiter.is_signer {
        return Err(ProcessError::MissingRequiredSignature);
    }
    let mut escrow = match Escrow::try_from_slice(escrow_account.data.as_slice()) {
        Some(e) => e,
        None => return Err(ProcessError::InvalidAccountData),
    };
    if !keys_equal(&escrow.depositor, &arbiter.key) {
        return Err(ProcessError::IllegalOwner);
    }
    if escrow.status != EscrowStatus::Disputed {
        return Err(ProcessError::InvalidAccountData);
    }
    if release_to_recipient && !keys_equal(&accounts[2].key, &escrow.recipient) {
        return Err(ProcessError::InvalidArgument);
    }
    if !release_to_recipient && !keys_equal(&accounts[1].key, &escrow.depositor) {
        return Err(ProcessError::InvalidArgument);
    }
    let target: usize = if release_to_recipient { 2 } else { 1 };
    let system_program: Option<usize> = if accounts.len() > 5 { Some(5) } else { None };
    let seeds = make_vault_seeds(&escrow_account.key, Some(escrow.vault_bump));
    escrow.status = if release_to_recipient { EscrowStatus::Released } else { EscrowStatus::Cancelled };
    let mut effects: Vec<Effect> = Vec::new();
    effects.push(
        Effect::Transfer { from: 4, to: target, system_program, lamports: escrow.amount, signer_seeds: seeds },
    );
    effects.push(Effect::WriteData { account: 3, data: escrow.to_bytes() });
    assert(effects@.map_values(|e: Effect| e@) =~= spec_process_resolve(accounts@, release_to_recipient)->Ok_0);
    Ok(effects)
}

// ---------------------------------------------------------------- Initialize

/// Initialize: `[depositor (signer), recipient, escrow, vault,
/// system_program]`. The escrow account must sit at `escrow_address`, the
/// program address found for ("escrow", depositor, recipient), and the vault
/// at `vault_address`, the one found for ("vault", escrow account); both are
/// created, the first holding a new record in `Initialized`, the second empty
/// and unfunded.
pub open spec fn spec_initialize_with_addresses(
    accounts: Seq<AccountSnapshot>,
    amount: u64,
    description: Seq<u8>,
    escrow_address: Option<(Seq<u8>, u8)>,
    vault_address: Option<(Seq<u8>, u8)>,
) -> Outcome {
    if accounts.len() < 5 {
        Err(ProcessError::NotEnoughAccountKeys)
    } else if !accounts[0].is_signer {
        Err(ProcessError::MissingRequiredSignature)
    } else if amount == 0 {
        Err(ProcessError::InvalidArgument)
    } else {
        let depositor = accounts[0].key@;
        let recipient = accounts[1].key@;
        match escrow_address {
            None => Err(ProcessError::NoViableProgramAddress),
            Some((escrow_pda, escrow_bump)) => if escrow_pda != accounts[2].key@ {
                Err(ProcessError::InvalidSeeds)
            } else {
                match vault_address {
                    None => Err(ProcessError::NoViableProgramAddress),
                    Some((vault_pda, vault_bump)) => if vault_pda != accounts[3].key@ {
                        Err(ProcessError::InvalidSeeds)
                    } else {
                        let record = EscrowModel {
                            depositor,
                            recipient,
                            amount,
                            status: EscrowStatus::Initialized,
                            description,
                            escrow_bump,
                            vault_bump,
                        };
                        Ok(
                            seq![
                                EffectModel::CreateAccount {
                                    payer: 0,
                                    account: 2,
                                    system_program: 4,
                                    funding: Funding::RentExempt,
                                    space: 107,
                                    signer_seeds: with_bump(escrow_seeds(depositor, recipient), escrow_bump),
                                },
                                EffectModel::WriteData { account: 2, data: spec_encode_escrow(record) },
                                EffectModel::CreateAccount {
                                    payer: 0,
                                    account: 3,
                                    system_program: 4,
                                    funding: Funding::Lamports(0),
                                    space: 0,
                                    signer_seeds: with_bump(vault_seeds(accounts[2].key@), vault_bump),
                                },
                            ],
                        )
                    },
                }
            },
        }
    }
}

/// Initialize, with both addresses looked up for the program.
pub open spec fn spec_process_initialize(
    program_id: Seq<u8>,
    accounts: Seq<AccountSnapshot>,
    amount: u64,
    description: Seq<u8>,
) -> Outcome {
    if accounts.len() < 5 {
        Err(ProcessError::NotEnoughAccountKeys)
    } else {
        spec_initialize_with_addresses(
            accounts,
            amount,
            description,
            spec_try_find_program_address(escrow_seeds(accounts[0].key@, accounts[1].key@), program_id),
            spec_try_find_program_address(vault_seeds(accounts[2].key@), program_id),
        )
    }
}

/// Creates a new escrow between the depositor and the recipient, given the
/// addresses and bump seeds found for the escrow account and the vault
/// (`None` where none was found).
pub fn initialize_with_addresses(
    accounts: &[AccountSnapshot],
    amount: u64,
    description: [u8; 32],
    escrow_address: Option<([u8; 32], u8)>,
    vault_address: Option<([u8; 32], u8)>,
) -> (r: Result<Vec<Effect>, ProcessError>)
    ensures
        outcome_view(r) == spec_initialize_with_addresses(
            accounts@,
            amount,
            description@,
            escrow_address.deep_view(),
            vault_address.deep_view(),
        ),
        r is Ok ==> {
            &&& r->Ok_0@.len() == 3
            &&& r->Ok_0@[0] is CreateAccount
            &&& r->Ok_0@[0]->CreateAccount_signer_seeds@.len() == 4
            &&& r->Ok_0@[0]->CreateAccount_signer_seeds@[0]@ == seq![101u8, 115u8, 99u8, 114u8, 111u8, 119u8]
            &&& r->Ok_0@[0]->CreateAccount_signer_seeds@[1]@ == accounts@[0].key@
            &&& r->Ok_0@[0]->CreateAccount_signer_seeds@[2]@ == accounts@[1].key@
            &&& r->Ok_0@[2] is CreateAccount
            &&& r->Ok_0@[2]->CreateAccount_signer_seeds@.len() == 3
            &&& r->Ok_0@[2]->CreateAccount_signer_seeds@[0]@ == seq![118u8, 97u8, 117u8, 108u8, 116u8]
            &&& r->Ok_0@[2]->CreateAccount_signer_seeds@[1]@ == accounts@[2].key@
        },
{
    if accounts.len() < 5 {
        return Err(ProcessError::NotEnoughAccountKeys);
    }
    let depositor = &accounts[0];
    let recipient = &accounts[1];
    let escrow_account = &accounts[2];
    let vault = &accounts[3];
    if !depositor.is_signer {
        return Err(ProcessError::MissingRequiredSignature);
    }
    if amount == 0 {
        return Err(ProcessError::InvalidArgument);
    }
    let (escrow_pda, escrow_bump) = match escrow_address {
        Some(found) => found,
        None => return Err(ProcessError::NoViableProgramAddress),
    };
    assert(escrow_pda.deep_view() =~= escrow_pda@);
    if !keys_equal(&escrow_pda, &escrow_account.key) {
        return Err(ProcessError::InvalidSeeds);
    }
    let (vault_pda, vault_bump) = match vault_address {
        Some(found) => found,
        None => return Err(ProcessError::NoViableProgramAddress),
    };
    assert(vault_pda.deep_view() =~= vault_pda@);
    if !keys_equal(&vault_pda, &vault.key) {
        return Err(ProcessError::InvalidSeeds);
    }
    let escrow = Escrow {
        depositor: depositor.key,
        recipient: recipient.key,
        amount,
        status: EscrowStatus::Initialized,
        description,
        escrow_bump,
        vault_bump,
    };
    let data = escrow.to_bytes();
    let space = data.len() as u64;
    let mut effects: Vec<Effect> = Vec::new();
    effects.push(
        Effect::CreateAccount {
            payer: 0,
            account: 2,
            system_program: 4,
            funding: Funding::RentExempt,
            space,
            signer_seeds: make_escrow_seeds(&depositor.key, &recipient.key, Some(escrow_bump)),
        },
    );
    effects.push(Effect::WriteData { account: 2, data });
    effects.push(
        Effect::CreateAccount {
            payer: 0,
            account: 3,
            system_program: 4,
            funding: Funding::Lamports(0),
            space: 0,
            signer_seeds: make_vault_seeds(&escrow_account.key, Some(vault_bump)),
        },
    );
    assert(effects@.map_values(|e: Effect| e@) =~= spec_initialize_with_addresses(
        accounts@,
        amount,
        description@,
        escrow_address.deep_view(),
        vault_address.deep_view(),
    )->Ok_0);
    Ok(effects)
}

/// Creates a new escrow between the depositor and the recipient.
pub fn process_initialize(
    program_id: &[u8; 32],
    accounts: &[AccountSnapshot],
    amount: u64,
    description: [u8; 32],
) -> (r: Result<Vec<Effect>, ProcessError>)
    ensures
        outcome_view(r) == spec_process_initialize(program_id@, accounts@, amount, description@),
        r is Ok ==> {
            &&& r->Ok_0@.len() == 3
            &&& r->Ok_0@[0] is CreateAccount
            &&& r->Ok_0@[0]->CreateAccount_signer_seeds@.len() == 4
            &&& r->Ok_0@[0]->CreateAccount_signer_seeds@[0]@ == seq![101u8, 115u8, 99u8, 114u8, 111u8, 119u8]
            &&& r->Ok_0@[0]->CreateAccount_signer_seeds@[1]@ == accounts@[0].key@
            &&& r->Ok_0@[0]->CreateAccount_signer_seeds@[2]@ == accounts@[1].key@
            &&& r->Ok_0@[2] is CreateAccount
            &&& r->Ok_0@[2]->CreateAccount_signer_seeds@.len() == 3
            &&& r->Ok_0@[2]->CreateAccount_signer_seeds@[0]@ == seq![118u8, 97u8, 117u8, 108u8, 116u8]
            &&& r->Ok_0@[2]->CreateAccount_signer_seeds@[1]@ == accounts@[2].key@
        },
{
    if accounts.len() < 5 {
        return Err(ProcessError::NotEnoughAccountKeys);
    }
    let escrow_seeds = make_escrow_seeds(&accounts[0].key, &accounts[1].key, None);
    let escrow_address = try_find_program_address(&escrow_seeds, program_id);
    let vault_seeds = make_vault_seeds(&accounts[2].key, None);
    let vault_address = try_find_program_address(&vault_seeds, program_id);
    initialize_with_addresses(accounts, amount, description, escrow_address, vault_address)
}

// ---------------------------------------------------------------- Cancel

/// Balances of the depositor, escrow and vault accounts after account `i`'s
/// balance is set to `v`. Accounts that share a key are one account, so they
/// change together.
pub open spec fn set_balance(keys: Seq<Seq<u8>>, balances: Seq<u64>, i: int, v: u64) -> Seq<u64> {
    Seq::new(3, |j: int| if keys[j] == keys[i] { v } else { balances[j] })
}

/// The refund of a cancelled escrow, from the balances of the depositor (0),
/// escrow (1) and vault (2) accounts: the escrow account's balance goes to
/// the depositor, then the vault's if it holds any; each addition fails on
/// overflow.
pub open spec fn spec_cancel_refund(keys: Seq<Seq<u8>>, balances: Seq<u64>) -> Outcome {
    let from_escrow = balances[1];
    let b1 = set_balance(keys, balances, 1, 0);
    if b1[0] + from_escrow > u64::MAX {
        Err(ProcessError::ArithmeticOverflow)
    } else {
        let d1 = (b1[0] + from_escrow) as u64;
        let b2 = set_balance(keys, b1, 0, d1);
        let from_vault = b2[2];
        let first = seq![
            EffectModel::SetLamports { account: 1, lamports: 0 },
            EffectModel::SetLamports { account: 0, lamports: d1 },
        ];
        if from_vault == 0 {
            Ok(first)
        } else {
            let b3 = set_balance(keys, b2, 2, 0);
            if b3[0] + from_vault > u64::MAX {
                Err(ProcessError::ArithmeticOverflow)
            } else {
                Ok(
                    first + seq![
                        EffectModel::SetLamports { account: 2, lamports: 0 },
                        EffectModel::SetLamports { account: 0, lamports: (b3[0] + from_vault) as u64 },
                    ],
                )
            }
        }
    }
}

/// Cancel: `[depositor (signer), escrow, vault]`. The depositor of an
/// initialized escrow takes back the balances of the escrow account and of
/// its vault, which must sit at `vault_address`, the program address found
/// for ("vault", escrow account); the record becomes `Cancelled`.
pub open spec fn spec_cancel_with_vault_address(
    accounts: Seq<AccountSnapshot>,
    vault_address: Option<(Seq<u8>, u8)>,
) -> Outcome {
    if accounts.len() < 3 {
        Err(ProcessError::NotEnoughAccountKeys)
    } else if !accounts[0].is_signer {
        Err(ProcessError::MissingRequiredSignature)
    } else {
        match record_of(accounts, 1) {
            None => Err(ProcessError::InvalidAccountData),
            Some(e) => if e.depositor != accounts[0].key@ {
                Err(ProcessError::IllegalOwner)
            } else if e.status != EscrowStatus::Initialized {
                Err(ProcessError::InvalidAccountData)
            } else {
                match vault_address {
                    None => Err(ProcessError::NoViableProgramAddress),
                    Some((vault_pda, _)) => if vault_pda != accounts[2].key@ {
                        Err(ProcessError::InvalidSeeds)
                    } else {
                        let keys = seq![accounts[0].key@, accounts[1].key@, accounts[2].key@];
                        let balances = seq![
                            accounts[0].lamports,
                            accounts[1].lamports,
                            accounts[2].lamports,
                        ];
                        match spec_cancel_refund(keys, balances) {
                            Err(err) => Err(err),
                            Ok(refund) => Ok(
                                refund.push(
                                    EffectModel::WriteData {
                                        account: 1,
                                        data: spec_encode_escrow(e.with_status(EscrowStatus::Cancelled)),
                                    },
                                ),
                            ),
                        }
                    },
                }
            },
        }
    }
}

/// Cancel, with the vault's address looked up for the program.
pub open spec fn spec_process_cancel(program_id: Seq<u8>, accounts: Seq<AccountSnapshot>) -> Outcome {
    if accounts.len() < 3 {
        Err(ProcessError::NotEnoughAccountKeys)
    } else {
        spec_cancel_with_vault_address(
            accounts,
            spec_try_find_program_address(vault_seeds(accounts[1].key@), program_id),
        )
    }
}

/// Computes the refund of a cancelled escrow from the three accounts.
fn cancel_refund(accounts: &[AccountSnapshot]) -> (r: Result<Vec<Effect>, ProcessError>)
    requires
        accounts@.len() >= 3,
    ensures
        outcome_view(r) == spec_cancel_refund(
            seq![accounts@[0].key@, accounts@[1].key@, accounts@[2].key@],
            seq![accounts@[0].lamports, accounts@[1].lamports, accounts@[2].lamports],
        ),
{
    let ghost keys = seq![accounts@[0].key@, accounts@[1].key@, accounts@[2].key@];
    let ghost start = seq![accounts@[0].lamports, accounts@[1].lamports, accounts@[2].lamports];
    let same01 = keys_equal(&accounts[0].key, &accounts[1].key);
    let same02 = keys_equal(&accounts[0].key, &accounts[2].key);
    let same12 = keys_equal(&accounts[1].key, &accounts[2].key);
    let mut b0 = accounts[0].lamports;
    let mut b1 = accounts[1].lamports;
    let mut b2 = accounts[2].lamports;
    // The escrow account's balance goes to zero.
    let from_escrow = b1;
    b1 = 0;
    if same01 {
        b0 = 0;
    }
    if same12 {
        b2 = 0;
    }
    let ghost s1 = set_balance(keys, start, 1, 0);
    assert(s1 =~= seq![b0, b1, b2]);
    // The depositor receives it.
    let d1 = match b0.checked_add(from_escrow) {
        Some(d) => d,
        None => return Err(ProcessError::ArithmeticOverflow),
    };
    b0 = d1;
    if same01 {
        b1 = d1;
    }
    if same02 {
        b2 = d1;
    }
    let ghost s2 = set_balance(keys, s1, 0, d1);
    assert(s2 =~= seq![b0, b1, b2]);
    let mut effects: Vec<Effect> = Vec::new();
    effects.push(Effect::SetLamports { account: 1, lamports: 0 });
    effects.push(Effect::SetLamports { account: 0, lamports: d1 });
    let from_vault = b2;
    if from_vault > 0 {
        // The vault is emptied into the depositor too.
        b2 = 0;
        if same02 {
            b0 = 0;
        }
        if same12 {
            b1 = 0;
        }
        let ghost s3 = set_balance(keys, s2, 2, 0);
        assert(s3 =~= seq![b0, b1, b2]);
        let d2 = match b0.checked_add(from_vault) {
            Some(d) => d,
            None => return Err(ProcessError::ArithmeticOverflow),
        };
        effects.push(Effect::SetLamports { account: 2, lamports: 0 });
        effects.push(Effect::SetLamports { account: 0, lamports: d2 });
    }
    assert(effects@.map_values(|e: Effect| e@) =~= spec_cancel_refund(keys, start)->Ok_0);
    Ok(effects)
}

/// Cancels an unfunded escrow and returns its balances to the depositor,
/// given the address and bump seed found for the vault (`None` where none was
/// found).
pub fn cancel_with_vault_address(
    accounts: &[AccountSnapshot],
    vault_address: Option<([u8; 32], u8)>,
) -> (r: Result<Vec<Effect>, ProcessError>)
    ensures
        outcome_view(r) == spec_cancel_with_vault_address(accounts@, vault_address.deep_view()),
{
    if accounts.len() < 3 {
        return Err(ProcessError::NotEnoughAccountKeys);
    }
    let depositor = &accounts[0];
    let escrow_account = &accounts[1];
    let vault = &accounts[2];
    if !depositor.is_signer {
        return Err(ProcessError::MissingRequiredSignature);
    }
    let mut escrow = match Escrow::try_from_slice(escrow_account.data.as_slice()) {
        Some(e) => e,
        None => return Err(ProcessError::InvalidAccountData),
    };
    if !keys_equal(&escrow.depositor, &depositor.key) {
        return Err(ProcessError::IllegalOwner);
    }
    if escrow.status != EscrowStatus::Initialized {
        return Err(ProcessError::InvalidAccountData);
    }
    let vault_pda = match vault_address {
        Some(found) => found.0,
        None => return Err(ProcessError::NoViableProgramAddress),
    };
    assert(vault_pda.deep_view() =~= vault_pda@);
    if !keys_equal(&vault_pda, &vault.key) {
        return Err(ProcessError::InvalidSeeds);
    }
    let mut effects = match cancel_refund(accounts) {
        Ok(refund) => refund,
        Err(err) => return Err(err),
    };
    escrow.status = EscrowStatus::Cancelled;
    let ghost refund = effects@;
    effects.push(Effect::WriteData { account: 1, data: escrow.to_bytes() });
    assert(effects@.map_values(|e: Effect| e@) =~= refund.map_values(|e: Effect| e@).push(
        EffectModel::WriteData {
            account: 1,
            data: spec_encode_escrow(escrow@),
        },
    ));
    Ok(effects)
}

/// Cancels an unfunded escrow and returns its balances to the depositor.
pub fn process_cancel(program_id: &[u8; 32], accounts: &[AccountSnapshot]) -> (r: Result<Vec<Effect>, ProcessError>)
    ensures
        outcome_view(r) == spec_process_cancel(program_id@, accounts@),
{
    if accounts.len() < 3 {
        return Err(ProcessError::NotEnoughAccountKeys);
    }
    let seeds = make_vault_seeds(&accounts[1].key, None);
    let vault_address = try_find_program_address(&seeds, program_id);
    cancel_with_vault_address(accounts, vault_address)
}

// ---------------------------------------------------------------- Dispatch

/// What the program does with instruction data and accounts: data that is
/// not exactly one instruction is refused, else the instruction decides.
pub open spec fn spec_process_instruction(
    program_id: Seq<u8>,
    accounts: Seq<AccountSnapshot>,
    instruction_data: Seq<u8>,
) -> Outcome {
    match spec_decode_instruction(instruction_data) {
        None => Err(ProcessError::InvalidInstructionData),
        Some(instruction) => match instruction {
            InstructionModel::Initialize { amount, description } => spec_process_initialize(
                program_id,
                accounts,
                amount,
                description,
            ),
            InstructionModel::Fund => spec_process_fund(program_id, accounts),
            InstructionModel::Release => spec_process_release(accounts),
            InstructionModel::Dispute => spec_process_dispute(accounts),
            InstructionModel::Resolve { release_to_recipient } => spec_process_resolve(
                accounts,
                release_to_recipient,
            ),
            InstructionModel::Cancel => spec_process_cancel(program_id, accounts),
        },
    }
}

/// Decodes the instruction data and processes the instruction it holds.
pub fn process_instruction(
    program_id: &[u8; 32],
    accounts: &[AccountSnapshot],
    instruction_data: &[u8],
) -> (r: Result<Vec<Effect>, ProcessError>)
    ensures
        outcome_view(r) == spec_process_instruction(program_id@, accounts@, instruction_data@),
{
    let instruction = match EscrowInstruction::try_from_slice(instruction_data) {
        Some(i) => i,
        None => return Err(ProcessError::InvalidInstructionData),
    };
    match instruction {
        EscrowInstruction::Initialize { amount, description } => process_initialize(
            program_id,
            accounts,
            amount,
            description,
        ),
        EscrowInstruction::Fund => process_fund(program_id, accounts),
        EscrowInstruction::Release => process_release(accounts),
        EscrowInstruction::Dispute => process_dispute(accounts),
        EscrowInstruction::Resolve { release_to_recipient } => process_resolve(
            accounts,
            release_to_recipient,
        ),
        EscrowInstruction::Cancel => process_cancel(program_id, accounts),
    }
}

} // verus!
