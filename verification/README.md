# solana-escrow

A trustless escrow program for Solana whose decision logic is verified with
Verus. The depositor locks an agreed amount of lamports in a vault at a
program derived address; the program releases it to the recipient, refunds
the depositor, or settles a dispute, following a fixed state machine:

    Initialized --Fund--> Funded --Release--> Released
         |                   |
       Cancel             Dispute
         v                   v
     Cancelled           Disputed --Resolve--> Released | Cancelled

Layout:

- `src/` – the verified library.
  - `state.rs`: the escrow record and its 107-byte account layout.
  - `instruction.rs`: the six instructions and their byte layout.
  - `error.rs`: the program's error codes and the refusal reasons.
  - `pda.rs`: the lookup of program derived addresses (a trusted call into
    `solana_program`).
  - `processor.rs`: the checks of each instruction, in order, and the effects
    of an accepted one, each against an exact specification.
  - `laws.rs`: properties of the whole program, proved from those
    specifications (state machine, authorization, where funds go, lamport
    conservation on cancel, creation of the record).
- `app/` – the on-chain entrypoint: it hands the runtime's accounts to the
  processor, applies the returned effects through the runtime (system program
  calls, rent, account data and balances), and holds Borsh-derived copies of
  the library's types for clients.
- `tests/` – tests of the formats (checked against `borsh`) and of every
  instruction, including a full lifecycle.
