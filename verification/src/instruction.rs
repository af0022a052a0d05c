//! Plain-value model of ledger instructions, and the construction of the
//! system-program transfer used as a relay tip.
//!
//! An instruction is modelled exactly as the ledger represents it: a 32-byte
//! program address, a list of account metas, and opaque data bytes. The
//! system-program transfer is built byte for byte: a 4-byte little-endian
//! variant tag of 2 followed by the 8-byte little-endian lamport amount.

use vstd::prelude::*;

use crate::bytes::{clone_bytes, push_u64_le, u64_le_bytes};

verus! {

/// One account referenced by an instruction.
pub struct AccountMeta {
    pub pubkey: Vec<u8>,
    pub is_signer: bool,
    pub is_writable: bool,
}

/// An instruction: a program address, the accounts it touches, and its data.
pub struct Instruction {
    pub program_id: Vec<u8>,
    pub accounts: Vec<AccountMeta>,
    pub data: Vec<u8>,
}

/// An account meta is well formed when its address is 32 bytes.
pub open spec fn meta_wf(m: AccountMeta) -> bool {
    m.pubkey@.len() == 32
}

/// An instruction is well formed when every address in it is 32 bytes and
/// its data fits the message format's 16-bit length prefix.
pub open spec fn instruction_wf(ix: Instruction) -> bool {
    &&& ix.program_id@.len() == 32
    &&& forall|i: int| 0 <= i < ix.accounts@.len() ==> meta_wf(#[trigger] ix.accounts@[i])
    &&& ix.data@.len() <= 65535
}

pub open spec fn instructions_wf(s: Seq<Instruction>) -> bool {
    forall|i: int| 0 <= i < s.len() ==> instruction_wf(#[trigger] s[i])
}

/// The system program's address: 32 zero bytes.
pub open spec fn system_program_id() -> Seq<u8> {
    Seq::new(32, |i: int| 0u8)
}

/// The data bytes of a system-program transfer of `lamports`:
/// the variant tag 2 as 4 little-endian bytes, then the amount.
pub open spec fn transfer_data(lamports: u64) -> Seq<u8> {
    seq![2u8, 0u8, 0u8, 0u8] + u64_le_bytes(lamports)
}

/// Whether `ix` is exactly the system-program transfer of `lamports`
/// from `from` to `to`: `from` writable and signing, `to` writable.
pub open spec fn is_transfer_instruction(
    ix: Instruction,
    from: Seq<u8>,
    to: Seq<u8>,
    lamports: u64,
) -> bool {
    &&& ix.program_id@ == system_program_id()
    &&& ix.accounts@.len() == 2
    &&& ix.accounts@[0].pubkey@ == from
    &&& ix.accounts@[0].is_signer
    &&& ix.accounts@[0].is_writable
    &&& ix.accounts@[1].pubkey@ == to
    &&& !ix.accounts@[1].is_signer
    &&& ix.accounts@[1].is_writable
    &&& ix.data@ == transfer_data(lamports)
}

/// Builds a vector holding the system program's address.
pub fn system_program_address() -> (r: Vec<u8>)
    ensures
        r@ == system_program_id(),
{
    let mut r: Vec<u8> = Vec::new();
    let mut i: usize = 0;
    while i < 32
        invariant
            i <= 32,
            r@ =~= Seq::new(i as nat, |j: int| 0u8),
        decreases 32 - i,
    {
        r.push(0u8);
        i = i + 1;
        proof {
            assert(r@ =~= Seq::new(i as nat, |j: int| 0u8));
        }
    }
    proof {
        assert(r@ =~= system_program_id());
    }
    r
}

/// A transfer of `amount` lamports from `from` to `to`, used as a static tip
/// for a transaction relay service.
pub fn tip(from: &Vec<u8>, to: &Vec<u8>, amount: u64) -> (ix: Instruction)
    requires
        from@.len() == 32,
        to@.len() == 32,
    ensures
        is_transfer_instruction(ix, from@, to@, amount),
        instruction_wf(ix),
{
    let program_id = system_program_address();
    let mut accounts: Vec<AccountMeta> = Vec::new();
    accounts.push(AccountMeta { pubkey: clone_bytes(from), is_signer: true, is_writable: true });
    accounts.push(AccountMeta { pubkey: clone_bytes(to), is_signer: false, is_writable: true });
    let mut data: Vec<u8> = Vec::new();
    data.push(2u8);
    data.push(0u8);
    data.push(0u8);
    data.push(0u8);
    push_u64_le(&mut data, amount);
    proof {
        assert(data@ =~= transfer_data(amount));
    }
    Instruction { program_id, accounts, data }
}

/// Appends the tip transfer to the end of an instruction list, leaving the
/// instructions before it unchanged.
pub fn with_tip(
    instructions: Vec<Instruction>,
    from: &Vec<u8>,
    to: &Vec<u8>,
    amount: u64,
) -> (r: Vec<Instruction>)
    requires
        from@.len() == 32,
        to@.len() == 32,
    ensures
        r@.len() == instructions@.len() + 1,
        forall|i: int| 0 <= i < instructions@.len() ==> r@[i] == instructions@[i],
        is_transfer_instruction(r@[instructions@.len() as int], from@, to@, amount),
        instructions_wf(instructions@) ==> instructions_wf(r@),
{
    let tip_ix = tip(from, to, amount);
    let mut r = instructions;
    r.push(tip_ix);
    r
}

/// An upper bound on the number of distinct account keys a message built from
/// the first `n` instructions can name: every account meta, every program
/// address, and one more for the fee payer.
pub open spec fn keys_up_to(s: Seq<Instruction>, n: int) -> int
    decreases n,
{
    if n <= 0 {
        0
    } else {
        keys_up_to(s, n - 1) + 1 + s[n - 1].accounts@.len()
    }
}

/// An upper bound on the account keys named by the whole instruction list.
pub open spec fn key_budget(s: Seq<Instruction>) -> int {
    keys_up_to(s, s.len() as int) + 1
}

/// The key count over a prefix never shrinks as the prefix grows.
pub proof fn lemma_keys_up_to_monotone(s: Seq<Instruction>, m: int, n: int)
    requires
        0 <= m <= n,
    ensures
        keys_up_to(s, m) <= keys_up_to(s, n),
    decreases n,
{
    if n > m {
        lemma_keys_up_to_monotone(s, m, n - 1);
    }
}

/// The key count over a prefix depends only on the instructions in it.
pub proof fn lemma_keys_up_to_agree(s1: Seq<Instruction>, s2: Seq<Instruction>, n: int)
    requires
        0 <= n <= s1.len(),
        n <= s2.len(),
        forall|i: int| 0 <= i < n ==> s1[i] == s2[i],
    ensures
        keys_up_to(s1, n) == keys_up_to(s2, n),
    decreases n,
{
    if n > 0 {
        lemma_keys_up_to_agree(s1, s2, n - 1);
    }
}

/// Whether some account meta in the list flags `key` as a signer.
pub open spec fn has_signer(s: Seq<Instruction>, key: Seq<u8>) -> bool {
    exists|i: int, j: int|
        0 <= i < s.len() && 0 <= j < s[i].accounts@.len()
            && (#[trigger] s[i].accounts@[j]).is_signer && s[i].accounts@[j].pubkey@ == key
}

/// Whether every signer-flagged account meta in the list carries `key`.
pub open spec fn signers_only(s: Seq<Instruction>, key: Seq<u8>) -> bool {
    forall|i: int, j: int|
        0 <= i < s.len() && 0 <= j < s[i].accounts@.len()
            && (#[trigger] s[i].accounts@[j]).is_signer ==> s[i].accounts@[j].pubkey@ == key
}

/// Checks whether a message built from the instruction list names at most
/// 255 account keys.
pub fn fits_key_budget(instructions: &Vec<Instruction>) -> (r: bool)
    ensures
        r == (key_budget(instructions@) <= 255),
{
    let mut count: u64 = 0;
    let mut i: usize = 0;
    while i < instructions.len()
        invariant
            i <= instructions@.len(),
            count == keys_up_to(instructions@, i as int),
            count <= 254,
        decreases instructions@.len() - i,
    {
        let n_accounts = instructions[i].accounts.len();
        let over = if n_accounts > 254 {
            true
        } else {
            count + 1 + n_accounts as u64 > 254
        };
        if over {
            proof {
                assert(keys_up_to(instructions@, i + 1) > 254);
                lemma_keys_up_to_monotone(instructions@, i + 1, instructions@.len() as int);
            }
            return false;
        }
        count = count + 1 + n_accounts as u64;
        i = i + 1;
    }
    true
}

} // verus!
