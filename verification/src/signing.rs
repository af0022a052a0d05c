//! Assembly and signing of the transactions the workspace sends: the one
//! that creates its durable nonce account, and nonce-based transactions
//! carrying a relay tip.
//!
//! Key material, address derivation, and signatures come from `solana_sdk`
//! through small trusted wrappers; the instruction lists handed to those
//! wrappers are built and checked by verified code.

use vstd::prelude::*;

use solana_sdk::hash::Hash as SdkHash;
use solana_sdk::instruction::AccountMeta as SdkAccountMeta;
use solana_sdk::instruction::Instruction as SdkInstruction;
use solana_sdk::message::Message;
use solana_sdk::pubkey::Pubkey as SdkPubkey;
use solana_sdk::signature::Keypair;
use solana_sdk::signer::Signer;
use solana_sdk::transaction::Transaction;

use crate::bytes::{ascii_bytes, seq_is_ascii, u64_le_bytes};
use crate::instruction::{
    fits_key_budget, has_signer, instructions_wf, key_budget, keys_up_to, lemma_keys_up_to_agree,
    signers_only, system_program_address, system_program_id, with_tip, AccountMeta, Instruction,
};

verus! {

/// One lamport-denominated sol.
pub const LAMPORTS_PER_SOL: u64 = 1_000_000_000;

/// Declares `solana_sdk`'s `Keypair` so signatures can carry it; the
/// verified code never looks inside one.
#[verifier::external_type_specification]
#[verifier::external_body]
pub struct ExKeypair(Keypair);

/// Declares `solana_sdk`'s `Transaction`; the verified code only hands
/// signed transactions through.
#[verifier::external_type_specification]
#[verifier::external_body]
pub struct ExTransaction(Transaction);

/// The 32-byte ed25519 public key of a keypair: a function of the keypair
/// alone.
pub uninterp spec fn pubkey_of(keypair: &Keypair) -> Seq<u8>;

/// The address that seed derivation yields for a base address, a seed
/// string, and an owning program: a function of those three values alone.
pub uninterp spec fn pubkey_with_seed(base: Seq<u8>, seed: Seq<char>, owner: Seq<u8>) -> Seq<u8>;

/// The marker bytes, `ProgramDerivedAddress`, that seed derivation refuses
/// at the end of an owner address.
pub open spec fn pda_marker() -> Seq<u8> {
    seq![
        80u8, 114u8, 111u8, 103u8, 114u8, 97u8, 109u8, 68u8, 101u8, 114u8, 105u8, 118u8, 101u8,
        100u8, 65u8, 100u8, 100u8, 114u8, 101u8, 115u8, 115u8,
    ]
}

/// Whether an owner address ends with the program-derived-address marker.
pub open spec fn ends_with_pda_marker(owner: Seq<u8>) -> bool {
    owner.len() >= 21 && owner.subrange(owner.len() - 21, owner.len() as int) == pda_marker()
}

/// Relies on `Signer::pubkey` for `Keypair`: the signer's 32-byte ed25519
/// public key, a function of the keypair alone.
#[verifier::external_body]
fn keypair_pubkey(keypair: &Keypair) -> (r: Vec<u8>)
    ensures
        r@.len() == 32,
        r@ == pubkey_of(keypair),
{
    keypair.pubkey().to_bytes().to_vec()
}

/// Relies on `Pubkey::create_with_seed`: a 32-byte hash of base, seed, and
/// owner, a function of those arguments alone. It fails only for a seed over
/// 32 bytes or an owner ending with the program-derived-address marker, so
/// it succeeds for any ASCII seed of at most 32 characters and an owner
/// without the marker.
#[verifier::external_body]
fn derive_address(base: &Vec<u8>, seed: &str, owner: &Vec<u8>) -> (r: Option<Vec<u8>>)
    requires
        base@.len() == 32,
        owner@.len() == 32,
    ensures
        r matches Some(p) ==> p@.len() == 32 && p@ == pubkey_with_seed(base@, seed@, owner@),
        seed@.len() <= 32 && seq_is_ascii(seed@) && !ends_with_pda_marker(owner@) ==> r is Some,
{
    let b = SdkPubkey::try_from(base.as_slice()).unwrap();
    let o = SdkPubkey::try_from(owner.as_slice()).unwrap();
    match SdkPubkey::create_with_seed(&b, seed, &o) {
        Ok(p) => Some(p.to_bytes().to_vec()),
        Err(_) => None,
    }
}

/// Relies on `system_instruction::create_nonce_account_with_seed`: exactly
/// two system-program instructions. The first, create-account-with-seed,
/// names the funder (writable, signing), the new account (writable), and
/// the base address (read-only, signing), and carries the tag-3 record:
/// base, length-prefixed seed, lamports, the 80-byte account size, and the
/// owning system program. The second, initialize-nonce-account, names the
/// new account (writable) and two read-only sysvar accounts, none signing,
/// and carries the tag-6 record: the nonce authority.
#[verifier::external_body]
fn create_nonce_account_instructions(
    from: &Vec<u8>,
    nonce_account: &Vec<u8>,
    base: &Vec<u8>,
    seed: &str,
    authority: &Vec<u8>,
    lamports: u64,
) -> (r: Vec<Instruction>)
    requires
        from@.len() == 32,
        nonce_account@.len() == 32,
        base@.len() == 32,
        authority@.len() == 32,
        seed@.len() <= 32,
        seq_is_ascii(seed@),
    ensures
        r@.len() == 2,
        instructions_wf(r@),
        r@[0].program_id@ == system_program_id(),
        r@[0].accounts@.len() == 3,
        r@[0].accounts@[0].pubkey@ == from@ && r@[0].accounts@[0].is_signer
            && r@[0].accounts@[0].is_writable,
        r@[0].accounts@[1].pubkey@ == nonce_account@ && !r@[0].accounts@[1].is_signer
            && r@[0].accounts@[1].is_writable,
        r@[0].accounts@[2].pubkey@ == base@ && r@[0].accounts@[2].is_signer
            && !r@[0].accounts@[2].is_writable,
        r@[0].data@ == seq![3u8, 0u8, 0u8, 0u8] + base@ + u64_le_bytes(seed@.len() as u64)
            + ascii_bytes(seed@) + u64_le_bytes(lamports) + u64_le_bytes(80u64)
            + system_program_id(),
        r@[1].program_id@ == system_program_id(),
        r@[1].accounts@.len() == 3,
        r@[1].accounts@[0].pubkey@ == nonce_account@ && !r@[1].accounts@[0].is_signer
            && r@[1].accounts@[0].is_writable,
        !r@[1].accounts@[1].is_signer && !r@[1].accounts@[2].is_signer,
        r@[1].data@ == seq![6u8, 0u8, 0u8, 0u8] + authority@,
{
    let ixs = solana_sdk::system_instruction::create_nonce_account_with_seed(
        &SdkPubkey::try_from(from.as_slice()).unwrap(),
        &SdkPubkey::try_from(nonce_account.as_slice()).unwrap(),
        &SdkPubkey::try_from(base.as_slice()).unwrap(), seed,
        &SdkPubkey::try_from(authority.as_slice()).unwrap(), lamports,
    );
    ixs.into_iter().map(|ix| Instruction {
        program_id: ix.program_id.to_bytes().to_vec(),
        accounts: ix.accounts.into_iter().map(|m| AccountMeta {
            pubkey: m.pubkey.to_bytes().to_vec(),
            is_signer: m.is_signer, is_writable: m.is_writable,
        }).collect(),
        data: ix.data,
    }).collect()
}

/// Relies on `Transaction::new_signed_with_payer`, taken apart so that a
/// signing failure returns `None` instead of panicking: the message is
/// compiled with `Message::new_with_blockhash` (which panics only past 255
/// account keys, ruled out by the key budget) and signed with
/// `Transaction::try_sign`. Message serialization under the signer unwraps
/// only on a data vector past the format's 16-bit length prefix, ruled out
/// by well-formedness. Signing succeeds exactly when the signer-flagged
/// keys are the payer's key and nothing else: `try_sign` refuses a payer
/// absent from the signer keys, and a transaction signed by fewer keypairs
/// than its required signatures.
#[verifier::external_body]
fn sign_transaction(
    instructions: &Vec<Instruction>,
    payer: &Keypair,
    recent_blockhash: &Vec<u8>,
) -> (r: Option<Transaction>)
    requires
        instructions_wf(instructions@),
        key_budget(instructions@) <= 255,
        recent_blockhash@.len() == 32,
    ensures
        (r is Some) == (has_signer(instructions@, pubkey_of(payer)) && signers_only(
            instructions@,
            pubkey_of(payer),
        )),
{
    let hash = SdkHash::new_from_array(recent_blockhash.as_slice().try_into().unwrap());
    let ixs: Vec<SdkInstruction> = instructions.iter().map(|ix| SdkInstruction {
        program_id: SdkPubkey::try_from(ix.program_id.as_slice()).unwrap(),
        accounts: ix.accounts.iter().map(|m| SdkAccountMeta {
            pubkey: SdkPubkey::try_from(m.pubkey.as_slice()).unwrap(),
            is_signer: m.is_signer, is_writable: m.is_writable,
        }).collect(),
        data: ix.data.clone(),
    }).collect();
    let message = Message::new_with_blockhash(&ixs, None, &hash);
    let mut tx = Transaction::new_unsigned(message);
    match tx.try_sign(&[payer], hash) { Ok(_) => Some(tx), Err(_) => None }
}

/// Appends a tip transfer of `amount` lamports from the payer to `to`, then
/// signs the instruction list with the durable nonce hash as the recent
/// blockhash. Succeeds exactly when the tipped list stays within the
/// 255-key message limit and no instruction asks for a signature by any key
/// but the payer's.
pub fn with_tip_and_nonce(
    payer: &Keypair,
    instructions: Vec<Instruction>,
    to: &Vec<u8>,
    amount: u64,
    nonce: &Vec<u8>,
) -> (r: Option<Transaction>)
    requires
        instructions_wf(instructions@),
        to@.len() == 32,
        nonce@.len() == 32,
    ensures
        (r is Some) == (key_budget(instructions@) + 3 <= 255 && signers_only(
            instructions@,
            pubkey_of(payer),
        )),
{
    let payer_key = keypair_pubkey(payer);
    let tipped = with_tip(instructions, &payer_key, to, amount);
    proof {
        let l = instructions@.len() as int;
        lemma_keys_up_to_agree(tipped@, instructions@, l);
        assert(keys_up_to(tipped@, l + 1) == keys_up_to(tipped@, l) + 1
            + tipped@[l].accounts@.len());
        assert(key_budget(tipped@) == key_budget(instructions@) + 3);
        assert(tipped@[l].accounts@[0].is_signer && tipped@[l].accounts@[0].pubkey@ == pubkey_of(
            payer,
        ));
        assert(has_signer(tipped@, pubkey_of(payer)));
        if signers_only(instructions@, pubkey_of(payer)) {
            assert forall|i: int, j: int|
                0 <= i < tipped@.len() && 0 <= j < tipped@[i].accounts@.len() && (#[trigger] tipped@[i].accounts@[j]).is_signer implies tipped@[i].accounts@[j].pubkey@
                == pubkey_of(payer) by {
                if i < l {
                    assert(tipped@[i] == instructions@[i]);
                    assert(instructions@[i].accounts@[j].is_signer);
                }
            }
            assert(signers_only(tipped@, pubkey_of(payer)));
        }
        if signers_only(tipped@, pubkey_of(payer)) {
            assert forall|i: int, j: int|
                0 <= i < instructions@.len() && 0 <= j < instructions@[i].accounts@.len() && (
                #[trigger] instructions@[i].accounts@[j]).is_signer implies instructions@[i].accounts@[j].pubkey@
                == pubkey_of(payer) by {
                assert(tipped@[i] == instructions@[i]);
                assert(tipped@[i].accounts@[j].is_signer);
            }
            assert(signers_only(instructions@, pubkey_of(payer)));
        }
    }
    if !fits_key_budget(&tipped) {
        return None;
    }
    sign_transaction(&tipped, payer, nonce)
}

/// Builds the signed transaction that creates and initializes a durable
/// nonce account for `payer`, funded with one sol, at the address derived
/// from the payer's key under the fixed seed and the system program. The
/// derivation and the signing always succeed: the seed is 16 ASCII
/// characters, the system program's address does not end with the
/// program-derived-address marker, and only the payer's key signs.
pub fn setup_transaction(payer: &Keypair, recent_blockhash: &Vec<u8>) -> (r: Option<
    (Vec<u8>, Transaction),
>)
    requires
        recent_blockhash@.len() == 32,
    ensures
        r is Some,
        r matches Some(p) ==> p.0@.len() == 32 && p.0@ == pubkey_with_seed(
            pubkey_of(payer),
            "my nonce account"@,
            system_program_id(),
        ),
{
    let payer_key = keypair_pubkey(payer);
    let owner = system_program_address();
    let seed = "my nonce account";
    proof {
        reveal_strlit("my nonce account");
        assert(seed@.len() == 16);
        assert(seq_is_ascii(seed@));
        assert(!ends_with_pda_marker(owner@)) by {
            assert(owner@.subrange(11, 32)[0] == 0u8);
            assert(pda_marker()[0] == 80u8);
        }
    }
    let nonce_account = match derive_address(&payer_key, seed, &owner) {
        Some(a) => a,
        None => {
            proof {
                assert(false);
            }
            return None;
        },
    };
    let ixs = create_nonce_account_instructions(
        &payer_key,
        &nonce_account,
        &payer_key,
        seed,
        &payer_key,
        LAMPORTS_PER_SOL,
    );
    proof {
        assert(keys_up_to(ixs@, 0) == 0);
        assert(keys_up_to(ixs@, 1) == 4);
        assert(keys_up_to(ixs@, 2) == 8);
        assert(key_budget(ixs@) == 9);
        assert(has_signer(ixs@, pubkey_of(payer))) by {
            assert(ixs@[0].accounts@[0].is_signer && ixs@[0].accounts@[0].pubkey@ == pubkey_of(
                payer,
            ));
        }
        assert forall|i: int, j: int|
            0 <= i < ixs@.len() && 0 <= j < ixs@[i].accounts@.len() && (#[trigger] ixs@[i].accounts@[j]).is_signer implies ixs@[i].accounts@[j].pubkey@
            == pubkey_of(payer) by {
            assert(i == 0 || i == 1);
            assert(j == 0 || j == 1 || j == 2);
        }
        assert(signers_only(ixs@, pubkey_of(payer)));
    }
    let tx = match sign_transaction(&ixs, payer, recent_blockhash) {
        Some(t) => t,
        None => {
            proof {
                assert(false);
            }
            return None;
        },
    };
    Some((nonce_account, tx))
}

} // verus!
