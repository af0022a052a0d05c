//! Plain-value model of a durable-nonce account's state, and the decoding of
//! that state from account data bytes.
//!
//! A nonce account stores an 80-byte record: a 4-byte little-endian version
//! tag (0 legacy, 1 current), a 4-byte little-endian state tag
//! (0 uninitialized, 1 initialized), and for an initialized account the
//! 32-byte authority address, the 32-byte durable nonce hash, and the 8-byte
//! little-endian fee in lamports per signature. Bytes past the record are
//! ignored, as the ledger's own decoder ignores them.

use vstd::prelude::*;

use crate::bytes::{bytes_eq, clone_bytes, copy_range, read_u32_le, read_u64_le, u32_le, u64_le};

verus! {

/// The record stored by an initialized nonce account.
pub struct NonceData {
    /// Address of the account that signs transactions using the nonce account.
    pub authority: Vec<u8>,
    /// The durable nonce hash, used as a transaction's recent blockhash.
    pub durable_nonce: Vec<u8>,
    /// The fee, in lamports per signature, paid when the nonce is advanced.
    pub lamports_per_signature: u64,
}

/// The state of a nonce account.
pub enum NonceState {
    Uninitialized,
    Initialized(NonceData),
}

/// The versioned state of a nonce account.
pub enum NonceVersions {
    Legacy(NonceState),
    Current(NonceState),
}

/// Why no durable nonce hash could be taken from a nonce account.
#[derive(Clone, Copy, Debug, PartialEq, Eq, Structural)]
pub enum NonceError {
    /// The account does not exist.
    MissingAccount,
    /// The account data does not decode as versioned nonce state.
    MalformedState,
    /// The account holds legacy state, which cannot validate transactions.
    LegacyVersion,
    /// The account holds current but uninitialized state.
    UninitializedState,
    /// The account's authority is not the expected address.
    WrongAuthority,
}

/// Mathematical model of an initialized nonce record.
pub struct NonceDataModel {
    pub authority: Seq<u8>,
    pub durable_nonce: Seq<u8>,
    pub lamports_per_signature: u64,
}

/// Mathematical model of a nonce account's state.
pub enum NonceStateModel {
    Uninitialized,
    Initialized(NonceDataModel),
}

/// Mathematical model of a nonce account's versioned state.
pub enum NonceVersionsModel {
    Legacy(NonceStateModel),
    Current(NonceStateModel),
}

impl View for NonceData {
    type V = NonceDataModel;

    open spec fn view(&self) -> NonceDataModel {
        NonceDataModel {
            authority: self.authority@,
            durable_nonce: self.durable_nonce@,
            lamports_per_signature: self.lamports_per_signature,
        }
    }
}

impl View for NonceState {
    type V = NonceStateModel;

    open spec fn view(&self) -> NonceStateModel {
        match self {
            NonceState::Uninitialized => NonceStateModel::Uninitialized,
            NonceState::Initialized(d) => NonceStateModel::Initialized(d@),
        }
    }
}

impl View for NonceVersions {
    type V = NonceVersionsModel;

    open spec fn view(&self) -> NonceVersionsModel {
        match self {
            NonceVersions::Legacy(s) => NonceVersionsModel::Legacy(s@),
            NonceVersions::Current(s) => NonceVersionsModel::Current(s@),
        }
    }
}

/// The initialized record held in `s`, when `s` is long enough.
pub open spec fn nonce_data_of(s: Seq<u8>) -> Option<NonceDataModel> {
    if s.len() >= 72 {
        Some(NonceDataModel {
            authority: s.subrange(0, 32),
            durable_nonce: s.subrange(32, 64),
            lamports_per_signature: u64_le(s.subrange(64, 72)) as u64,
        })
    } else {
        None
    }
}

/// The nonce state held in `s`: a 4-byte tag, then for tag 1 the record.
pub open spec fn nonce_state_of(s: Seq<u8>) -> Option<NonceStateModel> {
    if s.len() < 4 {
        None
    } else if u32_le(s.subrange(0, 4)) == 0 {
        Some(NonceStateModel::Uninitialized)
    } else if u32_le(s.subrange(0, 4)) == 1 {
        match nonce_data_of(s.skip(4)) {
            Some(d) => Some(NonceStateModel::Initialized(d)),
            None => None,
        }
    } else {
        None
    }
}

/// The versioned nonce state held in `s`: a 4-byte tag, then the state.
pub open spec fn nonce_versions_of(s: Seq<u8>) -> Option<NonceVersionsModel> {
    if s.len() < 4 {
        None
    } else if u32_le(s.subrange(0, 4)) == 0 {
        match nonce_state_of(s.skip(4)) {
            Some(st) => Some(NonceVersionsModel::Legacy(st)),
            None => None,
        }
    } else if u32_le(s.subrange(0, 4)) == 1 {
        match nonce_state_of(s.skip(4)) {
            Some(st) => Some(NonceVersionsModel::Current(st)),
            None => None,
        }
    } else {
        None
    }
}

/// The durable nonce hash a versioned state yields for `expected_authority`:
/// the stored hash when the state is current, initialized, and authorized by
/// that address, and the exact error otherwise.
pub open spec fn durable_nonce_of(
    v: NonceVersionsModel,
    expected_authority: Seq<u8>,
) -> Result<Seq<u8>, NonceError> {
    match v {
        NonceVersionsModel::Legacy(_) => Err(NonceError::LegacyVersion),
        NonceVersionsModel::Current(state) => match state {
            NonceStateModel::Uninitialized => Err(NonceError::UninitializedState),
            NonceStateModel::Initialized(d) => {
                if d.authority == expected_authority {
                    Ok(d.durable_nonce)
                } else {
                    Err(NonceError::WrongAuthority)
                }
            },
        },
    }
}

/// The durable nonce hash yielded by a nonce account's data, or the error:
/// missing account, undecodable data, or a state `durable_nonce_of` refuses.
pub open spec fn nonce_lookup_result(
    account_data: Option<Seq<u8>>,
    expected_authority: Seq<u8>,
) -> Result<Seq<u8>, NonceError> {
    match account_data {
        None => Err(NonceError::MissingAccount),
        Some(s) => match nonce_versions_of(s) {
            None => Err(NonceError::MalformedState),
            Some(v) => durable_nonce_of(v, expected_authority),
        },
    }
}

/// Decodes versioned nonce state from account data bytes.
pub fn parse_nonce_versions(data: &Vec<u8>) -> (r: Option<NonceVersions>)
    ensures
        match nonce_versions_of(data@) {
            Some(m) => r matches Some(v) && v@ == m,
            None => r is None,
        },
{
    let n: usize = data.len();
    if n < 4 {
        return None;
    }
    let version_tag = read_u32_le(data, 0);
    if version_tag > 1 {
        return None;
    }
    if n < 8 {
        return None;
    }
    let state_tag = read_u32_le(data, 4);
    proof {
        assert(data@.skip(4).subrange(0, 4) =~= data@.subrange(4, 8));
    }
    let state: NonceState = if state_tag == 0 {
        NonceState::Uninitialized
    } else if state_tag == 1 {
        if n < 80 {
            return None;
        }
        proof {
            assert(data@.skip(4).skip(4) =~= data@.skip(8));
            assert(data@.skip(8).subrange(0, 32) =~= data@.subrange(8, 40));
            assert(data@.skip(8).subrange(32, 64) =~= data@.subrange(40, 72));
            assert(data@.skip(8).subrange(64, 72) =~= data@.subrange(72, 80));
        }
        let authority = copy_range(data, 8, 32);
        let durable_nonce = copy_range(data, 40, 32);
        let lamports_per_signature = read_u64_le(data, 72);
        NonceState::Initialized(NonceData { authority, durable_nonce, lamports_per_signature })
    } else {
        return None;
    };
    if version_tag == 0 {
        Some(NonceVersions::Legacy(state))
    } else {
        Some(NonceVersions::Current(state))
    }
}

/// Takes the durable nonce hash out of decoded nonce state, provided the
/// state is current, initialized, and authorized by `expected_authority`.
pub fn extract_durable_nonce(
    versions: &NonceVersions,
    expected_authority: &Vec<u8>,
) -> (r: Result<Vec<u8>, NonceError>)
    ensures
        ({
            let m = durable_nonce_of(versions@, expected_authority@);
            match r {
                Ok(h) => m matches Ok(s) && s == h@,
                Err(e) => m matches Err(me) && me == e,
            }
        }),
{
    match versions {
        NonceVersions::Legacy(_) => Err(NonceError::LegacyVersion),
        NonceVersions::Current(state) => match state {
            NonceState::Uninitialized => Err(NonceError::UninitializedState),
            NonceState::Initialized(d) => {
                if bytes_eq(&d.authority, expected_authority) {
                    Ok(clone_bytes(&d.durable_nonce))
                } else {
                    Err(NonceError::WrongAuthority)
                }
            },
        },
    }
}

/// Decodes a nonce account's data and takes its durable nonce hash, checking
/// that the account exists, decodes, and is authorized by
/// `expected_authority`.
pub fn fetch_nonce_from_account(
    account_data: &Option<Vec<u8>>,
    expected_authority: &Vec<u8>,
) -> (r: Result<Vec<u8>, NonceError>)
    ensures
        ({
            let m = nonce_lookup_result(
                match account_data {
                    Some(d) => Some(d@),
                    None => None,
                },
                expected_authority@,
            );
            match r {
                Ok(h) => m matches Ok(s) && s == h@ && h@.len() == 32,
                Err(e) => m matches Err(me) && me == e,
            }
        }),
{
    match account_data {
        None => Err(NonceError::MissingAccount),
        Some(data) => match parse_nonce_versions(data) {
            None => Err(NonceError::MalformedState),
            Some(versions) => extract_durable_nonce(&versions, expected_authority),
        },
    }
}

} // verus!
