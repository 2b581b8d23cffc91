//! How a record is laid out in storage: a type tag of 8 bytes, then the
//! owner's 32 bytes, the state root's 32 bytes and the bump. The tag is the
//! store's way to tell record types apart; its value is the store's choice.

use vstd::prelude::*;
use crate::pubkey::Pubkey;
use crate::state::{AiState, AiStateView};

verus! {

/// The stored bytes of a record under a tag.
pub open spec fn encoding(tag: Seq<u8>, record: AiStateView) -> Seq<u8> {
    tag + record.user + record.state_root + seq![record.bump]
}

/// The record that stored bytes hold under a tag: none unless the bytes have
/// the size of a stored record and start with the tag.
pub open spec fn decoding(bytes: Seq<u8>, tag: Seq<u8>) -> Option<AiStateView> {
    if bytes.len() == AiState::SPACE && bytes.subrange(0, 8) == tag {
        Some(
            AiStateView {
                user: bytes.subrange(8, 40),
                state_root: bytes.subrange(40, 72),
                bump: bytes[72],
            },
        )
    } else {
        None
    }
}

impl AiState {
    /// The stored bytes of the record under `tag`.
    pub fn encode(&self, tag: &[u8; 8]) -> (bytes: [u8; 73])
        ensures
            bytes@ == encoding(tag@, self@),
    {
        let mut bytes = [0u8; 73];
        let mut i: usize = 0;
        while i < 8
            invariant
                i <= 8,
                forall|j: int| 0 <= j < i ==> bytes@[j] == tag@[j],
            decreases 8 - i,
        {
            bytes[i] = tag[i];
            i += 1;
        }
        let mut i: usize = 0;
        while i < 32
            invariant
                i <= 32,
                forall|j: int| 0 <= j < 8 ==> bytes@[j] == tag@[j],
                forall|j: int| 0 <= j < i ==> bytes@[8 + j] == self.user@[j],
                forall|j: int| 0 <= j < i ==> bytes@[40 + j] == self.state_root@[j],
            decreases 32 - i,
        {
            bytes[8 + i] = self.user.0[i];
            bytes[40 + i] = self.state_root[i];
            i += 1;
        }
        bytes[72] = self.bump;
        assert(bytes@ =~= encoding(tag@, self@));
        bytes
    }

    /// The record that `bytes` holds under `tag`: `None` unless `bytes` has
    /// the size of a stored record and starts with `tag`.
    pub fn decode(bytes: &[u8], tag: &[u8; 8]) -> (record: Option<AiState>)
        ensures
            match record {
                Some(found) => decoding(bytes@, tag@) == Some(found@),
                None => decoding(bytes@, tag@) is None,
            },
    {
        if bytes.len() != 73 {
            return None;
        }
        let mut i: usize = 0;
        while i < 8
            invariant
                i <= 8,
                bytes@.len() == 73,
                forall|j: int| 0 <= j < i ==> bytes@[j] == tag@[j],
            decreases 8 - i,
        {
            if bytes[i] != tag[i] {
                assert(bytes@.subrange(0, 8)[i as int] != tag@[i as int]);
                return None;
            }
            i += 1;
        }
        let mut user = [0u8; 32];
        let mut state_root = [0u8; 32];
        let mut i: usize = 0;
        while i < 32
            invariant
                i <= 32,
                bytes@.len() == 73,
                forall|j: int| 0 <= j < i ==> user@[j] == bytes@[8 + j],
                forall|j: int| 0 <= j < i ==> state_root@[j] == bytes@[40 + j],
            decreases 32 - i,
        {
            user[i] = bytes[8 + i];
            state_root[i] = bytes[40 + i];
            i += 1;
        }
        let found = AiState { user: Pubkey(user), state_root, bump: bytes[72] };
        assert(bytes@.subrange(0, 8) =~= tag@);
        assert(found.user@ =~= bytes@.subrange(8, 40));
        assert(found.state_root@ =~= bytes@.subrange(40, 72));
        Some(found)
    }
}

/// Decoding undoes encoding, under every tag.
pub proof fn law_decode_encode(tag: [u8; 8], record: AiState)
    ensures
        encoding(tag@, record@).len() == AiState::SPACE,
        decoding(encoding(tag@, record@), tag@) == Some(record@),
{
    let bytes = encoding(tag@, record@);
    assert(bytes.subrange(0, 8) =~= tag@);
    assert(bytes.subrange(8, 40) =~= record.user@);
    assert(bytes.subrange(40, 72) =~= record.state_root@);
}

/// Encoding undoes decoding: bytes that hold a record are that record's
/// stored bytes.
pub proof fn law_encode_decode(bytes: Seq<u8>, tag: Seq<u8>)
    requires
        decoding(bytes, tag) is Some,
    ensures
        encoding(tag, decoding(bytes, tag).unwrap()) == bytes,
{
    assert(encoding(tag, decoding(bytes, tag).unwrap()) =~= bytes);
}

} // verus!
