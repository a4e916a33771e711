//! Voice collectibles: a record minted for a spoken prediction, validated
//! only for a nonempty recording reference.

use crate::errors::IlowaError;
use crate::keys::AccountKey;
use vstd::prelude::*;

verus! {

/// One minted voice collectible.
#[derive(Clone)]
pub struct VoiceNFT {
    pub owner: AccountKey,
    pub market: AccountKey,
    pub voice_uri: String,
    pub metadata_uri: String,
    pub is_winner: bool,
    pub is_meme: bool,
    pub mints: u32,
    pub created_at: i64,
}

/// Mints a voice collectible: the recording reference must be nonempty;
/// everything else is stored as given, with a mint count of one.
pub fn mint_voice_nft(
    owner: AccountKey,
    voice_uri: String,
    metadata_uri: String,
    market: AccountKey,
    is_winner: bool,
    is_meme: bool,
    now: i64,
) -> (r: Result<VoiceNFT, IlowaError>)
    ensures
        r is Ok <==> voice_uri@.len() > 0,
        r matches Err(e) ==> e == IlowaError::VoiceUriRequired && voice_uri@.len() == 0,
        r matches Ok(n) ==> n == (VoiceNFT {
            owner,
            market,
            voice_uri,
            metadata_uri,
            is_winner,
            is_meme,
            mints: 1,
            created_at: now,
        }),
{
    if voice_uri.as_str().unicode_len() == 0 {
        return Err(IlowaError::VoiceUriRequired);
    }
    Ok(
        VoiceNFT {
            owner,
            market,
            voice_uri,
            metadata_uri,
            is_winner,
            is_meme,
            mints: 1,
            created_at: now,
        },
    )
}

} // verus!
