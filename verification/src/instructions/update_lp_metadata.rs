//! The instruction data that updates the LP token's Metaplex metadata.

use vstd::prelude::*;
use crate::errors::FateSwapError;

verus! {

/// Discriminator of Metaplex's `UpdateMetadataAccountV2` instruction.
pub const UPDATE_METADATA_ACCOUNT_V2: u8 = 15;

/// A `u32` in four little-endian bytes.
pub open spec fn le_u32_bytes(n: nat) -> Seq<u8> {
    seq![(n % 256) as u8, (n / 256 % 256) as u8, (n / 65536 % 256) as u8, (n / 16777216 % 256) as u8]
}

/// A string in Borsh: its byte length as a little-endian `u32`, then its bytes.
pub open spec fn borsh_string_bytes(s: Seq<u8>) -> Seq<u8> {
    le_u32_bytes(s.len()) + s
}

/// The `UpdateMetadataAccountV2` data: `Some(DataV2 { name, symbol, uri,
/// seller_fee_basis_points: 0, creators: None, collection: None, uses: None })`,
/// no new update authority, primary sale left as is, `is_mutable: Some(true)`.
pub open spec fn update_metadata_data(name: Seq<u8>, symbol: Seq<u8>, uri: Seq<u8>) -> Seq<u8> {
    seq![15u8, 1u8] + borsh_string_bytes(name) + borsh_string_bytes(symbol) + borsh_string_bytes(uri)
        + seq![0u8, 0u8, 0u8, 0u8, 0u8, 0u8, 0u8, 1u8, 1u8]
}

fn push_borsh_string(data: &mut Vec<u8>, s: &[u8])
    requires
        s@.len() <= 200,
    ensures
        final(data)@ == old(data)@ + borsh_string_bytes(s@),
{
    let n = s.len();
    data.push(n as u8);
    data.push(0);
    data.push(0);
    data.push(0);
    proof {
        let n_nat = s@.len();
        assert(n_nat % 256 == n_nat);
        assert(n_nat / 256 % 256 == 0);
        assert(n_nat / 65536 % 256 == 0);
        assert(n_nat / 16777216 % 256 == 0);
    }
    let ghost prefix = data@;
    let mut i: usize = 0;
    while i < n
        invariant
            n == s@.len(),
            i <= n,
            data@ == prefix + s@.subrange(0, i as int),
        decreases n - i,
    {
        data.push(s[i]);
        proof {
            assert(s@.subrange(0, i + 1) =~= s@.subrange(0, i as int).push(s@[i as int]));
        }
        i = i + 1;
    }
    assert(s@.subrange(0, n as int) =~= s@);
    assert(data@ =~= old(data)@ + borsh_string_bytes(s@));
}

/// The UTF-8 bytes of a string.
pub open spec fn utf8_bytes(s: String) -> Seq<u8> {
    vstd::utf8::encode_utf8(s@)
}

/// Builds the data of the Metaplex instruction that renames the LP token:
/// refuses with `InvalidConfig` a name over 32 bytes, a symbol over 10
/// bytes or a URI over 200 bytes.
pub fn handler(name: String, symbol: String, uri: String) -> (r: Result<Vec<u8>, FateSwapError>)
    ensures
        if utf8_bytes(name).len() <= 32 && utf8_bytes(symbol).len() <= 10 && utf8_bytes(uri).len() <= 200 {
            r matches Ok(data) && data@ == update_metadata_data(
                utf8_bytes(name),
                utf8_bytes(symbol),
                utf8_bytes(uri),
            )
        } else {
            r == Err::<Vec<u8>, FateSwapError>(FateSwapError::InvalidConfig)
        },
{
    let name_bytes = name.as_str().as_bytes();
    let symbol_bytes = symbol.as_str().as_bytes();
    let uri_bytes = uri.as_str().as_bytes();
    if name_bytes.len() > 32 || symbol_bytes.len() > 10 || uri_bytes.len() > 200 {
        return Err(FateSwapError::InvalidConfig);
    }
    let mut data: Vec<u8> = Vec::new();
    data.push(UPDATE_METADATA_ACCOUNT_V2);
    data.push(1);
    push_borsh_string(&mut data, name_bytes);
    push_borsh_string(&mut data, symbol_bytes);
    push_borsh_string(&mut data, uri_bytes);
    data.push(0);
    data.push(0);
    data.push(0);
    data.push(0);
    data.push(0);
    data.push(0);
    data.push(0);
    data.push(1);
    data.push(1);
    assert(data@ =~= update_metadata_data(name_bytes@, symbol_bytes@, uri_bytes@));
    Ok(data)
}

} // verus!
