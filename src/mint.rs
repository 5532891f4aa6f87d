use vstd::prelude::*;

use crate::address::Address;

verus! {

/// The address of the collectible program that mints reward assets.
pub open spec fn asset_program_bytes() -> Seq<u8> {
    seq![
        0xafu8, 0x54u8, 0xabu8, 0x10u8, 0xbdu8, 0x97u8, 0xa5u8, 0x42u8,
        0xa0u8, 0x9eu8, 0xf7u8, 0xb3u8, 0x98u8, 0x89u8, 0xddu8, 0x0cu8,
        0xd3u8, 0x94u8, 0xa4u8, 0xccu8, 0xe9u8, 0xdfu8, 0xa6u8, 0xcdu8,
        0xc9u8, 0x7eu8, 0xbeu8, 0x2du8, 0x23u8, 0x5bu8, 0xa7u8, 0x48u8,
    ]
}

/// The address of the collectible program (base58
/// `CoREENxT6tW1HoK8ypY1SxRMZTcVPm7R94rH4PZNhX7d`).
pub fn mpl_core_program_id() -> (r: Address)
    ensures
        r.bytes@ == asset_program_bytes(),
{
    let r = Address {
        bytes: [
            0xaf, 0x54, 0xab, 0x10, 0xbd, 0x97, 0xa5, 0x42,
            0xa0, 0x9e, 0xf7, 0xb3, 0x98, 0x89, 0xdd, 0x0c,
            0xd3, 0x94, 0xa4, 0xcc, 0xe9, 0xdf, 0xa6, 0xcd,
            0xc9, 0x7e, 0xbe, 0x2d, 0x23, 0x5b, 0xa7, 0x48,
        ],
    };
    assert(r.bytes@ =~= asset_program_bytes());
    r
}

/// An account that a minting request touches, and how.
#[derive(Clone, Copy, Debug)]
pub struct AccountRef {
    pub key: Address,
    pub is_signer: bool,
    pub is_writable: bool,
}

/// A request for the collectible program: whom to call, with which accounts,
/// and the encoded arguments.
#[derive(Clone, Debug)]
pub struct MintRequest {
    pub program_id: Address,
    pub accounts: Vec<AccountRef>,
    pub data: Vec<u8>,
}

/// `n` as four bytes, least significant first.
pub open spec fn le32(n: nat) -> Seq<u8> {
    seq![
        (n % 256) as u8,
        (n / 256 % 256) as u8,
        (n / 65536 % 256) as u8,
        (n / 16777216 % 256) as u8,
    ]
}

/// The arguments of an asset creation: instruction tag 0, data state 0, the
/// name and the uri each as a length-prefixed string, and an empty plugin list
/// that is present (tag 1, length 0).
pub open spec fn create_asset_data(name: Seq<u8>, uri: Seq<u8>) -> Seq<u8> {
    seq![0u8, 0u8] + le32(name.len()) + name + le32(uri.len()) + uri + seq![1u8] + le32(0)
}

/// The eight accounts of an asset creation. The collectible program's own
/// address stands for each optional account left out: collection, update
/// and creation authority (both then the payer) and log wrapper.
pub open spec fn create_asset_accounts(
    asset: Address,
    payer: Address,
    owner: Address,
    system_program: Address,
    absent: Address,
) -> Seq<AccountRef> {
    seq![
        AccountRef { key: asset, is_signer: true, is_writable: true },
        AccountRef { key: absent, is_signer: false, is_writable: false },
        AccountRef { key: absent, is_signer: false, is_writable: false },
        AccountRef { key: payer, is_signer: true, is_writable: true },
        AccountRef { key: owner, is_signer: false, is_writable: false },
        AccountRef { key: absent, is_signer: false, is_writable: false },
        AccountRef { key: system_program, is_signer: false, is_writable: false },
        AccountRef { key: absent, is_signer: false, is_writable: false },
    ]
}

fn push_le32(out: &mut Vec<u8>, n: u32)
    ensures
        final(out)@ == old(out)@ + le32(n as nat),
{
    out.push((n % 256) as u8);
    out.push((n / 256 % 256) as u8);
    out.push((n / 65536 % 256) as u8);
    out.push((n / 16777216 % 256) as u8);
    assert(final(out)@ =~= old(out)@ + le32(n as nat));
}

fn push_bytes(out: &mut Vec<u8>, b: &[u8])
    ensures
        final(out)@ == old(out)@ + b@,
{
    let mut i: usize = 0;
    while i < b.len()
        invariant
            i <= b@.len(),
            out@ == old(out)@ + b@.subrange(0, i as int),
        decreases b@.len() - i,
    {
        out.push(b[i]);
        i = i + 1;
        assert(out@ =~= old(out)@ + b@.subrange(0, i as int));
    }
    assert(b@.subrange(0, b@.len() as int) =~= b@);
}

/// Encodes the arguments of an asset creation named `name` whose metadata
/// lives at `uri`.
pub fn encode_create_asset(name: &[u8], uri: &[u8]) -> (r: Vec<u8>)
    requires
        name@.len() <= u32::MAX,
        uri@.len() <= u32::MAX,
    ensures
        r@ == create_asset_data(name@, uri@),
{
    let mut data: Vec<u8> = Vec::new();
    data.push(0u8);
    data.push(0u8);
    push_le32(&mut data, name.len() as u32);
    push_bytes(&mut data, name);
    push_le32(&mut data, uri.len() as u32);
    push_bytes(&mut data, uri);
    data.push(1u8);
    push_le32(&mut data, 0u32);
    assert(data@ =~= create_asset_data(name@, uri@));
    data
}

/// The request that creates `asset`, owned by `owner` and paid for by `payer`,
/// with the given name and uri.
pub fn build_mint_request(
    asset: Address,
    payer: Address,
    owner: Address,
    system_program: Address,
    name: &[u8],
    uri: &[u8],
) -> (r: MintRequest)
    requires
        name@.len() <= u32::MAX,
        uri@.len() <= u32::MAX,
    ensures
        r.program_id.bytes@ == asset_program_bytes(),
        r.accounts@ == create_asset_accounts(asset, payer, owner, system_program, r.program_id),
        r.data@ == create_asset_data(name@, uri@),
{
    let absent = mpl_core_program_id();
    let mut accounts: Vec<AccountRef> = Vec::new();
    accounts.push(AccountRef { key: asset, is_signer: true, is_writable: true });
    accounts.push(AccountRef { key: absent, is_signer: false, is_writable: false });
    accounts.push(AccountRef { key: absent, is_signer: false, is_writable: false });
    accounts.push(AccountRef { key: payer, is_signer: true, is_writable: true });
    accounts.push(AccountRef { key: owner, is_signer: false, is_writable: false });
    accounts.push(AccountRef { key: absent, is_signer: false, is_writable: false });
    accounts.push(AccountRef { key: system_program, is_signer: false, is_writable: false });
    accounts.push(AccountRef { key: absent, is_signer: false, is_writable: false });
    assert(accounts@ =~= create_asset_accounts(asset, payer, owner, system_program, absent));
    MintRequest { program_id: absent, accounts, data: encode_create_asset(name, uri) }
}

} // verus!
