//! Deterministic addresses of the storage cells.
//!
//! Every cell lives at an address derived from a fixed tag and, where the cell
//! belongs to one property or one participant, from that property's
//! identifier or that participant's key. The tag and the component are the
//! *seeds*; the address is the program-derived address of the seeds.

use crate::identity::Identity;
use vstd::prelude::*;

verus! {

/// The bytes of the tag `config`.
pub open spec fn config_tag() -> Seq<u8> {
    seq![99u8, 111u8, 110u8, 102u8, 105u8, 103u8]
}

/// The bytes of the tag `property_mint`.
pub open spec fn mint_tag() -> Seq<u8> {
    seq![112u8, 114u8, 111u8, 112u8, 101u8, 114u8, 116u8, 121u8, 95u8, 109u8, 105u8, 110u8, 116u8]
}

/// The bytes of the tag `kyc`.
pub open spec fn kyc_tag() -> Seq<u8> {
    seq![107u8, 121u8, 99u8]
}

/// The bytes of the tag `treasury`.
pub open spec fn treasury_tag() -> Seq<u8> {
    seq![116u8, 114u8, 101u8, 97u8, 115u8, 117u8, 114u8, 121u8]
}

/// Byte `k` of `x`, counting from the least significant: the eight bits of
/// `x` from bit `8 * k` upwards.
pub open spec fn le_byte(x: u64, k: u64) -> u8 {
    ((x >> (8 * k)) & 0xff) as u8
}

/// The eight bytes of `x`, least significant first.
pub open spec fn le_bytes(x: u64) -> Seq<u8> {
    seq![
        le_byte(x, 0),
        le_byte(x, 1),
        le_byte(x, 2),
        le_byte(x, 3),
        le_byte(x, 4),
        le_byte(x, 5),
        le_byte(x, 6),
        le_byte(x, 7),
    ]
}

/// The seeds of a property's configuration cell.
pub open spec fn config_seeds(property_id: u64) -> Seq<Seq<u8>> {
    seq![config_tag(), le_bytes(property_id)]
}

/// The seeds of a property's issuance counter.
pub open spec fn mint_seeds(property_id: u64) -> Seq<Seq<u8>> {
    seq![mint_tag(), le_bytes(property_id)]
}

/// The seeds of a participant's verification record.
pub open spec fn kyc_seeds(user: Identity) -> Seq<Seq<u8>> {
    seq![kyc_tag(), user@]
}

/// The seeds of the custody pool, which has no variable component.
pub open spec fn treasury_seeds() -> Seq<Seq<u8>> {
    seq![treasury_tag()]
}

/// The seeds with which the issuance counter of a property signs for itself:
/// its own seeds followed by its bump.
pub open spec fn mint_signer_seeds(property_id: u64, bump: u8) -> Seq<Seq<u8>> {
    seq![mint_tag(), le_bytes(property_id), seq![bump]]
}

/// The seeds with which the custody pool signs for itself.
pub open spec fn treasury_signer_seeds(bump: u8) -> Seq<Seq<u8>> {
    seq![treasury_tag(), seq![bump]]
}

/// The key under which this program is deployed, and under which the
/// addresses of its cells are derived.
pub const PROGRAM_ID: [u8; 32] = [
    21, 89, 118, 25, 48, 11, 0, 78, 234, 202, 41, 120, 38, 222, 229, 9, 75, 76, 59, 44, 228, 249,
    191, 68, 251, 13, 235, 99, 194, 82, 102, 239,
];

/// What `Pubkey::try_find_program_address` of `anchor_lang` returns for a
/// list of seeds and a program key: the derived address with its bump, or
/// nothing where no address can be derived from them.
pub uninterp spec fn program_address(seeds: Seq<Seq<u8>>, program: Seq<u8>) -> Option<(Seq<u8>, u8)>;

/// Whether `found` is the address that `seeds` derive under `program`, with
/// its bump, or nothing where they derive none.
pub open spec fn is_derived(seeds: Seq<Seq<u8>>, program: Identity, found: Option<(Identity, u8)>) -> bool {
    match found {
        Some((address, bump)) => program_address(seeds, program@) == Some((address@, bump)),
        None => program_address(seeds, program@).is_none(),
    }
}

/// Calls `Pubkey::try_find_program_address` of `anchor_lang` on the seeds and
/// the program key. Nothing is proved of it: the contract only gives the
/// outcome its name, `program_address` of the same seeds and key.
#[verifier::external_body]
fn find_program_address(seeds: &Vec<Vec<u8>>, program: &Identity) -> (found: Option<(Identity, u8)>)
    ensures
        found.is_some() == program_address(seeds.deep_view(), program@).is_some(),
        found matches Some((address, bump)) ==> program_address(seeds.deep_view(), program@) == Some(
            (address@, bump),
        ),
{
    let parts: Vec<&[u8]> = seeds.iter().map(|seed| seed.as_slice()).collect();
    let key = anchor_lang::prelude::Pubkey::new_from_array(program.bytes);
    match anchor_lang::prelude::Pubkey::try_find_program_address(&parts, &key) {
        Some((address, bump)) => Some((Identity { bytes: address.to_bytes() }, bump)),
        None => None,
    }
}

/// Byte `k` of `x` as the machine computes it.
fn byte_at(x: u64, k: u64) -> (b: u8)
    requires
        k < 8,
    ensures
        b == le_byte(x, k),
{
    let low: u64 = (x >> (8 * k)) & 0xff;
    proof {
        assert(low <= 0xff) by (bit_vector)
            requires
                low == (x >> (8 * k)) & 0xff,
        ;
    }
    low as u8
}

/// The eight bytes of a property identifier, least significant first.
pub fn property_id_bytes(property_id: u64) -> (bytes: Vec<u8>)
    ensures
        bytes@ == le_bytes(property_id),
{
    let mut bytes: Vec<u8> = Vec::new();
    let mut k: u64 = 0;
    while k < 8
        invariant
            k <= 8,
            bytes@.len() == k,
            forall|j: int| 0 <= j < k ==> bytes@[j] == le_byte(property_id, j as u64),
        decreases 8 - k,
    {
        bytes.push(byte_at(property_id, k));
        k += 1;
    }
    proof {
        assert(bytes@ =~= le_bytes(property_id));
    }
    bytes
}

/// Distinct numbers have distinct bytes.
pub proof fn lemma_le_bytes_injective(a: u64, b: u64)
    ensures
        le_bytes(a) == le_bytes(b) <==> a == b,
{
    if le_bytes(a) == le_bytes(b) {
        let s = le_bytes(a);
        let t = le_bytes(b);
        assert(s[0] == t[0] && s[1] == t[1] && s[2] == t[2] && s[3] == t[3]);
        assert(s[4] == t[4] && s[5] == t[5] && s[6] == t[6] && s[7] == t[7]);
        assert(a == b) by (bit_vector)
            requires
                ((a >> (8 * 0u64)) & 0xff) as u8 == ((b >> (8 * 0u64)) & 0xff) as u8,
                ((a >> (8 * 1u64)) & 0xff) as u8 == ((b >> (8 * 1u64)) & 0xff) as u8,
                ((a >> (8 * 2u64)) & 0xff) as u8 == ((b >> (8 * 2u64)) & 0xff) as u8,
                ((a >> (8 * 3u64)) & 0xff) as u8 == ((b >> (8 * 3u64)) & 0xff) as u8,
                ((a >> (8 * 4u64)) & 0xff) as u8 == ((b >> (8 * 4u64)) & 0xff) as u8,
                ((a >> (8 * 5u64)) & 0xff) as u8 == ((b >> (8 * 5u64)) & 0xff) as u8,
                ((a >> (8 * 6u64)) & 0xff) as u8 == ((b >> (8 * 6u64)) & 0xff) as u8,
                ((a >> (8 * 7u64)) & 0xff) as u8 == ((b >> (8 * 7u64)) & 0xff) as u8,
        ;
    }
}

/// The tag `config` as bytes.
fn make_config_tag() -> (tag: Vec<u8>)
    ensures
        tag@ == config_tag(),
{
    let tag: Vec<u8> = vec![99u8, 111u8, 110u8, 102u8, 105u8, 103u8];
    proof {
        assert(tag@ =~= config_tag());
    }
    tag
}

/// The tag `property_mint` as bytes.
fn make_mint_tag() -> (tag: Vec<u8>)
    ensures
        tag@ == mint_tag(),
{
    let tag: Vec<u8> = vec![
        112u8, 114u8, 111u8, 112u8, 101u8, 114u8, 116u8, 121u8, 95u8, 109u8, 105u8, 110u8, 116u8,
    ];
    proof {
        assert(tag@ =~= mint_tag());
    }
    tag
}

/// The tag `kyc` as bytes.
fn make_kyc_tag() -> (tag: Vec<u8>)
    ensures
        tag@ == kyc_tag(),
{
    let tag: Vec<u8> = vec![107u8, 121u8, 99u8];
    proof {
        assert(tag@ =~= kyc_tag());
    }
    tag
}

/// The tag `treasury` as bytes.
fn make_treasury_tag() -> (tag: Vec<u8>)
    ensures
        tag@ == treasury_tag(),
{
    let tag: Vec<u8> = vec![116u8, 114u8, 101u8, 97u8, 115u8, 117u8, 114u8, 121u8];
    proof {
        assert(tag@ =~= treasury_tag());
    }
    tag
}

/// The bytes of an identity, in order.
fn identity_bytes(user: &Identity) -> (bytes: Vec<u8>)
    ensures
        bytes@ == user@,
{
    let mut bytes: Vec<u8> = Vec::new();
    let mut k: usize = 0;
    while k < 32
        invariant
            k <= 32,
            bytes@.len() == k,
            forall|j: int| 0 <= j < k ==> bytes@[j] == user.bytes[j],
        decreases 32 - k,
    {
        bytes.push(user.bytes[k]);
        k += 1;
    }
    proof {
        assert(bytes@ =~= user@);
    }
    bytes
}

/// Builds the seeds of a property's configuration cell.
pub fn make_config_seeds(property_id: u64) -> (seeds: Vec<Vec<u8>>)
    ensures
        seeds.deep_view() == config_seeds(property_id),
{
    let seeds: Vec<Vec<u8>> = vec![make_config_tag(), property_id_bytes(property_id)];
    proof {
        assert(seeds.deep_view() =~~= config_seeds(property_id));
    }
    seeds
}

/// Builds the seeds of a property's issuance counter.
pub fn make_mint_seeds(property_id: u64) -> (seeds: Vec<Vec<u8>>)
    ensures
        seeds.deep_view() == mint_seeds(property_id),
{
    let seeds: Vec<Vec<u8>> = vec![make_mint_tag(), property_id_bytes(property_id)];
    proof {
        assert(seeds.deep_view() =~~= mint_seeds(property_id));
    }
    seeds
}

/// Builds the seeds of a participant's verification record.
pub fn make_kyc_seeds(user: &Identity) -> (seeds: Vec<Vec<u8>>)
    ensures
        seeds.deep_view() == kyc_seeds(*user),
{
    let seeds: Vec<Vec<u8>> = vec![make_kyc_tag(), identity_bytes(user)];
    proof {
        assert(seeds.deep_view() =~~= kyc_seeds(*user));
    }
    seeds
}

/// Builds the seeds of the custody pool.
pub fn make_treasury_seeds() -> (seeds: Vec<Vec<u8>>)
    ensures
        seeds.deep_view() == treasury_seeds(),
{
    let seeds: Vec<Vec<u8>> = vec![make_treasury_tag()];
    proof {
        assert(seeds.deep_view() =~~= treasury_seeds());
    }
    seeds
}

/// Builds the seeds with which a property's issuance counter signs for
/// itself when shares are issued: the counter's seeds, then its bump.
pub fn make_mint_signer_seeds(property_id: u64, bump: u8) -> (seeds: Vec<Vec<u8>>)
    ensures
        seeds.deep_view() == mint_signer_seeds(property_id, bump),
{
    let seeds: Vec<Vec<u8>> = vec![make_mint_tag(), property_id_bytes(property_id), vec![bump]];
    proof {
        assert(seeds@[2]@ =~= seq![bump]);
        assert(seeds.deep_view() =~~= mint_signer_seeds(property_id, bump));
    }
    seeds
}

/// Builds the seeds with which the custody pool signs for itself when funds
/// leave it: the pool's seeds, then its bump.
pub fn make_treasury_signer_seeds(bump: u8) -> (seeds: Vec<Vec<u8>>)
    ensures
        seeds.deep_view() == treasury_signer_seeds(bump),
{
    let seeds: Vec<Vec<u8>> = vec![make_treasury_tag(), vec![bump]];
    proof {
        assert(seeds@[1]@ =~= seq![bump]);
        assert(seeds.deep_view() =~~= treasury_signer_seeds(bump));
    }
    seeds
}

/// The program's own key as an identity.
pub fn program_id() -> (program: Identity)
    ensures
        program.bytes == PROGRAM_ID,
{
    Identity { bytes: PROGRAM_ID }
}

/// The address of a property's configuration cell under `program`, with its
/// bump; nothing where the seeds derive no address.
pub fn config_address(property_id: u64, program: &Identity) -> (found: Option<(Identity, u8)>)
    ensures
        is_derived(config_seeds(property_id), *program, found),
{
    let seeds = make_config_seeds(property_id);
    find_program_address(&seeds, program)
}

/// The address of a property's issuance counter under `program`, with its
/// bump; nothing where the seeds derive no address.
pub fn mint_address(property_id: u64, program: &Identity) -> (found: Option<(Identity, u8)>)
    ensures
        is_derived(mint_seeds(property_id), *program, found),
{
    let seeds = make_mint_seeds(property_id);
    find_program_address(&seeds, program)
}

/// The address of a participant's verification record under `program`, with
/// its bump; nothing where the seeds derive no address.
pub fn kyc_address(user: &Identity, program: &Identity) -> (found: Option<(Identity, u8)>)
    ensures
        is_derived(kyc_seeds(*user), *program, found),
{
    let seeds = make_kyc_seeds(user);
    find_program_address(&seeds, program)
}

/// The address of the custody pool under `program`, with its bump; nothing
/// where the seeds derive no address.
pub fn treasury_address(program: &Identity) -> (found: Option<(Identity, u8)>)
    ensures
        is_derived(treasury_seeds(), *program, found),
{
    let seeds = make_treasury_seeds();
    find_program_address(&seeds, program)
}

} // verus!
