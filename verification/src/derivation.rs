//! Deterministic address derivation and the custody authority.
//!
//! Every account the escrow touches is address-derived: the record from
//! `("escrow", maker, seed)`, the vault from `("vault", record address)`,
//! and the custody authority from the fixed tag `("auth")`. The derivation
//! facility turns seed bytes into an address and a salt byte; re-running it
//! on the same seeds always reproduces the same pair, which is how later
//! operations re-authenticate the accounts without any private key.

use vstd::prelude::*;

use crate::errors::EscrowError;

verus! {

/// What the derivation facility returns for the given seed bytes and
/// program identity: an address of 32 bytes and a salt byte, or nothing in
/// the statistically improbable event that no valid salt exists.
pub uninterp spec fn pda_of(seeds: Seq<Seq<u8>>, program_id: Seq<u8>) -> Option<(Seq<u8>, u8)>;

/// The byte sequences behind a list of seed buffers.
pub open spec fn seeds_view(seeds: Seq<Vec<u8>>) -> Seq<Seq<u8>> {
    seeds.map_values(|s: Vec<u8>| s@)
}

/// Relies on `anchor_lang::prelude::Pubkey::try_find_program_address`: the
/// derived address and bump seed depend on the seed bytes and the program
/// id alone, the address is 32 bytes, and `None` comes back only when no
/// valid bump seed exists for these seeds.
#[verifier::external_body]
fn find_pda(seeds: &Vec<Vec<u8>>, program_id: &[u8; 32]) -> (r: Option<(Vec<u8>, u8)>)
    ensures
        (match r {
            Option::Some((addr, salt)) => pda_of(seeds_view(seeds@), program_id@)
                == Option::Some((addr@, salt)) && addr@.len() == 32,
            Option::None => pda_of(seeds_view(seeds@), program_id@) is None,
        }),
{
    let seed_slices: Vec<&[u8]> = seeds.iter().map(|s| s.as_slice()).collect();
    let pid = anchor_lang::prelude::Pubkey::new_from_array(*program_id);
    anchor_lang::prelude::Pubkey::try_find_program_address(&seed_slices, &pid).map(
        |(addr, salt)| (addr.to_bytes().to_vec(), salt),
    )
}

/// The fixed domain tag of the custody authority, the bytes of `"auth"`.
pub open spec fn spec_auth_tag() -> Seq<u8> {
    seq![97u8, 117u8, 116u8, 104u8]
}

/// The domain tag of a vault, the bytes of `"vault"`.
pub open spec fn spec_vault_tag() -> Seq<u8> {
    seq![118u8, 97u8, 117u8, 108u8, 116u8]
}

/// The domain tag of a record, the bytes of `"escrow"`.
pub open spec fn spec_escrow_tag() -> Seq<u8> {
    seq![101u8, 115u8, 99u8, 114u8, 111u8, 119u8]
}

/// The little-endian bytes of a 64-bit value.
pub open spec fn spec_le_bytes(x: u64) -> Seq<u8> {
    seq![
        (x & 0xff) as u8,
        ((x >> 8) & 0xff) as u8,
        ((x >> 16) & 0xff) as u8,
        ((x >> 24) & 0xff) as u8,
        ((x >> 32) & 0xff) as u8,
        ((x >> 40) & 0xff) as u8,
        ((x >> 48) & 0xff) as u8,
        ((x >> 56) & 0xff) as u8,
    ]
}

fn le_bytes(x: u64) -> (b: Vec<u8>)
    ensures
        b@ == spec_le_bytes(x),
{
    proof {
        assert((x & 0xff) < 256 && ((x >> 8) & 0xff) < 256 && ((x >> 16) & 0xff) < 256 && ((x
            >> 24) & 0xff) < 256 && ((x >> 32) & 0xff) < 256 && ((x >> 40) & 0xff) < 256 && ((x
            >> 48) & 0xff) < 256 && ((x >> 56) & 0xff) < 256) by (bit_vector);
    }
    let mut b: Vec<u8> = Vec::new();
    b.push((x & 0xff) as u8);
    b.push(((x >> 8) & 0xff) as u8);
    b.push(((x >> 16) & 0xff) as u8);
    b.push(((x >> 24) & 0xff) as u8);
    b.push(((x >> 32) & 0xff) as u8);
    b.push(((x >> 40) & 0xff) as u8);
    b.push(((x >> 48) & 0xff) as u8);
    b.push(((x >> 56) & 0xff) as u8);
    proof {
        assert(b@ =~= spec_le_bytes(x));
    }
    b
}

/// The seed list of the custody authority: the fixed tag alone, so one
/// authority serves the whole system.
pub open spec fn spec_auth_seeds() -> Seq<Seq<u8>> {
    seq![spec_auth_tag()]
}

/// The seed list of the record owned by `maker` and disambiguated by `seed`.
pub open spec fn spec_escrow_seeds(maker: u64, seed: u64) -> Seq<Seq<u8>> {
    seq![spec_escrow_tag(), spec_le_bytes(maker), spec_le_bytes(seed)]
}

/// The seed list of the vault bound to the record at `escrow_addr`.
pub open spec fn spec_vault_seeds(escrow_addr: Seq<u8>) -> Seq<Seq<u8>> {
    seq![spec_vault_tag(), escrow_addr]
}

fn auth_seeds() -> (s: Vec<Vec<u8>>)
    ensures
        seeds_view(s@) == spec_auth_seeds(),
{
    let mut tag: Vec<u8> = Vec::new();
    tag.push(97);
    tag.push(117);
    tag.push(116);
    tag.push(104);
    proof {
        assert(tag@ =~= spec_auth_tag());
    }
    let mut s: Vec<Vec<u8>> = Vec::new();
    s.push(tag);
    proof {
        assert(seeds_view(s@) =~= spec_auth_seeds());
    }
    s
}

fn escrow_seeds(maker: u64, seed: u64) -> (s: Vec<Vec<u8>>)
    ensures
        seeds_view(s@) == spec_escrow_seeds(maker, seed),
{
    let mut tag: Vec<u8> = Vec::new();
    tag.push(101);
    tag.push(115);
    tag.push(99);
    tag.push(114);
    tag.push(111);
    tag.push(119);
    proof {
        assert(tag@ =~= spec_escrow_tag());
    }
    let mut s: Vec<Vec<u8>> = Vec::new();
    s.push(tag);
    s.push(le_bytes(maker));
    s.push(le_bytes(seed));
    proof {
        assert(seeds_view(s@) =~= spec_escrow_seeds(maker, seed));
    }
    s
}

fn vault_seeds(escrow_addr: &Vec<u8>) -> (s: Vec<Vec<u8>>)
    ensures
        seeds_view(s@) == spec_vault_seeds(escrow_addr@),
{
    let mut tag: Vec<u8> = Vec::new();
    tag.push(118);
    tag.push(97);
    tag.push(117);
    tag.push(108);
    tag.push(116);
    proof {
        assert(tag@ =~= spec_vault_tag());
    }
    let mut s: Vec<Vec<u8>> = Vec::new();
    s.push(tag);
    s.push(escrow_addr.clone());
    proof {
        assert(seeds_view(s@) =~= spec_vault_seeds(escrow_addr@));
    }
    s
}

/// Derives the address and salt of the custody authority for `program_id`.
pub fn derive_auth_address(program_id: &[u8; 32]) -> (r: Option<(Vec<u8>, u8)>)
    ensures
        (match r {
            Option::Some((addr, salt)) => pda_of(spec_auth_seeds(), program_id@) == Option::Some(
                (addr@, salt),
            ),
            Option::None => pda_of(spec_auth_seeds(), program_id@) is None,
        }),
{
    find_pda(&auth_seeds(), program_id)
}

/// Derives the address and salt of the record keyed by `(maker, seed)`.
pub fn derive_escrow_address(program_id: &[u8; 32], maker: u64, seed: u64) -> (r: Option<
    (Vec<u8>, u8),
>)
    ensures
        (match r {
            Option::Some((addr, salt)) => pda_of(spec_escrow_seeds(maker, seed), program_id@)
                == Option::Some((addr@, salt)),
            Option::None => pda_of(spec_escrow_seeds(maker, seed), program_id@) is None,
        }),
{
    find_pda(&escrow_seeds(maker, seed), program_id)
}

/// Derives the address and salt of the vault bound to the record at
/// `escrow_addr`.
pub fn derive_vault_address(program_id: &[u8; 32], escrow_addr: &Vec<u8>) -> (r: Option<
    (Vec<u8>, u8),
>)
    ensures
        (match r {
            Option::Some((addr, salt)) => pda_of(spec_vault_seeds(escrow_addr@), program_id@)
                == Option::Some((addr@, salt)),
            Option::None => pda_of(spec_vault_seeds(escrow_addr@), program_id@) is None,
        }),
{
    find_pda(&vault_seeds(escrow_addr), program_id)
}

/// The non-signing identity that controls every vault: the address derived
/// from the fixed tag, together with the salt that derivation discovered.
/// A transfer out of a vault is authorized by presenting this value, which
/// is verified by re-running the derivation, not by any signature.
#[derive(Debug)]
pub struct DerivedAuthority {
    /// The derived authority address.
    pub addr: Vec<u8>,
    /// The salt byte discovered for the fixed tag.
    pub salt: u8,
}

/// Whether a presented authority is the one the derivation facility yields
/// for `program_id`.
pub open spec fn authority_matches(auth: DerivedAuthority, program_id: Seq<u8>) -> bool {
    pda_of(spec_auth_seeds(), program_id) == Option::Some((auth.addr@, auth.salt))
}

/// Derives the custody authority for `program_id`. The same program id
/// always re-derives the same identity. Fails only when no valid salt
/// exists for the fixed tag, which the caller must treat as a hard failure.
pub fn derive_authority(program_id: &[u8; 32]) -> (r: Result<DerivedAuthority, EscrowError>)
    ensures
        r is Ok <==> pda_of(spec_auth_seeds(), program_id@) is Some,
        r matches Ok(a) ==> authority_matches(a, program_id@),
        r matches Err(e) ==> e == EscrowError::AuthBumpError,
{
    match derive_auth_address(program_id) {
        Option::Some((addr, salt)) => Ok(DerivedAuthority { addr, salt }),
        Option::None => Err(EscrowError::AuthBumpError),
    }
}

/// Compares two byte buffers.
pub fn bytes_eq(a: &Vec<u8>, b: &Vec<u8>) -> (r: bool)
    ensures
        r <==> a@ == b@,
{
    if a.len() != b.len() {
        proof {
            assert(a@ != b@);
        }
        return false;
    }
    let mut i: usize = 0;
    while i < a.len()
        invariant
            i <= a@.len(),
            a@.len() == b@.len(),
            forall|j: int| 0 <= j < i ==> a@[j] == b@[j],
        decreases a@.len() - i,
    {
        if a[i] != b[i] {
            proof {
                assert(a@ != b@);
            }
            return false;
        }
        i = i + 1;
    }
    proof {
        assert(a@ =~= b@);
    }
    true
}

} // verus!
