//! The persisted byte layout of a record.
//!
//! The layout is fixed size with a fixed field order: an eight-byte tag,
//! then maker, offered asset, requested asset, offer amount and seed as
//! eight little-endian bytes each, then — in the timed form only — the
//! absolute deadline, then the three salts. The plain and the timed form
//! differ only in the presence of the deadline field and are told apart
//! by their length.

use vstd::prelude::*;

use crate::derivation::spec_le_bytes;
use crate::state::Escrow;

verus! {

/// The size in bytes of a persisted plain record.
pub const PLAIN_RECORD_LEN: usize = 51;

/// The size in bytes of a persisted timed record.
pub const TIMED_RECORD_LEN: usize = 59;

/// The eight-byte tag that opens every persisted record: the bytes of
/// `"escrow"` padded with two zero bytes.
pub open spec fn spec_record_tag() -> Seq<u8> {
    seq![101u8, 115u8, 99u8, 114u8, 111u8, 119u8, 0u8, 0u8]
}

/// The value encoded by eight little-endian bytes.
pub open spec fn spec_u64_from_le(b: Seq<u8>) -> u64 {
    (b[0] as u64) | ((b[1] as u64) << 8) | ((b[2] as u64) << 16) | ((b[3] as u64) << 24) | ((
    b[4] as u64) << 32) | ((b[5] as u64) << 40) | ((b[6] as u64) << 48) | ((b[7] as u64) << 56)
}

/// Eight little-endian bytes round-trip through their value.
pub proof fn lemma_le_round_trip(x: u64)
    ensures
        spec_u64_from_le(spec_le_bytes(x)) == x,
{
    assert((((x & 0xff) as u8) as u64) | (((((x >> 8) & 0xff) as u8) as u64) << 8) | (((((x
        >> 16) & 0xff) as u8) as u64) << 16) | (((((x >> 24) & 0xff) as u8) as u64) << 24) | ((((
    (x >> 32) & 0xff) as u8) as u64) << 32) | (((((x >> 40) & 0xff) as u8) as u64) << 40) | ((((
    (x >> 48) & 0xff) as u8) as u64) << 48) | (((((x >> 56) & 0xff) as u8) as u64) << 56)
        == x) by (bit_vector);
}

/// The persisted bytes of a record: tag, maker, offered asset, requested
/// asset, offer amount, seed, the deadline in the timed form, then the
/// three salts in the order they were discovered.
pub open spec fn spec_record_bytes(e: Escrow) -> Seq<u8> {
    let head = spec_record_tag() + spec_le_bytes(e.maker) + spec_le_bytes(e.maker_token)
        + spec_le_bytes(e.taker_token) + spec_le_bytes(e.offer_amount) + spec_le_bytes(e.seed);
    let timed = match e.expiry {
        Option::None => head,
        Option::Some(deadline) => head + spec_le_bytes(deadline),
    };
    timed + seq![e.auth_bump, e.vault_bump, e.escrow_bump]
}

/// The record that a persisted byte string describes, or nothing when the
/// bytes carry the wrong tag or neither form's length.
pub open spec fn spec_parse_record(b: Seq<u8>) -> Option<Escrow> {
    if b.len() != PLAIN_RECORD_LEN && b.len() != TIMED_RECORD_LEN {
        Option::None
    } else if b.subrange(0, 8) != spec_record_tag() {
        Option::None
    } else {
        Option::Some(
            Escrow {
                maker: spec_u64_from_le(b.subrange(8, 16)),
                maker_token: spec_u64_from_le(b.subrange(16, 24)),
                taker_token: spec_u64_from_le(b.subrange(24, 32)),
                offer_amount: spec_u64_from_le(b.subrange(32, 40)),
                seed: spec_u64_from_le(b.subrange(40, 48)),
                expiry: if b.len() == TIMED_RECORD_LEN {
                    Option::Some(spec_u64_from_le(b.subrange(48, 56)))
                } else {
                    Option::None
                },
                auth_bump: b[b.len() - 3],
                vault_bump: b[b.len() - 2],
                escrow_bump: b[b.len() - 1],
            },
        )
    }
}

/// Every record round-trips through its persisted bytes: parsing what
/// `spec_record_bytes` lays out yields the record again, field for field.
pub proof fn lemma_record_round_trip(e: Escrow)
    ensures
        spec_parse_record(spec_record_bytes(e)) == Option::Some(e),
{
    let b = spec_record_bytes(e);
    match e.expiry {
        Option::None => {
            assert(b.len() == PLAIN_RECORD_LEN);
        },
        Option::Some(_) => {
            assert(b.len() == TIMED_RECORD_LEN);
        },
    }
    assert(b.subrange(0, 8) =~= spec_record_tag());
    assert(b.subrange(8, 16) =~= spec_le_bytes(e.maker));
    assert(b.subrange(16, 24) =~= spec_le_bytes(e.maker_token));
    assert(b.subrange(24, 32) =~= spec_le_bytes(e.taker_token));
    assert(b.subrange(32, 40) =~= spec_le_bytes(e.offer_amount));
    assert(b.subrange(40, 48) =~= spec_le_bytes(e.seed));
    lemma_le_round_trip(e.maker);
    lemma_le_round_trip(e.maker_token);
    lemma_le_round_trip(e.taker_token);
    lemma_le_round_trip(e.offer_amount);
    lemma_le_round_trip(e.seed);
    match e.expiry {
        Option::None => {},
        Option::Some(deadline) => {
            assert(b.subrange(48, 56) =~= spec_le_bytes(deadline));
            lemma_le_round_trip(deadline);
        },
    }
}

impl Escrow {
    /// Lays the record out in its persisted byte form.
    pub fn record_bytes(&self) -> (b: Vec<u8>)
        ensures
            b@ == spec_record_bytes(*self),
            self.expiry is None ==> b@.len() == PLAIN_RECORD_LEN,
            self.expiry is Some ==> b@.len() == TIMED_RECORD_LEN,
    {
        let mut b: Vec<u8> = Vec::new();
        b.push(101);
        b.push(115);
        b.push(99);
        b.push(114);
        b.push(111);
        b.push(119);
        b.push(0);
        b.push(0);
        push_le_bytes(&mut b, self.maker);
        push_le_bytes(&mut b, self.maker_token);
        push_le_bytes(&mut b, self.taker_token);
        push_le_bytes(&mut b, self.offer_amount);
        push_le_bytes(&mut b, self.seed);
        match self.expiry {
            Option::None => {},
            Option::Some(deadline) => {
                push_le_bytes(&mut b, deadline);
            },
        }
        b.push(self.auth_bump);
        b.push(self.vault_bump);
        b.push(self.escrow_bump);
        proof {
            assert(b@ =~= spec_record_bytes(*self));
        }
        b
    }
}

fn push_le_bytes(b: &mut Vec<u8>, x: u64)
    ensures
        final(b)@ == old(b)@ + spec_le_bytes(x),
{
    proof {
        assert((x & 0xff) < 256 && ((x >> 8) & 0xff) < 256 && ((x >> 16) & 0xff) < 256 && ((x
            >> 24) & 0xff) < 256 && ((x >> 32) & 0xff) < 256 && ((x >> 40) & 0xff) < 256 && ((x
            >> 48) & 0xff) < 256 && ((x >> 56) & 0xff) < 256) by (bit_vector);
    }
    b.push((x & 0xff) as u8);
    b.push(((x >> 8) & 0xff) as u8);
    b.push(((x >> 16) & 0xff) as u8);
    b.push(((x >> 24) & 0xff) as u8);
    b.push(((x >> 32) & 0xff) as u8);
    b.push(((x >> 40) & 0xff) as u8);
    b.push(((x >> 48) & 0xff) as u8);
    b.push(((x >> 56) & 0xff) as u8);
    proof {
        assert(b@ =~= old(b)@ + spec_le_bytes(x));
    }
}

/// Reads a record back from its persisted byte form. Returns nothing when
/// the bytes carry the wrong tag or neither form's length.
pub fn parse_record(b: &Vec<u8>) -> (r: Option<Escrow>)
    ensures
        r == spec_parse_record(b@),
{
    if b.len() != PLAIN_RECORD_LEN && b.len() != TIMED_RECORD_LEN {
        return None;
    }
    let tag_ok = b[0] == 101 && b[1] == 115 && b[2] == 99 && b[3] == 114 && b[4] == 111 && b[5]
        == 119 && b[6] == 0 && b[7] == 0;
    if !tag_ok {
        proof {
            assert(b@.subrange(0, 8) != spec_record_tag());
        }
        return None;
    }
    proof {
        assert(b@.subrange(0, 8) =~= spec_record_tag());
    }
    let expiry: Option<u64> = if b.len() == TIMED_RECORD_LEN {
        Some(read_le_bytes(b, 48))
    } else {
        None
    };
    let len = b.len();
    Some(
        Escrow {
            maker: read_le_bytes(b, 8),
            maker_token: read_le_bytes(b, 16),
            taker_token: read_le_bytes(b, 24),
            offer_amount: read_le_bytes(b, 32),
            seed: read_le_bytes(b, 40),
            expiry,
            auth_bump: b[len - 3],
            vault_bump: b[len - 2],
            escrow_bump: b[len - 1],
        },
    )
}

fn read_le_bytes(b: &Vec<u8>, at: usize) -> (x: u64)
    requires
        at + 8 <= b@.len(),
    ensures
        x == spec_u64_from_le(b@.subrange(at as int, at as int + 8)),
{
    let len = b.len();
    proof {
        assert(at + 8 <= len);
    }
    let x = (b[at] as u64) | ((b[at + 1] as u64) << 8) | ((b[at + 2] as u64) << 16) | ((b[at
        + 3] as u64) << 24) | ((b[at + 4] as u64) << 32) | ((b[at + 5] as u64) << 40) | ((b[at
        + 6] as u64) << 48) | ((b[at + 7] as u64) << 56);
    proof {
        let s = b@.subrange(at as int, at as int + 8);
        assert(s[0] == b@[at as int] && s[1] == b@[at as int + 1] && s[2] == b@[at as int + 2]
            && s[3] == b@[at as int + 3] && s[4] == b@[at as int + 4] && s[5] == b@[at as int + 5]
            && s[6] == b@[at as int + 6] && s[7] == b@[at as int + 7]);
    }
    x
}

} // verus!
