//! Deterministic addressing: every record's storage address is derived from
//! a typed seed, with a leading kind discriminator followed by the seed's
//! fixed-width fields in little-endian order. The derivation is pure, so
//! identical seeds always yield the same address, and it is injective, so
//! distinct seeds never collide ([`lemma_address_injective`]). A caller that
//! supplies an address is held to the re-derived one by [`check_address`].

use vstd::prelude::*;

use crate::types::ErrorCode;
use crate::types::Identity;

verus! {

/// The typed seed of a record's address: which kind of record, and the
/// fields that key it.
#[derive(Clone, Copy, Debug, PartialEq, Eq, Structural)]
pub enum Seed {
    /// The singleton authority record.
    Authority,
    /// The custodial treasury pool.
    Treasury,
    /// The tax rate of one ward.
    WardRate { ward: u16 },
    /// The tax receipt of one payer for one year.
    Payment { payer: Identity, year: u16 },
    /// One grievance record.
    GrievanceRecord { id: u64 },
    /// One project record.
    ProjectRecord { id: u64 },
    /// One feedback record.
    FeedbackRecord { id: u64 },
}

/// The two little-endian bytes of a 16-bit field.
pub open spec fn u16_le(x: u16) -> Seq<u8> {
    seq![(x & 0xff) as u8, ((x >> 8) & 0xff) as u8]
}

/// The eight little-endian bytes of a 64-bit field.
pub open spec fn u64_le(x: u64) -> Seq<u8> {
    seq![
        (x & 0xff) as u8,
        ((x >> 8) & 0xff) as u8,
        ((x >> 16) & 0xff) as u8,
        ((x >> 24) & 0xff) as u8,
        ((x >> 32) & 0xff) as u8,
        ((x >> 40) & 0xff) as u8,
        ((x >> 48) & 0xff) as u8,
        ((x >> 56) & 0xff) as u8,
    ]
}

/// The address derived from a seed: one discriminator byte, then the seed's
/// fields in little-endian order.
pub open spec fn address_of(seed: Seed) -> Seq<u8> {
    match seed {
        Seed::Authority => seq![0u8],
        Seed::Treasury => seq![1u8],
        Seed::WardRate { ward } => seq![2u8] + u16_le(ward),
        Seed::Payment { payer, year } => seq![3u8] + u64_le(payer.id) + u16_le(year),
        Seed::GrievanceRecord { id } => seq![4u8] + u64_le(id),
        Seed::ProjectRecord { id } => seq![5u8] + u64_le(id),
        Seed::FeedbackRecord { id } => seq![6u8] + u64_le(id),
    }
}

/// Appends the two little-endian bytes of a 16-bit field.
fn push_u16_le(out: &mut Vec<u8>, x: u16)
    ensures
        final(out)@ == old(out)@ + u16_le(x),
{
    proof {
        assert(x & 0xff <= 0xff) by (bit_vector);
        assert((x >> 8) & 0xff <= 0xff) by (bit_vector);
    }
    out.push((x & 0xff) as u8);
    out.push(((x >> 8) & 0xff) as u8);
    proof {
        assert(out@ =~= old(out)@ + u16_le(x));
    }
}

/// Appends the eight little-endian bytes of a 64-bit field.
fn push_u64_le(out: &mut Vec<u8>, x: u64)
    ensures
        final(out)@ == old(out)@ + u64_le(x),
{
    proof {
        assert(x & 0xff <= 0xff) by (bit_vector);
        assert((x >> 8) & 0xff <= 0xff) by (bit_vector);
        assert((x >> 16) & 0xff <= 0xff) by (bit_vector);
        assert((x >> 24) & 0xff <= 0xff) by (bit_vector);
        assert((x >> 32) & 0xff <= 0xff) by (bit_vector);
        assert((x >> 40) & 0xff <= 0xff) by (bit_vector);
        assert((x >> 48) & 0xff <= 0xff) by (bit_vector);
        assert((x >> 56) & 0xff <= 0xff) by (bit_vector);
    }
    out.push((x & 0xff) as u8);
    out.push(((x >> 8) & 0xff) as u8);
    out.push(((x >> 16) & 0xff) as u8);
    out.push(((x >> 24) & 0xff) as u8);
    out.push(((x >> 32) & 0xff) as u8);
    out.push(((x >> 40) & 0xff) as u8);
    out.push(((x >> 48) & 0xff) as u8);
    out.push(((x >> 56) & 0xff) as u8);
    proof {
        assert(out@ =~= old(out)@ + u64_le(x));
    }
}

/// Derives the storage address of the record keyed by `seed`. The derivation
/// is pure: identical seeds always give identical addresses.
pub fn derive_address(seed: &Seed) -> (r: Vec<u8>)
    ensures
        r@ == address_of(*seed),
{
    let mut out: Vec<u8> = Vec::new();
    match seed {
        Seed::Authority => {
            out.push(0u8);
        },
        Seed::Treasury => {
            out.push(1u8);
        },
        Seed::WardRate { ward } => {
            out.push(2u8);
            push_u16_le(&mut out, *ward);
        },
        Seed::Payment { payer, year } => {
            out.push(3u8);
            push_u64_le(&mut out, payer.id);
            push_u16_le(&mut out, *year);
        },
        Seed::GrievanceRecord { id } => {
            out.push(4u8);
            push_u64_le(&mut out, *id);
        },
        Seed::ProjectRecord { id } => {
            out.push(5u8);
            push_u64_le(&mut out, *id);
        },
        Seed::FeedbackRecord { id } => {
            out.push(6u8);
            push_u64_le(&mut out, *id);
        },
    }
    proof {
        assert(out@ =~= address_of(*seed));
    }
    out
}

/// Checks a caller-supplied address against the one re-derived from the
/// claimed seed; a mismatch means the caller tried to substitute an
/// unrelated record, and the operation must not proceed.
pub fn check_address(claimed: &Vec<u8>, seed: &Seed) -> (r: Result<(), ErrorCode>)
    ensures
        r is Ok <==> claimed@ == address_of(*seed),
        r is Err ==> r->Err_0 == ErrorCode::AddressMismatch,
{
    let derived = derive_address(seed);
    if claimed.len() != derived.len() {
        proof {
            assert(claimed@ != address_of(*seed));
        }
        return Err(ErrorCode::AddressMismatch);
    }
    let n = claimed.len();
    let mut i: usize = 0;
    while i < n
        invariant
            i <= n,
            n == claimed.len() == derived.len(),
            derived@ == address_of(*seed),
            forall|k: int| 0 <= k < i ==> claimed@[k] == derived@[k],
        decreases n - i,
    {
        if claimed[i] != derived[i] {
            return Err(ErrorCode::AddressMismatch);
        }
        i += 1;
    }
    proof {
        assert(claimed@ =~= derived@);
    }
    Ok(())
}

/// Recovers a 16-bit field from the equality of its little-endian bytes.
proof fn lemma_u16_le_injective(x: u16, y: u16)
    requires
        u16_le(x) == u16_le(y),
    ensures
        x == y,
{
    assert(u16_le(x)[0] == u16_le(y)[0]);
    assert(u16_le(x)[1] == u16_le(y)[1]);
    assert(x & 0xff <= 0xff && (x >> 8) & 0xff <= 0xff) by (bit_vector);
    assert(y & 0xff <= 0xff && (y >> 8) & 0xff <= 0xff) by (bit_vector);
    assert((x & 0xff) == (y & 0xff) && ((x >> 8) & 0xff) == ((y >> 8) & 0xff) ==> x == y)
        by (bit_vector);
}

/// Recovers a 64-bit field from the equality of its little-endian bytes.
proof fn lemma_u64_le_injective(x: u64, y: u64)
    requires
        u64_le(x) == u64_le(y),
    ensures
        x == y,
{
    assert(u64_le(x)[0] == u64_le(y)[0]);
    assert(u64_le(x)[1] == u64_le(y)[1]);
    assert(u64_le(x)[2] == u64_le(y)[2]);
    assert(u64_le(x)[3] == u64_le(y)[3]);
    assert(u64_le(x)[4] == u64_le(y)[4]);
    assert(u64_le(x)[5] == u64_le(y)[5]);
    assert(u64_le(x)[6] == u64_le(y)[6]);
    assert(u64_le(x)[7] == u64_le(y)[7]);
    assert({
        &&& x & 0xff <= 0xff
        &&& (x >> 8) & 0xff <= 0xff
        &&& (x >> 16) & 0xff <= 0xff
        &&& (x >> 24) & 0xff <= 0xff
        &&& (x >> 32) & 0xff <= 0xff
        &&& (x >> 40) & 0xff <= 0xff
        &&& (x >> 48) & 0xff <= 0xff
        &&& (x >> 56) & 0xff <= 0xff
    }) by (bit_vector);
    assert({
        &&& y & 0xff <= 0xff
        &&& (y >> 8) & 0xff <= 0xff
        &&& (y >> 16) & 0xff <= 0xff
        &&& (y >> 24) & 0xff <= 0xff
        &&& (y >> 32) & 0xff <= 0xff
        &&& (y >> 40) & 0xff <= 0xff
        &&& (y >> 48) & 0xff <= 0xff
        &&& (y >> 56) & 0xff <= 0xff
    }) by (bit_vector);
    assert({
        &&& (x & 0xff) == (y & 0xff)
        &&& ((x >> 8) & 0xff) == ((y >> 8) & 0xff)
        &&& ((x >> 16) & 0xff) == ((y >> 16) & 0xff)
        &&& ((x >> 24) & 0xff) == ((y >> 24) & 0xff)
        &&& ((x >> 32) & 0xff) == ((y >> 32) & 0xff)
        &&& ((x >> 40) & 0xff) == ((y >> 40) & 0xff)
        &&& ((x >> 48) & 0xff) == ((y >> 48) & 0xff)
        &&& ((x >> 56) & 0xff) == ((y >> 56) & 0xff)
    } ==> x == y) by (bit_vector);
}

/// Law: address derivation never collides. Two seeds with the same derived
/// address are the same seed, so an address locates exactly one record.
pub proof fn lemma_address_injective(s1: Seed, s2: Seed)
    requires
        address_of(s1) == address_of(s2),
    ensures
        s1 == s2,
{
    let a1 = address_of(s1);
    let a2 = address_of(s2);
    assert(a1.len() == a2.len());
    assert(a1[0] == a2[0]);
    match (s1, s2) {
        (Seed::WardRate { ward: w1 }, Seed::WardRate { ward: w2 }) => {
            lemma_fields_equal_u16(a1, a2, u16_le(w1), u16_le(w2), 1);
            lemma_u16_le_injective(w1, w2);
        },
        (Seed::Payment { payer: p1, year: y1 }, Seed::Payment { payer: p2, year: y2 }) => {
            lemma_fields_equal_u64(a1, a2, u64_le(p1.id), u64_le(p2.id), 1);
            lemma_u64_le_injective(p1.id, p2.id);
            lemma_fields_equal_u16(a1, a2, u16_le(y1), u16_le(y2), 9);
            lemma_u16_le_injective(y1, y2);
        },
        (Seed::GrievanceRecord { id: i1 }, Seed::GrievanceRecord { id: i2 }) => {
            lemma_fields_equal_u64(a1, a2, u64_le(i1), u64_le(i2), 1);
            lemma_u64_le_injective(i1, i2);
        },
        (Seed::ProjectRecord { id: i1 }, Seed::ProjectRecord { id: i2 }) => {
            lemma_fields_equal_u64(a1, a2, u64_le(i1), u64_le(i2), 1);
            lemma_u64_le_injective(i1, i2);
        },
        (Seed::FeedbackRecord { id: i1 }, Seed::FeedbackRecord { id: i2 }) => {
            lemma_fields_equal_u64(a1, a2, u64_le(i1), u64_le(i2), 1);
            lemma_u64_le_injective(i1, i2);
        },
        _ => {},
    }
}

/// Equal addresses carry equal two-byte fields at any shared offset.
proof fn lemma_fields_equal_u16(a1: Seq<u8>, a2: Seq<u8>, f1: Seq<u8>, f2: Seq<u8>, off: int)
    requires
        a1 == a2,
        f1.len() == 2,
        f2.len() == 2,
        0 <= off,
        off + 2 <= a1.len(),
        forall|k: int| 0 <= k < 2 ==> a1[off + k] == #[trigger] f1[k],
        forall|k: int| 0 <= k < 2 ==> a2[off + k] == #[trigger] f2[k],
    ensures
        f1 == f2,
{
    assert(f1 =~= f2) by {
        assert(forall|k: int| 0 <= k < 2 ==> #[trigger] f1[k] == f2[k]) by {
            assert(forall|k: int| 0 <= k < 2 ==> #[trigger] a1[off + k] == a2[off + k]);
        }
    }
}

/// Equal addresses carry equal eight-byte fields at any shared offset.
proof fn lemma_fields_equal_u64(a1: Seq<u8>, a2: Seq<u8>, f1: Seq<u8>, f2: Seq<u8>, off: int)
    requires
        a1 == a2,
        f1.len() == 8,
        f2.len() == 8,
        0 <= off,
        off + 8 <= a1.len(),
        forall|k: int| 0 <= k < 8 ==> a1[off + k] == #[trigger] f1[k],
        forall|k: int| 0 <= k < 8 ==> a2[off + k] == #[trigger] f2[k],
    ensures
        f1 == f2,
{
    assert(f1 =~= f2) by {
        assert(forall|k: int| 0 <= k < 8 ==> #[trigger] f1[k] == f2[k]) by {
            assert(forall|k: int| 0 <= k < 8 ==> #[trigger] a1[off + k] == a2[off + k]);
        }
    }
}

} // verus!
