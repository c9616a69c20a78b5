use vstd::prelude::*;

verus! {

/// The area a trust edge is about. The tags 0 to 4 are fixed: they are what
/// the canonical encoding carries.
#[derive(Clone, Copy, Debug, PartialEq, Eq, Structural)]
pub enum TrustDimension {
    Trading,
    Civic,
    Developer,
    Infra,
    Creator,
}

impl TrustDimension {
    pub open spec fn spec_tag(self) -> u8 {
        match self {
            TrustDimension::Trading => 0,
            TrustDimension::Civic => 1,
            TrustDimension::Developer => 2,
            TrustDimension::Infra => 3,
            TrustDimension::Creator => 4,
        }
    }

    pub open spec fn spec_from_tag(tag: u8) -> Option<TrustDimension> {
        if tag == 0 {
            Some(TrustDimension::Trading)
        } else if tag == 1 {
            Some(TrustDimension::Civic)
        } else if tag == 2 {
            Some(TrustDimension::Developer)
        } else if tag == 3 {
            Some(TrustDimension::Infra)
        } else if tag == 4 {
            Some(TrustDimension::Creator)
        } else {
            None
        }
    }

    /// The numeric tag of this dimension.
    pub fn tag(&self) -> (r: u8)
        ensures
            r == self.spec_tag(),
    {
        match self {
            TrustDimension::Trading => 0,
            TrustDimension::Civic => 1,
            TrustDimension::Developer => 2,
            TrustDimension::Infra => 3,
            TrustDimension::Creator => 4,
        }
    }

    /// The dimension with this tag, if any.
    pub fn from_tag(tag: u8) -> (r: Option<TrustDimension>)
        ensures
            r == Self::spec_from_tag(tag),
            r matches Some(d) ==> d.spec_tag() == tag,
    {
        if tag == 0 {
            Some(TrustDimension::Trading)
        } else if tag == 1 {
            Some(TrustDimension::Civic)
        } else if tag == 2 {
            Some(TrustDimension::Developer)
        } else if tag == 3 {
            Some(TrustDimension::Infra)
        } else if tag == 4 {
            Some(TrustDimension::Creator)
        } else {
            None
        }
    }
}

/// Largest weight an edge may carry, in basis points.
pub const MAX_TRUST_WEIGHT: u16 = 10000;

/// A directed, weighted trust claim about another identity. Edges live off
/// chain; only their hashes reach a trust anchor.
#[derive(Clone, Copy, Debug, PartialEq, Eq)]
pub struct TrustEdgeData {
    /// Who is trusted.
    pub trustee: [u8; 32],
    /// What they are trusted for.
    pub dimension: TrustDimension,
    /// How much they are trusted, in basis points (0 to 10000).
    pub weight: u16,
    /// When the edge was made.
    pub created_at: i64,
}

/// The two bytes of `x`, least significant first.
pub open spec fn u16_le(x: u16) -> Seq<u8> {
    seq![(x & 0xff) as u8, (x >> 8u16) as u8]
}

/// The `k`-th byte of `x`, counting from the least significant.
pub open spec fn u64_byte(x: u64, k: u64) -> u8 {
    ((x >> (8 * k)) & 0xff) as u8
}

/// The eight bytes of `x`, least significant first.
pub open spec fn u64_le(x: u64) -> Seq<u8> {
    seq![
        u64_byte(x, 0),
        u64_byte(x, 1),
        u64_byte(x, 2),
        u64_byte(x, 3),
        u64_byte(x, 4),
        u64_byte(x, 5),
        u64_byte(x, 6),
        u64_byte(x, 7),
    ]
}

/// The canonical encoding of an edge: trustee (32 bytes), dimension tag (1),
/// weight (2, little endian), creation time (8, two's complement, little endian).
pub open spec fn edge_bytes(e: TrustEdgeData) -> Seq<u8> {
    e.trustee@ + seq![e.dimension.spec_tag()] + u16_le(e.weight) + u64_le(e.created_at as u64)
}

/// Whether `b` has the shape of an encoded edge: 43 bytes and a known dimension tag.
pub open spec fn is_edge_encoding(b: Seq<u8>) -> bool {
    b.len() == 43 && b[32] <= 4
}

proof fn lemma_u16_le_injective(x: u16, y: u16)
    requires
        u16_le(x) == u16_le(y),
    ensures
        x == y,
{
    let bx = u16_le(x);
    let by_ = u16_le(y);
    assert(bx[0] == by_[0] && bx[1] == by_[1]);
    assert(((x & 0xff) as u8 == (y & 0xff) as u8 && (x >> 8u16) as u8 == (y >> 8u16) as u8) ==> x
        == y) by (bit_vector);
}

proof fn lemma_u64_le_injective(x: u64, y: u64)
    requires
        u64_le(x) == u64_le(y),
    ensures
        x == y,
{
    let bx = u64_le(x);
    let by_ = u64_le(y);
    assert(forall|k: int| 0 <= k < 8 ==> bx[k] == by_[k]);
    assert(bx[0] == by_[0] && bx[1] == by_[1] && bx[2] == by_[2] && bx[3] == by_[3]);
    assert(bx[4] == by_[4] && bx[5] == by_[5] && bx[6] == by_[6] && bx[7] == by_[7]);
    assert((((x >> 0u64) & 0xff) as u8 == ((y >> 0u64) & 0xff) as u8 && ((x >> 8u64) & 0xff) as u8
        == ((y >> 8u64) & 0xff) as u8 && ((x >> 16u64) & 0xff) as u8 == ((y >> 16u64) & 0xff) as u8
        && ((x >> 24u64) & 0xff) as u8 == ((y >> 24u64) & 0xff) as u8 && ((x >> 32u64) & 0xff) as u8
        == ((y >> 32u64) & 0xff) as u8 && ((x >> 40u64) & 0xff) as u8 == ((y >> 40u64) & 0xff) as u8
        && ((x >> 48u64) & 0xff) as u8 == ((y >> 48u64) & 0xff) as u8 && ((x >> 56u64) & 0xff) as u8
        == ((y >> 56u64) & 0xff) as u8) ==> x == y) by (bit_vector);
}

proof fn lemma_i64_as_u64_injective(x: i64, y: i64)
    requires
        x as u64 == y as u64,
    ensures
        x == y,
{
    assert(x as u64 == y as u64 ==> x == y) by (bit_vector);
}

/// Round trip: the canonical encoding of a valid edge has the shape of an
/// encoded edge, and no other edge has the same encoding, so decoding it gives
/// back exactly that edge.
pub proof fn lemma_edge_round_trip(e: TrustEdgeData, other: TrustEdgeData)
    requires
        e.weight <= MAX_TRUST_WEIGHT,
    ensures
        is_edge_encoding(edge_bytes(e)),
        edge_bytes(other) == edge_bytes(e) ==> other == e,
{
    let b = edge_bytes(e);
    assert(b.len() == 43);
    assert(b[32] == e.dimension.spec_tag());
    if edge_bytes(other) == b {
        let c = edge_bytes(other);
        assert(e.trustee@ =~= b.subrange(0, 32));
        assert(other.trustee@ =~= c.subrange(0, 32));
        assert(e.trustee =~= other.trustee);
        assert(c[32] == other.dimension.spec_tag());
        assert(u16_le(e.weight) =~= b.subrange(33, 35));
        assert(u16_le(other.weight) =~= c.subrange(33, 35));
        lemma_u16_le_injective(e.weight, other.weight);
        assert(u64_le(e.created_at as u64) =~= b.subrange(35, 43));
        assert(u64_le(other.created_at as u64) =~= c.subrange(35, 43));
        lemma_u64_le_injective(e.created_at as u64, other.created_at as u64);
        lemma_i64_as_u64_injective(e.created_at, other.created_at);
    }
}

/// The `u16` whose two little-endian bytes are `b0`, `b1`.
fn u16_from_le(b0: u8, b1: u8) -> (r: u16)
    ensures
        u16_le(r) == seq![b0, b1],
{
    let r: u16 = (b0 as u16) | ((b1 as u16) << 8u16);
    assert(((r & 0xff) as u8 == b0 && (r >> 8u16) as u8 == b1)) by (bit_vector)
        requires
            r == (b0 as u16) | ((b1 as u16) << 8u16),
    ;
    assert(u16_le(r) =~= seq![b0, b1]);
    r
}

/// The `u64` whose eight little-endian bytes are `b[at..at + 8]`.
fn u64_from_le(b: &[u8], at: usize) -> (r: u64)
    requires
        at + 8 <= b@.len(),
    ensures
        u64_le(r) == b@.subrange(at as int, at + 8),
{
    let b0 = b[at];
    let b1 = b[at + 1];
    let b2 = b[at + 2];
    let b3 = b[at + 3];
    let b4 = b[at + 4];
    let b5 = b[at + 5];
    let b6 = b[at + 6];
    let b7 = b[at + 7];
    let r: u64 = (b0 as u64) | ((b1 as u64) << 8u64) | ((b2 as u64) << 16u64) | ((b3 as u64)
        << 24u64) | ((b4 as u64) << 32u64) | ((b5 as u64) << 40u64) | ((b6 as u64) << 48u64) | ((
    b7 as u64) << 56u64);
    assert(((r >> 0u64) & 0xff) as u8 == b0 && ((r >> 8u64) & 0xff) as u8 == b1 && ((r >> 16u64)
        & 0xff) as u8 == b2 && ((r >> 24u64) & 0xff) as u8 == b3 && ((r >> 32u64) & 0xff) as u8
        == b4 && ((r >> 40u64) & 0xff) as u8 == b5 && ((r >> 48u64) & 0xff) as u8 == b6 && ((r
        >> 56u64) & 0xff) as u8 == b7) by (bit_vector)
        requires
            r == (b0 as u64) | ((b1 as u64) << 8u64) | ((b2 as u64) << 16u64) | ((b3 as u64)
                << 24u64) | ((b4 as u64) << 32u64) | ((b5 as u64) << 40u64) | ((b6 as u64)
                << 48u64) | ((b7 as u64) << 56u64),
    ;
    assert(u64_le(r) =~= b@.subrange(at as int, at + 8));
    r
}

impl TrustEdgeData {
    /// Length of the canonical encoding, in bytes.
    pub const SERIALIZED_SIZE: usize = 32 + 1 + 2 + 8;

    /// The canonical encoding of this edge, the bytes that its leaf hashes.
    pub fn encode(&self) -> (r: Vec<u8>)
        ensures
            r@ == edge_bytes(*self),
            r@.len() == Self::SERIALIZED_SIZE,
    {
        let mut out: Vec<u8> = Vec::new();
        out.extend_from_slice(&self.trustee);
        out.push(self.dimension.tag());
        out.push((self.weight & 0xff) as u8);
        out.push((self.weight >> 8u16) as u8);
        let t: u64 = self.created_at as u64;
        out.push((t & 0xff) as u8);
        out.push(((t >> 8u64) & 0xff) as u8);
        out.push(((t >> 16u64) & 0xff) as u8);
        out.push(((t >> 24u64) & 0xff) as u8);
        out.push(((t >> 32u64) & 0xff) as u8);
        out.push(((t >> 40u64) & 0xff) as u8);
        out.push(((t >> 48u64) & 0xff) as u8);
        out.push(((t >> 56u64) & 0xff) as u8);
        proof {
            assert(t >> 0u64 == t) by (bit_vector);
            assert(out@ =~= edge_bytes(*self));
        }
        out
    }

    /// Reads an edge back from its canonical encoding. Gives `None` unless
    /// `bytes` is 43 bytes long with a known dimension tag.
    pub fn decode(bytes: &[u8]) -> (r: Option<TrustEdgeData>)
        ensures
            r is Some <==> is_edge_encoding(bytes@),
            r matches Some(e) ==> edge_bytes(e) == bytes@,
    {
        if bytes.len() != Self::SERIALIZED_SIZE {
            return None;
        }
        let dimension = match TrustDimension::from_tag(bytes[32]) {
            Some(d) => d,
            None => {
                return None;
            },
        };
        let mut trustee: [u8; 32] = [0u8; 32];
        let mut i: usize = 0;
        while i < 32
            invariant
                i <= 32,
                bytes@.len() == 43,
                forall|j: int| 0 <= j < i ==> trustee@[j] == bytes@[j],
            decreases 32 - i,
        {
            trustee[i] = bytes[i];
            i = i + 1;
        }
        let weight = u16_from_le(bytes[33], bytes[34]);
        let t = u64_from_le(bytes, 35);
        let created_at: i64 = t as i64;
        let e = TrustEdgeData { trustee, dimension, weight, created_at };
        proof {
            assert((t as i64) as u64 == t) by (bit_vector);
            assert(trustee@ =~= bytes@.subrange(0, 32));
            assert(seq![bytes@[33], bytes@[34]] =~= bytes@.subrange(33, 35));
            assert(edge_bytes(e) =~= bytes@);
        }
        Some(e)
    }
}

} // verus!
