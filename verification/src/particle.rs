//! The packed particle record and the generator's write layout.
//!
//! A particle is two 2D vectors (position, velocity) and two scalars
//! (radius, mass), each a 32-bit IEEE-754 value carried here as its bit
//! pattern; packed little-endian that is 24 bytes with no padding. The
//! generator seeds `n` particles as `n / 128` clusters of 128, writing
//! member `p` of cluster `c` to slot `c + p * (n / 128)` (interleaved
//! layout). The random cluster geometry is floating-point and stays with
//! the caller; it hands the chosen position in as bit patterns.

use vstd::prelude::*;

verus! {

/// Bit pattern of 0.1, the fixed radius and mass every generated
/// particle starts with.
pub const INITIAL_RADIUS_MASS_BITS: u32 = 0x3DCC_CCCD;

/// Particles per generator cluster.
pub const PARTICLES_PER_CLUSTER: u64 = 128;

/// One particle record; each field is the bit pattern of a 32-bit
/// IEEE-754 value.
pub struct Particle {
    pub position_x: u32,
    pub position_y: u32,
    pub velocity_x: u32,
    pub velocity_y: u32,
    pub radius: u32,
    pub mass: u32,
}

/// The four little-endian bytes of a 32-bit word.
pub open spec fn le_bytes(x: u32) -> Seq<u8> {
    seq![
        (x & 0xFF) as u8,
        ((x >> 8) & 0xFF) as u8,
        ((x >> 16) & 0xFF) as u8,
        ((x >> 24) & 0xFF) as u8,
    ]
}

/// The 24-byte packed form of a particle record: position, velocity,
/// radius, mass, each field little-endian, no padding anywhere.
pub open spec fn particle_bytes(p: Particle) -> Seq<u8> {
    le_bytes(p.position_x) + le_bytes(p.position_y)
        + le_bytes(p.velocity_x) + le_bytes(p.velocity_y)
        + le_bytes(p.radius) + le_bytes(p.mass)
}

/// Masking to a byte stays below 256, for every shift the packing uses.
proof fn lemma_byte_masks(x: u32)
    ensures
        x & 0xFF < 256,
        (x >> 8) & 0xFF < 256,
        (x >> 16) & 0xFF < 256,
        (x >> 24) & 0xFF < 256,
{
    assert(x & 0xFF < 256 && (x >> 8) & 0xFF < 256 && (x >> 16) & 0xFF < 256
        && (x >> 24) & 0xFF < 256) by (bit_vector);
}

/// Appends the four little-endian bytes of `x`.
fn push_le_bytes(out: &mut Vec<u8>, x: u32)
    ensures
        final(out)@ == old(out)@ + le_bytes(x),
{
    proof {
        lemma_byte_masks(x);
    }
    out.push((x & 0xFF) as u8);
    out.push(((x >> 8) & 0xFF) as u8);
    out.push(((x >> 16) & 0xFF) as u8);
    out.push(((x >> 24) & 0xFF) as u8);
    proof {
        assert(out@ =~= old(out)@ + le_bytes(x));
    }
}

impl Particle {
    /// A freshly generated particle: the caller's cluster position, zero
    /// velocity, and the fixed radius and mass.
    pub fn generated(position_x: u32, position_y: u32) -> (p: Particle)
        ensures
            p.position_x == position_x,
            p.position_y == position_y,
            p.velocity_x == 0,
            p.velocity_y == 0,
            p.radius == INITIAL_RADIUS_MASS_BITS,
            p.mass == INITIAL_RADIUS_MASS_BITS,
    {
        Particle {
            position_x,
            position_y,
            velocity_x: 0,
            velocity_y: 0,
            radius: INITIAL_RADIUS_MASS_BITS,
            mass: INITIAL_RADIUS_MASS_BITS,
        }
    }

    /// Packs the record for upload to the particle buffer.
    pub fn to_bytes(&self) -> (r: Vec<u8>)
        ensures
            r@ == particle_bytes(*self),
            r@.len() == 24,
    {
        let mut out: Vec<u8> = Vec::new();
        push_le_bytes(&mut out, self.position_x);
        push_le_bytes(&mut out, self.position_y);
        push_le_bytes(&mut out, self.velocity_x);
        push_le_bytes(&mut out, self.velocity_y);
        push_le_bytes(&mut out, self.radius);
        push_le_bytes(&mut out, self.mass);
        proof {
            assert(out@ =~= particle_bytes(*self));
        }
        out
    }
}

/// The slot member `member` of cluster `cluster` is written to, among
/// `clusters` clusters: clusters interleave rather than sit contiguously.
pub open spec fn interleaved_slot(cluster: int, member: int, clusters: int) -> int {
    cluster + member * clusters
}

/// The byte offset the generator writes a particle record at. A count
/// not divisible by the cluster size leaves its remainder of trailing
/// slots unwritten; every offset produced here stays inside the array.
pub fn particle_write_offset(cluster: u64, member: u64, num_particles: u64) -> (off: u64)
    requires
        cluster < num_particles / PARTICLES_PER_CLUSTER,
        member < PARTICLES_PER_CLUSTER,
        num_particles * 24 <= u64::MAX,
    ensures
        off == interleaved_slot(
            cluster as int, member as int, (num_particles / PARTICLES_PER_CLUSTER) as int) * 24,
        off + 24 <= num_particles * 24,
{
    let clusters = num_particles / PARTICLES_PER_CLUSTER;
    proof {
        lemma_interleaved_slot_in_range(
            cluster as int, member as int, clusters as int, PARTICLES_PER_CLUSTER as int);
        vstd::arithmetic::div_mod::lemma_fundamental_div_mod(
            num_particles as int, PARTICLES_PER_CLUSTER as int);
        assert((PARTICLES_PER_CLUSTER as int) * (clusters as int)
            == (clusters as int) * (PARTICLES_PER_CLUSTER as int)) by (nonlinear_arith);
        let slot = interleaved_slot(cluster as int, member as int, clusters as int);
        assert(slot * 24 + 24 <= (clusters as int) * (PARTICLES_PER_CLUSTER as int) * 24)
            by (nonlinear_arith)
            requires 0 <= slot, slot < (clusters as int) * (PARTICLES_PER_CLUSTER as int),
        ;
    }
    (cluster + member * clusters) * 24
}

/// Every interleaved slot lies inside the particle array.
pub proof fn lemma_interleaved_slot_in_range(cluster: int, member: int, clusters: int, per: int)
    requires
        0 <= cluster < clusters,
        0 <= member < per,
    ensures
        0 <= interleaved_slot(cluster, member, clusters) < clusters * per,
{
    assert(0 <= cluster + member * clusters < clusters * per) by (nonlinear_arith)
        requires 0 <= cluster < clusters, 0 <= member < per,
    ;
}

/// Distinct (cluster, member) pairs always land on distinct slots: the
/// generator writes every particle exactly once, with no slot shared
/// between clusters.
pub proof fn lemma_interleaved_slots_distinct(
    c1: int, m1: int, c2: int, m2: int, clusters: int)
    requires
        0 <= c1 < clusters,
        0 <= c2 < clusters,
        0 <= m1,
        0 <= m2,
        !(c1 == c2 && m1 == m2),
    ensures
        interleaved_slot(c1, m1, clusters) != interleaved_slot(c2, m2, clusters),
{
    if interleaved_slot(c1, m1, clusters) == interleaved_slot(c2, m2, clusters) {
        vstd::arithmetic::div_mod::lemma_fundamental_div_mod_converse(
            c1 + m1 * clusters, clusters, m1, c1);
        vstd::arithmetic::div_mod::lemma_fundamental_div_mod_converse(
            c2 + m2 * clusters, clusters, m2, c2);
        assert(false);
    }
}

} // verus!
