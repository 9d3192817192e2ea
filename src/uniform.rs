use vstd::prelude::*;

verus! {

/// Size in bytes of the uniform block the shader reads.
pub const UNIFORM_SIZE: usize = 40;

/// The view as the shader reads it. The four plane quantities are carried as
/// the bit patterns of IEEE-754 doubles; the budget as a plain 32-bit count.
#[derive(Clone, Copy, Debug, PartialEq, Eq, Structural)]
pub struct UniformBlock {
    pub origin_x: u64,
    pub origin_y: u64,
    pub height: u64,
    pub aspect_ratio: u64,
    pub max_iterations: u32,
}

/// The lowest `n` bytes of `x`, least significant first.
pub open spec fn le_bytes(x: nat, n: nat) -> Seq<u8>
    decreases n,
{
    if n == 0 {
        seq![]
    } else {
        seq![(x % 256) as u8] + le_bytes(x / 256, (n - 1) as nat)
    }
}

/// The block's bytes: four 8-byte doubles, the 4-byte budget and 4 bytes of
/// zero padding that round the size up to the doubles' alignment, each field
/// little-endian.
pub open spec fn uniform_layout(u: UniformBlock) -> Seq<u8> {
    le_bytes(u.origin_x as nat, 8) + le_bytes(u.origin_y as nat, 8) + le_bytes(u.height as nat, 8)
        + le_bytes(u.aspect_ratio as nat, 8) + le_bytes(u.max_iterations as nat, 4) + le_bytes(
        0,
        4,
    )
}

proof fn lemma_le_bytes_len(x: nat, n: nat)
    ensures
        le_bytes(x, n).len() == n,
    decreases n,
{
    if n > 0 {
        lemma_le_bytes_len(x / 256, (n - 1) as nat);
    }
}

/// Appends the lowest `n` bytes of `x` to `out`, least significant first.
fn push_le(out: &mut Vec<u8>, x: u64, n: usize)
    requires
        n <= 8,
    ensures
        final(out)@ == old(out)@ + le_bytes(x as nat, n as nat),
{
    let mut v: u64 = x;
    let mut i: usize = 0;
    while i < n
        invariant
            i <= n,
            out@ + le_bytes(v as nat, (n - i) as nat) == old(out)@ + le_bytes(x as nat, n as nat),
        decreases n - i,
    {
        let ghost before = out@;
        out.push((v % 256) as u8);
        proof {
            let rest = le_bytes((v / 256) as nat, (n - i - 1) as nat);
            assert(le_bytes(v as nat, (n - i) as nat) == seq![(v % 256) as u8] + rest);
            assert(out@ + rest == before + (seq![(v % 256) as u8] + rest));
        }
        v = v / 256;
        i = i + 1;
    }
}

impl UniformBlock {
    /// Serializes the block into the exact layout the shader expects.
    pub fn to_bytes(&self) -> (r: Vec<u8>)
        ensures
            r@ == uniform_layout(*self),
            r@.len() == UNIFORM_SIZE,
    {
        let mut out: Vec<u8> = Vec::with_capacity(UNIFORM_SIZE);
        push_le(&mut out, self.origin_x, 8);
        push_le(&mut out, self.origin_y, 8);
        push_le(&mut out, self.height, 8);
        push_le(&mut out, self.aspect_ratio, 8);
        push_le(&mut out, self.max_iterations as u64, 4);
        push_le(&mut out, 0, 4);
        proof {
            lemma_le_bytes_len(self.origin_x as nat, 8);
            lemma_le_bytes_len(self.origin_y as nat, 8);
            lemma_le_bytes_len(self.height as nat, 8);
            lemma_le_bytes_len(self.aspect_ratio as nat, 8);
            lemma_le_bytes_len(self.max_iterations as nat, 4);
            lemma_le_bytes_len(0, 4);
            assert(out@ == uniform_layout(*self));
        }
        out
    }
}

} // verus!
