use vstd::prelude::*;

verus! {

/// Length of the generator's history buffer.
pub const CMWC_CYCLE: usize = 4096;

/// The golden-ratio constant used to spread the seed over the buffer.
pub const PHI: u32 = 0x9e3779b9;

/// The multiplier of the multiply-with-carry step.
pub const MULTIPLIER: u64 = 18782;

/// The complement base: each output word is this minus the step's value.
pub const COMPLEMENT: u32 = 0xfffffffe;

/// The carry a freshly seeded generator starts with.
pub const INITIAL_CARRY: u32 = 362436;

/// A complementary-multiply-with-carry pseudo-random generator over a
/// history buffer of 4096 words.
pub struct ComplementaryMultiplyWithCarryGen {
    pub q: [u32; 4096],
    pub c: u32,
    pub i: usize,
}

/// The abstract state of the generator.
pub struct CmwcState {
    pub q: Seq<u32>,
    pub c: u32,
    pub i: int,
}

impl CmwcState {
    /// The rolling index stays inside the history buffer.
    pub open spec fn wf(&self) -> bool {
        &&& self.q.len() == 4096
        &&& 0 <= self.i < 4096
    }
}

/// Word `k` of the history buffer seeded with `seed`: the seed, then the
/// seed plus one and two times `PHI`, then each word the exclusive-or of the
/// words three and two places before it with `PHI` and the seed.
pub open spec fn seed_word(seed: u32, k: nat) -> u32
    decreases k,
{
    if k == 0 {
        seed
    } else if k == 1 {
        ((seed + PHI) % 0x1_0000_0000) as u32
    } else if k == 2 {
        ((seed + PHI + PHI) % 0x1_0000_0000) as u32
    } else {
        seed_word(seed, (k - 3) as nat) ^ seed_word(seed, (k - 2) as nat) ^ PHI ^ seed
    }
}

/// The state of a generator seeded with `seed`.
pub open spec fn seeded(seed: u32) -> CmwcState {
    CmwcState { q: Seq::new(4096, |k: int| seed_word(seed, k as nat)), c: INITIAL_CARRY, i: 4095 }
}

/// One step of the generator: the state after drawing, and the word drawn.
/// The index moves on (wrapping), the word there is multiplied and the
/// carry added; the high half becomes the new carry, and the low half of
/// the value plus that carry (bumped by one, with the carry, when it
/// wrapped below the carry) is complemented into the buffer and returned.
pub open spec fn cmwc_step(s: CmwcState) -> (CmwcState, u32) {
    let j = (s.i + 1) % 4096;
    let t = MULTIPLIER * s.q[j] + s.c;
    let c = t / 0x1_0000_0000;
    let x = (t + c) % 0x1_0000_0000;
    let (x, c) = if x < c { (x + 1, c + 1) } else { (x, c) };
    let out = ((COMPLEMENT - x) % 0x1_0000_0000) as u32;
    (CmwcState { q: s.q.update(j, out), c: c as u32, i: j }, out)
}

impl View for ComplementaryMultiplyWithCarryGen {
    type V = CmwcState;

    open spec fn view(&self) -> CmwcState {
        CmwcState { q: self.q@, c: self.c, i: self.i as int }
    }
}

impl ComplementaryMultiplyWithCarryGen {
    /// The rolling index stays inside the history buffer.
    pub open spec fn wf(&self) -> bool {
        self.i < 4096
    }

    /// A generator seeded with `seed`.
    pub fn new(seed: u32) -> (r: ComplementaryMultiplyWithCarryGen)
        ensures
            r.wf(),
            r@ == seeded(seed),
    {
        let mut q = [0u32; 4096];
        q[0] = seed;
        q[1] = seed.wrapping_add(PHI);
        q[2] = seed.wrapping_add(PHI).wrapping_add(PHI);
        assert(q@[1] == seed_word(seed, 1) && q@[2] == seed_word(seed, 2));
        let mut i: usize = 3;
        while i < CMWC_CYCLE
            invariant
                3 <= i <= 4096,
                forall|k: int| 0 <= k < i ==> q@[k] == seed_word(seed, k as nat),
            decreases 4096 - i,
        {
            q[i] = q[i - 3] ^ q[i - 2] ^ PHI ^ seed;
            i += 1;
        }
        let r = ComplementaryMultiplyWithCarryGen { q: q, c: INITIAL_CARRY, i: 4095 };
        assert(r@.q =~= seeded(seed).q);
        r
    }

    /// Draws the next word.
    pub fn random(&mut self) -> (r: u32)
        requires
            old(self).wf(),
        ensures
            final(self).wf(),
            (final(self)@, r) == cmwc_step(old(self)@),
    {
        let next = self.i + 1;
        let i = next & (CMWC_CYCLE - 1);
        assert(i == next % 4096) by (bit_vector)
            requires
                i == next & 4095,
        ;
        let t = MULTIPLIER * self.q[i] as u64 + self.c as u64;
        assert(t >> 32 == t / 0x1_0000_0000) by (bit_vector);
        let c0 = (t >> 32) as u32;
        let sum = t + c0 as u64;
        let mut x = #[verifier::truncate] (sum as u32);
        assert(x == sum % 0x1_0000_0000) by (bit_vector)
            requires
                x == #[verifier::truncate] (sum as u32),
        ;
        let mut c = c0;
        if x < c {
            x += 1;
            c += 1;
        }
        let out = COMPLEMENT.wrapping_sub(x);
        self.q[i] = out;
        self.i = i;
        self.c = c;
        out
    }
}

} // verus!
