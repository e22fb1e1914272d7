//! Xorshift-family pseudo-random generators.
//!
//! Each generator is a pure function of its state: the contracts give the
//! next output word and the next state as spec functions of the current
//! state, so equal seeds give equal streams.

use vstd::prelude::*;
use crate::array_rng_interface::ArrayRngInterface;
use crate::monte_carlo::metropolis::foretells;
use crate::monte_carlo::MonteCarloRngInterface;
use crate::seed::{get_random_seed_from_utc_time, get_seed_os};

verus! {

/// The low 32 bits of an output word.
pub open spec fn low_bits(word: u64) -> int {
    (word as int) % 0x1_0000_0000
}

/// The integer that a generator's output word selects from `[low, high)`:
/// `low` plus the low 32 bits of the word reduced modulo the width of the
/// range.
pub open spec fn draw_in_range(word: u64, low: int, high: int) -> int {
    low + low_bits(word) % (high - low)
}

/// The top 24 bits of an output word: the numerator, over two to the 24, of a
/// single-precision fraction in `[0, 1)`.
pub open spec fn mantissa_f32(word: u64) -> int {
    (word as int) / 0x100_0000_0000
}

/// The top 53 bits of an output word: the numerator, over two to the 53, of a
/// double-precision fraction in `[0, 1)`.
pub open spec fn mantissa_f64(word: u64) -> int {
    (word as int) / 0x800
}

/// `x` rotated left by `k` bits, for `0 < k < 64`.
pub open spec fn rotate_left(x: u64, k: u32) -> u64 {
    (x << k) | (x >> ((64 - k) as u32))
}

/// Sum of two words, wrapped to 64 bits.
pub open spec fn wrapping_sum(x: u64, y: u64) -> u64 {
    if x + y > u64::MAX {
        (x + y - 0x1_0000_0000_0000_0000) as u64
    } else {
        (x + y) as u64
    }
}

/// `x` rotated left by `k` bits.
fn rol64(x: u64, k: u32) -> (r: u64)
    requires
        0 < k < 64,
    ensures
        r == rotate_left(x, k),
{
    (x << k) | (x >> (64 - k))
}

/// A generator whose stream is determined by its state.
pub trait XorshiftRandomGenerator: Sized {
    /// The word that the next call of `generate` returns.
    spec fn next_word(&self) -> u64;

    /// The generator as the next call of `generate` leaves it.
    spec fn advanced(&self) -> Self;

    /// Returns the next 64-bit word of the stream.
    fn generate(&mut self) -> (word: u64)
        ensures
            word == old(self).next_word(),
            *final(self) == old(self).advanced(),
    ;

    /// An integer from `[low, high)`, taken from the low 32 bits of the
    /// next word.
    fn generate_rand_u32(&mut self, low: u32, high: u32) -> (r: u32)
        requires
            low < high,
        ensures
            r == draw_in_range(old(self).next_word(), low as int, high as int),
            low <= r < high,
            *final(self) == old(self).advanced(),
    {
        let word: u64 = self.generate();
        let rand: u32 = low_half(word);
        let delta: u32 = rand % (high - low);
        low + delta
    }

    /// The top 24 bits of the next word. Divided by two to the 24 this is a
    /// single-precision number in `[0, 1)`.
    fn rand_f32_mantissa(&mut self) -> (m: u32)
        ensures
            m == mantissa_f32(old(self).next_word()),
            m < 0x100_0000,
            *final(self) == old(self).advanced(),
    {
        let word: u64 = self.generate();
        assert(word >> 40 == word / 0x100_0000_0000 && (word >> 40) < 0x100_0000) by (bit_vector);
        (word >> 40) as u32
    }

    /// The top 53 bits of the next word. Divided by two to the 53 this is a
    /// double-precision number in `[0, 1)`.
    fn rand_f64_mantissa(&mut self) -> (m: u64)
        ensures
            m == mantissa_f64(old(self).next_word()),
            m < 0x20_0000_0000_0000,
            *final(self) == old(self).advanced(),
    {
        let word: u64 = self.generate();
        unit_of_word(word)
    }
}

/// The `n`-th word, counted from zero, of the stream that `g` is about to
/// produce.
pub open spec fn nth_word<G: XorshiftRandomGenerator>(g: G, n: nat) -> u64
    decreases n,
{
    if n == 0 {
        g.next_word()
    } else {
        nth_word(g.advanced(), (n - 1) as nat)
    }
}

/// The top 53 bits of a word: the numerator, over two to the 53, of the
/// fraction in `[0, 1)` that the word stands for.
pub fn unit_of_word(word: u64) -> (m: u64)
    ensures
        m == mantissa_f64(word),
        m < 0x20_0000_0000_0000,
{
    assert(word >> 11 == word / 0x800 && (word >> 11) < 0x20_0000_0000_0000) by (bit_vector);
    word >> 11
}

/// The low 32 bits of a word.
pub fn low_half(word: u64) -> (half: u32)
    ensures
        half == low_bits(word),
{
    assert((word & 0xffff_ffff) == word % 0x1_0000_0000 && (word & 0xffff_ffff) <= 0xffff_ffff)
        by (bit_vector);
    (word & 0xffff_ffff) as u32
}

/// The integer that `word` selects from `[low, high)`.
pub fn rand_i32_from_word(word: u64, low: i32, high: i32) -> (r: i32)
    requires
        low < high,
    ensures
        r == draw_in_range(word, low as int, high as int),
        low <= r < high,
{
    let rand: i64 = low_half(word) as i64;
    let span: i64 = high as i64 - low as i64;
    let delta: i64 = rand % span;
    (low as i64 + delta) as i32
}

/// Marsaglia's 64-bit xorshift generator with the shift triple 13, 7, 17.
pub struct Xorshift64 {
    state: u64,
}

/// The xoroshiro128+ generator.
pub struct Xoroshiro128p {
    s0: u64,
    s1: u64,
}

/// The xoshiro256+ generator.
pub struct Xoshiro256p {
    s0: u64,
    s1: u64,
    s2: u64,
    s3: u64,
}

/// The xoshiro256++ generator.
pub struct Xoshiro256pp {
    s0: u64,
    s1: u64,
    s2: u64,
    s3: u64,
}

/// One step of the 64-bit xorshift: the new state, which is also the output.
pub open spec fn xorshift64_step(x: u64) -> u64 {
    let a = x ^ (x << 13u64);
    let b = a ^ (a >> 7u64);
    b ^ (b << 17u64)
}

/// One step of xoroshiro128+ on the state `(s0, s1)`: the new state.
pub open spec fn xoroshiro128_step(s: (u64, u64)) -> (u64, u64) {
    let t = s.1 ^ s.0;
    (rotate_left(s.0, 24) ^ t ^ (t << 16u64), rotate_left(t, 37))
}

/// One step of the xoshiro256 state transition, shared by the `+` and `++`
/// variants.
pub open spec fn xoshiro256_step(s: (u64, u64, u64, u64)) -> (u64, u64, u64, u64) {
    let t = s.1 << 17u64;
    let s2 = s.2 ^ s.0;
    let s3 = s.3 ^ s.1;
    let s1 = s.1 ^ s2;
    let s0 = s.0 ^ s3;
    (s0, s1, s2 ^ t, rotate_left(s3, 45))
}

impl View for Xorshift64 {
    type V = u64;

    closed spec fn view(&self) -> u64 {
        self.state
    }
}

impl View for Xoroshiro128p {
    type V = (u64, u64);

    closed spec fn view(&self) -> (u64, u64) {
        (self.s0, self.s1)
    }
}

impl View for Xoshiro256p {
    type V = (u64, u64, u64, u64);

    closed spec fn view(&self) -> (u64, u64, u64, u64) {
        (self.s0, self.s1, self.s2, self.s3)
    }
}

impl View for Xoshiro256pp {
    type V = (u64, u64, u64, u64);

    closed spec fn view(&self) -> (u64, u64, u64, u64) {
        (self.s0, self.s1, self.s2, self.s3)
    }
}

impl XorshiftRandomGenerator for Xorshift64 {
    closed spec fn next_word(&self) -> u64 {
        xorshift64_step(self.state)
    }

    closed spec fn advanced(&self) -> Self {
        Xorshift64 { state: xorshift64_step(self.state) }
    }

    fn generate(&mut self) -> (word: u64)
        ensures
            word == xorshift64_step(old(self)@),
            final(self)@ == word,
    {
        let mut x: u64 = self.state;
        x = x ^ (x << 13);
        x = x ^ (x >> 7);
        x = x ^ (x << 17);
        self.state = x;
        x
    }
}

impl XorshiftRandomGenerator for Xoroshiro128p {
    closed spec fn next_word(&self) -> u64 {
        wrapping_sum(self.s0, self.s1)
    }

    closed spec fn advanced(&self) -> Self {
        let n = xoroshiro128_step((self.s0, self.s1));
        Xoroshiro128p { s0: n.0, s1: n.1 }
    }

    fn generate(&mut self) -> (word: u64)
        ensures
            word == wrapping_sum(old(self)@.0, old(self)@.1),
            final(self)@ == xoroshiro128_step(old(self)@),
    {
        let s0: u64 = self.s0;
        let mut s1: u64 = self.s1;
        let result: u64 = s0.wrapping_add(s1);
        s1 = s1 ^ s0;
        self.s0 = rol64(s0, 24) ^ s1 ^ (s1 << 16);
        self.s1 = rol64(s1, 37);
        result
    }
}

impl XorshiftRandomGenerator for Xoshiro256p {
    closed spec fn next_word(&self) -> u64 {
        wrapping_sum(self.s0, self.s3)
    }

    closed spec fn advanced(&self) -> Self {
        let n = xoshiro256_step((self.s0, self.s1, self.s2, self.s3));
        Xoshiro256p { s0: n.0, s1: n.1, s2: n.2, s3: n.3 }
    }

    fn generate(&mut self) -> (word: u64)
        ensures
            word == wrapping_sum(old(self)@.0, old(self)@.3),
            final(self)@ == xoshiro256_step(old(self)@),
    {
        let result: u64 = self.s0.wrapping_add(self.s3);
        let t: u64 = self.s1 << 17;
        self.s2 = self.s2 ^ self.s0;
        self.s3 = self.s3 ^ self.s1;
        self.s1 = self.s1 ^ self.s2;
        self.s0 = self.s0 ^ self.s3;
        self.s2 = self.s2 ^ t;
        self.s3 = rol64(self.s3, 45);
        result
    }
}

impl XorshiftRandomGenerator for Xoshiro256pp {
    closed spec fn next_word(&self) -> u64 {
        wrapping_sum(rotate_left(wrapping_sum(self.s0, self.s3), 23), self.s0)
    }

    closed spec fn advanced(&self) -> Self {
        let n = xoshiro256_step((self.s0, self.s1, self.s2, self.s3));
        Xoshiro256pp { s0: n.0, s1: n.1, s2: n.2, s3: n.3 }
    }

    fn generate(&mut self) -> (word: u64)
        ensures
            word == wrapping_sum(
                rotate_left(wrapping_sum(old(self)@.0, old(self)@.3), 23),
                old(self)@.0,
            ),
            final(self)@ == xoshiro256_step(old(self)@),
    {
        let result: u64 = rol64(self.s0.wrapping_add(self.s3), 23).wrapping_add(self.s0);
        let t: u64 = self.s1 << 17;
        self.s2 = self.s2 ^ self.s0;
        self.s3 = self.s3 ^ self.s1;
        self.s1 = self.s1 ^ self.s2;
        self.s0 = self.s0 ^ self.s3;
        self.s2 = self.s2 ^ t;
        self.s3 = rol64(self.s3, 45);
        result
    }
}

/// State of a `Xorshift64` made from `seed`: the seed advanced once.
pub open spec fn xorshift64_seeded(seed: u64) -> u64 {
    xorshift64_step(seed)
}

/// State of a `Xoroshiro128p` made from one word: a `Xorshift64` made from
/// the word supplies the two state words, and the state is advanced once.
pub open spec fn xoroshiro128_seeded(seed: u64) -> (u64, u64) {
    let a = xorshift64_step(xorshift64_seeded(seed));
    let b = xorshift64_step(a);
    xoroshiro128_step((a, b))
}

/// State of a xoshiro256 generator made from one word: a `Xorshift64` made
/// from the word supplies the four state words, and the state is advanced
/// once.
pub open spec fn xoshiro256_seeded(seed: u64) -> (u64, u64, u64, u64) {
    let a = xorshift64_step(xorshift64_seeded(seed));
    let b = xorshift64_step(a);
    let c = xorshift64_step(b);
    let d = xorshift64_step(c);
    xoshiro256_step((a, b, c, d))
}

impl Xorshift64 {
    /// The generator whose state is `state`.
    pub closed spec fn in_state(state: u64) -> Self {
        Xorshift64 { state }
    }

    /// The generator with state `seed`, advanced once.
    pub fn new(seed: u64) -> (g: Self)
        ensures
            g@ == xorshift64_seeded(seed),
    {
        let mut rng = Xorshift64 { state: seed };
        rng.generate();
        rng
    }

    /// `new` on the current time in whole seconds.
    pub fn from_utc_time() -> (g: Self)
        ensures
            exists|seed: u64| g@ == xorshift64_seeded(seed),
    {
        let seed: u64 = get_random_seed_from_utc_time();
        Self::new(seed)
    }

    /// `new` on a word of operating-system entropy.
    pub fn from_os() -> (g: Self)
        ensures
            exists|seed: u64| g@ == xorshift64_seeded(seed),
    {
        let seed: u64 = get_seed_os();
        Self::new(seed)
    }

    /// What `generate` returns and leaves, over the state; the state
    /// names the generator.
    pub proof fn lemma_step(self)
        ensures
            self.next_word() == xorshift64_step(self@),
            self.advanced()@ == xorshift64_step(self@),
            self == Self::in_state(self@),
    {
    }
}

impl Xoroshiro128p {
    /// The generator whose state is `state`.
    pub closed spec fn in_state(state: (u64, u64)) -> Self {
        Xoroshiro128p { s0: state.0, s1: state.1 }
    }

    /// The generator with state `(s1, s2)`, advanced once.
    pub fn new(s1: u64, s2: u64) -> (g: Self)
        ensures
            g@ == xoroshiro128_step((s1, s2)),
    {
        let mut rng = Xoroshiro128p { s0: s1, s1: s2 };
        rng.generate();
        rng
    }

    /// The generator whose two state words are the first two outputs of
    /// `Xorshift64::new(seed)`, advanced once.
    pub fn from_seed(seed: u64) -> (g: Self)
        ensures
            g@ == xoroshiro128_seeded(seed),
    {
        let mut small_rng = Xorshift64::new(seed);
        let s1: u64 = small_rng.generate();
        let s2: u64 = small_rng.generate();
        Self::new(s1, s2)
    }

    /// `from_seed` on the current time in whole seconds.
    pub fn from_utc_time() -> (g: Self)
        ensures
            exists|seed: u64| g@ == xoroshiro128_seeded(seed),
    {
        let seed: u64 = get_random_seed_from_utc_time();
        Self::from_seed(seed)
    }

    /// `from_seed` on a word of operating-system entropy.
    pub fn from_os() -> (g: Self)
        ensures
            exists|seed: u64| g@ == xoroshiro128_seeded(seed),
    {
        let seed: u64 = get_seed_os();
        Self::from_seed(seed)
    }

    /// What `generate` returns and leaves, over the state; the state
    /// names the generator.
    pub proof fn lemma_step(self)
        ensures
            self.next_word() == wrapping_sum(self@.0, self@.1),
            self.advanced()@ == xoroshiro128_step(self@),
            self == Self::in_state(self@),
    {
    }
}

impl Xoshiro256p {
    /// The generator whose state is `state`.
    pub closed spec fn in_state(state: (u64, u64, u64, u64)) -> Self {
        Xoshiro256p { s0: state.0, s1: state.1, s2: state.2, s3: state.3 }
    }

    /// The generator with state `(s1, s2, s3, s4)`, advanced once.
    pub fn new(s1: u64, s2: u64, s3: u64, s4: u64) -> (g: Self)
        ensures
            g@ == xoshiro256_step((s1, s2, s3, s4)),
    {
        let mut rng = Xoshiro256p { s0: s1, s1: s2, s2: s3, s3: s4 };
        rng.generate();
        rng
    }

    /// The generator whose four state words are the first four outputs of
    /// `Xorshift64::new(seed)`, advanced once.
    pub fn from_seed(seed: u64) -> (g: Self)
        ensures
            g@ == xoshiro256_seeded(seed),
    {
        let mut small_rng = Xorshift64::new(seed);
        let s1: u64 = small_rng.generate();
        let s2: u64 = small_rng.generate();
        let s3: u64 = small_rng.generate();
        let s4: u64 = small_rng.generate();
        Self::new(s1, s2, s3, s4)
    }

    /// `from_seed` on the current time in whole seconds.
    pub fn from_utc() -> (g: Self)
        ensures
            exists|seed: u64| g@ == xoshiro256_seeded(seed),
    {
        let seed: u64 = get_random_seed_from_utc_time();
        Self::from_seed(seed)
    }

    /// `from_seed` on a word of operating-system entropy.
    pub fn from_os() -> (g: Self)
        ensures
            exists|seed: u64| g@ == xoshiro256_seeded(seed),
    {
        let seed: u64 = get_seed_os();
        Self::from_seed(seed)
    }

    /// What `generate` returns and leaves, over the state; the state
    /// names the generator.
    pub proof fn lemma_step(self)
        ensures
            self.next_word() == wrapping_sum(self@.0, self@.3),
            self.advanced()@ == xoshiro256_step(self@),
            self == Self::in_state(self@),
    {
    }
}

impl Xoshiro256pp {
    /// The generator whose state is `state`.
    pub closed spec fn in_state(state: (u64, u64, u64, u64)) -> Self {
        Xoshiro256pp { s0: state.0, s1: state.1, s2: state.2, s3: state.3 }
    }

    /// The generator with state `(s1, s2, s3, s4)`, advanced once.
    pub fn new(s1: u64, s2: u64, s3: u64, s4: u64) -> (g: Self)
        ensures
            g@ == xoshiro256_step((s1, s2, s3, s4)),
    {
        let mut rng = Xoshiro256pp { s0: s1, s1: s2, s2: s3, s3: s4 };
        rng.generate();
        rng
    }

    /// The generator whose four state words are the first four outputs of
    /// `Xorshift64::new(seed)`, advanced once.
    pub fn from_seed(seed: u64) -> (g: Self)
        ensures
            g@ == xoshiro256_seeded(seed),
    {
        let mut small_rng = Xorshift64::new(seed);
        let s1: u64 = small_rng.generate();
        let s2: u64 = small_rng.generate();
        let s3: u64 = small_rng.generate();
        let s4: u64 = small_rng.generate();
        Self::new(s1, s2, s3, s4)
    }

    /// `from_seed` on the current time in whole seconds.
    pub fn from_utc() -> (g: Self)
        ensures
            exists|seed: u64| g@ == xoshiro256_seeded(seed),
    {
        let seed: u64 = get_random_seed_from_utc_time();
        Self::from_seed(seed)
    }

    /// `from_seed` on a word of operating-system entropy.
    pub fn from_os() -> (g: Self)
        ensures
            exists|seed: u64| g@ == xoshiro256_seeded(seed),
    {
        let seed: u64 = get_seed_os();
        Self::from_seed(seed)
    }

    /// What `generate` returns and leaves, over the state; the state
    /// names the generator.
    pub proof fn lemma_step(self)
        ensures
            self.next_word() == wrapping_sum(
                rotate_left(wrapping_sum(self@.0, self@.3), 23),
                self@.0,
            ),
            self.advanced()@ == xoshiro256_step(self@),
            self == Self::in_state(self@),
    {
    }
}

impl ArrayRngInterface for Xorshift64 {
    open spec fn next_i32(&self, low: i32, high: i32) -> Option<(i32, Self)> {
        Some((draw_in_range(self.next_word(), low as int, high as int) as i32, self.advanced()))
    }

    fn generate_rand_i32(&mut self, low: i32, high: i32) -> (r: i32)
        ensures
            r == draw_in_range(old(self).next_word(), low as int, high as int),
            *final(self) == old(self).advanced(),
    {
        let word: u64 = self.generate();
        rand_i32_from_word(word, low, high)
    }
}

impl ArrayRngInterface for Xoroshiro128p {
    open spec fn next_i32(&self, low: i32, high: i32) -> Option<(i32, Self)> {
        Some((draw_in_range(self.next_word(), low as int, high as int) as i32, self.advanced()))
    }

    fn generate_rand_i32(&mut self, low: i32, high: i32) -> (r: i32)
        ensures
            r == draw_in_range(old(self).next_word(), low as int, high as int),
            *final(self) == old(self).advanced(),
    {
        let word: u64 = self.generate();
        rand_i32_from_word(word, low, high)
    }
}

impl ArrayRngInterface for Xoshiro256p {
    open spec fn next_i32(&self, low: i32, high: i32) -> Option<(i32, Self)> {
        Some((draw_in_range(self.next_word(), low as int, high as int) as i32, self.advanced()))
    }

    fn generate_rand_i32(&mut self, low: i32, high: i32) -> (r: i32)
        ensures
            r == draw_in_range(old(self).next_word(), low as int, high as int),
            *final(self) == old(self).advanced(),
    {
        let word: u64 = self.generate();
        rand_i32_from_word(word, low, high)
    }
}

impl ArrayRngInterface for Xoshiro256pp {
    open spec fn next_i32(&self, low: i32, high: i32) -> Option<(i32, Self)> {
        Some((draw_in_range(self.next_word(), low as int, high as int) as i32, self.advanced()))
    }

    fn generate_rand_i32(&mut self, low: i32, high: i32) -> (r: i32)
        ensures
            r == draw_in_range(old(self).next_word(), low as int, high as int),
            *final(self) == old(self).advanced(),
    {
        let word: u64 = self.generate();
        rand_i32_from_word(word, low, high)
    }
}

impl MonteCarloRngInterface for Xorshift64 {
    open spec fn next_unit(&self) -> Option<(u64, Self)> {
        Some((mantissa_f64(self.next_word()) as u64, self.advanced()))
    }

    fn generate_rand_unit(&mut self) -> (numerator: u64)
        ensures
            numerator == mantissa_f64(old(self).next_word()),
            *final(self) == old(self).advanced(),
    {
        self.rand_f64_mantissa()
    }
}

impl MonteCarloRngInterface for Xoroshiro128p {
    open spec fn next_unit(&self) -> Option<(u64, Self)> {
        Some((mantissa_f64(self.next_word()) as u64, self.advanced()))
    }

    fn generate_rand_unit(&mut self) -> (numerator: u64)
        ensures
            numerator == mantissa_f64(old(self).next_word()),
            *final(self) == old(self).advanced(),
    {
        self.rand_f64_mantissa()
    }
}

impl MonteCarloRngInterface for Xoshiro256p {
    open spec fn next_unit(&self) -> Option<(u64, Self)> {
        Some((mantissa_f64(self.next_word()) as u64, self.advanced()))
    }

    fn generate_rand_unit(&mut self) -> (numerator: u64)
        ensures
            numerator == mantissa_f64(old(self).next_word()),
            *final(self) == old(self).advanced(),
    {
        self.rand_f64_mantissa()
    }
}

impl MonteCarloRngInterface for Xoshiro256pp {
    open spec fn next_unit(&self) -> Option<(u64, Self)> {
        Some((mantissa_f64(self.next_word()) as u64, self.advanced()))
    }

    fn generate_rand_unit(&mut self) -> (numerator: u64)
        ensures
            numerator == mantissa_f64(old(self).next_word()),
            *final(self) == old(self).advanced(),
    {
        self.rand_f64_mantissa()
    }
}

/// The four generators determine all their draws.
pub proof fn lemma_xorshifts_foretell()
    ensures
        foretells::<Xorshift64>(),
        foretells::<Xoroshiro128p>(),
        foretells::<Xoshiro256p>(),
        foretells::<Xoshiro256pp>(),
{
}

/// Determinism: two `Xorshift64` in the same state are the same generator
/// and produce the same word at every position of their streams.
pub proof fn lemma_xorshift64_deterministic(a: Xorshift64, b: Xorshift64, n: nat)
    requires
        a@ == b@,
    ensures
        a == b,
        nth_word(a, n) == nth_word(b, n),
{
}

/// Determinism: two `Xoroshiro128p` in the same state are the same
/// generator and produce the same word at every position of their streams.
pub proof fn lemma_xoroshiro128p_deterministic(a: Xoroshiro128p, b: Xoroshiro128p, n: nat)
    requires
        a@ == b@,
    ensures
        a == b,
        nth_word(a, n) == nth_word(b, n),
{
}

/// Determinism: two `Xoshiro256p` in the same state are the same generator
/// and produce the same word at every position of their streams.
pub proof fn lemma_xoshiro256p_deterministic(a: Xoshiro256p, b: Xoshiro256p, n: nat)
    requires
        a@ == b@,
    ensures
        a == b,
        nth_word(a, n) == nth_word(b, n),
{
}

/// Determinism: two `Xoshiro256pp` in the same state are the same
/// generator and produce the same word at every position of their streams.
pub proof fn lemma_xoshiro256pp_deterministic(a: Xoshiro256pp, b: Xoshiro256pp, n: nat)
    requires
        a@ == b@,
    ensures
        a == b,
        nth_word(a, n) == nth_word(b, n),
{
}

} // verus!
