//! The identifier generator: long-lived defaults, one-shot overrides that
//! fall back after each identifier, and a ChaCha20 random source.
use vstd::prelude::*;
use vstd::pervasive::arbitrary;
use chrono::Utc;
use rand::RngCore;
use rand::SeedableRng;
use rand_chacha::ChaCha20Rng;
use crate::layout::{
    device_id_of, pack, prefix_of, random_of, timestamp_of, version_of, DEVICE_ID_SHIFT,
    PREFIX_SHIFT, RANDOM_MASK, TIMESTAMP_MASK, TIMESTAMP_SHIFT, VERSION_CODE,
    VERSION_CODE_SHIFT, lemma_pack_fields,
};
use crate::prefix::UNCATEGORIZED_DATA;
use crate::ruid::Ruid;

verus! {

#[verifier::external_type_specification]
#[verifier::external_body]
pub struct ExChaCha20Rng(ChaCha20Rng);

/// The word that the `n`-th call (counting from 0) of `RngCore::next_u64`
/// returns on a `ChaCha20Rng` made by `SeedableRng::from_seed(seed)`, when no
/// other method has drawn from it: words `2n` and `2n + 1` of the seed's
/// ChaCha20 stream, the first in the low half.
pub uninterp spec fn chacha20_u64(seed: Seq<u8>, n: nat) -> u64;

/// A ChaCha20 generator, with the seed it was made from and the number of
/// words drawn from it since. Only the trusted items below build or draw from
/// one, and each keeps the two ghost fields true of `rng`.
struct RandomSource {
    rng: ChaCha20Rng,
    seed: Ghost<Seq<u8>>,
    draws: Ghost<nat>,
}

impl RandomSource {
    closed spec fn seed(&self) -> Seq<u8> {
        self.seed@
    }

    closed spec fn draws(&self) -> nat {
        self.draws@
    }
}

/// Relies on `SeedableRng::from_entropy` of rand_core for `ChaCha20Rng`: it
/// draws a 32-byte seed from the operating system and calls `from_seed` with
/// it (it panics where no entropy can be had).
#[verifier::external_body]
fn entropy_source() -> (r: RandomSource)
    ensures
        r.seed().len() == 32,
        r.draws() == 0,
{
    RandomSource { rng: ChaCha20Rng::from_entropy(), seed: Ghost(arbitrary()), draws: Ghost(0) }
}

/// Relies on `SeedableRng::from_seed` for `ChaCha20Rng`: a generator whose
/// stream is fixed by the seed, nothing drawn yet.
#[verifier::external_body]
fn seeded_source(seed: [u8; 32]) -> (r: RandomSource)
    ensures
        r.seed() == seed@,
        r.draws() == 0,
{
    RandomSource { rng: ChaCha20Rng::from_seed(seed), seed: Ghost(seed@), draws: Ghost(0) }
}

/// Relies on `RngCore::next_u64` for `ChaCha20Rng`: the next 64 bits of its
/// stream.
#[verifier::external_body]
fn next_random(src: &mut RandomSource) -> (r: u64)
    ensures
        r == chacha20_u64(old(src).seed(), old(src).draws()),
        final(src).seed() == old(src).seed(),
        final(src).draws() == old(src).draws() + 1,
{
    let r = src.rng.next_u64();
    src.draws = Ghost(src.draws@ + 1);
    r
}

/// Relies on chrono's `Utc::now` and `DateTime::timestamp_micros`: the wall
/// clock in microseconds since the Unix epoch (`Utc::now` panics on a clock
/// set before the epoch).
#[verifier::external_body]
fn now_micros() -> (r: i64) {
    Utc::now().timestamp_micros()
}

/// What a generator holds: its settings, and the seed of its random source
/// with the number of words drawn from it.
pub struct GeneratorState {
    /// The device id that `device_id` falls back to.
    pub default_device_id: u16,
    /// The prefix of the next identifier.
    pub prefix: u16,
    /// The device id of the next identifier.
    pub device_id: u16,
    /// The seed of the random source.
    pub seed: Seq<u8>,
    /// The number of words drawn from the random source since it was seeded.
    pub draws: nat,
}

/// The state after an identifier was produced from `g` without a draw: both
/// one-shot fields fall back to their defaults.
pub open spec fn reset(g: GeneratorState) -> GeneratorState {
    GeneratorState { prefix: UNCATEGORIZED_DATA, device_id: g.default_device_id, ..g }
}

/// The state after one word was drawn from the random source.
pub open spec fn drawn(g: GeneratorState) -> GeneratorState {
    GeneratorState { draws: g.draws + 1, ..g }
}

/// The state with the random source replaced by one made from `seed`.
pub open spec fn reseeded(g: GeneratorState, seed: Seq<u8>) -> GeneratorState {
    GeneratorState { seed, draws: 0, ..g }
}

/// The word that the random source of `g` gives next.
pub open spec fn next_word(g: GeneratorState) -> u64 {
    chacha20_u64(g.seed, g.draws)
}

/// The identifier that state `g` gives at `timestamp` with the random word
/// `random`.
pub open spec fn emitted(g: GeneratorState, timestamp: u64, random: u64) -> u128 {
    pack(g.prefix, g.device_id, timestamp, random)
}

pub struct RuidGenerator {
    default_device_id: u16,
    prefix: u16,
    device_id: u16,
    rng: RandomSource,
}

impl View for RuidGenerator {
    type V = GeneratorState;

    closed spec fn view(&self) -> GeneratorState {
        GeneratorState {
            default_device_id: self.default_device_id,
            prefix: self.prefix,
            device_id: self.device_id,
            seed: self.rng.seed(),
            draws: self.rng.draws(),
        }
    }
}

impl RuidGenerator {
    /// A generator seeded from the operating system, with the uncategorized
    /// prefix and device id 0.
    pub fn new() -> (r: Self)
        ensures
            r@.default_device_id == 0,
            r@.prefix == UNCATEGORIZED_DATA,
            r@.device_id == 0,
            r@.seed.len() == 32,
            r@.draws == 0,
    {
        RuidGenerator {
            default_device_id: 0x0000,
            prefix: UNCATEGORIZED_DATA,
            device_id: 0x0000,
            rng: entropy_source(),
        }
    }

    /// Replaces the random source by one derived from `seed`; the settings
    /// stay.
    pub fn set_seed(self, seed: [u8; 32]) -> (r: Self)
        ensures
            r@ == reseeded(self@, seed@),
    {
        let mut g = self;
        g.rng = seeded_source(seed);
        g
    }

    pub fn set_default_device_id(self, device_id: u16) -> (r: Self)
        ensures
            r@ == (GeneratorState { default_device_id: device_id, ..self@ }),
    {
        let mut g = self;
        g.default_device_id = device_id;
        g
    }

    /// Sets the prefix of the next identifier only.
    pub fn set_prefix(self, prefix: u16) -> (r: Self)
        ensures
            r@ == (GeneratorState { prefix, ..self@ }),
    {
        let mut g = self;
        g.prefix = prefix;
        g
    }

    /// Sets the device id of the next identifier only.
    pub fn set_device_id(self, device_id: u16) -> (r: Self)
        ensures
            r@ == (GeneratorState { device_id, ..self@ }),
    {
        let mut g = self;
        g.device_id = device_id;
        g
    }

    /// An identifier stamped with the current time and fresh random bits;
    /// the one-shot settings fall back to their defaults.
    pub fn generate(&mut self) -> (r: Ruid)
        ensures
            r@ == emitted(old(self)@, timestamp_of(r@), next_word(old(self)@)),
            random_of(r@) == next_word(old(self)@) & RANDOM_MASK,
            final(self)@ == reset(drawn(old(self)@)),
    {
        let now = now_micros();
        let timestamp = #[verifier::truncate] (now as u64);
        let r = self.generate_at(timestamp);
        proof {
            let g = old(self)@;
            let (p, d, t, x) = (g.prefix, g.device_id, timestamp, next_word(g));
            lemma_pack_fields(p, d, t, x);
            assert(pack(p, d, t, x) == pack(p, d, t & 0xFFFF_FFFF_FFFFu64, x)) by (bit_vector);
        }
        r
    }

    /// An identifier stamped with `timestamp` and fresh random bits; the
    /// one-shot settings fall back to their defaults.
    pub fn generate_at(&mut self, timestamp: u64) -> (r: Ruid)
        ensures
            r@ == emitted(old(self)@, timestamp, next_word(old(self)@)),
            random_of(r@) == next_word(old(self)@) & RANDOM_MASK,
            final(self)@ == reset(drawn(old(self)@)),
    {
        let random = next_random(&mut self.rng);
        let r = self.generate_with(timestamp, random);
        proof {
            lemma_pack_fields(old(self)@.prefix, old(self)@.device_id, timestamp, random);
        }
        r
    }

    /// The identifier that the current settings give at `timestamp` with the
    /// random word `random`; the one-shot settings fall back to their
    /// defaults.
    pub fn generate_with(&mut self, timestamp: u64, random: u64) -> (r: Ruid)
        ensures
            r@ == emitted(old(self)@, timestamp, random),
            final(self)@ == reset(old(self)@),
    {
        let id = Self::generator(self.prefix, self.device_id, timestamp, random);
        self.prefix = UNCATEGORIZED_DATA;
        self.device_id = self.default_device_id;
        Ruid::from_u128(id)
    }

    /// Packs the fields, the timestamp cut to 48 bits and the random word to
    /// 44, with the current layout version.
    pub fn generator(prefix: u16, device_id: u16, timestamp: u64, random: u64) -> (r: u128)
        ensures
            r == pack(prefix, device_id, timestamp, random),
    {
        (prefix as u128) << PREFIX_SHIFT | (VERSION_CODE as u128) << VERSION_CODE_SHIFT
            | (device_id as u128) << DEVICE_ID_SHIFT
            | ((timestamp & TIMESTAMP_MASK) as u128) << TIMESTAMP_SHIFT
            | ((random & RANDOM_MASK) as u128)
    }
}

/// Seeding discards the earlier random source: two generators with the same
/// settings, seeded alike, are in the same state whatever they drew before,
/// and at the same timestamp give the same identifier, whose random field is
/// the seed's first word, and the same next state.
pub proof fn lemma_seeding_deterministic(
    a: GeneratorState,
    b: GeneratorState,
    seed: Seq<u8>,
    timestamp: u64,
)
    requires
        a.default_device_id == b.default_device_id,
        a.prefix == b.prefix,
        a.device_id == b.device_id,
    ensures
        reseeded(a, seed) == reseeded(b, seed),
        emitted(reseeded(a, seed), timestamp, next_word(reseeded(a, seed))) == emitted(
            reseeded(b, seed),
            timestamp,
            next_word(reseeded(b, seed)),
        ),
        random_of(emitted(reseeded(a, seed), timestamp, next_word(reseeded(a, seed))))
            == chacha20_u64(seed, 0) & RANDOM_MASK,
        reset(drawn(reseeded(a, seed))) == reset(drawn(reseeded(b, seed))),
{
    let g = reseeded(a, seed);
    lemma_pack_fields(g.prefix, g.device_id, timestamp, chacha20_u64(seed, 0));
}

/// One-shot overrides serve one identifier: after an identifier made with a
/// custom prefix and device id, the next carries the uncategorized prefix
/// and the default device id.
pub proof fn lemma_one_shot_reset(
    g: GeneratorState,
    prefix: u16,
    device_id: u16,
    timestamp: u64,
    random: u64,
    next_timestamp: u64,
    next_random: u64,
)
    ensures
        ({
            let used = GeneratorState { prefix, device_id, ..g };
            let first = emitted(used, timestamp, random);
            let second = emitted(reset(used), next_timestamp, next_random);
            &&& prefix_of(first) == prefix
            &&& device_id_of(first) == device_id
            &&& prefix_of(second) == UNCATEGORIZED_DATA
            &&& device_id_of(second) == g.default_device_id
            &&& version_of(second) == VERSION_CODE
        }),
{
    lemma_pack_fields(prefix, device_id, timestamp, random);
    lemma_pack_fields(UNCATEGORIZED_DATA, g.default_device_id, next_timestamp, next_random);
}

} // verus!
