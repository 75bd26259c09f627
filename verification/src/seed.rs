use vstd::prelude::*;

use crate::models::ChainEnv;

verus! {

// The seed chain derives one deterministic 64-bit seed from the raffle's
// whole purchase history, and the draw stream expands a seed into a
// deterministic sequence of 64-bit values. Determinism is a correctness
// requirement here, not an optimization: independent replicas replay the same
// history and must agree bit for bit on the winner, so every input mixed in
// below is replay-stable (identities, block time, block height, transaction
// ordinal) and every step is a pure function.

/// Multiplier of the byte mixer (the 64-bit FNV-1a prime).
pub const SEED_PRIME: u64 = 0x100000001b3;

/// Starting state of the byte mixer (the 64-bit FNV-1a offset basis).
pub const SEED_BASIS: u64 = 0xcbf29ce484222325;

/// Domain tag mixed in ahead of a text input.
pub const TAG_TEXT: u64 = 1;

/// Domain tag mixed in ahead of a numeric input.
pub const TAG_NUMBER: u64 = 2;

/// One mixer round: fold one byte into the running state.
pub open spec fn absorb_byte(h: u64, b: u8) -> u64 {
    vstd::wrapping::u64_specs::wrapping_mul(h ^ (b as u64), SEED_PRIME)
}

/// Fold a byte string into the state, left to right.
pub open spec fn absorb_bytes(h: u64, s: Seq<u8>) -> u64
    decreases s.len(),
{
    if s.len() == 0 {
        h
    } else {
        absorb_byte(absorb_bytes(h, s.drop_last()), s.last())
    }
}

/// Fold all eight bytes of a word into the state, least significant first.
pub open spec fn absorb_word(h: u64, x: u64) -> u64 {
    let h0 = absorb_byte(h, ((x >> 0u64) & 0xff) as u8);
    let h1 = absorb_byte(h0, ((x >> 8u64) & 0xff) as u8);
    let h2 = absorb_byte(h1, ((x >> 16u64) & 0xff) as u8);
    let h3 = absorb_byte(h2, ((x >> 24u64) & 0xff) as u8);
    let h4 = absorb_byte(h3, ((x >> 32u64) & 0xff) as u8);
    let h5 = absorb_byte(h4, ((x >> 40u64) & 0xff) as u8);
    let h6 = absorb_byte(h5, ((x >> 48u64) & 0xff) as u8);
    absorb_byte(h6, ((x >> 56u64) & 0xff) as u8)
}

/// The byte encoding a text input is mixed by: its UTF-8 bytes.
pub open spec fn text_bytes(s: Seq<char>) -> Seq<u8> {
    vstd::utf8::encode_utf8(s)
}

/// Mix in one text input. The tag and the length prefix keep the mix
/// order-sensitive: no reordering or regrouping of inputs reaches the same
/// state through the same bytes.
pub open spec fn absorb_text(h: u64, s: Seq<char>) -> u64 {
    absorb_bytes(absorb_word(absorb_word(h, TAG_TEXT), text_bytes(s).len() as u64), text_bytes(s))
}

/// Mix in one numeric input.
pub open spec fn absorb_number(h: u64, x: u64) -> u64 {
    absorb_word(absorb_word(h, TAG_NUMBER), x)
}

/// The seed a raffle starts with: creator identity and creation-time entropy.
pub open spec fn initial_seed(creator: Seq<char>, time_nanos: u64, height: u64, tx: u64) -> u64 {
    absorb_number(
        absorb_number(absorb_number(absorb_text(SEED_BASIS, creator), time_nanos), height),
        tx,
    )
}

/// The seed after one purchase: the previous seed chained with the buyer's
/// message (empty when none was given), the buyer identity, and the
/// transaction-level entropy of the purchase.
pub open spec fn purchase_seed(
    prev: u64,
    message: Seq<char>,
    buyer: Seq<char>,
    time_nanos: u64,
    height: u64,
    tx: u64,
) -> u64 {
    absorb_number(
        absorb_number(
            absorb_number(
                absorb_text(absorb_text(absorb_number(SEED_BASIS, prev), message), buyer),
                time_nanos,
            ),
            height,
        ),
        tx,
    )
}

/// The state the draw stream is reseeded from at draw time: the chained seed
/// plus the drawing transaction's own entropy.
pub open spec fn draw_seed(
    seed: u64,
    caller: Seq<char>,
    time_nanos: u64,
    height: u64,
    tx: u64,
) -> u64 {
    absorb_number(
        absorb_number(
            absorb_number(absorb_text(absorb_number(SEED_BASIS, seed), caller), time_nanos),
            height,
        ),
        tx,
    )
}

/// Increment of the draw stream's state between values.
pub const STREAM_STEP: u64 = 0x9e3779b97f4a7c15;

/// First multiplier of the draw stream's output scrambler.
pub const STREAM_MIX_A: u64 = 0xbf58476d1ce4e5b9;

/// Second multiplier of the draw stream's output scrambler.
pub const STREAM_MIX_B: u64 = 0x94d049bb133111eb;

/// The stream's internal state after `n` steps from `seed`.
pub open spec fn stream_state(seed: u64, n: nat) -> u64
    decreases n,
{
    if n == 0 {
        seed
    } else {
        vstd::wrapping::u64_specs::wrapping_add(
            stream_state(seed, (n - 1) as nat),
            STREAM_STEP,
        )
    }
}

/// The output scrambler applied to a stream state.
pub open spec fn scramble(z0: u64) -> u64 {
    let z1 = vstd::wrapping::u64_specs::wrapping_mul(z0 ^ (z0 >> 30u64), STREAM_MIX_A);
    let z2 = vstd::wrapping::u64_specs::wrapping_mul(z1 ^ (z1 >> 27u64), STREAM_MIX_B);
    z2 ^ (z2 >> 31u64)
}

/// The `n`-th value (counting from zero) of the stream seeded with `seed`.
/// Identical seeds give identical streams on every replica.
pub open spec fn stream_value(seed: u64, n: nat) -> u64 {
    scramble(stream_state(seed, n + 1))
}

/// Extract the low byte of a word.
fn low_byte(x: u64) -> (r: u8)
    ensures
        r == (x & 0xff) as u8,
{
    proof {
        assert(x & 0xff < 256) by (bit_vector);
    }
    (x & 0xff) as u8
}

/// One executable mixer round.
fn push_byte(h: u64, b: u8) -> (r: u64)
    ensures
        r == absorb_byte(h, b),
{
    (h ^ (b as u64)).wrapping_mul(SEED_PRIME)
}

/// Fold a byte slice into the state, left to right.
fn push_bytes(h: u64, s: &[u8]) -> (r: u64)
    ensures
        r == absorb_bytes(h, s@),
{
    let mut acc = h;
    let n = s.len();
    for i in 0..n
        invariant
            n == s@.len(),
            acc == absorb_bytes(h, s@.take(i as int)),
    {
        acc = push_byte(acc, s[i]);
        proof {
            assert(s@.take(i + 1).drop_last() =~= s@.take(i as int));
            assert(s@.take(i + 1).last() == s@[i as int]);
        }
    }
    proof {
        assert(s@.take(n as int) =~= s@);
    }
    acc
}

/// Fold all eight bytes of a word into the state, least significant first.
fn push_word(h: u64, x: u64) -> (r: u64)
    ensures
        r == absorb_word(h, x),
{
    let h0 = push_byte(h, low_byte(x >> 0u64));
    let h1 = push_byte(h0, low_byte(x >> 8u64));
    let h2 = push_byte(h1, low_byte(x >> 16u64));
    let h3 = push_byte(h2, low_byte(x >> 24u64));
    let h4 = push_byte(h3, low_byte(x >> 32u64));
    let h5 = push_byte(h4, low_byte(x >> 40u64));
    let h6 = push_byte(h5, low_byte(x >> 48u64));
    push_byte(h6, low_byte(x >> 56u64))
}

/// Mix in one text input.
fn push_text(h: u64, s: &str) -> (r: u64)
    ensures
        r == absorb_text(h, s@),
{
    let bytes = s.as_bytes();
    let tagged = push_word(push_word(h, TAG_TEXT), bytes.len() as u64);
    push_bytes(tagged, bytes)
}

/// Mix in one numeric input.
fn push_number(h: u64, x: u64) -> (r: u64)
    ensures
        r == absorb_number(h, x),
{
    push_word(push_word(h, TAG_NUMBER), x)
}

/// The seed a raffle starts with, from the creator identity and the entropy
/// of the creating transaction.
pub fn seed_for_creation(creator: &str, env: &ChainEnv) -> (r: u64)
    ensures
        r == initial_seed(creator@, env.time_nanos, env.height, env.tx_ordinal_spec()),
{
    let h = push_text(SEED_BASIS, creator);
    let h = push_number(h, env.time_nanos);
    let h = push_number(h, env.height);
    push_number(h, env.tx_ordinal())
}

/// The seed after one purchase, chaining the previous seed with the purchase
/// transaction's replay-stable entropy.
pub fn seed_for_purchase(prev: u64, message: &str, buyer: &str, env: &ChainEnv) -> (r: u64)
    ensures
        r == purchase_seed(prev, message@, buyer@, env.time_nanos, env.height, env.tx_ordinal_spec()),
{
    let h = push_number(SEED_BASIS, prev);
    let h = push_text(h, message);
    let h = push_text(h, buyer);
    let h = push_number(h, env.time_nanos);
    let h = push_number(h, env.height);
    push_number(h, env.tx_ordinal())
}

/// The draw stream's starting state at draw time.
pub fn seed_for_draw(seed: u64, caller: &str, env: &ChainEnv) -> (r: u64)
    ensures
        r == draw_seed(seed, caller@, env.time_nanos, env.height, env.tx_ordinal_spec()),
{
    let h = push_number(SEED_BASIS, seed);
    let h = push_text(h, caller);
    let h = push_number(h, env.time_nanos);
    let h = push_number(h, env.height);
    push_number(h, env.tx_ordinal())
}

/// A seeded deterministic 64-bit value stream. Reseeding with the same seed
/// always reproduces the same values, in the same order.
pub struct DrawStream {
    state: u64,
}

impl DrawStream {
    pub closed spec fn state_spec(&self) -> u64 {
        self.state
    }

    /// Start a stream at `seed`: the values to come are
    /// `stream_value(seed, 0)`, `stream_value(seed, 1)`, and so on.
    pub fn reseed(seed: u64) -> (r: DrawStream)
        ensures
            r.state_spec() == stream_state(seed, 0),
    {
        DrawStream { state: seed }
    }

    /// Produce the next value of the stream.
    pub fn next_value(&mut self) -> (r: u64)
        ensures
            final(self).state_spec() == vstd::wrapping::u64_specs::wrapping_add(
                old(self).state_spec(),
                STREAM_STEP,
            ),
            r == scramble(final(self).state_spec()),
    {
        let s = self.state.wrapping_add(STREAM_STEP);
        self.state = s;
        let z1 = (s ^ (s >> 30u64)).wrapping_mul(STREAM_MIX_A);
        let z2 = (z1 ^ (z1 >> 27u64)).wrapping_mul(STREAM_MIX_B);
        z2 ^ (z2 >> 31u64)
    }
}

/// Advancing the state once more is one more step of the stream: callers
/// drawing in a loop keep `state == stream_state(seed, drawn)` with this.
pub proof fn lemma_stream_step(seed: u64, n: nat)
    ensures
        stream_state(seed, n + 1) == vstd::wrapping::u64_specs::wrapping_add(
            stream_state(seed, n),
            STREAM_STEP,
        ),
{
}

} // verus!
