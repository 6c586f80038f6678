use vstd::prelude::*;
use crate::Bytes32;

verus! {

/// Multiplier of the linear-congruential generator that drives the shuffle.
pub const LCG_MULTIPLIER: u64 = 6364136223846793005;

/// One step of the linear-congruential generator, on 64 bits with wraparound.
pub open spec fn lcg_next(s: u64) -> u64 {
    s.wrapping_mul(LCG_MULTIPLIER).wrapping_add(1)
}

/// The 64-bit generator state read from the first eight bytes of a seed,
/// most significant byte first.
pub open spec fn rng_state_of(seed: Seq<u8>) -> u64
    recommends
        seed.len() >= 8,
{
    (seed[0] * 0x100000000000000 + seed[1] * 0x1000000000000 + seed[2] * 0x10000000000
        + seed[3] * 0x100000000 + seed[4] * 0x1000000 + seed[5] * 0x10000 + seed[6] * 0x100
        + seed[7]) as u64
}

/// A deck before shuffling: the cards 1 through 52 in order.
pub open spec fn initial_deck() -> Seq<u32> {
    Seq::new(52, |k: int| (k + 1) as u32)
}

/// The sequence with the entries at `i` and `j` exchanged.
pub open spec fn seq_swap(s: Seq<u32>, i: int, j: int) -> Seq<u32>
    recommends
        0 <= i < s.len(),
        0 <= j < s.len(),
{
    s.update(i, s[j]).update(j, s[i])
}

/// The deck and generator state after the Fisher-Yates steps at positions
/// `i`, `i - 1`, ..., 1 have run.
pub open spec fn shuffled(deck: Seq<u32>, state: u64, i: int) -> (Seq<u32>, u64)
    decreases i,
{
    if i <= 0 {
        (deck, state)
    } else {
        let s2 = lcg_next(state);
        let j = s2 % ((i + 1) as u64);
        shuffled(seq_swap(deck, i, j as int), s2, i - 1)
    }
}

/// The five community cards that a final seed determines: the first five
/// cards of a 52-card deck shuffled by the seeded generator.
pub open spec fn board_of_seed(seed: Seq<u8>) -> Seq<u32>
    recommends
        seed.len() >= 8,
{
    shuffled(initial_deck(), rng_state_of(seed), 51).0.subrange(0, 5)
}

/// Reads the generator state out of the first eight bytes of a seed.
pub fn rng_state_from_seed(seed: &Bytes32) -> (r: u64)
    ensures
        r == rng_state_of(seed@),
{
    (seed[0] as u64) * 0x100000000000000 + (seed[1] as u64) * 0x1000000000000
        + (seed[2] as u64) * 0x10000000000 + (seed[3] as u64) * 0x100000000
        + (seed[4] as u64) * 0x1000000 + (seed[5] as u64) * 0x10000 + (seed[6] as u64) * 0x100
        + (seed[7] as u64)
}

/// Derives the five board cards from a final seed: a Fisher-Yates shuffle of
/// the 52-card deck, driven by the seeded linear-congruential generator.
pub fn derive_board_cards(seed: &Bytes32) -> (r: Vec<u32>)
    ensures
        r@ == board_of_seed(seed@),
        r@.len() == 5,
{
    let mut deck: Vec<u32> = Vec::new();
    let mut k: usize = 0;
    while k < 52
        invariant
            k <= 52,
            deck@.len() == k,
            forall|m: int| 0 <= m < k ==> deck@[m] == m + 1,
        decreases 52 - k,
    {
        deck.push((k as u32) + 1);
        k += 1;
    }
    proof {
        assert(deck@ =~= initial_deck());
    }

    let mut state: u64 = rng_state_from_seed(seed);
    let ghost target = shuffled(initial_deck(), state, 51);
    let mut i: usize = 51;
    while i >= 1
        invariant
            i <= 51,
            deck@.len() == 52,
            shuffled(deck@, state, i as int) == target,
        decreases i,
    {
        let s2 = state.wrapping_mul(LCG_MULTIPLIER).wrapping_add(1);
        let j = (s2 % (i as u64 + 1)) as usize;
        assert(j <= i);
        let card_i = deck[i];
        let card_j = deck[j];
        let ghost pre = deck@;
        deck[i] = card_j;
        deck[j] = card_i;
        proof {
            assert(deck@ == seq_swap(pre, i as int, j as int));
            assert(shuffled(pre, state, i as int) == shuffled(deck@, s2, i as int - 1));
        }
        state = s2;
        i -= 1;
    }
    assert(deck@ == target.0);

    let mut board: Vec<u32> = Vec::new();
    let mut b: usize = 0;
    while b < 5
        invariant
            b <= 5,
            deck@.len() == 52,
            deck@ == target.0,
            board@ == deck@.subrange(0, b as int),
        decreases 5 - b,
    {
        board.push(deck[b]);
        proof {
            assert(board@ =~= deck@.subrange(0, b + 1));
        }
        b += 1;
    }
    board
}

} // verus!
