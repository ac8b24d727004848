//! Pin-byte discipline: the channel mask and the folding of channel indices
//! into set/clear masks.

use vstd::prelude::*;

verus! {

/// Number of relay channels; each is driven by one of the low bits of the
/// pin byte.
pub const N_CHANNELS: u8 = 4;

/// Mask selecting the channel bits: the low `N_CHANNELS` bits of a pin byte.
/// The high bits are reserved and must always read back as zero.
pub const MASK: u8 = 0x0F;

/// The masked form of a raw byte: channel bits kept, reserved bits cleared.
pub open spec fn mask_spec(v: u8) -> u8 {
    v & MASK
}

/// Whether bit `i` of `v` is set.
pub open spec fn bit_set(v: u8, i: u8) -> bool {
    v & (1u8 << i) != 0
}

/// Applies the channel mask to a raw byte.
pub fn mask(v: u8) -> (r: u8)
    ensures
        r == mask_spec(v),
{
    v & MASK
}

/// Masking clears exactly the reserved high bits and leaves the channel
/// bits untouched.
pub proof fn lemma_mask_bits()
    by (bit_vector)
    ensures
        forall|v: u8, i: u8| i < N_CHANNELS ==> #[trigger] bit_set(mask_spec(v), i) == bit_set(v, i),
        forall|v: u8, i: u8| N_CHANNELS <= i < 8 ==> !(#[trigger] bit_set(mask_spec(v), i)),
{
}

/// Masking an already-masked byte changes nothing.
pub proof fn lemma_mask_idempotent(v: u8)
    by (bit_vector)
    ensures
        mask_spec(mask_spec(v)) == mask_spec(v),
{
}

/// The bitmask obtained by OR-ing `1 << c` over the channel indices, left to
/// right.
pub open spec fn fold_mask_spec(channels: Seq<u8>) -> u8
    decreases channels.len(),
{
    if channels.len() == 0 {
        0u8
    } else {
        fold_mask_spec(channels.drop_last()) | (1u8 << channels.last())
    }
}

/// Whether every channel index in the batch names a real channel.
pub open spec fn all_channels_valid(channels: Seq<u8>) -> bool {
    forall|i: int| 0 <= i < channels.len() ==> channels[i] < N_CHANNELS
}

/// Folds a batch of channel indices into one set- or clear-mask, rejecting
/// any index outside `[0, N_CHANNELS)` before it can reach a pin byte.
pub fn channel_mask(channels: &Vec<u8>) -> (r: Option<u8>)
    ensures
        r is Some <==> all_channels_valid(channels@),
        r matches Some(m) ==> m == fold_mask_spec(channels@),
{
    let mut acc: u8 = 0;
    let mut i: usize = 0;
    while i < channels.len()
        invariant
            i <= channels.len(),
            acc == fold_mask_spec(channels@.take(i as int)),
            forall|j: int| 0 <= j < i ==> channels@[j] < N_CHANNELS,
        decreases channels.len() - i,
    {
        let c = channels[i];
        if c >= N_CHANNELS {
            return None;
        }
        proof {
            assert(channels@.take(i + 1).drop_last() =~= channels@.take(i as int));
            assert(channels@.take(i + 1).last() == channels@[i as int]);
        }
        acc = acc | (1u8 << c);
        i = i + 1;
    }
    proof {
        assert(channels@.take(channels@.len() as int) =~= channels@);
    }
    Some(acc)
}

} // verus!
