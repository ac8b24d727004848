//! The driver's laws: what holds of every pin byte and of every reachable
//! device state, stated over the same spec functions the operation contracts
//! use and proved here once for all inputs.

use vstd::prelude::*;

use crate::controller::frob_effect;
use crate::controller::frob_next;
use crate::controller::frob_result;
use crate::controller::read_pins_result;
use crate::controller::set_and_check_result;
use crate::controller::set_pins_effect;
use crate::device::is_verification_mismatch;
use crate::device::verification_mismatch_error;
use crate::device::write_result;
use crate::device::RelayError;
use crate::device::SimDevice;
use crate::pins::bit_set;
use crate::pins::lemma_mask_idempotent;
use crate::pins::mask_spec;
use crate::pins::N_CHANNELS;

verus! {

/// Frobbing is the one-round-trip read-modify-write: on a device whose read
/// succeeds, `frob_pins(clear, set)` drives the device exactly as
/// `set_and_check_pins` of `mask((read_pins() & !clear) | set)` would, for
/// every reachable current-pin state.
pub proof fn lemma_frob_equivalence(d: SimDevice, clear_mask: u8, set_mask: u8)
    requires
        !d.fail_read,
    ensures
        read_pins_result(d) == Ok::<u8, RelayError>(mask_spec(d.pins)),
        frob_effect(d, clear_mask, set_mask) == set_pins_effect(
            d,
            frob_next(mask_spec(d.pins), clear_mask, set_mask),
        ),
        frob_result(d, clear_mask, set_mask) == set_and_check_result(
            d,
            frob_next(mask_spec(d.pins), clear_mask, set_mask),
        ),
{
}

/// Per-channel reading of the frobbed byte: a channel named in the set-mask
/// ends up set even when the clear-mask also names it (set wins ties), one
/// named only in the clear-mask ends up cleared, one named in neither keeps
/// its state, and the reserved high bits come out clear.
pub proof fn lemma_frob_next_bits(current: u8, clear_mask: u8, set_mask: u8)
    by (bit_vector)
    ensures
        forall|i: u8|
            i < N_CHANNELS && bit_set(set_mask, i) ==> #[trigger] bit_set(
                frob_next(current, clear_mask, set_mask),
                i,
            ),
        forall|i: u8|
            i < N_CHANNELS && bit_set(clear_mask, i) && !bit_set(set_mask, i) ==> !(
            #[trigger] bit_set(frob_next(current, clear_mask, set_mask), i)),
        forall|i: u8|
            i < N_CHANNELS && !bit_set(clear_mask, i) && !bit_set(set_mask, i) ==> #[trigger] bit_set(
                frob_next(current, clear_mask, set_mask),
                i,
            ) == bit_set(current, i),
        forall|i: u8|
            N_CHANNELS <= i < 8 ==> !(#[trigger] bit_set(frob_next(current, clear_mask, set_mask), i)),
{
}

/// `set_and_check_pins` fails with a verification mismatch exactly when the
/// read-back differs from the masked requested value; it never reports
/// success while the observed state differs, and the mismatch it reports
/// carries the masked request and the observed byte.
pub proof fn lemma_verification_mismatch_iff(d: SimDevice, next: u8)
    ensures
        is_verification_mismatch(set_and_check_result(d, next)) <==> (!d.fail_write && !d.fail_read
            && mask_spec(set_pins_effect(d, next).pins) != mask_spec(next)),
        set_and_check_result(d, next) is Ok ==> mask_spec(set_pins_effect(d, next).pins)
            == mask_spec(next),
        is_verification_mismatch(set_and_check_result(d, next)) ==> set_and_check_result(d, next)
            == Err::<(), RelayError>(
            verification_mismatch_error(mask_spec(next), mask_spec(set_pins_effect(d, next).pins)),
        ),
{
}

/// Repetition has no side effect: running `set_and_check_pins(v)` twice in a
/// row with no other mutation between leaves the device exactly where the
/// first run left it, and both runs return the same outcome, so both observe
/// the same pins.
pub proof fn lemma_set_and_check_idempotent(d: SimDevice, v: u8)
    ensures
        set_pins_effect(set_pins_effect(d, v), v) == set_pins_effect(d, v),
        set_and_check_result(set_pins_effect(d, v), v) == set_and_check_result(d, v),
{
    lemma_mask_idempotent(v);
}

/// No operation leaks or sets bits outside the mask: every byte the
/// controller returns has the reserved high bits cleared, a write that lands
/// leaves a masked register behind, and the byte a frob transmits is masked.
pub proof fn lemma_no_bit_leaks(d: SimDevice, v: u8, clear_mask: u8, set_mask: u8)
    ensures
        read_pins_result(d) matches Ok(p) ==> mask_spec(p) == p,
        !d.fail_write && !d.drop_write ==> mask_spec(set_pins_effect(d, v).pins)
            == set_pins_effect(d, v).pins,
        mask_spec(frob_next(v, clear_mask, set_mask)) == frob_next(v, clear_mask, set_mask),
{
    lemma_mask_idempotent(d.pins);
    lemma_mask_idempotent(v);
    lemma_mask_idempotent((v & !clear_mask) | set_mask);
}

/// Round trip: on a non-faulty transport, `set_pins(v)` succeeds and a
/// following `read_pins()` observes exactly `mask(v)`, for every `v`; on the
/// same transport `set_and_check_pins(v)` succeeds.
pub proof fn lemma_set_then_read_round_trip(d: SimDevice, v: u8)
    requires
        !d.fail_write,
        !d.fail_read,
        !d.drop_write,
    ensures
        write_result(d) == Ok::<(), RelayError>(()),
        read_pins_result(set_pins_effect(d, v)) == Ok::<u8, RelayError>(mask_spec(v)),
        set_and_check_result(d, v) == Ok::<(), RelayError>(()),
{
    lemma_mask_idempotent(v);
}

} // verus!
