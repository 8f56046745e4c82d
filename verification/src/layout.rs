use vstd::prelude::*;

verus! {

/// Number of independent complex bins in the spectrum of a real signal of
/// the given length: `length / 2 + 1`.
pub open spec fn spectrum_len(length: nat) -> nat {
    length / 2 + 1
}

/// How many mirrored bin pairs the fold and unfold passes touch in a
/// half-spectrum of `bins` bins: every bin except the two edge bins, taken
/// two at a time.
pub open spec fn pair_count(bins: nat) -> nat {
    if bins >= 2 {
        ((bins - 2) / 2) as nat
    } else {
        0
    }
}

/// Whether a half-spectrum of `bins` bins has an unpaired center bin, which
/// the fold and unfold passes treat separately.
pub open spec fn has_center_bin(bins: nat) -> bool {
    bins % 2 == 1
}

/// Number of phase-correction factors an even-length transform needs,
/// counting the implicit identity entry at index zero: `length / 4` when 4
/// divides `length`, else `length / 4 + 1`.
pub open spec fn twiddle_count(length: nat) -> nat {
    if length % 4 == 0 {
        length / 4
    } else {
        length / 4 + 1
    }
}

/// The size of the half-spectrum buffer for a real signal of the given
/// length.
pub fn spectrum_length(length: usize) -> (n: usize)
    ensures
        n == spectrum_len(length as nat),
{
    length / 2 + 1
}

/// How many phase-correction factors an even-length transform stores: one
/// per mirrored bin pair, none for the identity entry at index zero.
pub fn twiddle_table_len(length: usize) -> (n: usize)
    requires
        length % 2 == 0,
        length >= 2,
    ensures
        n + 1 == twiddle_count(length as nat),
        n == pair_count(spectrum_len(length as nat)),
{
    if length % 4 == 0 {
        length / 4 - 1
    } else {
        length / 4
    }
}

} // verus!
