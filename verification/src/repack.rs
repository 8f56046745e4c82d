use vstd::prelude::*;

use crate::layout::has_center_bin;
use crate::layout::pair_count;
use crate::layout::spectrum_len;

verus! {

/// The length of the shortest of three sequences.
pub open spec fn min3(a: nat, b: nat, c: nat) -> nat {
    if a <= b && a <= c {
        a
    } else if b <= c {
        b
    } else {
        c
    }
}

/// Zips three vectors positionally, stopping at the shortest.
pub fn zip3<A: Copy, B: Copy, C: Copy>(a: &Vec<A>, b: &Vec<B>, c: &Vec<C>) -> (r: Vec<(A, B, C)>)
    ensures
        r@.len() == min3(a@.len(), b@.len(), c@.len()),
        forall|i: int| 0 <= i < r@.len() ==> r@[i] == (a@[i], b@[i], c@[i]),
{
    let mut n: usize = a.len();
    if b.len() < n {
        n = b.len();
    }
    if c.len() < n {
        n = c.len();
    }
    let mut r: Vec<(A, B, C)> = Vec::new();
    let mut i: usize = 0;
    while i < n
        invariant
            n == min3(a@.len(), b@.len(), c@.len()),
            i <= n,
            r@.len() == i,
            forall|j: int| 0 <= j < i ==> r@[j] == (a@[j], b@[j], c@[j]),
        decreases n - i,
    {
        r.push((a[i], b[i], c[i]));
        i += 1;
    }
    r
}

/// Applies `f` to every entry, keeping order and length.
pub fn map_buffer<A: Copy, B, F: Fn(A) -> B>(v: &Vec<A>, f: F) -> (r: Vec<B>)
    requires
        forall|i: int| 0 <= i < v@.len() ==> call_requires(f, (#[trigger] v@[i],)),
    ensures
        r@.len() == v@.len(),
        forall|i: int| 0 <= i < v@.len() ==> call_ensures(f, (v@[i],), #[trigger] r@[i]),
{
    let mut r: Vec<B> = Vec::new();
    let mut i: usize = 0;
    while i < v.len()
        invariant
            forall|j: int| 0 <= j < v@.len() ==> call_requires(f, (#[trigger] v@[j],)),
            i <= v@.len(),
            r@.len() == i,
            forall|j: int| 0 <= j < i ==> call_ensures(f, (v@[j],), #[trigger] r@[j]),
        decreases v@.len() - i,
    {
        r.push(f(v[i]));
        i += 1;
    }
    r
}

/// Packs consecutive entry pairs into single values: entry `i` of the
/// result is built by `f` from entries `2*i` and `2*i + 1` of the input.
/// This is the copying replacement for viewing a real buffer of even length
/// as a complex buffer of half the length.
pub fn pack_pairs<T: Copy, C, F: Fn(T, T) -> C>(v: &Vec<T>, f: F) -> (r: Vec<C>)
    requires
        v@.len() % 2 == 0,
        forall|i: int| 0 <= i < v@.len() / 2 ==> call_requires(f, (#[trigger] v@[2 * i], v@[2 * i + 1])),
    ensures
        r@.len() == v@.len() / 2,
        forall|i: int| 0 <= i < v@.len() / 2 ==> call_ensures(f, (v@[2 * i], v@[2 * i + 1]), #[trigger] r@[i]),
{
    let mut r: Vec<C> = Vec::new();
    let mut i: usize = 0;
    let len: usize = v.len();
    let half: usize = len / 2;
    while i < half
        invariant
            v@.len() % 2 == 0,
            v@.len() <= usize::MAX,
            half == v@.len() / 2,
            forall|j: int| 0 <= j < v@.len() / 2 ==> call_requires(f, (#[trigger] v@[2 * j], v@[2 * j + 1])),
            i <= half,
            r@.len() == i,
            forall|j: int| 0 <= j < i ==> call_ensures(f, (v@[2 * j], v@[2 * j + 1]), #[trigger] r@[j]),
        decreases half - i,
    {
        let x = v[2 * i];
        let y = v[2 * i + 1];
        r.push(f(x, y));
        i += 1;
    }
    r
}

/// Splits every entry in two: entries `2*i` and `2*i + 1` of the result are
/// built by `f` from entry `i` of the input.  The copying replacement for
/// viewing a complex buffer as a real buffer of twice the length.
pub fn unpack_pairs<C: Copy, T, F: Fn(C) -> (T, T)>(v: &Vec<C>, f: F) -> (r: Vec<T>)
    requires
        forall|i: int| 0 <= i < v@.len() ==> call_requires(f, (#[trigger] v@[i],)),
    ensures
        r@.len() == 2 * v@.len(),
        forall|i: int| 0 <= i < v@.len() ==> call_ensures(f, (#[trigger] v@[i],), (r@[2 * i], r@[2 * i + 1])),
{
    let mut r: Vec<T> = Vec::new();
    let mut i: usize = 0;
    while i < v.len()
        invariant
            forall|j: int| 0 <= j < v@.len() ==> call_requires(f, (#[trigger] v@[j],)),
            i <= v@.len(),
            r@.len() == 2 * i,
            forall|j: int| 0 <= j < i ==> call_ensures(f, (#[trigger] v@[j],), (r@[2 * j], r@[2 * j + 1])),
        decreases v@.len() - i,
    {
        let (x, y) = f(v[i]);
        r.push(x);
        r.push(y);
        i += 1;
    }
    r
}

/// Builds the phase-correction table of an even-length transform: entry `i`
/// of the result is `f(i + 1)`.  The identity entry at index zero is
/// skipped, so the table holds `count - 1` factors.
pub fn build_twiddle_table<C, F: Fn(usize) -> C>(count: usize, f: F) -> (r: Vec<C>)
    requires
        count >= 1,
        forall|i: usize| 1 <= i < count ==> call_requires(f, (i,)),
    ensures
        r@.len() == count - 1,
        forall|i: int| 0 <= i < count - 1 ==> call_ensures(f, ((i + 1) as usize,), #[trigger] r@[i]),
{
    let mut r: Vec<C> = Vec::new();
    let mut i: usize = 1;
    while i < count
        invariant
            count >= 1,
            forall|j: usize| 1 <= j < count ==> call_requires(f, (j,)),
            1 <= i <= count,
            r@.len() == i - 1,
            forall|j: int| 0 <= j < i - 1 ==> call_ensures(f, ((j + 1) as usize,), #[trigger] r@[j]),
        decreases count - i,
    {
        r.push(f(i));
        i += 1;
    }
    r
}

/// Copies the first `n` entries: the truncation that drops the redundant
/// upper half of a full spectrum.
pub fn spectrum_prefix<C: Copy>(v: &Vec<C>, n: usize) -> (r: Vec<C>)
    requires
        n <= v@.len(),
    ensures
        r@ == v@.subrange(0, n as int),
{
    let mut r: Vec<C> = Vec::new();
    let mut i: usize = 0;
    while i < n
        invariant
            n <= v@.len(),
            i <= n,
            r@ =~= v@.subrange(0, i as int),
        decreases n - i,
    {
        r.push(v[i]);
        i += 1;
    }
    proof {
        assert(r@ =~= v@.subrange(0, n as int));
    }
    r
}

/// Rebuilds the full conjugate-symmetric spectrum of an odd-length real
/// signal from its half-spectrum: the lower `length/2 + 1` bins are copied
/// unchanged, and each upper bin `i` is `conj` applied to bin `length - i`.
pub fn extend_hermitian<C: Copy, F: Fn(C) -> C>(half: &Vec<C>, length: usize, conj: F) -> (full:
    Vec<C>)
    requires
        length % 2 == 1,
        half@.len() == spectrum_len(length as nat),
        forall|i: int| 1 <= i < half@.len() ==> call_requires(conj, (#[trigger] half@[i],)),
    ensures
        full@.len() == length,
        forall|i: int| 0 <= i <= length / 2 ==> #[trigger] full@[i] == half@[i],
        forall|i: int|
            length / 2 < i < length ==> call_ensures(conj, (half@[length - i],), #[trigger] full@[i]),
{
    let mut full: Vec<C> = Vec::new();
    let mut i: usize = 0;
    while i < half.len()
        invariant
            half@.len() == spectrum_len(length as nat),
            i <= half@.len(),
            full@.len() == i,
            forall|j: int| 0 <= j < i ==> #[trigger] full@[j] == half@[j],
        decreases half@.len() - i,
    {
        full.push(half[i]);
        i += 1;
    }
    let mut i: usize = length / 2 + 1;
    while i < length
        invariant
            length % 2 == 1,
            half@.len() == spectrum_len(length as nat),
            forall|j: int| 1 <= j < half@.len() ==> call_requires(conj, (#[trigger] half@[j],)),
            length / 2 + 1 <= i <= length,
            full@.len() == i,
            forall|j: int| 0 <= j <= length / 2 ==> #[trigger] full@[j] == half@[j],
            forall|j: int|
                length / 2 < j < i ==> call_ensures(conj, (half@[length - j],), #[trigger] full@[j]),
        decreases length - i,
    {
        let c = conj(half[length - i]);
        full.push(c);
        i += 1;
    }
    full
}

/// Unfolds the raw output of the half-size forward transform into the true
/// half-spectrum of an even-length real signal, in place.  `edges` turns
/// the raw bin 0 into the two twiddle-free edge bins (written to the first
/// and last slot); `pair` combines each mirrored bin pair, walking inward
/// from both ends, with its phase-correction factor; `center` rewrites the
/// unpaired center bin when the buffer has one.  Every bin is written
/// exactly once.
#[verifier::loop_isolation(false)]
#[verifier::rlimit(60)]
pub fn unfold_spectrum<C: Copy, FE: Fn(C) -> (C, C), FP: Fn(C, C, C) -> (C, C), FC: Fn(C) -> C>(
    buf: &mut Vec<C>,
    twiddles: &Vec<C>,
    edges: FE,
    pair: FP,
    center: FC,
)
    requires
        old(buf)@.len() >= 2,
        twiddles@.len() == pair_count(old(buf)@.len()),
        call_requires(edges, (old(buf)@[0],)),
        forall|k: int|
            1 <= k <= twiddles@.len() ==> call_requires(
                pair,
                (#[trigger] old(buf)@[k], old(buf)@[old(buf)@.len() - 1 - k], twiddles@[k - 1]),
            ),
        has_center_bin(old(buf)@.len()) ==> call_requires(
            center,
            (old(buf)@[old(buf)@.len() as int / 2],),
        ),
    ensures
        final(buf)@.len() == old(buf)@.len(),
        call_ensures(edges, (old(buf)@[0],), (final(buf)@[0], final(buf)@[old(buf)@.len() - 1])),
        forall|k: int|
            1 <= k <= twiddles@.len() ==> call_ensures(
                pair,
                (#[trigger] old(buf)@[k], old(buf)@[old(buf)@.len() - 1 - k], twiddles@[k - 1]),
                (final(buf)@[k], final(buf)@[old(buf)@.len() - 1 - k]),
            ),
        has_center_bin(old(buf)@.len()) ==> call_ensures(
            center,
            (old(buf)@[old(buf)@.len() as int / 2],),
            final(buf)@[old(buf)@.len() as int / 2],
        ),
{
    let n: usize = buf.len();
    let first = buf[0];
    let (lo, hi) = edges(first);
    buf.set(0, lo);
    buf.set(n - 1, hi);
    let pairs: usize = twiddles.len();
    let mut k: usize = 1;
    while k <= pairs
        invariant
            1 <= k <= pairs + 1,
            buf@.len() == n,
            buf@[0] == lo,
            buf@[n - 1] == hi,
            forall|j: int|
                1 <= j < k ==> call_ensures(
                    pair,
                    (#[trigger] old(buf)@[j], old(buf)@[n - 1 - j], twiddles@[j - 1]),
                    (buf@[j], buf@[n - 1 - j]),
                ),
            forall|j: int|
                k <= j <= pairs ==> #[trigger] buf@[j] == old(buf)@[j] && buf@[n - 1 - j] == old(
                    buf,
                )@[n - 1 - j],
            has_center_bin(n as nat) ==> buf@[n as int / 2] == old(buf)@[n as int / 2],
        decreases pairs + 1 - k,
    {
        let a = buf[k];
        let b = buf[n - 1 - k];
        let t = twiddles[k - 1];
        let (x, y) = pair(a, b, t);
        buf.set(k, x);
        buf.set(n - 1 - k, y);
        k += 1;
    }
    if n % 2 == 1 {
        let mid = buf[n / 2];
        let c = center(mid);
        buf.set(n / 2, c);
    }
}

/// Folds the half-spectrum of an even-length real signal back into the
/// input of the half-size inverse transform, in place.  `edges` combines
/// the two twiddle-free edge bins into the new bin 0; the last bin is left
/// unchanged, since the inverse transform reads only the lower half of the
/// buffer.  `pair` combines each mirrored bin pair, walking inward from
/// both ends, with its phase-correction factor; `center` rewrites the
/// unpaired center bin when the buffer has one.
#[verifier::loop_isolation(false)]
#[verifier::rlimit(60)]
pub fn fold_spectrum<C: Copy, FE: Fn(C, C) -> C, FP: Fn(C, C, C) -> (C, C), FC: Fn(C) -> C>(
    buf: &mut Vec<C>,
    twiddles: &Vec<C>,
    edges: FE,
    pair: FP,
    center: FC,
)
    requires
        old(buf)@.len() >= 2,
        twiddles@.len() == pair_count(old(buf)@.len()),
        call_requires(edges, (old(buf)@[0], old(buf)@[old(buf)@.len() - 1])),
        forall|k: int|
            1 <= k <= twiddles@.len() ==> call_requires(
                pair,
                (#[trigger] old(buf)@[k], old(buf)@[old(buf)@.len() - 1 - k], twiddles@[k - 1]),
            ),
        has_center_bin(old(buf)@.len()) ==> call_requires(
            center,
            (old(buf)@[old(buf)@.len() as int / 2],),
        ),
    ensures
        final(buf)@.len() == old(buf)@.len(),
        call_ensures(
            edges,
            (old(buf)@[0], old(buf)@[old(buf)@.len() - 1]),
            final(buf)@[0],
        ),
        final(buf)@[old(buf)@.len() - 1] == old(buf)@[old(buf)@.len() - 1],
        forall|k: int|
            1 <= k <= twiddles@.len() ==> call_ensures(
                pair,
                (#[trigger] old(buf)@[k], old(buf)@[old(buf)@.len() - 1 - k], twiddles@[k - 1]),
                (final(buf)@[k], final(buf)@[old(buf)@.len() - 1 - k]),
            ),
        has_center_bin(old(buf)@.len()) ==> call_ensures(
            center,
            (old(buf)@[old(buf)@.len() as int / 2],),
            final(buf)@[old(buf)@.len() as int / 2],
        ),
{
    let n: usize = buf.len();
    let first = buf[0];
    let last = buf[n - 1];
    let folded = edges(first, last);
    buf.set(0, folded);
    let pairs: usize = twiddles.len();
    let mut k: usize = 1;
    while k <= pairs
        invariant
            1 <= k <= pairs + 1,
            buf@.len() == n,
            buf@[0] == folded,
            buf@[n - 1] == old(buf)@[n - 1],
            forall|j: int|
                1 <= j < k ==> call_ensures(
                    pair,
                    (#[trigger] old(buf)@[j], old(buf)@[n - 1 - j], twiddles@[j - 1]),
                    (buf@[j], buf@[n - 1 - j]),
                ),
            forall|j: int|
                k <= j <= pairs ==> #[trigger] buf@[j] == old(buf)@[j] && buf@[n - 1 - j] == old(
                    buf,
                )@[n - 1 - j],
            has_center_bin(n as nat) ==> buf@[n as int / 2] == old(buf)@[n as int / 2],
        decreases pairs + 1 - k,
    {
        let a = buf[k];
        let b = buf[n - 1 - k];
        let t = twiddles[k - 1];
        let (x, y) = pair(a, b, t);
        buf.set(k, x);
        buf.set(n - 1 - k, y);
        k += 1;
    }
    if n % 2 == 1 {
        let mid = buf[n / 2];
        let c = center(mid);
        buf.set(n / 2, c);
    }
}

} // verus!
