//! From the transform of a window to the spectrum that is kept.

use vstd::prelude::*;
use crate::copy::copy_of;

verus! {

/// The bins of a transform that make up the spectrum: the zero-frequency
/// bin is left out, and of those that follow as many are kept as half the
/// transform is long, which reaches the Nyquist frequency.
pub open spec fn retained<T>(transform: Seq<T>) -> Seq<T> {
    if transform.len() < 2 {
        Seq::empty()
    } else {
        transform.subrange(1, 1 + (transform.len() / 2) as int)
    }
}

/// Builds the spectrum buffer of one channel from the magnitudes of the
/// forward transform of its rolling window, one magnitude per output of
/// the transform and in its order.
pub fn fft_gen<T: Copy>(magnitudes: &Vec<T>) -> (spectrum: Vec<T>)
    ensures
        spectrum@ == retained(magnitudes@),
        spectrum@.len() == magnitudes@.len() / 2,
{
    let len: usize = magnitudes.len();
    let half: usize = len / 2;
    let mut spectrum: Vec<T> = Vec::new();
    if len < 2 {
        return spectrum;
    }
    let mut i: usize = 0;
    while i < half
        invariant
            i <= half,
            half == len / 2,
            len == magnitudes@.len(),
            len >= 2,
            spectrum@ == magnitudes@.subrange(1, 1 + i),
        decreases half - i,
    {
        spectrum.push(magnitudes[i + 1]);
        i += 1;
        assert(spectrum@ =~= magnitudes@.subrange(1, 1 + i));
    }
    spectrum
}

/// The spectrum has half the length of the transform whatever the
/// transform holds, and a transform that is the same everywhere (all zero,
/// say) gives a spectrum that is the same everywhere.
pub proof fn lemma_retained_shape<T>(transform: Seq<T>, z: T)
    ensures
        retained(transform).len() == transform.len() / 2,
        (forall|i: int| 0 <= i < transform.len() ==> transform[i] == z) ==> (forall|k: int|
            0 <= k < retained(transform).len() ==> retained(transform)[k] == z),
        forall|k: int|
            0 <= k < retained(transform).len() ==> retained(transform)[k] == transform[k + 1],
{
}

/// `spectrum` is what is kept of some output of `transform` on `window`.
pub open spec fn is_spectrum_of<T, F: Fn(Vec<T>) -> Vec<T>>(
    transform: F,
    window: Seq<T>,
    spectrum: Seq<T>,
) -> bool {
    exists|w: Vec<T>, m: Vec<T>|
        w@ == window && #[trigger] call_ensures(transform, (w,), m) && spectrum == retained(m@)
}

/// Builds the spectrum buffer of every window: `transform` gives the
/// magnitudes of the forward transform of a window, and of these the bins
/// after the zero-frequency bin are kept, half as many as it gave.
pub fn spectra_of<T: Copy, F: Fn(Vec<T>) -> Vec<T>>(windows: &Vec<Vec<T>>, transform: &F) -> (all:
    Vec<Vec<T>>)
    requires
        forall|w: Vec<T>| call_requires(*transform, (w,)),
    ensures
        all@.len() == windows@.len(),
        forall|i: int|
            0 <= i < windows@.len() ==> is_spectrum_of(
                *transform,
                windows@[i]@,
                (#[trigger] all@[i])@,
            ),
{
    let n: usize = windows.len();
    let mut all: Vec<Vec<T>> = Vec::new();
    let mut i: usize = 0;
    while i < n
        invariant
            i <= n,
            n == windows@.len(),
            all@.len() == i,
            forall|w: Vec<T>| call_requires(*transform, (w,)),
            forall|j: int|
                0 <= j < i ==> is_spectrum_of(*transform, windows@[j]@, (#[trigger] all@[j])@),
        decreases n - i,
    {
        let window: Vec<T> = copy_of(&windows[i]);
        let magnitudes: Vec<T> = transform(window);
        let spectrum: Vec<T> = fft_gen(&magnitudes);
        assert(is_spectrum_of(*transform, windows@[i as int]@, spectrum@)) by {
            assert(call_ensures(*transform, (window,), magnitudes));
        }
        all.push(spectrum);
        i += 1;
    }
    all
}

/// Under a transform that gives as many magnitudes as the window has
/// values, the spectrum is half as long as the window, whatever the window
/// holds.
pub proof fn lemma_spectrum_is_half<T, F: Fn(Vec<T>) -> Vec<T>>(
    transform: F,
    window: Seq<T>,
    spectrum: Seq<T>,
)
    requires
        is_spectrum_of(transform, window, spectrum),
        forall|w: Vec<T>, m: Vec<T>| call_ensures(transform, (w,), m) ==> m@.len() == w@.len(),
    ensures
        spectrum.len() == window.len() / 2,
{
}

/// Under a transform that gives only the magnitude `z` for a window that
/// holds only the value `x` (nothing but silence for silence), the
/// spectrum of such a window holds only `z`.
pub proof fn lemma_uniform_window<T, F: Fn(Vec<T>) -> Vec<T>>(
    transform: F,
    window: Seq<T>,
    spectrum: Seq<T>,
    x: T,
    z: T,
)
    requires
        is_spectrum_of(transform, window, spectrum),
        forall|i: int| 0 <= i < window.len() ==> window[i] == x,
        forall|w: Vec<T>, m: Vec<T>|
            call_ensures(transform, (w,), m) && (forall|i: int|
                0 <= i < w@.len() ==> w@[i] == x) ==> (forall|k: int|
                0 <= k < m@.len() ==> m@[k] == z),
    ensures
        forall|k: int| 0 <= k < spectrum.len() ==> spectrum[k] == z,
{
}

} // verus!
