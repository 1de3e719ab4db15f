//! Frequency bands and their share of the spectrum.
//!
//! Magnitudes are whole numbers of some fixed-point unit chosen by the
//! caller; the share of a band does not depend on the unit. Frequencies are
//! compared exactly: bin `k` of a spectrum (counted from 0) lies at
//! `(k + 1) * rate / len` Hz, where `rate` is the sampling rate and `len`
//! the length of the window, and every comparison is made after
//! multiplying through by `len`.

use vstd::prelude::*;
use crate::wave::{SAMPLING_RATE, WAVE_BUFF_LEN};

verus! {

/// Upper end of the displayed spectrum, in Hz.
pub const DISPLAY_CUTOFF_HZ: u32 = 60;

/// A range of frequencies, both ends included.
#[derive(Clone, Copy, Debug, PartialEq, Eq, Structural)]
pub struct FrequencyBand {
    pub start_hz: u32,
    pub end_hz: u32,
}

/// How a spectrum was made and how much of it counts.
#[derive(Clone, Copy, Debug, PartialEq, Eq, Structural)]
pub struct Analysis {
    /// Sampling rate in Hz.
    pub sampling_rate: u32,
    /// Length of the rolling window that was transformed.
    pub window_len: usize,
    /// Bins above this frequency count for nothing.
    pub cutoff_hz: u32,
}

impl Analysis {
    /// The analysis of the amplifier's stream as it is configured: its
    /// sampling rate, its window length and the display cutoff.
    pub fn standard() -> (cfg: Self)
        ensures
            cfg == (Analysis {
                sampling_rate: SAMPLING_RATE,
                window_len: WAVE_BUFF_LEN,
                cutoff_hz: DISPLAY_CUTOFF_HZ,
            }),
    {
        Analysis {
            sampling_rate: SAMPLING_RATE,
            window_len: WAVE_BUFF_LEN,
            cutoff_hz: DISPLAY_CUTOFF_HZ,
        }
    }
}

/// The theta band, 5 to 7 Hz.
pub fn theta() -> (band: FrequencyBand)
    ensures
        band == named_bands()[0],
{
    FrequencyBand { start_hz: 5, end_hz: 7 }
}

/// The alpha band, 8 to 12 Hz.
pub fn alpha() -> (band: FrequencyBand)
    ensures
        band == named_bands()[1],
{
    FrequencyBand { start_hz: 8, end_hz: 12 }
}

/// The beta band, 13 to 20 Hz.
pub fn beta() -> (band: FrequencyBand)
    ensures
        band == named_bands()[2],
{
    FrequencyBand { start_hz: 13, end_hz: 20 }
}

/// Frequency of bin `k` multiplied by the window length: bin `i`, counted
/// from 1, lies at `i * (rate / 2) / (len / 2)` Hz.
pub open spec fn scaled_frequency(k: int, cfg: Analysis) -> int {
    (k + 1) * cfg.sampling_rate
}

/// Bin `k` is at or below the cutoff.
pub open spec fn displayed(k: int, cfg: Analysis) -> bool {
    cfg.window_len > 0 && scaled_frequency(k, cfg) <= cfg.cutoff_hz * cfg.window_len
}

/// Bin `k` lies in `band`, ends included, and at or below the cutoff.
pub open spec fn in_band(k: int, band: FrequencyBand, cfg: Analysis) -> bool {
    &&& displayed(k, cfg)
    &&& band.start_hz * cfg.window_len <= scaled_frequency(k, cfg)
    &&& scaled_frequency(k, cfg) <= band.end_hz * cfg.window_len
}

/// Sum of the magnitudes of the first `n` bins that are displayed.
pub open spec fn total_sum(spectrum: Seq<u32>, cfg: Analysis, n: int) -> int
    decreases n,
{
    if n <= 0 {
        0
    } else {
        total_sum(spectrum, cfg, n - 1) + if displayed(n - 1, cfg) {
            spectrum[n - 1] as int
        } else {
            0
        }
    }
}

/// Sum of the magnitudes of the first `n` bins that lie in `band`.
pub open spec fn band_sum(spectrum: Seq<u32>, band: FrequencyBand, cfg: Analysis, n: int) -> int
    decreases n,
{
    if n <= 0 {
        0
    } else {
        band_sum(spectrum, band, cfg, n - 1) + if in_band(n - 1, band, cfg) {
            spectrum[n - 1] as int
        } else {
            0
        }
    }
}

/// The share of `part` in `total` as a whole percentage, rounded down. A
/// silent spectrum has no shares: every band gets 0.
pub open spec fn percent(part: int, total: int) -> int {
    if total <= 0 {
        0
    } else {
        100 * part / total
    }
}

/// The percentage of the displayed spectrum that lies in `band`.
pub open spec fn band_percent(spectrum: Seq<u32>, band: FrequencyBand, cfg: Analysis) -> int {
    percent(
        band_sum(spectrum, band, cfg, spectrum.len() as int),
        total_sum(spectrum, cfg, spectrum.len() as int),
    )
}

/// Two bands share no frequency.
pub open spec fn apart(a: FrequencyBand, b: FrequencyBand) -> bool {
    a.end_hz < b.start_hz || b.end_hz < a.start_hz
}

/// No two bands of the list share a frequency.
pub open spec fn all_apart(bands: Seq<FrequencyBand>) -> bool {
    forall|i: int, j: int|
        0 <= i < j < bands.len() ==> apart(#[trigger] bands[i], #[trigger] bands[j])
}

/// Sum of the percentages of all bands of the list.
pub open spec fn percent_sum(spectrum: Seq<u32>, bands: Seq<FrequencyBand>, cfg: Analysis) -> int
    decreases bands.len(),
{
    if bands.len() == 0 {
        0
    } else {
        percent_sum(spectrum, bands.drop_last(), cfg) + band_percent(spectrum, bands.last(), cfg)
    }
}

/// The product of a length and a frequency, which fits 128 bits.
fn wide_product(len: usize, hz: u32) -> (product: u128)
    ensures
        product == len * hz,
        product <= 0xffff_ffff_ffff_ffff * 0xffff_ffff,
{
    assert(len * hz <= 0xffff_ffff_ffff_ffff * 0xffff_ffff) by (nonlinear_arith)
        requires
            0 <= len <= 0xffff_ffff_ffff_ffff,
            0 <= hz <= 0xffff_ffff,
    ;
    (len as u128) * (hz as u128)
}

/// Frequency of bin `k` multiplied by the window length.
fn bin_scaled_frequency(k: usize, cfg: &Analysis) -> (f: u128)
    ensures
        f == scaled_frequency(k as int, *cfg),
{
    assert((k + 1) * cfg.sampling_rate == k * cfg.sampling_rate + cfg.sampling_rate)
        by (nonlinear_arith);
    wide_product(k, cfg.sampling_rate) + cfg.sampling_rate as u128
}

/// Whether bin `k` is displayed.
pub fn bin_displayed(k: usize, cfg: &Analysis) -> (yes: bool)
    ensures
        yes == displayed(k as int, *cfg),
{
    if cfg.window_len == 0 {
        return false;
    }
    bin_scaled_frequency(k, cfg) <= wide_product(cfg.window_len, cfg.cutoff_hz)
}

/// Whether bin `k` lies in `band`.
pub fn bin_in_band(k: usize, band: FrequencyBand, cfg: &Analysis) -> (yes: bool)
    ensures
        yes == in_band(k as int, band, *cfg),
{
    if !bin_displayed(k, cfg) {
        return false;
    }
    let f: u128 = bin_scaled_frequency(k, cfg);
    wide_product(cfg.window_len, band.start_hz) <= f && f <= wide_product(
        cfg.window_len,
        band.end_hz,
    )
}

/// Number of bins of a spectrum of `len` bins that are displayed. They are
/// its first bins: frequencies rise with the bin number.
pub fn displayed_bins(len: usize, cfg: &Analysis) -> (shown: usize)
    ensures
        shown <= len,
        forall|k: int| 0 <= k < len ==> (displayed(k, *cfg) <==> k < shown),
{
    let mut shown: usize = 0;
    while shown < len && bin_displayed(shown, cfg)
        invariant
            shown <= len,
            forall|k: int| 0 <= k < shown ==> displayed(k, *cfg),
        decreases len - shown,
    {
        shown += 1;
    }
    proof {
        assert forall|k: int| shown <= k < len implies !displayed(k, *cfg) by {
            if displayed(k, *cfg) {
                lemma_displayed_below(shown as int, k, *cfg);
            }
        }
    }
    shown
}

/// The percentage of the displayed spectrum that lies in `band`: 100 times
/// the sum of the magnitudes in the band over the sum of all magnitudes up
/// to the cutoff, rounded down, and 0 for a silent spectrum.
pub fn frequency_band(spectrum: &Vec<u32>, band: FrequencyBand, cfg: &Analysis) -> (share: u64)
    ensures
        share == band_percent(spectrum@, band, *cfg),
        share <= 100,
{
    let n: usize = spectrum.len();
    let mut part: u128 = 0;
    let mut total: u128 = 0;
    let mut i: usize = 0;
    while i < n
        invariant
            i <= n,
            n == spectrum@.len(),
            part == band_sum(spectrum@, band, *cfg, i as int),
            total == total_sum(spectrum@, *cfg, i as int),
            part <= total,
            total <= i * 0xffff_ffff,
        decreases n - i,
    {
        if bin_displayed(i, cfg) {
            total = total + spectrum[i] as u128;
        }
        if bin_in_band(i, band, cfg) {
            part = part + spectrum[i] as u128;
        }
        i += 1;
    }
    if total == 0 {
        0
    } else {
        proof {
            lemma_percent_bounded(part as int, total as int);
        }
        let share: u128 = 100 * part / total;
        share as u64
    }
}

/// Every bin below a displayed bin is displayed.
pub proof fn lemma_displayed_below(j: int, k: int, cfg: Analysis)
    requires
        0 <= j <= k,
        displayed(k, cfg),
    ensures
        displayed(j, cfg),
{
    assert((j + 1) * cfg.sampling_rate <= (k + 1) * cfg.sampling_rate) by (nonlinear_arith)
        requires
            0 <= j <= k,
            cfg.sampling_rate >= 0,
    ;
}

/// A part of a total is between 0 and 100 percent of it.
pub proof fn lemma_percent_bounded(part: int, total: int)
    requires
        0 <= part <= total,
    ensures
        0 <= percent(part, total) <= 100,
{
    if total > 0 {
        assert(0 <= 100 * part / total <= 100) by (nonlinear_arith)
            requires
                0 <= part <= total,
                total > 0,
        ;
    }
}

/// What lies in a band lies in the displayed spectrum.
pub proof fn lemma_band_within_total(spectrum: Seq<u32>, band: FrequencyBand, cfg: Analysis, n: int)
    ensures
        0 <= band_sum(spectrum, band, cfg, n) <= total_sum(spectrum, cfg, n),
    decreases n,
{
    if n > 0 {
        lemma_band_within_total(spectrum, band, cfg, n - 1);
    }
}

/// The percentage of every band is between 0 and 100.
pub proof fn lemma_band_percent_bounded(spectrum: Seq<u32>, band: FrequencyBand, cfg: Analysis)
    ensures
        0 <= band_percent(spectrum, band, cfg) <= 100,
{
    lemma_band_within_total(spectrum, band, cfg, spectrum.len() as int);
    lemma_percent_bounded(
        band_sum(spectrum, band, cfg, spectrum.len() as int),
        total_sum(spectrum, cfg, spectrum.len() as int),
    );
}

/// A bin lies in at most one of two bands that share no frequency.
pub proof fn lemma_apart_excludes(a: FrequencyBand, b: FrequencyBand, k: int, cfg: Analysis)
    requires
        apart(a, b),
        in_band(k, a, cfg),
    ensures
        !in_band(k, b, cfg),
{
    let len = cfg.window_len as int;
    if a.end_hz < b.start_hz {
        assert(a.end_hz * len < b.start_hz * len) by (nonlinear_arith)
            requires
                a.end_hz < b.start_hz,
                len > 0,
        ;
    } else {
        assert(b.end_hz * len < a.start_hz * len) by (nonlinear_arith)
            requires
                b.end_hz < a.start_hz,
                len > 0,
        ;
    }
}

/// Sum over the bands of the list of what each holds of the first `n` bins.
pub open spec fn bands_sum(
    spectrum: Seq<u32>,
    bands: Seq<FrequencyBand>,
    cfg: Analysis,
    n: int,
) -> int
    decreases bands.len(),
{
    if bands.len() == 0 {
        0
    } else {
        bands_sum(spectrum, bands.drop_last(), cfg, n) + band_sum(spectrum, bands.last(), cfg, n)
    }
}

/// Sum over the bands of the list of what each holds of bin `k` alone.
pub open spec fn bin_share(
    spectrum: Seq<u32>,
    bands: Seq<FrequencyBand>,
    cfg: Analysis,
    k: int,
) -> int
    decreases bands.len(),
{
    if bands.len() == 0 {
        0
    } else {
        bin_share(spectrum, bands.drop_last(), cfg, k) + if in_band(k, bands.last(), cfg) {
            spectrum[k] as int
        } else {
            0
        }
    }
}

/// Taking one more bin in adds to the bands what they hold of that bin.
proof fn lemma_bands_sum_step(spectrum: Seq<u32>, bands: Seq<FrequencyBand>, cfg: Analysis, n: int)
    requires
        n > 0,
    ensures
        bands_sum(spectrum, bands, cfg, n) == bands_sum(spectrum, bands, cfg, n - 1) + bin_share(
            spectrum,
            bands,
            cfg,
            n - 1,
        ),
    decreases bands.len(),
{
    if bands.len() > 0 {
        lemma_bands_sum_step(spectrum, bands.drop_last(), cfg, n);
    }
}

/// Of no bins the bands hold nothing.
proof fn lemma_bands_sum_empty(spectrum: Seq<u32>, bands: Seq<FrequencyBand>, cfg: Analysis, n: int)
    requires
        n <= 0,
    ensures
        bands_sum(spectrum, bands, cfg, n) == 0,
    decreases bands.len(),
{
    if bands.len() > 0 {
        lemma_bands_sum_empty(spectrum, bands.drop_last(), cfg, n);
    }
}

/// Bands that do not contain a bin hold nothing of it.
proof fn lemma_bin_share_none(spectrum: Seq<u32>, bands: Seq<FrequencyBand>, cfg: Analysis, k: int)
    requires
        forall|i: int| 0 <= i < bands.len() ==> !in_band(k, #[trigger] bands[i], cfg),
    ensures
        bin_share(spectrum, bands, cfg, k) == 0,
    decreases bands.len(),
{
    if bands.len() > 0 {
        let front = bands.drop_last();
        assert forall|i: int| 0 <= i < front.len() implies !in_band(
            k,
            #[trigger] front[i],
            cfg,
        ) by {
            assert(front[i] == bands[i]);
        }
        assert(bands.last() == bands[bands.len() - 1]);
        lemma_bin_share_none(spectrum, front, cfg, k);
    }
}

/// Bands that share no frequency hold a bin at most once between them.
pub proof fn lemma_bin_share_bounded(
    spectrum: Seq<u32>,
    bands: Seq<FrequencyBand>,
    cfg: Analysis,
    k: int,
)
    requires
        all_apart(bands),
    ensures
        0 <= bin_share(spectrum, bands, cfg, k) <= if displayed(k, cfg) {
            spectrum[k] as int
        } else {
            0
        },
    decreases bands.len(),
{
    if bands.len() > 0 {
        let front = bands.drop_last();
        let last = bands.last();
        assert(last == bands[bands.len() - 1]);
        assert forall|i: int, j: int| 0 <= i < j < front.len() implies apart(
            #[trigger] front[i],
            #[trigger] front[j],
        ) by {
            assert(front[i] == bands[i] && front[j] == bands[j]);
        }
        lemma_bin_share_bounded(spectrum, front, cfg, k);
        if in_band(k, last, cfg) {
            assert forall|i: int| 0 <= i < front.len() implies !in_band(
                k,
                #[trigger] front[i],
                cfg,
            ) by {
                assert(front[i] == bands[i]);
                assert(apart(bands[i], bands[bands.len() - 1]));
                if in_band(k, front[i], cfg) {
                    lemma_apart_excludes(front[i], last, k, cfg);
                }
            }
            lemma_bin_share_none(spectrum, front, cfg, k);
        }
    }
}

/// Bands that share no frequency hold between them no more than the
/// displayed spectrum.
pub proof fn lemma_bands_within_total(
    spectrum: Seq<u32>,
    bands: Seq<FrequencyBand>,
    cfg: Analysis,
    n: int,
)
    requires
        all_apart(bands),
    ensures
        bands_sum(spectrum, bands, cfg, n) <= total_sum(spectrum, cfg, n),
    decreases n,
{
    if n <= 0 {
        lemma_bands_sum_empty(spectrum, bands, cfg, n);
    } else {
        lemma_bands_within_total(spectrum, bands, cfg, n - 1);
        lemma_bands_sum_step(spectrum, bands, cfg, n);
        lemma_bin_share_bounded(spectrum, bands, cfg, n - 1);
    }
}

/// The percentages of a list of bands, multiplied by the total, stay within
/// 100 times what the bands hold; a silent spectrum gives no percentages.
proof fn lemma_percent_sum_scaled(spectrum: Seq<u32>, bands: Seq<FrequencyBand>, cfg: Analysis)
    ensures
        0 <= percent_sum(spectrum, bands, cfg),
        total_sum(spectrum, cfg, spectrum.len() as int) <= 0 ==> percent_sum(spectrum, bands, cfg)
            == 0,
        percent_sum(spectrum, bands, cfg) * total_sum(spectrum, cfg, spectrum.len() as int) <= 100
            * bands_sum(spectrum, bands, cfg, spectrum.len() as int),
    decreases bands.len(),
{
    let n = spectrum.len() as int;
    let total = total_sum(spectrum, cfg, n);
    if bands.len() > 0 {
        let front = bands.drop_last();
        let last = bands.last();
        lemma_percent_sum_scaled(spectrum, front, cfg);
        lemma_band_within_total(spectrum, last, cfg, n);
        lemma_band_percent_bounded(spectrum, last, cfg);
        let part = band_sum(spectrum, last, cfg, n);
        let p = percent_sum(spectrum, front, cfg);
        let q = band_percent(spectrum, last, cfg);
        if total > 0 {
            assert(q == 100 * part / total);
            assert((100 * part / total) * total <= 100 * part) by (nonlinear_arith)
                requires
                    total > 0,
                    part >= 0,
            ;
            assert((p + q) * total == p * total + q * total) by (nonlinear_arith);
        } else {
            assert((p + q) * total == 0) by (nonlinear_arith)
                requires
                    p + q == 0,
            ;
        }
    } else {
        assert(0 * total == 0);
    }
}

/// Bands that share no frequency never add up to more than 100 percent.
pub proof fn lemma_apart_bands_share(spectrum: Seq<u32>, bands: Seq<FrequencyBand>, cfg: Analysis)
    requires
        all_apart(bands),
    ensures
        0 <= percent_sum(spectrum, bands, cfg) <= 100,
{
    let n = spectrum.len() as int;
    let total = total_sum(spectrum, cfg, n);
    let held = bands_sum(spectrum, bands, cfg, n);
    let p = percent_sum(spectrum, bands, cfg);
    lemma_percent_sum_scaled(spectrum, bands, cfg);
    lemma_bands_within_total(spectrum, bands, cfg, n);
    if total > 0 {
        assert(p <= 100) by (nonlinear_arith)
            requires
                p * total <= 100 * held,
                held <= total,
                total > 0,
        ;
    }
}

/// The three named bands, lowest first.
pub open spec fn named_bands() -> Seq<FrequencyBand> {
    seq![
        FrequencyBand { start_hz: 5, end_hz: 7 },
        FrequencyBand { start_hz: 8, end_hz: 12 },
        FrequencyBand { start_hz: 13, end_hz: 20 },
    ]
}

/// Theta, alpha and beta share no frequency, so their percentages never add
/// up to more than 100.
pub proof fn lemma_named_bands_share(spectrum: Seq<u32>, cfg: Analysis)
    ensures
        all_apart(named_bands()),
        band_percent(spectrum, named_bands()[0], cfg) + band_percent(
            spectrum,
            named_bands()[1],
            cfg,
        ) + band_percent(spectrum, named_bands()[2], cfg) <= 100,
{
    let three = named_bands();
    let two = three.drop_last();
    let one = two.drop_last();
    assert(one.drop_last() =~= Seq::<FrequencyBand>::empty());
    assert(percent_sum(spectrum, one.drop_last(), cfg) == 0);
    assert(percent_sum(spectrum, one, cfg) == band_percent(spectrum, three[0], cfg));
    assert(percent_sum(spectrum, two, cfg) == percent_sum(spectrum, one, cfg) + band_percent(
        spectrum,
        three[1],
        cfg,
    ));
    lemma_apart_bands_share(spectrum, three, cfg);
}

} // verus!
