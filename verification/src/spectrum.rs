//! Spectrum state for the visualizer: a fixed array of per-mille bin values
//! with independently decaying peaks, fed either by real loudness
//! measurements in centi-decibels or by nothing, in which case it decays.
//! Only an overall loudness is ever available, never per-frequency data, so
//! all bins respond uniformly to the audio energy.

use vstd::prelude::*;

verus! {

/// Number of frequency bins for visualization.
pub const NUM_BINS: usize = 32;

/// A value scaled by a per-mille factor, rounding down.
pub open spec fn spec_scale(v: int, factor: int) -> int {
    (v * factor) / 1000
}

/// Scales a level by a per-mille factor.
fn scale(v: u16, factor: u16) -> (r: u16)
    requires
        v <= 1000,
        factor <= 1000,
    ensures
        r as int == spec_scale(v as int, factor as int),
        r <= v,
{
    assert((v as int) * (factor as int) <= v as int * 1000 <= 1000000 && v as int * factor as int
        >= 0) by (nonlinear_arith)
        requires
            v <= 1000,
            factor <= 1000,
    ;
    let wide = (v as u32) * (factor as u32) / 1000;
    wide as u16
}

/// One bin smoothed toward a target energy: fast attack, slow decay.
pub open spec fn spec_smoothed(bin: int, energy: int) -> int {
    let smoothing: int = if energy > bin {
        300
    } else {
        850
    };
    (bin * smoothing + energy * (1000 - smoothing)) / 1000
}

/// Smoothes one bin toward a target energy.
fn smooth(bin: u16, energy: u16) -> (r: u16)
    requires
        bin <= 1000,
        energy <= 1000,
    ensures
        r as int == spec_smoothed(bin as int, energy as int),
        r <= 1000,
{
    let smoothing: u32 = if energy > bin {
        300
    } else {
        850
    };
    assert((bin as int) * (smoothing as int) + (energy as int) * (1000 - smoothing as int) <= 1000
        * 1000 && (bin as int) * (smoothing as int) >= 0 && (energy as int) * (1000
        - smoothing as int) >= 0) by (nonlinear_arith)
        requires
            bin <= 1000,
            energy <= 1000,
            smoothing <= 1000,
    ;
    let wide = ((bin as u32) * smoothing + (energy as u32) * (1000 - smoothing)) / 1000;
    wide as u16
}

/// Audio spectrum data: normalized per-mille bin values, peak values with
/// their own slower decay, the overall RMS/peak pair, and whether any real
/// audio has been seen.
#[derive(Debug, Clone)]
pub struct SpectrumData {
    pub bins: Vec<u16>,
    pub peaks: Vec<u16>,
    pub rms: u16,
    pub peak: u16,
    pub has_audio: bool,
}

impl SpectrumData {
    /// Well-formedness: both arrays hold one per-mille value per bin.
    pub open spec fn wf(self) -> bool {
        &&& self.bins@.len() == NUM_BINS
        &&& self.peaks@.len() == NUM_BINS
        &&& forall|i: int| 0 <= i < NUM_BINS ==> #[trigger] self.bins@[i] <= 1000
        &&& forall|i: int| 0 <= i < NUM_BINS ==> #[trigger] self.peaks@[i] <= 1000
        &&& self.rms <= 1000
        &&& self.peak <= 1000
    }

    /// A silent spectrum: all zeros, no audio seen.
    pub fn new() -> (r: Self)
        ensures
            r.wf(),
            !r.has_audio,
            r.rms == 0,
            r.peak == 0,
            forall|i: int| 0 <= i < NUM_BINS ==> #[trigger] r.bins@[i] == 0,
            forall|i: int| 0 <= i < NUM_BINS ==> #[trigger] r.peaks@[i] == 0,
    {
        let mut bins: Vec<u16> = Vec::new();
        let mut peaks: Vec<u16> = Vec::new();
        let mut i: usize = 0;
        while i < NUM_BINS
            invariant
                i <= NUM_BINS,
                bins@.len() == i,
                peaks@.len() == i,
                forall|j: int| 0 <= j < i ==> #[trigger] bins@[j] == 0,
                forall|j: int| 0 <= j < i ==> #[trigger] peaks@[j] == 0,
            decreases NUM_BINS - i,
        {
            bins.push(0);
            peaks.push(0);
            i += 1;
        }
        SpectrumData { bins, peaks, rms: 0, peak: 0, has_audio: false }
    }

    /// Applies decay for smooth animation: every bin and the overall levels
    /// fade by `factor` per mille; peaks fade a touch slower, by 98% of the
    /// factor.
    pub fn decay(&mut self, factor: u16)
        requires
            old(self).wf(),
            factor <= 1000,
        ensures
            final(self).wf(),
            final(self).has_audio == old(self).has_audio,
            final(self).rms as int == spec_scale(old(self).rms as int, factor as int),
            final(self).peak as int == spec_scale(old(self).peak as int, factor as int),
            forall|i: int| 0 <= i < NUM_BINS ==> #[trigger] final(self).bins@[i] as int
                == spec_scale(old(self).bins@[i] as int, factor as int),
            forall|i: int| 0 <= i < NUM_BINS ==> #[trigger] final(self).peaks@[i] as int
                == spec_scale(old(self).peaks@[i] as int, (factor as int) * 98 / 100),
    {
        let peak_factor = (factor as u32) * 98 / 100;
        assert(peak_factor <= 1000);
        let pf = peak_factor as u16;
        let mut i: usize = 0;
        while i < NUM_BINS
            invariant
                old(self).wf(),
                factor <= 1000,
                pf as int == (factor as int) * 98 / 100,
                pf <= 1000,
                i <= NUM_BINS,
                self.bins@.len() == NUM_BINS,
                self.peaks@.len() == NUM_BINS,
                self.rms == old(self).rms,
                self.peak == old(self).peak,
                self.has_audio == old(self).has_audio,
                forall|j: int| i <= j < NUM_BINS ==> #[trigger] self.bins@[j] == old(self).bins@[j],
                forall|j: int|
                    i <= j < NUM_BINS ==> #[trigger] self.peaks@[j] == old(self).peaks@[j],
                forall|j: int| 0 <= j < i ==> #[trigger] self.bins@[j] as int == spec_scale(
                    old(self).bins@[j] as int,
                    factor as int,
                ),
                forall|j: int| 0 <= j < i ==> #[trigger] self.peaks@[j] as int == spec_scale(
                    old(self).peaks@[j] as int,
                    pf as int,
                ),
                forall|j: int| 0 <= j < NUM_BINS ==> #[trigger] self.bins@[j] <= 1000,
                forall|j: int| 0 <= j < NUM_BINS ==> #[trigger] self.peaks@[j] <= 1000,
            decreases NUM_BINS - i,
        {
            let b = self.bins[i];
            let faded = scale(b, factor);
            self.bins.set(i, faded);
            let pk = self.peaks[i];
            let faded_pk = scale(pk, pf);
            self.peaks.set(i, faded_pk);
            i += 1;
        }
        let r = self.rms;
        self.rms = scale(r, factor);
        let p = self.peak;
        self.peak = scale(p, factor);
    }

    /// Feeds one real (RMS, peak) pair, as per-mille levels. The overall
    /// levels are recorded as given; every bin is smoothed toward their
    /// blend — fast attack, slow visible decay — and each peak follows its
    /// bin up or fades slowly.
    pub fn simulate_from_levels(&mut self, rms: u16, peak: u16)
        requires
            old(self).wf(),
            rms <= 1000,
            peak <= 1000,
        ensures
            final(self).wf(),
            final(self).has_audio,
            final(self).rms == rms,
            final(self).peak == peak,
            forall|i: int| 0 <= i < NUM_BINS ==> #[trigger] final(self).bins@[i] as int
                == spec_smoothed(old(self).bins@[i] as int, ((rms + peak) / 2) as int),
            forall|i: int| 0 <= i < NUM_BINS ==> #[trigger] final(self).peaks@[i] as int == (
            if spec_smoothed(old(self).bins@[i] as int, ((rms + peak) / 2) as int) > old(
                self,
            ).peaks@[i] as int {
                spec_smoothed(old(self).bins@[i] as int, ((rms + peak) / 2) as int)
            } else {
                spec_scale(old(self).peaks@[i] as int, 990)
            }),
    {
        let energy = (rms + peak) / 2;
        let mut i: usize = 0;
        while i < NUM_BINS
            invariant
                old(self).wf(),
                energy as int == ((rms + peak) / 2) as int,
                energy <= 1000,
                i <= NUM_BINS,
                self.bins@.len() == NUM_BINS,
                self.peaks@.len() == NUM_BINS,
                self.rms == old(self).rms,
                self.peak == old(self).peak,
                self.has_audio == old(self).has_audio,
                forall|j: int| i <= j < NUM_BINS ==> #[trigger] self.bins@[j] == old(self).bins@[j],
                forall|j: int|
                    i <= j < NUM_BINS ==> #[trigger] self.peaks@[j] == old(self).peaks@[j],
                forall|j: int| 0 <= j < i ==> #[trigger] self.bins@[j] as int == spec_smoothed(
                    old(self).bins@[j] as int,
                    energy as int,
                ),
                forall|j: int| 0 <= j < i ==> #[trigger] self.peaks@[j] as int == (
                if spec_smoothed(old(self).bins@[j] as int, energy as int) > old(
                    self,
                ).peaks@[j] as int {
                    spec_smoothed(old(self).bins@[j] as int, energy as int)
                } else {
                    spec_scale(old(self).peaks@[j] as int, 990)
                }),
                forall|j: int| 0 <= j < NUM_BINS ==> #[trigger] self.bins@[j] <= 1000,
                forall|j: int| 0 <= j < NUM_BINS ==> #[trigger] self.peaks@[j] <= 1000,
            decreases NUM_BINS - i,
        {
            let b = self.bins[i];
            let smoothed = smooth(b, energy);
            self.bins.set(i, smoothed);
            let pk = self.peaks[i];
            if smoothed > pk {
                self.peaks.set(i, smoothed);
            } else {
                let faded = scale(pk, 990);
                self.peaks.set(i, faded);
            }
            i += 1;
        }
        self.rms = rms;
        self.peak = peak;
        self.has_audio = true;
    }

    /// Animates the spectrum when no audio data arrived this tick: stopped
    /// or paused it fades fast, playing without data it fades slowly. No
    /// artificial movement: only real audio drives the spectrum up.
    pub fn animate(&mut self, playing: bool, paused: bool)
        requires
            old(self).wf(),
        ensures
            final(self).wf(),
            final(self).has_audio == old(self).has_audio,
            ({
                let factor: int = if !playing || paused {
                    850
                } else {
                    920
                };
                &&& final(self).rms as int == spec_scale(old(self).rms as int, factor)
                &&& forall|i: int| 0 <= i < NUM_BINS ==> #[trigger] final(self).bins@[i] as int
                    == spec_scale(old(self).bins@[i] as int, factor)
            }),
    {
        if !playing || paused {
            self.decay(850);
        } else {
            self.decay(920);
        }
    }
}

// ----- feeding measured levels -----

/// A centi-decibel level clamped to the -60.00 to 0.00 dB window.
pub open spec fn spec_clamp_cdb(v: int) -> int {
    if v > 0 {
        0
    } else if v < -6000 {
        -6000
    } else {
        v
    }
}

impl SpectrumData {
    /// Feeds one measured (RMS, peak) pair in centi-decibels: each level is
    /// clamped to the -60.00 to 0.00 dB window, converted to the linear
    /// per-mille scale, and fed to the bins.
    pub fn update_from_db(&mut self, rms_cdb: i64, peak_cdb: i64)
        requires
            old(self).wf(),
        ensures
            final(self).wf(),
            final(self).has_audio,
            final(self).rms as int == spec_db_to_linear(spec_clamp_cdb(rms_cdb as int)),
            final(self).peak as int == spec_db_to_linear(spec_clamp_cdb(peak_cdb as int)),
    {
        let r = db_to_linear(clamp_cdb(rms_cdb));
        let p = db_to_linear(clamp_cdb(peak_cdb));
        self.simulate_from_levels(r, p);
    }
}

/// Clamps a centi-decibel level to the -60.00 to 0.00 dB window.
fn clamp_cdb(v: i64) -> (r: i64)
    ensures
        r as int == spec_clamp_cdb(v as int),
{
    if v > 0 {
        0
    } else if v < -6000 {
        -6000
    } else {
        v
    }
}

// ----- decibels to linear scale -----

/// One-decibel steps of a decade, scaled by 1000: entry `k` approximates
/// 1000 times ten to the `k/20`, so twenty entries span one decade of
/// amplitude.
pub open spec fn spec_db_step(k: int) -> int {
    if k <= 0 {
        1000
    } else if k == 1 {
        1122
    } else if k == 2 {
        1259
    } else if k == 3 {
        1413
    } else if k == 4 {
        1585
    } else if k == 5 {
        1778
    } else if k == 6 {
        1995
    } else if k == 7 {
        2239
    } else if k == 8 {
        2512
    } else if k == 9 {
        2818
    } else if k == 10 {
        3162
    } else if k == 11 {
        3548
    } else if k == 12 {
        3981
    } else if k == 13 {
        4467
    } else if k == 14 {
        5012
    } else if k == 15 {
        5623
    } else if k == 16 {
        6310
    } else if k == 17 {
        7079
    } else if k == 18 {
        7943
    } else {
        8913
    }
}

fn db_step(k: u32) -> (r: u32)
    requires
        k < 20,
    ensures
        r as int == spec_db_step(k as int),
        1000 <= r <= 8913,
{
    match k {
        0 => 1000,
        1 => 1122,
        2 => 1259,
        3 => 1413,
        4 => 1585,
        5 => 1778,
        6 => 1995,
        7 => 2239,
        8 => 2512,
        9 => 2818,
        10 => 3162,
        11 => 3548,
        12 => 3981,
        13 => 4467,
        14 => 5012,
        15 => 5623,
        16 => 6310,
        17 => 7079,
        18 => 7943,
        _ => 8913,
    }
}

/// A centi-decibel level mapped to a per-mille linear amplitude: -60.00 dB
/// and below map to about 0, 0.00 dB and above to 1000, by whole decades
/// and one-decibel steps within them.
pub open spec fn spec_db_to_linear(cdb: int) -> int {
    let n: int = if cdb > 0 {
        0
    } else if cdb < -6000 {
        6000
    } else {
        -cdb
    };
    let decades = n / 2000;
    let step = (n % 2000) / 100;
    1000000int / (spec_pow10_int(decades) * spec_db_step(step))
}

/// Ten to the power `n`, for the few decades in range.
pub open spec fn spec_pow10_int(n: int) -> int {
    if n <= 0 {
        1
    } else if n == 1 {
        10
    } else if n == 2 {
        100
    } else {
        1000
    }
}

/// Converts a centi-decibel loudness to a per-mille linear amplitude,
/// clamping to the -60.00 to 0.00 dB window.
#[verifier::rlimit(50)]
pub fn db_to_linear(cdb: i64) -> (r: u16)
    ensures
        r as int == spec_db_to_linear(cdb as int),
        r <= 1000,
{
    let n: u32 = if cdb > 0 {
        0
    } else if cdb < -6000 {
        6000
    } else {
        (-cdb) as u32
    };
    let decades = n / 2000;
    let step = (n % 2000) / 100;
    let p10: u32 = if decades == 0 {
        1
    } else if decades == 1 {
        10
    } else if decades == 2 {
        100
    } else {
        1000
    };
    let st = db_step(step);
    assert(n <= 6000);
    assert(decades <= 3);
    assert(step < 20);
    assert(p10 as int == spec_pow10_int(decades as int));
    assert(1000 <= (p10 as int) * (st as int) <= 8913000) by (nonlinear_arith)
        requires
            1 <= p10 <= 1000,
            1000 <= st <= 8913,
    ;
    let divisor = p10 * st;
    assert(divisor as int == spec_pow10_int(decades as int) * spec_db_step(step as int));
    let r32 = 1000000 / divisor;
    assert(1000000int / (divisor as int) <= 1000) by (nonlinear_arith)
        requires
            divisor >= 1000,
    ;
    r32 as u16
}

} // verus!
