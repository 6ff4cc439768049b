//! The synthesizer model.  For each tone of a chord one exact-period sample
//! table is planned: its length is the sample rate divided by the tone's
//! rounded frequency.  Playback advances one cursor per tone cyclically and,
//! in strum mode, holds the tone at chord index `i` silent until `i / 20`
//! seconds have elapsed.  Waveform amplitudes themselves are left to the
//! caller, who fills each table by evaluating the chosen waveform at the
//! table index over the table length.

use vstd::prelude::*;
use crate::note::{Harmonym, spec_num, spec_den, lemma_prefix_bounds};
use crate::ratio::lemma_canon;
use crate::chord::{Chord, FullChord};
use crate::arith::spec_gcd;
use crate::{SAMPLE_RATE, DEFAULT_BASE_CENTIHZ};
use vstd::arithmetic::div_mod::{lemma_div_multiples_vanish, lemma_div_denominator};
use vstd::arithmetic::mul::{
    lemma_mul_upper_bound, lemma_mul_strictly_positive, lemma_mul_nonnegative,
};

verus! {

/// The shape of one period of a rendered tone.
#[derive(Debug, Clone, Copy, PartialEq, Eq, Structural)]
pub enum Waveform {
    Sine,
    Square,
    Saw,
    Triangle,
}

/// The waveform used when none is chosen.
pub const DEFAULT_WAVE: Waveform = Waveform::Triangle;

/// The base frequency is positive and small enough for the planned table
/// arithmetic (at most 2^32 hundredths of a hertz).
pub open spec fn base_in_range(base_centihz: int) -> bool {
    1 <= base_centihz <= 0x1_0000_0000
}

/// A tone's frequency in hertz, rounded half-up to an integer: the
/// evaluated ratio times the base frequency (given in hundredths of a
/// hertz).
pub open spec fn spec_freq_round(h: Harmonym, base_centihz: int) -> int {
    (2 * spec_num(h) * base_centihz + spec_den(h) * 100) / (2 * spec_den(h) * 100)
}

/// The planned length of a tone's single-period sample table: the sample
/// rate divided by the rounded frequency.
pub open spec fn spec_table_len(h: Harmonym, base_centihz: int) -> int {
    (SAMPLE_RATE as int) / spec_freq_round(h, base_centihz)
}

/// Why a chord could not be prerendered.
#[derive(Debug, Clone, Copy, PartialEq, Eq, Structural)]
pub enum SynthError {
    /// Some tone's rounded frequency is zero, or lies above the sample
    /// rate, so no whole period fits a sample table.
    FrequencyOutOfRange,
}

/// Computes the sample-table length of one tone: the sample rate divided
/// by the tone's rounded frequency, refused when the rounded frequency is
/// zero or exceeds the sample rate.
pub fn tone_table_len(h: &Harmonym, base_centihz: u64) -> (r: Option<usize>)
    requires
        h.wf(),
        base_in_range(base_centihz as int),
    ensures
        ({
            let fr = spec_freq_round(*h, base_centihz as int);
            if fr == 0 || spec_table_len(*h, base_centihz as int) == 0 {
                r is None
            } else {
                r == Some(spec_table_len(*h, base_centihz as int) as usize) && 1 <= spec_table_len(
                    *h,
                    base_centihz as int,
                ) <= SAMPLE_RATE as int
            }
        }),
{
    let ratio = h.eval();
    let ghost nn = spec_num(*h);
    let ghost dd = spec_den(*h);
    proof {
        lemma_prefix_bounds(*h, 5);
        lemma_canon(nn, dd);
        lemma_mul_upper_bound(ratio.n(), u64::MAX as int, base_centihz as int, 0x1_0000_0000);
        lemma_mul_upper_bound(ratio.d(), u64::MAX as int, 100, 100);
        lemma_mul_strictly_positive(ratio.d(), 100);
        lemma_mul_nonnegative(ratio.n(), base_centihz as int);
    }
    let num: u128 = (ratio.dividend as u128) * (base_centihz as u128);
    let den: u128 = (ratio.divisor as u128) * 100;
    proof {
        let g = spec_gcd(nn, dd);
        assert(2 * (ratio.n() * base_centihz) + ratio.d() * 100 >= 0);
        assert(2 * (ratio.d() * 100) > 0);
        lemma_freq_round_reduces(nn, dd, g, ratio.n(), ratio.d(), base_centihz as int);
    }
    let fr: u128 = (2 * num + den) / (2 * den);
    if fr == 0 {
        return None;
    }
    let len: u128 = (SAMPLE_RATE as u128) / fr;
    if len == 0 {
        return None;
    }
    proof {
        assert(len <= SAMPLE_RATE as int) by {
            vstd::arithmetic::div_mod::lemma_div_is_ordered_by_denominator(
                SAMPLE_RATE as int,
                1,
                fr as int,
            );
        }
    }
    Some(len as usize)
}

/// Rounding a tone's frequency over the reduced evaluated ratio agrees
/// with rounding it over the unreduced one.
proof fn lemma_freq_round_reduces(nn: int, dd: int, g: int, cn: int, cd: int, base: int)
    requires
        nn > 0,
        dd > 0,
        g > 0,
        cn > 0,
        cd > 0,
        nn == g * cn,
        dd == g * cd,
        base >= 1,
    ensures
        (2 * (cn * base) + cd * 100) / (2 * (cd * 100)) == (2 * nn * base + dd * 100) / (2 * dd
            * 100),
{
    let x = 2 * (cn * base) + cd * 100;
    let y = 2 * (cd * 100);
    assert(y > 0) by {
        lemma_mul_strictly_positive(cd, 100);
    }
    assert(2 * nn * base + dd * 100 == g * x) by (nonlinear_arith)
        requires
            nn == g * cn,
            dd == g * cd,
            x == 2 * (cn * base) + cd * 100,
    {}
    assert(2 * dd * 100 == g * y) by (nonlinear_arith)
        requires
            dd == g * cd,
            y == 2 * (cd * 100),
    {}
    assert((g * x) / (g * y) == x / y) by {
        lemma_div_denominator(g * x, g, y);
        lemma_div_multiples_vanish(x, g);
        assert((g * x) / g == x);
    }
}

/// A chord prepared for playback: the tones, their planned table lengths
/// and cursors, the elapsed sample count, the waveform, and the strum flag.
#[derive(Debug, Clone)]
pub struct PlayableChord {
    pub harmonyms: Vec<Harmonym>,
    pub base_centihz: u64,
    pub wavetype: Waveform,
    pub strum: bool,
    pub current_sample: u64,
    pub lens: Vec<usize>,
    pub cursors: Vec<usize>,
}

/// In strum mode, the tone at chord index `i` stays silent until the
/// elapsed playback time `t / SAMPLE_RATE` reaches `i / 20` seconds.
pub open spec fn strum_silent(i: int, t: int) -> bool {
    i * (SAMPLE_RATE as int) > t * 20
}

impl PlayableChord {
    /// Every tone is well formed and the base frequency is in range.
    pub open spec fn tones_wf(self) -> bool {
        &&& forall|i: int| 0 <= i < self.harmonyms@.len() ==> (#[trigger] self.harmonyms@[i]).wf()
        &&& base_in_range(self.base_centihz as int)
    }

    /// The chord is prerendered: one table per tone, every table holds at
    /// least one sample, and every cursor lies inside its table.
    pub open spec fn prerendered(self) -> bool {
        &&& self.lens@.len() == self.harmonyms@.len()
        &&& self.cursors@.len() == self.harmonyms@.len()
        &&& forall|i: int| 0 <= i < self.lens@.len() ==> 1 <= #[trigger] self.lens@[i]
        &&& forall|i: int|
            0 <= i < self.cursors@.len() ==> #[trigger] self.cursors@[i] < self.lens@[i]
    }

    /// Wraps a chord for playback at the given base frequency, with empty
    /// tables: `prerender` fills them.
    pub fn new(chord: Chord, base_centihz: u64, wavetype: Waveform, strum: bool) -> (r:
        PlayableChord)
        requires
            chord.wf(),
            base_in_range(base_centihz as int),
        ensures
            r.harmonyms@ == chord.tones@,
            r.base_centihz == base_centihz,
            r.wavetype == wavetype,
            r.strum == strum,
            r.current_sample == 0,
            r.lens@.len() == 0,
            r.cursors@.len() == 0,
            r.tones_wf(),
    {
        PlayableChord {
            harmonyms: chord.tones,
            base_centihz,
            wavetype,
            strum,
            current_sample: 0,
            lens: Vec::new(),
            cursors: Vec::new(),
        }
    }

    /// Wraps a chord already bound to its base frequency, with empty
    /// tables.
    pub fn from_full(full: FullChord, wavetype: Waveform, strum: bool) -> (r: PlayableChord)
        requires
            full.wf(),
            base_in_range(full.base_centihz as int),
        ensures
            r.harmonyms@ == full.tones@,
            r.base_centihz == full.base_centihz,
            r.wavetype == wavetype,
            r.strum == strum,
            r.current_sample == 0,
            r.lens@.len() == 0,
            r.cursors@.len() == 0,
            r.tones_wf(),
    {
        PlayableChord {
            harmonyms: full.tones,
            base_centihz: full.base_centihz,
            wavetype,
            strum,
            current_sample: 0,
            lens: Vec::new(),
            cursors: Vec::new(),
        }
    }

    /// Plans one exact-period sample table per tone: each table's length is
    /// the sample rate divided by that tone's rounded frequency, computed
    /// once; playback then only cycles the tables.  Fails when any tone's
    /// rounded frequency is zero or above the sample rate.
    pub fn prerender(&mut self) -> (r: Result<(), SynthError>)
        requires
            old(self).tones_wf(),
        ensures
            final(self).harmonyms@ == old(self).harmonyms@,
            final(self).base_centihz == old(self).base_centihz,
            final(self).wavetype == old(self).wavetype,
            final(self).strum == old(self).strum,
            final(self).current_sample == old(self).current_sample,
            final(self).tones_wf(),
            r matches Ok(()) ==> {
                &&& final(self).prerendered()
                &&& forall|i: int|
                    0 <= i < final(self).lens@.len() ==> #[trigger] final(self).lens@[i]
                        == spec_table_len(
                        final(self).harmonyms@[i],
                        final(self).base_centihz as int,
                    ) && final(self).lens@[i] <= SAMPLE_RATE
                &&& forall|i: int|
                    0 <= i < final(self).cursors@.len() ==> #[trigger] final(self).cursors@[i] == 0
            },
            r matches Err(e) ==> {
                &&& e == SynthError::FrequencyOutOfRange
                &&& exists|i: int|
                    0 <= i < old(self).harmonyms@.len() && (spec_freq_round(
                        #[trigger] old(self).harmonyms@[i],
                        old(self).base_centihz as int,
                    ) == 0 || spec_table_len(
                        old(self).harmonyms@[i],
                        old(self).base_centihz as int,
                    ) == 0)
            },
    {
        let n = self.harmonyms.len();
        let mut lens: Vec<usize> = Vec::new();
        let mut cursors: Vec<usize> = Vec::new();
        let mut i: usize = 0;
        while i < n
            invariant
                i <= n,
                n == self.harmonyms@.len(),
                self.tones_wf(),
                lens@.len() == i,
                cursors@.len() == i,
                forall|k: int|
                    0 <= k < i ==> #[trigger] lens@[k] == spec_table_len(
                        self.harmonyms@[k],
                        self.base_centihz as int,
                    ) && 1 <= lens@[k] <= SAMPLE_RATE,
                forall|k: int| 0 <= k < i ==> #[trigger] cursors@[k] == 0,
            decreases n - i,
        {
            let h = self.harmonyms[i];
            match tone_table_len(&h, self.base_centihz) {
                Some(l) => {
                    lens.push(l);
                    cursors.push(0);
                },
                None => {
                    return Err(SynthError::FrequencyOutOfRange);
                },
            }
            i = i + 1;
        }
        self.lens = lens;
        self.cursors = cursors;
        Ok(())
    }

    /// Produces the table index each tone reads for the next output sample,
    /// then advances: a sounding tone hands out its cursor and steps it
    /// cyclically; in strum mode a tone whose onset lies in the future
    /// stays silent (`None`) and its cursor does not move.
    pub fn next_indices(&mut self) -> (r: Vec<Option<usize>>)
        requires
            old(self).prerendered(),
            old(self).current_sample < u64::MAX,
        ensures
            final(self).harmonyms@ == old(self).harmonyms@,
            final(self).base_centihz == old(self).base_centihz,
            final(self).wavetype == old(self).wavetype,
            final(self).strum == old(self).strum,
            final(self).lens@ == old(self).lens@,
            final(self).current_sample == old(self).current_sample + 1,
            final(self).prerendered(),
            r@.len() == old(self).lens@.len(),
            forall|i: int|
                0 <= i < r@.len() ==> if old(self).strum && strum_silent(
                    i,
                    old(self).current_sample as int,
                ) {
                    (#[trigger] r@[i]) is None && final(self).cursors@[i] == old(
                        self,
                    ).cursors@[i]
                } else {
                    r@[i] == Some(old(self).cursors@[i]) && final(self).cursors@[i] == (old(
                        self,
                    ).cursors@[i] + 1) % (old(self).lens@[i] as int)
                },
    {
        let n = self.lens.len();
        let mut out: Vec<Option<usize>> = Vec::new();
        let mut i: usize = 0;
        let ghost old_cursors = self.cursors@;
        while i < n
            invariant
                i <= n,
                self.harmonyms@ == old(self).harmonyms@,
                self.base_centihz == old(self).base_centihz,
                self.wavetype == old(self).wavetype,
                self.strum == old(self).strum,
                self.lens@ == old(self).lens@,
                self.current_sample == old(self).current_sample,
                self.current_sample < u64::MAX,
                old_cursors == old(self).cursors@,
                n == self.lens@.len(),
                self.cursors@.len() == n,
                old_cursors.len() == n,
                forall|k: int| 0 <= k < n ==> 1 <= #[trigger] self.lens@[k],
                forall|k: int| 0 <= k < n ==> #[trigger] old_cursors[k] < self.lens@[k],
                forall|k: int| i <= k < n ==> #[trigger] self.cursors@[k] == old_cursors[k],
                out@.len() == i,
                forall|k: int|
                    0 <= k < i ==> if self.strum && strum_silent(k, self.current_sample as int) {
                        (#[trigger] out@[k]) is None && self.cursors@[k] == old_cursors[k]
                    } else {
                        out@[k] == Some(old_cursors[k]) && self.cursors@[k] == (old_cursors[k] + 1)
                            % (self.lens@[k] as int)
                    },
            decreases n - i,
        {
            let silent = self.strum && (i as u128) * (SAMPLE_RATE as u128) > (
            self.current_sample as u128) * 20;
            if silent {
                out.push(None);
            } else {
                let c = self.cursors[i];
                let l = self.lens[i];
                out.push(Some(c));
                self.cursors[i] = (c + 1) % l;
            }
            i = i + 1;
        }
        proof {
            assert forall|k: int| 0 <= k < n implies #[trigger] self.cursors@[k]
                < self.lens@[k] by {
                assert(out@[k] == out@[k]);
            }
        }
        self.current_sample = self.current_sample + 1;
        out
    }
}

} // verus!
