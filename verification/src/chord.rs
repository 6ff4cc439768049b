//! Chords: ordered collections of pitch vectors sharing one base
//! frequency.  A chord string is split at uppercase-letter boundaries into
//! syllable groups, and each group is parsed as one note.

use vstd::prelude::*;
use vstd::string::StrSliceExecFns;
use crate::note::{Harmonym, spec_lt, lemma_pitch_le_trans};
use crate::parser::{ParseError, spec_parse, parse_harmonym};
use crate::DEFAULT_BASE_CENTIHZ;

verus! {

/// An uppercase ASCII letter, which opens a new syllable group.
pub open spec fn is_upper(c: char) -> bool {
    65 <= c as int && c as int <= 90
}

/// The position of the first uppercase letter at or after `j`, or the end
/// of the input.
pub open spec fn scan_upper(s: Seq<char>, j: int) -> int
    decreases s.len() - j,
{
    if j < 0 || j >= s.len() {
        s.len() as int
    } else if is_upper(s[j]) {
        j
    } else {
        scan_upper(s, j + 1)
    }
}

/// The syllable groups of `s` from position `i` on: each group runs from
/// its start to the next uppercase letter (or the end).
pub open spec fn spec_split(s: Seq<char>, i: int) -> Seq<Seq<char>>
    decreases s.len() - i,
    via spec_split_decreases
{
    if i < 0 || i >= s.len() {
        Seq::empty()
    } else {
        let e = scan_upper(s, i + 1);
        seq![s.subrange(i, e)] + spec_split(s, e)
    }
}

#[via_fn]
proof fn spec_split_decreases(s: Seq<char>, i: int) {
    if 0 <= i && i < s.len() {
        lemma_scan_upper_bounds(s, i + 1);
    }
}

/// The syllable groups of a chord string: the leading run before the first
/// uppercase letter, then one group per uppercase letter.
pub open spec fn spec_split_pascal(s: Seq<char>) -> Seq<Seq<char>> {
    spec_split(s, 0)
}

proof fn lemma_scan_upper_bounds(s: Seq<char>, j: int)
    requires
        0 <= j <= s.len(),
    ensures
        j <= scan_upper(s, j) <= s.len(),
    decreases s.len() - j,
{
    if j < s.len() && !is_upper(s[j]) {
        lemma_scan_upper_bounds(s, j + 1);
    }
}

/// Splits a chord string into its syllable groups.
pub fn split_pascal(s: &str) -> (r: Vec<&str>)
    ensures
        r@.map_values(|t: &str| t@) == spec_split_pascal(s@),
{
    let n = s.unicode_len();
    let mut groups: Vec<&str> = Vec::new();
    let mut i: usize = 0;
    proof {
        assert(groups@.map_values(|t: &str| t@) + spec_split(s@, 0) =~= spec_split_pascal(s@));
    }
    while i < n
        invariant
            i <= n,
            n == s@.len(),
            groups@.map_values(|t: &str| t@) + spec_split(s@, i as int) =~= spec_split_pascal(
                s@,
            ),
        decreases n - i,
    {
        let mut j: usize = i + 1;
        loop
            invariant
                i + 1 <= j <= n,
                n == s@.len(),
                scan_upper(s@, i + 1) == scan_upper(s@, j as int),
            ensures
                i + 1 <= j <= n,
                scan_upper(s@, i + 1) == j,
            decreases n - j,
        {
            if j >= n {
                proof {
                    assert(scan_upper(s@, j as int) == j);
                }
                break ;
            }
            let c = s.get_char(j);
            let u = c as u32;
            if 65 <= u && u <= 90 {
                proof {
                    assert(is_upper(s@[j as int]));
                    assert(scan_upper(s@, j as int) == j);
                }
                break ;
            }
            proof {
                assert(!is_upper(s@[j as int]));
            }
            j = j + 1;
        }
        let piece = s.substring_char(i, j);
        groups.push(piece);
        proof {
            assert(groups@.map_values(|t: &str| t@).last() == s@.subrange(i as int, j as int));
            assert(groups@.map_values(|t: &str| t@) + spec_split(s@, j as int) =~= spec_split_pascal(
                s@,
            ));
        }
        i = j;
    }
    proof {
        assert(spec_split(s@, i as int) =~= Seq::<Seq<char>>::empty());
        assert(groups@.map_values(|t: &str| t@) =~= spec_split_pascal(s@));
    }
    groups
}

/// An ordered collection of pitch vectors.
#[derive(Debug, Clone)]
pub struct Chord {
    pub tones: Vec<Harmonym>,
}

/// The indices, in increasing order, of the groups of `gs` (from index `i`
/// on) that fail to parse as single notes.
pub open spec fn failing_groups(gs: Seq<Seq<char>>, i: int) -> Seq<int>
    decreases gs.len() - i,
{
    if i < 0 || i >= gs.len() {
        Seq::empty()
    } else if spec_parse(gs[i]) is Err {
        seq![i] + failing_groups(gs, i + 1)
    } else {
        failing_groups(gs, i + 1)
    }
}

/// The tones ascend in pitch: every earlier tone's exact frequency ratio
/// is no greater than every later one's.
pub open spec fn sorted_by_pitch(ts: Seq<Harmonym>) -> bool {
    forall|i: int, j: int| 0 <= i < j < ts.len() ==> !spec_lt(#[trigger] ts[j], #[trigger] ts[i])
}

impl Chord {
    /// Every tone is a well-formed pitch vector.
    pub open spec fn wf(self) -> bool {
        forall|i: int| 0 <= i < self.tones@.len() ==> (#[trigger] self.tones@[i]).wf()
    }

    /// Parses a chord string: the input is split at uppercase-letter
    /// boundaries into syllable groups, each group is parsed independently,
    /// and the tones are collected in input order.  When any group fails,
    /// the whole parse fails with the indices of the failing groups.
    pub fn parse_chord(s: &str) -> (r: Result<Chord, ParseError>)
        ensures
            ({
                let gs = spec_split_pascal(s@);
                &&& r matches Ok(c) ==> {
                    &&& c.tones@.len() == gs.len()
                    &&& forall|i: int|
                        0 <= i < gs.len() ==> spec_parse(gs[i]) == Ok::<Harmonym, ParseError>(
                            c.tones@[i],
                        )
                    &&& c.wf()
                }
                &&& (r is Ok <==> failing_groups(gs, 0).len() == 0)
                &&& r matches Err(e) ==> e matches ParseError::ChordSplitFailure(bad)
                    && bad@.map_values(|u: usize| u as int) == failing_groups(gs, 0)
            }),
    {
        let groups = split_pascal(s);
        let ghost gs = spec_split_pascal(s@);
        let n = groups.len();
        let mut tones: Vec<Harmonym> = Vec::new();
        let mut bad: Vec<usize> = Vec::new();
        let mut i: usize = 0;
        proof {
            assert(gs =~= groups@.map_values(|t: &str| t@));
        }
        while i < n
            invariant
                i <= n,
                n == groups@.len(),
                gs == groups@.map_values(|t: &str| t@),
                gs.len() == n,
                tones@.len() == i,
                forall|k: int|
                    0 <= k < i && spec_parse(gs[k]) is Ok ==> spec_parse(gs[k]) == Ok::<
                        Harmonym,
                        ParseError,
                    >(tones@[k]),
                forall|k: int| 0 <= k < i ==> (#[trigger] tones@[k]).wf() || spec_parse(
                    gs[k],
                ) is Err,
                bad@.map_values(|u: usize| u as int) + failing_groups(gs, i as int)
                    =~= failing_groups(gs, 0),
                bad@.len() == 0 ==> forall|k: int| 0 <= k < i ==> spec_parse(#[trigger] gs[k]) is Ok,
            decreases n - i,
        {
            let g = groups[i];
            proof {
                assert(g@ == gs[i as int]);
            }
            match parse_harmonym(g) {
                Ok(h) => {
                    tones.push(h);
                    proof {
                        assert(failing_groups(gs, i as int) == failing_groups(gs, i + 1));
                    }
                },
                Err(_) => {
                    tones.push(Harmonym::default());
                    bad.push(i);
                    proof {
                        assert(failing_groups(gs, i as int) == seq![i as int] + failing_groups(
                            gs,
                            i + 1,
                        ));
                        assert(bad@.map_values(|u: usize| u as int) + failing_groups(gs, i + 1)
                            =~= failing_groups(gs, 0));
                    }
                },
            }
            i = i + 1;
        }
        proof {
            assert(failing_groups(gs, n as int) =~= Seq::<int>::empty());
            assert(bad@.map_values(|u: usize| u as int) =~= failing_groups(gs, 0));
        }
        if bad.len() == 0 {
            proof {
                assert(forall|k: int| 0 <= k < n ==> spec_parse(#[trigger] gs[k]) is Ok);
            }
            Ok(Chord { tones })
        } else {
            Err(ParseError::ChordSplitFailure(bad))
        }
    }

    /// Sorts the tones ascending by exact pitch; the collection of tones is
    /// unchanged as a multiset.
    pub fn sort(&mut self)
        requires
            old(self).wf(),
        ensures
            final(self).wf(),
            final(self).tones@.len() == old(self).tones@.len(),
            final(self).tones@.to_multiset() == old(self).tones@.to_multiset(),
            sorted_by_pitch(final(self).tones@),
    {
        broadcast use vstd::seq_lib::group_to_multiset_ensures;

        let n = self.tones.len();
        let ghost orig = self.tones@;
        let mut i: usize = 1;
        if n <= 1 {
            return ;
        }
        while i < n
            invariant
                1 <= i <= n,
                n == self.tones@.len(),
                self.wf(),
                self.tones@.to_multiset() == orig.to_multiset(),
                forall|p: int, q: int|
                    0 <= p < q < i ==> !spec_lt(
                        #[trigger] self.tones@[q],
                        #[trigger] self.tones@[p],
                    ),
            decreases n - i,
        {
            let mut j: usize = i;
            loop
                invariant
                    j <= i < n,
                    n == self.tones@.len(),
                    self.wf(),
                    self.tones@.to_multiset() == orig.to_multiset(),
                    forall|p: int, q: int|
                        0 <= p < q <= i && q != j ==> !spec_lt(
                            #[trigger] self.tones@[q],
                            #[trigger] self.tones@[p],
                        ),
                    forall|q: int|
                        j < q <= i ==> !spec_lt(
                            #[trigger] self.tones@[q],
                            self.tones@[j as int],
                        ),
                ensures
                    j <= i < n,
                    n == self.tones@.len(),
                    self.wf(),
                    self.tones@.to_multiset() == orig.to_multiset(),
                    forall|p: int, q: int|
                        0 <= p < q <= i && q != j ==> !spec_lt(
                            #[trigger] self.tones@[q],
                            #[trigger] self.tones@[p],
                        ),
                    forall|q: int|
                        j < q <= i ==> !spec_lt(
                            #[trigger] self.tones@[q],
                            self.tones@[j as int],
                        ),
                    j == 0 || !spec_lt(self.tones@[j as int], self.tones@[j - 1]),
                decreases j,
            {
                if j == 0 {
                    break ;
                }
                let a = self.tones[j - 1];
                let b = self.tones[j];
                if !b.lt(&a) {
                    break ;
                }
                let ghost before = self.tones@;
                self.tones[j - 1] = b;
                self.tones[j] = a;
                proof {
                    broadcast use vstd::seq_lib::to_multiset_update;
                    broadcast use vstd::multiset::group_multiset_axioms;
                    broadcast use vstd::multiset::group_multiset_properties;

                    assert(self.tones@ =~= before.update(j - 1, b).update(j as int, a));
                    assert(before.update(j - 1, b)[j as int] == b);
                    assert(before.to_multiset().contains(a)) by {
                        broadcast use vstd::seq_lib::to_multiset_contains;

                        assert(before[j - 1] == a);
                        assert(before.contains(a));
                    }
                    assert(self.tones@.to_multiset() =~= before.to_multiset());
                }
                j = j - 1;
            }
            proof {
                let ts = self.tones@;
                assert forall|p: int, q: int| 0 <= p < q <= i implies !spec_lt(
                    #[trigger] ts[q],
                    #[trigger] ts[p],
                ) by {
                    if q == j && j > 0 && p < j - 1 {
                        assert(!spec_lt(ts[j - 1], ts[p]));
                        assert(!spec_lt(ts[j as int], ts[j - 1]));
                        lemma_pitch_le_trans(ts[p], ts[j - 1], ts[j as int]);
                    }
                }
            }
            i = i + 1;
        }
    }
}

/// A chord bound to a shared base frequency, in hundredths of a hertz.
#[derive(Debug, Clone)]
pub struct FullChord {
    pub tones: Vec<Harmonym>,
    pub base_centihz: u64,
}

impl FullChord {
    /// Every tone is a well-formed pitch vector.
    pub open spec fn wf(self) -> bool {
        forall|i: int| 0 <= i < self.tones@.len() ==> (#[trigger] self.tones@[i]).wf()
    }
}

impl Chord {
    /// Binds the chord to a base frequency given in hundredths of a hertz.
    pub fn with_base(self, base_centihz: u64) -> (r: FullChord)
        ensures
            r.tones@ == self.tones@,
            r.base_centihz == base_centihz,
    {
        FullChord { tones: self.tones, base_centihz }
    }

    /// Binds the chord to the default reference pitch.
    pub fn with_default_base(self) -> (r: FullChord)
        ensures
            r.tones@ == self.tones@,
            r.base_centihz == DEFAULT_BASE_CENTIHZ,
    {
        FullChord { tones: self.tones, base_centihz: DEFAULT_BASE_CENTIHZ }
    }
}

impl From<Vec<Harmonym>> for Chord {
    /// Wraps a tone list as a chord, in the given order.
    fn from(value: Vec<Harmonym>) -> (r: Chord) {
        Chord { tones: value }
    }
}

impl vstd::std_specs::convert::FromSpecImpl<Vec<Harmonym>> for Chord {
    open spec fn obeys_from_spec() -> bool {
        true
    }

    open spec fn from_spec(value: Vec<Harmonym>) -> Chord {
        Chord { tones: value }
    }
}

} // verus!
