//! The notation parser.  A note string is one root syllable (the anchor
//! dimension), optional suffix syllables for every higher dimension in
//! increasing order, and a trailing run of octave markers (`+` or `-`, never
//! mixed).  Anything left over is rejected.

use vstd::prelude::*;
use vstd::string::StrSliceExecFns;
use crate::note::{Harmonym, NotePart, MAX_OCTAVE_RUN};
use crate::vocab::{
    root_match_spec, suffix_match_spec, root_match, suffix_match, lemma_root_match_bounds,
    lemma_suffix_match_bounds,
};

verus! {

/// Why a notation string was rejected.
#[derive(Debug, Clone, PartialEq, Eq)]
pub enum ParseError {
    /// The input's leading syllable matches no dimension's root vocabulary.
    NoRootMatch,
    /// After full matching, unconsumed characters remain; this includes
    /// mixed or over-long octave-marker runs.
    TrailingInput,
    /// One or more syllable groups of a chord string failed to parse; the
    /// indices name the failing groups.
    ChordSplitFailure(Vec<usize>),
}

/// The length of the run of copies of `c` in `s` starting at `pos`.
pub open spec fn run_len(s: Seq<char>, pos: int, c: char) -> int
    decreases s.len() - pos,
{
    if pos < 0 || pos >= s.len() {
        0
    } else if s[pos] == c {
        1 + run_len(s, pos + 1, c)
    } else {
        0
    }
}

/// The first dimension, tried in order 1 through 5, whose root vocabulary
/// matches a prefix of the input: the anchor dimension, the matched length
/// and the matched degree.
pub open spec fn find_root_spec(s: Seq<char>) -> Option<(int, int, i8)> {
    match root_match_spec(s, 0, 1) {
        Some(m) => Some((1int, m.0, m.1)),
        None => match root_match_spec(s, 0, 2) {
            Some(m) => Some((2int, m.0, m.1)),
            None => match root_match_spec(s, 0, 3) {
                Some(m) => Some((3int, m.0, m.1)),
                None => match root_match_spec(s, 0, 4) {
                    Some(m) => Some((4int, m.0, m.1)),
                    None => match root_match_spec(s, 0, 5) {
                        Some(m) => Some((5int, m.0, m.1)),
                        None => None,
                    },
                },
            },
        },
    }
}

/// The position reached after the optional suffix matches of dimensions
/// `a + 1` through `d`, starting from position `p0` behind the anchor
/// dimension `a`'s root syllable.
pub open spec fn spos(s: Seq<char>, p0: int, a: int, d: int) -> int
    decreases d,
{
    if d <= a || d < 2 {
        p0
    } else {
        let q = spos(s, p0, a, d - 1);
        match suffix_match_spec(s, q, d) {
            Some(m) => q + m.0,
            None => q,
        }
    }
}

/// The degree that the suffix pass assigns to dimension `d`: the matched
/// suffix degree, or 0 when that dimension's suffix is absent.
pub open spec fn sdeg(s: Seq<char>, p0: int, a: int, d: int) -> i8 {
    if d <= a || d < 2 {
        0i8
    } else {
        match suffix_match_spec(s, spos(s, p0, a, d - 1), d) {
            Some(m) => m.1,
            None => 0i8,
        }
    }
}

/// The degree of dimension `d` (2 through 5) after root and suffix
/// matching: the root degree on the anchor, a suffix degree above it,
/// zero below it.
pub open spec fn degree_at(s: Seq<char>, a: int, g: i8, p0: int, d: int) -> i8 {
    if d == a {
        g
    } else if d > a {
        sdeg(s, p0, a, d)
    } else {
        0i8
    }
}

/// The parse of one note string: the anchor root, the optional suffixes in
/// increasing dimension order, then one unmixed octave-marker run that must
/// reach the end of the input.
pub open spec fn spec_parse(s: Seq<char>) -> Result<Harmonym, ParseError> {
    match find_root_spec(s) {
        None => Err(ParseError::NoRootMatch),
        Some((a, l, g)) => {
            let p1 = spos(s, l, a, 5);
            let plus = run_len(s, p1, '+');
            let minus = run_len(s, p1, '-');
            let e1: int = if plus > 0 {
                plus
            } else {
                -minus
            };
            let pend = p1 + (if plus > 0 {
                plus
            } else {
                minus
            });
            if pend != s.len() || e1 > MAX_OCTAVE_RUN as int || e1 < -(MAX_OCTAVE_RUN as int) {
                Err(ParseError::TrailingInput)
            } else {
                Ok(
                    Harmonym {
                        notes: [
                            NotePart { dimension: 1, degree: e1 as i8 },
                            NotePart { dimension: 2, degree: degree_at(s, a, g, l, 2) },
                            NotePart { dimension: 3, degree: degree_at(s, a, g, l, 3) },
                            NotePart { dimension: 4, degree: degree_at(s, a, g, l, 4) },
                            NotePart { dimension: 5, degree: degree_at(s, a, g, l, 5) },
                        ],
                    },
                )
            }
        },
    }
}

/// The characters of a string, collected into a vector.
pub fn str_to_chars(s: &str) -> (r: Vec<char>)
    ensures
        r@ == s@,
{
    let n = s.unicode_len();
    let mut v: Vec<char> = Vec::new();
    let mut i: usize = 0;
    while i < n
        invariant
            i <= n,
            n == s@.len(),
            v@ =~= s@.subrange(0, i as int),
        decreases n - i,
    {
        let c = s.get_char(i);
        v.push(c);
        i = i + 1;
    }
    proof {
        assert(v@ =~= s@);
    }
    v
}

/// Counts the copies of `c` in `s` from `pos` on.
pub fn count_run(s: &Vec<char>, pos: usize, c: char) -> (r: usize)
    requires
        pos <= s@.len(),
    ensures
        r == run_len(s@, pos as int, c),
        pos + r <= s@.len(),
{
    let slen = s.len();
    let mut j: usize = 0;
    while pos + j < slen && s[pos + j] == c
        invariant
            pos + j <= slen,
            slen == s@.len(),
            run_len(s@, pos as int, c) == j + run_len(s@, pos + j, c),
        decreases slen - j,
    {
        j = j + 1;
    }
    j
}

/// Parses one note string into its pitch vector, or says why it cannot be:
/// `NoRootMatch` when no dimension's root vocabulary matches a prefix,
/// `TrailingInput` when characters remain after matching (a mixed or
/// over-long octave-marker run included).
#[verifier::rlimit(80)]
pub fn parse_harmonym(input: &str) -> (r: Result<Harmonym, ParseError>)
    ensures
        r == spec_parse(input@),
        r matches Ok(h) ==> h.wf(),
{
    let s = str_to_chars(input);
    let (a, l, g): (u8, usize, i8) = if let Some(m) = root_match(&s, 0, 1) {
        (1, m.0, m.1)
    } else if let Some(m) = root_match(&s, 0, 2) {
        (2, m.0, m.1)
    } else if let Some(m) = root_match(&s, 0, 3) {
        (3, m.0, m.1)
    } else if let Some(m) = root_match(&s, 0, 4) {
        (4, m.0, m.1)
    } else if let Some(m) = root_match(&s, 0, 5) {
        (5, m.0, m.1)
    } else {
        proof {
            assert(find_root_spec(s@) is None);
        }
        return Err(ParseError::NoRootMatch);
    };
    proof {
        lemma_root_match_bounds(s@, 0, a as int);
        assert(find_root_spec(s@) == Some((a as int, l as int, g)));
    }
    let ghost a_i = a as int;
    let ghost l_i = l as int;
    let mut pos: usize = l;
    let mut e2: i8 = if a == 2 {
        g
    } else {
        0
    };
    let mut e3: i8 = 0;
    let mut e4: i8 = 0;
    let mut e5: i8 = 0;
    proof {
        assert(spos(s@, l_i, a_i, 1) == l_i);
    }
    if a < 2 {
        if let Some(m) = suffix_match(&s, pos, 2) {
            proof {
                lemma_suffix_match_bounds(s@, pos as int, 2);
            }
            e2 = m.1;
            pos = pos + m.0;
        }
    }
    proof {
        assert(pos as int == spos(s@, l_i, a_i, 2));
        assert(e2 == degree_at(s@, a_i, g, l_i, 2));
    }
    if a < 3 {
        if let Some(m) = suffix_match(&s, pos, 3) {
            proof {
                lemma_suffix_match_bounds(s@, pos as int, 3);
            }
            e3 = m.1;
            pos = pos + m.0;
        }
    } else if a == 3 {
        e3 = g;
    }
    proof {
        assert(pos as int == spos(s@, l_i, a_i, 3));
        assert(e3 == degree_at(s@, a_i, g, l_i, 3));
    }
    if a < 4 {
        if let Some(m) = suffix_match(&s, pos, 4) {
            proof {
                lemma_suffix_match_bounds(s@, pos as int, 4);
            }
            e4 = m.1;
            pos = pos + m.0;
        }
    } else if a == 4 {
        e4 = g;
    }
    proof {
        assert(pos as int == spos(s@, l_i, a_i, 4));
        assert(e4 == degree_at(s@, a_i, g, l_i, 4));
    }
    if a < 5 {
        if let Some(m) = suffix_match(&s, pos, 5) {
            proof {
                lemma_suffix_match_bounds(s@, pos as int, 5);
            }
            e5 = m.1;
            pos = pos + m.0;
        }
    } else if a == 5 {
        e5 = g;
    }
    proof {
        assert(pos as int == spos(s@, l_i, a_i, 5));
        assert(e5 == degree_at(s@, a_i, g, l_i, 5));
    }
    let slen = s.len();
    let plus = count_run(&s, pos, '+');
    let e1: i8;
    if plus > 0 {
        if plus != slen - pos || plus > MAX_OCTAVE_RUN {
            return Err(ParseError::TrailingInput);
        }
        e1 = plus as i8;
    } else {
        let minus = count_run(&s, pos, '-');
        if minus != slen - pos || minus > MAX_OCTAVE_RUN {
            return Err(ParseError::TrailingInput);
        }
        e1 = -(minus as i8);
    }
    let h = Harmonym {
        notes: [
            NotePart { dimension: 1, degree: e1 },
            NotePart { dimension: 2, degree: e2 },
            NotePart { dimension: 3, degree: e3 },
            NotePart { dimension: 4, degree: e4 },
            NotePart { dimension: 5, degree: e5 },
        ],
    };
    proof {
        lemma_suffix_match_bounds(s@, spos(s@, l_i, a_i, 1), 2);
        lemma_suffix_match_bounds(s@, spos(s@, l_i, a_i, 2), 3);
        lemma_suffix_match_bounds(s@, spos(s@, l_i, a_i, 3), 4);
        lemma_suffix_match_bounds(s@, spos(s@, l_i, a_i, 4), 5);
        lemma_root_match_bounds(s@, 0, a_i);
        assert(forall|i: int| 0 <= i < 5 ==> #[trigger] h.notes[i].dimension == i + 1);
        assert(h.wf());
        assert(Ok::<Harmonym, ParseError>(h) == spec_parse(input@));
    }
    Ok(h)
}

} // verus!
