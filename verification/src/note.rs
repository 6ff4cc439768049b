//! The pitch model: a `NotePart` is one lattice dimension's contribution, a
//! `Harmonym` is the five-dimensional exponent vector, and `eval` folds the
//! five contributions into one exact, reduced frequency ratio.

use vstd::prelude::*;
use vstd::string::StringExecFns;
use crate::vocab::{root_chars, suffix_chars};
use crate::ratio::{
    Ratio, canon_num, canon_den, lemma_canon, lemma_canon_equivalent, pow_fits,
};
use crate::arith::spec_gcd;
use vstd::arithmetic::power::{pow, lemma_pow_increases, lemma_pow_positive};
use vstd::arithmetic::power2::{lemma_pow2, lemma2_to64};
use vstd::arithmetic::mul::{lemma_mul_upper_bound, lemma_mul_strictly_positive};

verus! {

/// The largest octave-shift magnitude the engine accepts: larger shifts
/// would overflow the 64-bit evaluation of the frequency ratio.
pub const MAX_OCTAVE_RUN: usize = 32;

/// One lattice dimension's contribution: the dimension index (1 is the
/// octave axis, 2 through 5 the four prime-like axes) and a signed degree.
#[derive(Debug, Clone, Copy, PartialEq, Eq, Structural)]
pub struct NotePart {
    pub dimension: u8,
    pub degree: i8,
}

impl NotePart {
    /// The dimension index.
    pub fn dim(&self) -> (r: u8)
        ensures
            r == self.dimension,
    {
        self.dimension
    }

    /// The signed degree.
    pub fn degree(&self) -> (r: i8)
        ensures
            r == self.degree,
    {
        self.degree
    }

    /// Builds a part when the degree lies in `-3 ..= 3` and the dimension is
    /// at most 5; any other pair is refused.
    pub fn new(dimension: u8, degree: i8) -> (r: Option<NotePart>)
        ensures
            r == if -3 <= degree <= 3 && dimension <= 5 {
                Some(NotePart { dimension, degree })
            } else {
                None::<NotePart>
            },
    {
        if degree < 4 && degree > -4 && dimension <= 5 {
            Some(NotePart { dimension, degree })
        } else {
            None
        }
    }
}

/// The numerator of a dimension's base ratio (dimension -> base ratio:
/// 1 -> 2/1, 2 -> 3/2, 3 -> 5/4, 4 -> 7/4, 5 -> 11/4).
pub open spec fn base_num(d: int) -> int {
    if d == 1 {
        2
    } else if d == 2 {
        3
    } else if d == 3 {
        5
    } else if d == 4 {
        7
    } else if d == 5 {
        11
    } else {
        1
    }
}

/// The denominator of a dimension's base ratio.
pub open spec fn base_den(d: int) -> int {
    if d == 1 {
        1
    } else if d == 2 {
        2
    } else if d == 3 || d == 4 || d == 5 {
        4
    } else {
        1
    }
}

/// The base ratio of a lattice dimension.
pub fn dim2frac(dim: u8) -> (r: Ratio)
    ensures
        r.n() == base_num(dim as int),
        r.d() == base_den(dim as int),
        r.wf(),
{
    let pair: (u32, u32) = match dim {
        1 => (2, 1),
        2 => (3, 2),
        3 => (5, 4),
        4 => (7, 4),
        5 => (11, 4),
        _ => (1, 1),
    };
    Ratio { dividend: pair.0 as u64, divisor: pair.1 as u64 }
}

/// The numerator contributed by degree `deg` on dimension `d`: the base
/// ratio raised to the unsigned degree, inverted first when `deg < 0`.
pub open spec fn part_num(d: int, deg: int) -> int {
    if deg >= 0 {
        pow(base_num(d), deg as nat)
    } else {
        pow(base_den(d), (-deg) as nat)
    }
}

/// The denominator contributed by degree `deg` on dimension `d`.
pub open spec fn part_den(d: int, deg: int) -> int {
    if deg >= 0 {
        pow(base_den(d), deg as nat)
    } else {
        pow(base_num(d), (-deg) as nat)
    }
}

/// The atomic pitch unit: exactly one `NotePart` per dimension 1 through 5,
/// in fixed order.
#[derive(Debug, Clone, Copy, PartialEq, Eq)]
pub struct Harmonym {
    pub notes: [NotePart; 5],
}

impl Harmonym {
    /// The degree on dimension `d` (1 through 5).
    pub open spec fn deg(self, d: int) -> int {
        self.notes[d - 1].degree as int
    }

    /// Exactly one part per dimension, in order, with degrees in range:
    /// `-3 ..= 3` on dimensions 2 through 5, and an octave shift of
    /// magnitude at most `MAX_OCTAVE_RUN` on dimension 1.
    pub open spec fn wf(self) -> bool {
        &&& forall|i: int| 0 <= i < 5 ==> #[trigger] self.notes[i].dimension == i + 1
        &&& -(MAX_OCTAVE_RUN as int) <= self.deg(1) <= MAX_OCTAVE_RUN as int
        &&& forall|d: int| 2 <= d <= 5 ==> -3 <= #[trigger] self.deg(d) <= 3
    }

    /// The unison: degree zero on every axis.
    pub open spec fn spec_default() -> Harmonym {
        Harmonym {
            notes: [
                NotePart { dimension: 1, degree: 0 },
                NotePart { dimension: 2, degree: 0 },
                NotePart { dimension: 3, degree: 0 },
                NotePart { dimension: 4, degree: 0 },
                NotePart { dimension: 5, degree: 0 },
            ],
        }
    }
}

impl Default for Harmonym {
    /// The unison `Harmonym`: degree zero on every axis.
    fn default() -> (r: Harmonym)
        ensures
            r == Harmonym::spec_default(),
            r.wf(),
    {
        let r = Harmonym {
            notes: [
                NotePart { dimension: 1, degree: 0 },
                NotePart { dimension: 2, degree: 0 },
                NotePart { dimension: 3, degree: 0 },
                NotePart { dimension: 4, degree: 0 },
                NotePart { dimension: 5, degree: 0 },
            ],
        };
        proof {
            assert(forall|i: int| 0 <= i < 5 ==> #[trigger] r.notes[i].dimension == i + 1);
        }
        r
    }
}

/// The product of the numerator contributions of dimensions 1 through `i`.
pub open spec fn prefix_num(h: Harmonym, i: int) -> int
    decreases i,
{
    if i <= 0 {
        1
    } else {
        prefix_num(h, i - 1) * part_num(i, h.deg(i))
    }
}

/// The product of the denominator contributions of dimensions 1 through `i`.
pub open spec fn prefix_den(h: Harmonym, i: int) -> int
    decreases i,
{
    if i <= 0 {
        1
    } else {
        prefix_den(h, i - 1) * part_den(i, h.deg(i))
    }
}

/// The unreduced numerator of the evaluated frequency ratio.
pub open spec fn spec_num(h: Harmonym) -> int {
    prefix_num(h, 5)
}

/// The unreduced denominator of the evaluated frequency ratio.
pub open spec fn spec_den(h: Harmonym) -> int {
    prefix_den(h, 5)
}

/// The per-dimension cap on either contribution of a well-formed part.
pub open spec fn part_cap(d: int) -> int {
    if d == 1 {
        0x1_0000_0000
    } else if d == 2 {
        27
    } else if d == 3 {
        125
    } else if d == 4 {
        343
    } else if d == 5 {
        1331
    } else {
        1
    }
}

/// Both contributions of a well-formed degree are positive and capped.
pub proof fn lemma_part_bounds(d: int, deg: int)
    requires
        1 <= d <= 5,
        d == 1 ==> -(MAX_OCTAVE_RUN as int) <= deg <= MAX_OCTAVE_RUN as int,
        d != 1 ==> -3 <= deg <= 3,
    ensures
        0 < part_num(d, deg) <= part_cap(d),
        0 < part_den(d, deg) <= part_cap(d),
{
    let m: nat = if deg >= 0 {
        deg as nat
    } else {
        (-deg) as nat
    };
    lemma_pow_positive(base_num(d), m);
    lemma_pow_positive(base_den(d), m);
    lemma_pow_positive(1, m);
    vstd::arithmetic::power::lemma1_pow(m);
    if d == 1 {
        assert(pow(2, 32) == 0x1_0000_0000) by {
            lemma_pow2(32);
            lemma2_to64();
        }
        lemma_pow_increases(2, m, 32);
    } else {
        assert(pow(2, 3) == 8 && pow(3, 3) == 27 && pow(4, 3) == 64 && pow(5, 3) == 125
            && pow(7, 3) == 343 && pow(11, 3) == 1331) by {
            reveal_with_fuel(pow, 4);
        }
        lemma_pow_increases(base_num(d) as nat, m, 3);
        lemma_pow_increases(base_den(d) as nat, m, 3);
    }
}

/// The running products of a well-formed `Harmonym` are positive and stay
/// below `0x5BD6_B99B_0000_0000` (2^32 * 27 * 125 * 343 * 1331), so every
/// intermediate of the evaluation fits in a machine word.
pub proof fn lemma_prefix_bounds(h: Harmonym, i: int)
    requires
        h.wf(),
        0 <= i <= 5,
    ensures
        0 < prefix_num(h, i) <= 0x5BD6_B99B_0000_0000,
        0 < prefix_den(h, i) <= 0x5BD6_B99B_0000_0000,
    decreases i,
{
    if i == 0 {
    } else {
        lemma_prefix_bounds_helper(h, i);
    }
}

proof fn lemma_prefix_cap(h: Harmonym, i: int)
    requires
        h.wf(),
        0 <= i <= 5,
    ensures
        0 < prefix_num(h, i) <= prefix_cap(i),
        0 < prefix_den(h, i) <= prefix_cap(i),
    decreases i,
{
    if i > 0 {
        lemma_prefix_cap(h, i - 1);
        lemma_part_bounds(i, h.deg(i));
        lemma_mul_strictly_positive(prefix_num(h, i - 1), part_num(i, h.deg(i)));
        lemma_mul_strictly_positive(prefix_den(h, i - 1), part_den(i, h.deg(i)));
        lemma_mul_upper_bound(
            prefix_num(h, i - 1),
            prefix_cap(i - 1),
            part_num(i, h.deg(i)),
            part_cap(i),
        );
        lemma_mul_upper_bound(
            prefix_den(h, i - 1),
            prefix_cap(i - 1),
            part_den(i, h.deg(i)),
            part_cap(i),
        );
    }
}

/// The product of the caps of dimensions 1 through `i`.
pub open spec fn prefix_cap(i: int) -> int
    decreases i,
{
    if i <= 0 {
        1
    } else {
        prefix_cap(i - 1) * part_cap(i)
    }
}

proof fn lemma_prefix_bounds_helper(h: Harmonym, i: int)
    requires
        h.wf(),
        0 <= i <= 5,
    ensures
        0 < prefix_num(h, i) <= 0x5BD6_B99B_0000_0000,
        0 < prefix_den(h, i) <= 0x5BD6_B99B_0000_0000,
{
    lemma_prefix_cap(h, i);
    assert(prefix_cap(0) == 1 && prefix_cap(1) == 0x1_0000_0000 && prefix_cap(2)
        == 0x1_0000_0000 * 27 && prefix_cap(3) == 0x1_0000_0000 * 27 * 125 && prefix_cap(4)
        == 0x1_0000_0000 * 27 * 125 * 343 && prefix_cap(5) == 0x5BD6_B99B_0000_0000) by {
        reveal_with_fuel(prefix_cap, 7);
    }
    assert(prefix_cap(i) <= 0x5BD6_B99B_0000_0000);
}

impl Harmonym {
    /// Evaluates the pitch vector to its exact frequency ratio: each
    /// dimension's base ratio is raised to that dimension's unsigned degree
    /// (inverted first when the degree is negative) and the five
    /// contributions are multiplied, reducing at every step.  The result is
    /// the value `spec_num / spec_den` in lowest terms.
    pub fn eval(&self) -> (r: Ratio)
        requires
            self.wf(),
        ensures
            r.wf(),
            r.reduced(),
            r.n() == canon_num(spec_num(*self), spec_den(*self)),
            r.d() == canon_den(spec_num(*self), spec_den(*self)),
    {
        let mut acc = Ratio::one();
        proof {
            assert(spec_gcd(1, 1) == 1) by {
                reveal_with_fuel(spec_gcd, 3);
            }
            assert(prefix_num(*self, 0) == 1 && prefix_den(*self, 0) == 1);
        }
        let mut i: usize = 0;
        while i < 5
            invariant
                self.wf(),
                i <= 5,
                acc.wf(),
                acc.reduced(),
                acc.n() == canon_num(prefix_num(*self, i as int), prefix_den(*self, i as int)),
                acc.d() == canon_den(prefix_num(*self, i as int), prefix_den(*self, i as int)),
            decreases 5 - i,
        {
            let p = self.notes[i];
            let d1 = i + 1;
            proof {
                assert(self.notes[i as int].dimension == i + 1);
                assert(p.degree as int == self.deg(i + 1));
                if i + 1 >= 2 {
                    assert(-3 <= self.deg(i + 1) <= 3);
                }
            }
            let factor = if p.degree >= 0 {
                dim2frac(p.dimension)
            } else {
                dim2frac(p.dimension).flip()
            };
            let mag: u32 = if p.degree >= 0 {
                p.degree as u32
            } else {
                (-(p.degree as i32)) as u32
            };
            proof {
                lemma_part_bounds(d1 as int, p.degree as int);
                lemma_pow_fits_for_factor(factor, mag as nat, d1 as int);
            }
            let pw = factor.pow(mag);
            proof {
                let dd = d1 as int;
                let degree = p.degree as int;
                let pn = pow(factor.n(), mag as nat);
                let pd = pow(factor.d(), mag as nat);
                assert(pn == part_num(dd, degree) && pd == part_den(dd, degree));
                lemma_pow_positive(factor.n(), mag as nat);
                lemma_pow_positive(factor.d(), mag as nat);
                let n0 = prefix_num(*self, i as int);
                let e0 = prefix_den(*self, i as int);
                let n1 = prefix_num(*self, dd);
                let e1 = prefix_den(*self, dd);
                assert(n1 == n0 * pn && e1 == e0 * pd);
                lemma_prefix_bounds(*self, i as int);
                lemma_prefix_bounds(*self, dd);
                lemma_canon(n0, e0);
                lemma_canon(pn, pd);
                let g1 = spec_gcd(n0, e0);
                let g2 = spec_gcd(pn, pd);
                assert((acc.n() * pw.n()) * e1 == n1 * (acc.d() * pw.d())) by (nonlinear_arith)
                    requires
                        n0 == g1 * acc.n(),
                        e0 == g1 * acc.d(),
                        pn == g2 * pw.n(),
                        pd == g2 * pw.d(),
                        n1 == n0 * pn,
                        e1 == e0 * pd,
                        g1 > 0,
                        g2 > 0,
                {}
                lemma_mul_strictly_positive(acc.n(), pw.n());
                lemma_mul_strictly_positive(acc.d(), pw.d());
                lemma_canon_equivalent(acc.n() * pw.n(), acc.d() * pw.d(), n1, e1);
                lemma_canon(n1, e1);
            }
            acc = acc.multiply(pw);
            i = d1;
        }
        acc
    }
}

impl NotePart {
    /// The root form of this part's syllable: `Ah` on the octave axis
    /// whatever the degree, the capitalized vocabulary entry on dimensions
    /// 2 through 5, and empty for degree 0 or an unknown dimension.
    pub fn to_root(&self) -> (r: String)
        ensures
            r@ == root_chars(self.dimension as int, self.degree as int),
    {
        let s: &'static str = match self.dimension {
            1 => "Ah",
            2 => match self.degree {
                1 => "Chy",
                2 => "Scy",
                3 => "Xcy",
                -1 => "Fu",
                -2 => "Schu",
                -3 => "Ju",
                _ => "",
            },
            3 => match self.degree {
                1 => "Ly",
                2 => "Dry",
                3 => "Drvy",
                -1 => "Su",
                -2 => "Sru",
                -3 => "Srvu",
                _ => "",
            },
            4 => match self.degree {
                1 => "My",
                2 => "Mry",
                3 => "Mrvy",
                -1 => "Pu",
                -2 => "Pru",
                -3 => "Prvu",
                _ => "",
            },
            5 => match self.degree {
                1 => "Zy",
                2 => "Zry",
                3 => "Zrvy",
                -1 => "Tschu",
                -2 => "Kru",
                -3 => "Krvu",
                _ => "",
            },
            _ => "",
        };
        proof {
            reveal_strlit("");
            assert(""@ =~= Seq::<char>::empty());
        }
        String::from_str(s)
    }

    /// The suffix form of this part's syllable.
    pub fn to_suffix(&self) -> (r: String)
        ensures
            r@ == suffix_chars(self.dimension as int, self.degree as int),
    {
        let s: &'static str = match self.dimension {
            1 => "ah",
            2 => match self.degree {
                1 => "chi",
                2 => "sci",
                3 => "xci",
                -1 => "f",
                -2 => "sch",
                -3 => "j",
                _ => "",
            },
            3 => match self.degree {
                1 => "li",
                2 => "dri",
                3 => "drvi",
                -1 => "s",
                -2 => "sr",
                -3 => "srv",
                _ => "",
            },
            4 => match self.degree {
                1 => "mi",
                2 => "mri",
                3 => "mrvi",
                -1 => "p",
                -2 => "pr",
                -3 => "prv",
                _ => "",
            },
            5 => match self.degree {
                1 => "zi",
                2 => "zri",
                3 => "zrvi",
                -1 => "tsch",
                -2 => "kr",
                -3 => "krv",
                _ => "",
            },
            _ => "",
        };
        proof {
            reveal_strlit("");
            assert(""@ =~= Seq::<char>::empty());
        }
        String::from_str(s)
    }
}

/// The octave markers of a rendered note: a run of `+` for a nonnegative
/// octave degree, a run of `-` for a negative one.
pub open spec fn marker_chars(e: int) -> Seq<char> {
    if e >= 0 {
        Seq::new(e as nat, |i: int| '+')
    } else {
        Seq::new((-e) as nat, |i: int| '-')
    }
}

/// The anchor dimension of a rendered note: the lowest of dimensions 2
/// through 5 with a nonzero degree, or the octave axis when all four rest.
pub open spec fn anchor_of(h: Harmonym) -> int {
    if h.deg(2) != 0 {
        2
    } else if h.deg(3) != 0 {
        3
    } else if h.deg(4) != 0 {
        4
    } else if h.deg(5) != 0 {
        5
    } else {
        1
    }
}

/// The suffix syllables of dimensions above `a`, up to dimension `d`, in
/// increasing order, skipping degree-0 dimensions.
pub open spec fn sufs_to(h: Harmonym, a: int, d: int) -> Seq<char>
    decreases d,
{
    if d <= a || d < 2 {
        Seq::empty()
    } else {
        sufs_to(h, a, d - 1) + (if h.deg(d) != 0 {
            suffix_chars(d, h.deg(d))
        } else {
            Seq::empty()
        })
    }
}

/// The rendered notation of a pitch vector: the anchor dimension's root
/// syllable, the suffix syllables of the higher nonzero dimensions in
/// increasing order, and the octave-marker run.
pub open spec fn spec_render(h: Harmonym) -> Seq<char> {
    root_chars(anchor_of(h), h.deg(anchor_of(h))) + sufs_to(h, anchor_of(h), 5) + marker_chars(
        h.deg(1),
    )
}

impl Harmonym {
    /// Renders the pitch vector back to notation text: the root syllable of
    /// the lowest nonzero dimension (or `Ah` when only the octave axis is
    /// shifted), the suffix syllables of the remaining nonzero dimensions
    /// in increasing order, then the octave markers.
    #[verifier::rlimit(100)]
    pub fn render_notation(&self) -> (r: String)
        requires
            self.wf(),
        ensures
            r@ == spec_render(*self),
    {
        let ghost h = *self;
        let ghost a_i = anchor_of(h);
        let mut out: String;
        let anchor: u8;
        if self.notes[1].degree != 0 {
            anchor = 2;
            out = self.notes[1].to_root();
        } else if self.notes[2].degree != 0 {
            anchor = 3;
            out = self.notes[2].to_root();
        } else if self.notes[3].degree != 0 {
            anchor = 4;
            out = self.notes[3].to_root();
        } else if self.notes[4].degree != 0 {
            anchor = 5;
            out = self.notes[4].to_root();
        } else {
            anchor = 1;
            out = self.notes[0].to_root();
        }
        proof {
            assert(anchor as int == a_i);
            assert(out@ == root_chars(a_i, h.deg(a_i)));
            assert(sufs_to(h, a_i, 2) =~= Seq::<char>::empty()) by {
                reveal_with_fuel(sufs_to, 3);
            }
        }
        if anchor < 3 && self.notes[2].degree != 0 {
            let suf = self.notes[2].to_suffix();
            out.append(suf.as_str());
        }
        proof {
            assert(out@ =~= root_chars(a_i, h.deg(a_i)) + sufs_to(h, a_i, 3));
        }
        if anchor < 4 && self.notes[3].degree != 0 {
            let suf = self.notes[3].to_suffix();
            out.append(suf.as_str());
        }
        proof {
            assert(out@ =~= root_chars(a_i, h.deg(a_i)) + sufs_to(h, a_i, 4));
        }
        if anchor < 5 && self.notes[4].degree != 0 {
            let suf = self.notes[4].to_suffix();
            out.append(suf.as_str());
        }
        proof {
            assert(out@ =~= root_chars(a_i, h.deg(a_i)) + sufs_to(h, a_i, 5));
        }
        let ghost base = out@;
        let e1 = self.notes[0].degree;
        let mag: usize = if e1 >= 0 {
            e1 as usize
        } else {
            (-(e1 as i32)) as usize
        };
        let marker: &'static str = if e1 >= 0 {
            "+"
        } else {
            "-"
        };
        let ghost mc: char = if e1 as int >= 0 {
            '+'
        } else {
            '-'
        };
        proof {
            reveal_strlit("+");
            reveal_strlit("-");
            assert(marker@ =~= seq![mc]);
        }
        let mut k: usize = 0;
        while k < mag
            invariant
                k <= mag,
                marker@ =~= seq![mc],
                out@ =~= base + Seq::new(k as nat, |i: int| mc),
            decreases mag - k,
        {
            out.append(marker);
            proof {
                assert(out@ =~= base + Seq::new((k + 1) as nat, |i: int| mc));
            }
            k = k + 1;
        }
        proof {
            assert(Seq::new(mag as nat, |i: int| mc) =~= marker_chars(h.deg(1)));
            assert(out@ =~= spec_render(h));
        }
        out
    }
}

/// `a` sounds strictly lower than `b`: the evaluated frequency ratio of
/// `a` is smaller, compared exactly by cross-multiplication.
pub open spec fn spec_lt(a: Harmonym, b: Harmonym) -> bool {
    spec_num(a) * spec_den(b) < spec_num(b) * spec_den(a)
}

impl Harmonym {
    /// Exact pitch comparison: whether this tone's evaluated frequency
    /// ratio is strictly below the other's.
    pub fn lt(&self, other: &Harmonym) -> (r: bool)
        requires
            self.wf(),
            other.wf(),
        ensures
            r == spec_lt(*self, *other),
    {
        let a = self.eval();
        let b = other.eval();
        proof {
            lemma_mul_upper_bound(a.n(), u64::MAX as int, b.d(), u64::MAX as int);
            lemma_mul_upper_bound(b.n(), u64::MAX as int, a.d(), u64::MAX as int);
            let na = spec_num(*self);
            let da = spec_den(*self);
            let nb = spec_num(*other);
            let db = spec_den(*other);
            lemma_prefix_bounds(*self, 5);
            lemma_prefix_bounds(*other, 5);
            lemma_canon(na, da);
            lemma_canon(nb, db);
            let g1 = spec_gcd(na, da);
            let g2 = spec_gcd(nb, db);
            assert((a.n() * b.d() < b.n() * a.d()) == (na * db < nb * da)) by (nonlinear_arith)
                requires
                    na == g1 * a.n(),
                    da == g1 * a.d(),
                    nb == g2 * b.n(),
                    db == g2 * b.d(),
                    g1 > 0,
                    g2 > 0,
            {}
        }
        let lhs: u128 = (a.dividend as u128) * (b.divisor as u128);
        let rhs: u128 = (b.dividend as u128) * (a.divisor as u128);
        lhs < rhs
    }
}

/// The whole input was no syllable of the vocabulary.
#[derive(Debug, Clone, Copy, PartialEq, Eq, Structural)]
pub struct ParseDimensionDegreeError;

/// The `NotePart` whose root or suffix syllable is exactly `s`, if any.
pub open spec fn spec_syllable_lookup(s: Seq<char>) -> Option<NotePart> {
    if s == "Ah"@ || s == "ah"@ { Some(NotePart { dimension: 1, degree: 0i8 }) }
    else if s == "Chy"@ || s == "chi"@ { Some(NotePart { dimension: 2, degree: 1i8 }) }
    else if s == "Scy"@ || s == "sci"@ { Some(NotePart { dimension: 2, degree: 2i8 }) }
    else if s == "Xcy"@ || s == "xci"@ { Some(NotePart { dimension: 2, degree: 3i8 }) }
    else if s == "Fu"@ || s == "f"@ { Some(NotePart { dimension: 2, degree: -1i8 }) }
    else if s == "Schu"@ || s == "sch"@ { Some(NotePart { dimension: 2, degree: -2i8 }) }
    else if s == "Ju"@ || s == "j"@ { Some(NotePart { dimension: 2, degree: -3i8 }) }
    else if s == "Ly"@ || s == "li"@ { Some(NotePart { dimension: 3, degree: 1i8 }) }
    else if s == "Dry"@ || s == "dri"@ { Some(NotePart { dimension: 3, degree: 2i8 }) }
    else if s == "Drvy"@ || s == "drvi"@ { Some(NotePart { dimension: 3, degree: 3i8 }) }
    else if s == "Su"@ || s == "s"@ { Some(NotePart { dimension: 3, degree: -1i8 }) }
    else if s == "Sru"@ || s == "sr"@ { Some(NotePart { dimension: 3, degree: -2i8 }) }
    else if s == "Srvu"@ || s == "srv"@ { Some(NotePart { dimension: 3, degree: -3i8 }) }
    else if s == "My"@ || s == "mi"@ { Some(NotePart { dimension: 4, degree: 1i8 }) }
    else if s == "Mry"@ || s == "mri"@ { Some(NotePart { dimension: 4, degree: 2i8 }) }
    else if s == "Mrvy"@ || s == "mrvi"@ { Some(NotePart { dimension: 4, degree: 3i8 }) }
    else if s == "Pu"@ || s == "p"@ { Some(NotePart { dimension: 4, degree: -1i8 }) }
    else if s == "Pru"@ || s == "pr"@ { Some(NotePart { dimension: 4, degree: -2i8 }) }
    else if s == "Prvu"@ || s == "prv"@ { Some(NotePart { dimension: 4, degree: -3i8 }) }
    else if s == "Zy"@ || s == "zi"@ { Some(NotePart { dimension: 5, degree: 1i8 }) }
    else if s == "Zry"@ || s == "zri"@ { Some(NotePart { dimension: 5, degree: 2i8 }) }
    else if s == "Zrvy"@ || s == "zrvi"@ { Some(NotePart { dimension: 5, degree: 3i8 }) }
    else if s == "Tschu"@ || s == "tsch"@ { Some(NotePart { dimension: 5, degree: -1i8 }) }
    else if s == "Kru"@ || s == "kr"@ { Some(NotePart { dimension: 5, degree: -2i8 }) }
    else if s == "Krvu"@ || s == "krv"@ { Some(NotePart { dimension: 5, degree: -3i8 }) }
    else { None }
}

impl NotePart {
    /// Looks a whole string up in the vocabulary: the part whose root or
    /// suffix syllable it is, exactly and case-sensitively; anything else
    /// is refused.
    #[verifier::rlimit(50)]
    pub fn from_syllable(s: &str) -> (r: Result<NotePart, ParseDimensionDegreeError>)
        ensures
            r matches Ok(p) ==> spec_syllable_lookup(s@) == Some(p),
            r is Err ==> spec_syllable_lookup(s@) is None,
    {
        if crate::session::str_equal(s, "Ah") || crate::session::str_equal(s, "ah") {
            Ok(NotePart { dimension: 1, degree: 0 })
        } else if crate::session::str_equal(s, "Chy") || crate::session::str_equal(s, "chi") {
            Ok(NotePart { dimension: 2, degree: 1 })
        } else if crate::session::str_equal(s, "Scy") || crate::session::str_equal(s, "sci") {
            Ok(NotePart { dimension: 2, degree: 2 })
        } else if crate::session::str_equal(s, "Xcy") || crate::session::str_equal(s, "xci") {
            Ok(NotePart { dimension: 2, degree: 3 })
        } else if crate::session::str_equal(s, "Fu") || crate::session::str_equal(s, "f") {
            Ok(NotePart { dimension: 2, degree: -1 })
        } else if crate::session::str_equal(s, "Schu") || crate::session::str_equal(s, "sch") {
            Ok(NotePart { dimension: 2, degree: -2 })
        } else if crate::session::str_equal(s, "Ju") || crate::session::str_equal(s, "j") {
            Ok(NotePart { dimension: 2, degree: -3 })
        } else if crate::session::str_equal(s, "Ly") || crate::session::str_equal(s, "li") {
            Ok(NotePart { dimension: 3, degree: 1 })
        } else if crate::session::str_equal(s, "Dry") || crate::session::str_equal(s, "dri") {
            Ok(NotePart { dimension: 3, degree: 2 })
        } else if crate::session::str_equal(s, "Drvy") || crate::session::str_equal(s, "drvi") {
            Ok(NotePart { dimension: 3, degree: 3 })
        } else if crate::session::str_equal(s, "Su") || crate::session::str_equal(s, "s") {
            Ok(NotePart { dimension: 3, degree: -1 })
        } else if crate::session::str_equal(s, "Sru") || crate::session::str_equal(s, "sr") {
            Ok(NotePart { dimension: 3, degree: -2 })
        } else if crate::session::str_equal(s, "Srvu") || crate::session::str_equal(s, "srv") {
            Ok(NotePart { dimension: 3, degree: -3 })
        } else if crate::session::str_equal(s, "My") || crate::session::str_equal(s, "mi") {
            Ok(NotePart { dimension: 4, degree: 1 })
        } else if crate::session::str_equal(s, "Mry") || crate::session::str_equal(s, "mri") {
            Ok(NotePart { dimension: 4, degree: 2 })
        } else if crate::session::str_equal(s, "Mrvy") || crate::session::str_equal(s, "mrvi") {
            Ok(NotePart { dimension: 4, degree: 3 })
        } else if crate::session::str_equal(s, "Pu") || crate::session::str_equal(s, "p") {
            Ok(NotePart { dimension: 4, degree: -1 })
        } else if crate::session::str_equal(s, "Pru") || crate::session::str_equal(s, "pr") {
            Ok(NotePart { dimension: 4, degree: -2 })
        } else if crate::session::str_equal(s, "Prvu") || crate::session::str_equal(s, "prv") {
            Ok(NotePart { dimension: 4, degree: -3 })
        } else if crate::session::str_equal(s, "Zy") || crate::session::str_equal(s, "zi") {
            Ok(NotePart { dimension: 5, degree: 1 })
        } else if crate::session::str_equal(s, "Zry") || crate::session::str_equal(s, "zri") {
            Ok(NotePart { dimension: 5, degree: 2 })
        } else if crate::session::str_equal(s, "Zrvy") || crate::session::str_equal(s, "zrvi") {
            Ok(NotePart { dimension: 5, degree: 3 })
        } else if crate::session::str_equal(s, "Tschu") || crate::session::str_equal(s, "tsch") {
            Ok(NotePart { dimension: 5, degree: -1 })
        } else if crate::session::str_equal(s, "Kru") || crate::session::str_equal(s, "kr") {
            Ok(NotePart { dimension: 5, degree: -2 })
        } else if crate::session::str_equal(s, "Krvu") || crate::session::str_equal(s, "krv") {
            Ok(NotePart { dimension: 5, degree: -3 })
        } else {
            Err(ParseDimensionDegreeError)
        }
    }
}

impl core::str::FromStr for NotePart {
    type Err = ParseDimensionDegreeError;

    /// Looks the whole string up in the vocabulary.
    fn from_str(s: &str) -> (r: Result<NotePart, ParseDimensionDegreeError>) {
        NotePart::from_syllable(s)
    }
}

/// The exact pitch order is transitive: a tone no lower than `a` and no
/// higher than `c`'s predecessor keeps `a` below `c`.
pub proof fn lemma_pitch_le_trans(a: Harmonym, b: Harmonym, c: Harmonym)
    requires
        a.wf(),
        b.wf(),
        c.wf(),
        !spec_lt(b, a),
        !spec_lt(c, b),
    ensures
        !spec_lt(c, a),
{
    lemma_prefix_bounds(a, 5);
    lemma_prefix_bounds(b, 5);
    lemma_prefix_bounds(c, 5);
    assert(!(spec_num(c) * spec_den(a) < spec_num(a) * spec_den(c))) by (nonlinear_arith)
        requires
            spec_num(b) * spec_den(a) >= spec_num(a) * spec_den(b),
            spec_num(c) * spec_den(b) >= spec_num(b) * spec_den(c),
            spec_num(a) > 0,
            spec_den(a) > 0,
            spec_num(b) > 0,
            spec_den(b) > 0,
            spec_num(c) > 0,
            spec_den(c) > 0,
    {}
}

/// Every reduced power of a base-ratio contribution up to the magnitude of
/// a well-formed degree fits in a machine word.
proof fn lemma_pow_fits_for_factor(factor: Ratio, m: nat, d: int)
    requires
        factor.wf(),
        1 <= d <= 5,
        factor.n() <= (if d == 1 { 2int } else { 11int }),
        factor.d() <= (if d == 1 { 2int } else { 11int }),
        m <= (if d == 1 { 32nat } else { 3nat }),
    ensures
        pow_fits(factor, m),
{
    assert forall|i: nat| 1 <= i <= m implies #[trigger] canon_num(
        pow(factor.n(), i),
        pow(factor.d(), i),
    ) <= u64::MAX && canon_den(pow(factor.n(), i), pow(factor.d(), i)) <= u64::MAX by {
        lemma_pow_positive(factor.n(), i);
        lemma_pow_positive(factor.d(), i);
        lemma_canon(pow(factor.n(), i), pow(factor.d(), i));
        if d == 1 {
            assert(pow(2, 32) == 0x1_0000_0000) by {
                lemma_pow2(32);
                lemma2_to64();
            }
            lemma_pow_increases(factor.n() as nat, i, 32);
            lemma_pow_increases(factor.d() as nat, i, 32);
            lemma_pow_increases(2, 32, 32);
            lemma_pow_le_base(factor.n(), 2, 32);
            lemma_pow_le_base(factor.d(), 2, 32);
        } else {
            assert(pow(11, 3) == 1331) by {
                reveal_with_fuel(pow, 4);
            }
            lemma_pow_increases(factor.n() as nat, i, 3);
            lemma_pow_increases(factor.d() as nat, i, 3);
            lemma_pow_le_base(factor.n(), 11, 3);
            lemma_pow_le_base(factor.d(), 11, 3);
        }
    }
}

/// Raising a smaller base to the same power gives a smaller result.
proof fn lemma_pow_le_base(b: int, c: int, e: nat)
    requires
        1 <= b <= c,
    ensures
        pow(b, e) <= pow(c, e),
    decreases e,
{
    reveal(pow);
    if e > 0 {
        lemma_pow_le_base(b, c, (e - 1) as nat);
        lemma_pow_positive(b, (e - 1) as nat);
        lemma_pow_positive(c, (e - 1) as nat);
        assert(pow(b, e) == b * pow(b, (e - 1) as nat));
        assert(pow(c, e) == c * pow(c, (e - 1) as nat));
        lemma_mul_upper_bound(b, c, pow(b, (e - 1) as nat), pow(c, (e - 1) as nat));
    }
}

} // verus!
