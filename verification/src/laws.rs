//! The library's central law: rendering a pitch vector and parsing the
//! rendered text gives the same vector back.  The proof walks the parser's
//! stages over a rendered string: the anchor's root syllable is found, each
//! higher dimension's suffix is matched exactly where it was emitted, and
//! the octave markers are consumed to the end.

use vstd::prelude::*;
use crate::note::{
    Harmonym, marker_chars, anchor_of, sufs_to, spec_render, MAX_OCTAVE_RUN, spec_lt, spec_num,
    spec_den, lemma_prefix_bounds,
};
use crate::ratio::{canon_num, canon_den, lemma_canon};
use crate::arith::spec_gcd;
use crate::vocab::{
    root_chars, suffix_chars, is_prefix_at, root_match_spec, suffix_match_spec,
};
use crate::parser::{run_len, spec_parse, find_root_spec, spos, sdeg, ParseError};

verus! {

/// The suffix syllables of dimensions `d` through 5 that lie above the
/// anchor `a` and are nonzero, in increasing order.
pub open spec fn sufs_from(h: Harmonym, a: int, d: int) -> Seq<char>
    decreases 6 - d,
{
    if d > 5 || d < 2 {
        Seq::empty()
    } else {
        (if d > a && h.deg(d) != 0 {
            suffix_chars(d, h.deg(d))
        } else {
            Seq::empty()
        }) + sufs_from(h, a, d + 1)
    }
}

/// The characters that may open what follows dimension `d`'s contribution
/// in a rendered note: an octave marker, or the first character of a
/// suffix syllable of a higher dimension.
pub open spec fn suffix_lead_ok(c: char, d: int) -> bool {
    ||| c == '+'
    ||| c == '-'
    ||| (d < 3 && (c == 'l' || c == 'd' || c == 's'))
    ||| (d < 4 && (c == 'm' || c == 'p'))
    ||| (d < 5 && (c == 'z' || c == 't' || c == 'k'))
}

/// The text that follows dimension `d`'s contribution is empty or opens
/// with an allowed character.
pub open spec fn tail_ok(t: Seq<char>, d: int) -> bool {
    t.len() == 0 || suffix_lead_ok(t[0], d)
}

/// Matching a pattern behind a fixed prefix is matching it in the rest.
pub proof fn lemma_prefix_shift(x: Seq<char>, y: Seq<char>, p: int, t: Seq<char>)
    requires
        p >= 0,
    ensures
        is_prefix_at(x + y, x.len() + p, t) == is_prefix_at(y, p, t),
{
    let s = x + y;
    if is_prefix_at(y, p, t) {
        assert forall|j: int| 0 <= j < t.len() implies s[x.len() as int + p + j] == t[j] by {
            assert(s[x.len() as int + p + j] == y[p + j]);
        }
        assert(is_prefix_at(s, x.len() + p, t));
    }
    if is_prefix_at(s, x.len() + p, t) {
        assert forall|j: int| 0 <= j < t.len() implies y[p + j] == t[j] by {
            assert(s[x.len() as int + p + j] == y[p + j]);
        }
        assert(is_prefix_at(y, p, t));
    }
}

/// A suffix lookup behind a fixed prefix is the lookup in the rest.
pub proof fn lemma_suffix_match_shift(x: Seq<char>, y: Seq<char>, d: int)
    ensures
        suffix_match_spec(x + y, x.len() as int, d) == suffix_match_spec(y, 0, d),
{
    lemma_prefix_shift(x, y, 0, "chi"@);
    lemma_prefix_shift(x, y, 0, "sci"@);
    lemma_prefix_shift(x, y, 0, "xci"@);
    lemma_prefix_shift(x, y, 0, "sch"@);
    lemma_prefix_shift(x, y, 0, "f"@);
    lemma_prefix_shift(x, y, 0, "j"@);
    lemma_prefix_shift(x, y, 0, "drvi"@);
    lemma_prefix_shift(x, y, 0, "dri"@);
    lemma_prefix_shift(x, y, 0, "srv"@);
    lemma_prefix_shift(x, y, 0, "li"@);
    lemma_prefix_shift(x, y, 0, "sr"@);
    lemma_prefix_shift(x, y, 0, "s"@);
    lemma_prefix_shift(x, y, 0, "mrvi"@);
    lemma_prefix_shift(x, y, 0, "mri"@);
    lemma_prefix_shift(x, y, 0, "prv"@);
    lemma_prefix_shift(x, y, 0, "mi"@);
    lemma_prefix_shift(x, y, 0, "pr"@);
    lemma_prefix_shift(x, y, 0, "p"@);
    lemma_prefix_shift(x, y, 0, "zrvi"@);
    lemma_prefix_shift(x, y, 0, "tsch"@);
    lemma_prefix_shift(x, y, 0, "zri"@);
    lemma_prefix_shift(x, y, 0, "krv"@);
    lemma_prefix_shift(x, y, 0, "zi"@);
    lemma_prefix_shift(x, y, 0, "kr"@);
}

/// Counting a marker run behind a fixed prefix is counting it in the rest.
pub proof fn lemma_run_shift(x: Seq<char>, y: Seq<char>, p: int, c: char)
    requires
        0 <= p <= y.len(),
    ensures
        run_len(x + y, x.len() + p, c) == run_len(y, p, c),
    decreases y.len() - p,
{
    let s = x + y;
    if p < y.len() {
        assert(s[x.len() as int + p] == y[p]);
        if y[p] == c {
            lemma_run_shift(x, y, p + 1, c);
        }
    }
}

/// The run of markers in a pure marker block: all of it for the matching
/// marker, none of it for the other.
pub proof fn lemma_marker_runs(e: int)
    requires
        -(MAX_OCTAVE_RUN as int) <= e <= MAX_OCTAVE_RUN as int,
    ensures
        e >= 0 ==> run_len(marker_chars(e), 0, '+') == e && run_len(marker_chars(e), 0, '-')
            == 0,
        e < 0 ==> run_len(marker_chars(e), 0, '+') == 0 && run_len(marker_chars(e), 0, '-') == -e,
{
    if e >= 0 {
        lemma_plus_run(e, 0);
        if e > 0 {
            assert(marker_chars(e)[0] == '+');
        }
    } else {
        lemma_minus_run(-e, 0);
        assert(marker_chars(e)[0] == '-');
    }
}

proof fn lemma_plus_run(e: int, p: int)
    requires
        0 <= p <= e,
    ensures
        run_len(Seq::new(e as nat, |i: int| '+'), p, '+') == e - p,
    decreases e - p,
{
    if p < e {
        lemma_plus_run(e, p + 1);
    }
}

proof fn lemma_minus_run(e: int, p: int)
    requires
        0 <= p <= e,
    ensures
        run_len(Seq::new(e as nat, |i: int| '-'), p, '-') == e - p,
    decreases e - p,
{
    if p < e {
        lemma_minus_run(e, p + 1);
    }
}

/// The emitted suffixes split at any dimension: what is emitted up to `d`
/// and what comes after it together make the whole block.
pub proof fn lemma_sufs_split(h: Harmonym, a: int, d: int)
    requires
        1 <= d <= 5,
    ensures
        sufs_to(h, a, 5) == sufs_to(h, a, d) + sufs_from(h, a, d + 1),
    decreases 5 - d,
{
    if d == 5 {
        assert(sufs_from(h, a, 6) =~= Seq::<char>::empty());
        assert(sufs_to(h, a, 5) =~= sufs_to(h, a, 5) + sufs_from(h, a, 6));
    } else {
        lemma_sufs_split(h, a, d + 1);
        let piece: Seq<char> = if d + 1 > a && h.deg(d + 1) != 0 {
            suffix_chars(d + 1, h.deg(d + 1))
        } else {
            Seq::empty()
        };
        assert(sufs_to(h, a, d + 1) =~= sufs_to(h, a, d) + piece);
        assert(sufs_from(h, a, d + 1) =~= piece + sufs_from(h, a, d + 2));
        assert(sufs_to(h, a, d) + (piece + sufs_from(h, a, d + 2)) =~= (sufs_to(h, a, d) + piece)
            + sufs_from(h, a, d + 2));
    }
}

/// How a concatenation is indexed: the head's characters first, then the
/// tail's opening character.
proof fn lemma_concat_facts(syl: Seq<char>, t: Seq<char>)
    ensures
        (syl + t).len() == syl.len() + t.len(),
        forall|j: int| 0 <= j < syl.len() ==> (syl + t)[j] == syl[j],
        t.len() > 0 ==> (syl + t)[syl.len() as int] == t[0],
{
}

/// A dimension's own emitted suffix is found by that dimension's lookup,
/// whole, with its own degree: the longest-first order can select no other
/// entry when what follows opens with an allowed character.
#[verifier::rlimit(100)]
pub proof fn lemma_own_suffix_match(d: int, g: int, t: Seq<char>)
    requires
        2 <= d <= 5,
        -3 <= g <= 3,
        g != 0,
        tail_ok(t, d),
    ensures
        suffix_match_spec(suffix_chars(d, g) + t, 0, d) == Some(
            (suffix_chars(d, g).len() as int, g as i8),
        ),
{
    reveal_strlit("chi");
    reveal_strlit("sci");
    reveal_strlit("xci");
    reveal_strlit("sch");
    reveal_strlit("f");
    reveal_strlit("j");
    reveal_strlit("drvi");
    reveal_strlit("dri");
    reveal_strlit("srv");
    reveal_strlit("li");
    reveal_strlit("sr");
    reveal_strlit("s");
    reveal_strlit("mrvi");
    reveal_strlit("mri");
    reveal_strlit("prv");
    reveal_strlit("mi");
    reveal_strlit("pr");
    reveal_strlit("p");
    reveal_strlit("zrvi");
    reveal_strlit("tsch");
    reveal_strlit("zri");
    reveal_strlit("krv");
    reveal_strlit("zi");
    reveal_strlit("kr");
    let syl = suffix_chars(d, g);
    let s = syl + t;
    lemma_concat_facts(syl, t);
    if d == 2 {
        if g == 1 {
            assert(is_prefix_at(s, 0, "chi"@));
            assert(suffix_match_spec(s, 0, 2) == Some((3int, 1i8)));
        } else if g == 2 {
            assert(!is_prefix_at(s, 0, "chi"@)) by {
                assert("chi"@[0] == 'c');
                assert(s[0] == 's');
            }
            assert(is_prefix_at(s, 0, "sci"@));
            assert(suffix_match_spec(s, 0, 2) == Some((3int, 2i8)));
        } else if g == 3 {
            assert(!is_prefix_at(s, 0, "chi"@)) by {
                assert("chi"@[0] == 'c');
                assert(s[0] == 'x');
            }
            assert(!is_prefix_at(s, 0, "sci"@)) by {
                assert("sci"@[0] == 's');
                assert(s[0] == 'x');
            }
            assert(is_prefix_at(s, 0, "xci"@));
            assert(suffix_match_spec(s, 0, 2) == Some((3int, 3i8)));
        } else if g == -1 {
            assert(!is_prefix_at(s, 0, "chi"@)) by {
                assert("chi"@[0] == 'c');
                assert(s[0] == 'f');
            }
            assert(!is_prefix_at(s, 0, "sci"@)) by {
                assert("sci"@[0] == 's');
                assert(s[0] == 'f');
            }
            assert(!is_prefix_at(s, 0, "xci"@)) by {
                assert("xci"@[0] == 'x');
                assert(s[0] == 'f');
            }
            assert(!is_prefix_at(s, 0, "sch"@)) by {
                assert("sch"@[0] == 's');
                assert(s[0] == 'f');
            }
            assert(is_prefix_at(s, 0, "f"@));
            assert(suffix_match_spec(s, 0, 2) == Some((1int, -1i8)));
        } else if g == -2 {
            assert(!is_prefix_at(s, 0, "chi"@)) by {
                assert("chi"@[0] == 'c');
                assert(s[0] == 's');
            }
            assert(!is_prefix_at(s, 0, "sci"@)) by {
                assert("sci"@[2] == 'i');
                assert(s[2] == 'h');
            }
            assert(!is_prefix_at(s, 0, "xci"@)) by {
                assert("xci"@[0] == 'x');
                assert(s[0] == 's');
            }
            assert(is_prefix_at(s, 0, "sch"@));
            assert(suffix_match_spec(s, 0, 2) == Some((3int, -2i8)));
        } else if g == -3 {
            assert(!is_prefix_at(s, 0, "chi"@)) by {
                assert("chi"@[0] == 'c');
                assert(s[0] == 'j');
            }
            assert(!is_prefix_at(s, 0, "sci"@)) by {
                assert("sci"@[0] == 's');
                assert(s[0] == 'j');
            }
            assert(!is_prefix_at(s, 0, "xci"@)) by {
                assert("xci"@[0] == 'x');
                assert(s[0] == 'j');
            }
            assert(!is_prefix_at(s, 0, "sch"@)) by {
                assert("sch"@[0] == 's');
                assert(s[0] == 'j');
            }
            assert(!is_prefix_at(s, 0, "f"@)) by {
                assert("f"@[0] == 'f');
                assert(s[0] == 'j');
            }
            assert(is_prefix_at(s, 0, "j"@));
            assert(suffix_match_spec(s, 0, 2) == Some((1int, -3i8)));
        }
    } else if d == 3 {
        if g == 1 {
            assert(!is_prefix_at(s, 0, "drvi"@)) by {
                assert("drvi"@[0] == 'd');
                assert(s[0] == 'l');
            }
            assert(!is_prefix_at(s, 0, "dri"@)) by {
                assert("dri"@[0] == 'd');
                assert(s[0] == 'l');
            }
            assert(!is_prefix_at(s, 0, "srv"@)) by {
                assert("srv"@[0] == 's');
                assert(s[0] == 'l');
            }
            assert(is_prefix_at(s, 0, "li"@));
            assert(suffix_match_spec(s, 0, 3) == Some((2int, 1i8)));
        } else if g == 2 {
            assert(!is_prefix_at(s, 0, "drvi"@)) by {
                assert("drvi"@[2] == 'v');
                assert(s[2] == 'i');
            }
            assert(is_prefix_at(s, 0, "dri"@));
            assert(suffix_match_spec(s, 0, 3) == Some((3int, 2i8)));
        } else if g == 3 {
            assert(is_prefix_at(s, 0, "drvi"@));
            assert(suffix_match_spec(s, 0, 3) == Some((4int, 3i8)));
        } else if g == -1 {
            assert(!is_prefix_at(s, 0, "drvi"@)) by {
                assert("drvi"@[0] == 'd');
                assert(s[0] == 's');
            }
            assert(!is_prefix_at(s, 0, "dri"@)) by {
                assert("dri"@[0] == 'd');
                assert(s[0] == 's');
            }
            assert(!is_prefix_at(s, 0, "srv"@)) by {
                assert("srv"@[1] == 'r');
                if t.len() > 0 {
                    assert(s[1] == t[0]);
                }
            }
            assert(!is_prefix_at(s, 0, "li"@)) by {
                assert("li"@[0] == 'l');
                assert(s[0] == 's');
            }
            assert(!is_prefix_at(s, 0, "sr"@)) by {
                assert("sr"@[1] == 'r');
                if t.len() > 0 {
                    assert(s[1] == t[0]);
                }
            }
            assert(is_prefix_at(s, 0, "s"@));
            assert(suffix_match_spec(s, 0, 3) == Some((1int, -1i8)));
        } else if g == -2 {
            assert(!is_prefix_at(s, 0, "drvi"@)) by {
                assert("drvi"@[0] == 'd');
                assert(s[0] == 's');
            }
            assert(!is_prefix_at(s, 0, "dri"@)) by {
                assert("dri"@[0] == 'd');
                assert(s[0] == 's');
            }
            assert(!is_prefix_at(s, 0, "srv"@)) by {
                assert("srv"@[2] == 'v');
                if t.len() > 0 {
                    assert(s[2] == t[0]);
                }
            }
            assert(!is_prefix_at(s, 0, "li"@)) by {
                assert("li"@[0] == 'l');
                assert(s[0] == 's');
            }
            assert(is_prefix_at(s, 0, "sr"@));
            assert(suffix_match_spec(s, 0, 3) == Some((2int, -2i8)));
        } else if g == -3 {
            assert(!is_prefix_at(s, 0, "drvi"@)) by {
                assert("drvi"@[0] == 'd');
                assert(s[0] == 's');
            }
            assert(!is_prefix_at(s, 0, "dri"@)) by {
                assert("dri"@[0] == 'd');
                assert(s[0] == 's');
            }
            assert(is_prefix_at(s, 0, "srv"@));
            assert(suffix_match_spec(s, 0, 3) == Some((3int, -3i8)));
        }
    } else if d == 4 {
        if g == 1 {
            assert(!is_prefix_at(s, 0, "mrvi"@)) by {
                assert("mrvi"@[1] == 'r');
                assert(s[1] == 'i');
            }
            assert(!is_prefix_at(s, 0, "mri"@)) by {
                assert("mri"@[1] == 'r');
                assert(s[1] == 'i');
            }
            assert(!is_prefix_at(s, 0, "prv"@)) by {
                assert("prv"@[0] == 'p');
                assert(s[0] == 'm');
            }
            assert(is_prefix_at(s, 0, "mi"@));
            assert(suffix_match_spec(s, 0, 4) == Some((2int, 1i8)));
        } else if g == 2 {
            assert(!is_prefix_at(s, 0, "mrvi"@)) by {
                assert("mrvi"@[2] == 'v');
                assert(s[2] == 'i');
            }
            assert(is_prefix_at(s, 0, "mri"@));
            assert(suffix_match_spec(s, 0, 4) == Some((3int, 2i8)));
        } else if g == 3 {
            assert(is_prefix_at(s, 0, "mrvi"@));
            assert(suffix_match_spec(s, 0, 4) == Some((4int, 3i8)));
        } else if g == -1 {
            assert(!is_prefix_at(s, 0, "mrvi"@)) by {
                assert("mrvi"@[0] == 'm');
                assert(s[0] == 'p');
            }
            assert(!is_prefix_at(s, 0, "mri"@)) by {
                assert("mri"@[0] == 'm');
                assert(s[0] == 'p');
            }
            assert(!is_prefix_at(s, 0, "prv"@)) by {
                assert("prv"@[1] == 'r');
                if t.len() > 0 {
                    assert(s[1] == t[0]);
                }
            }
            assert(!is_prefix_at(s, 0, "mi"@)) by {
                assert("mi"@[0] == 'm');
                assert(s[0] == 'p');
            }
            assert(!is_prefix_at(s, 0, "pr"@)) by {
                assert("pr"@[1] == 'r');
                if t.len() > 0 {
                    assert(s[1] == t[0]);
                }
            }
            assert(is_prefix_at(s, 0, "p"@));
            assert(suffix_match_spec(s, 0, 4) == Some((1int, -1i8)));
        } else if g == -2 {
            assert(!is_prefix_at(s, 0, "mrvi"@)) by {
                assert("mrvi"@[0] == 'm');
                assert(s[0] == 'p');
            }
            assert(!is_prefix_at(s, 0, "mri"@)) by {
                assert("mri"@[0] == 'm');
                assert(s[0] == 'p');
            }
            assert(!is_prefix_at(s, 0, "prv"@)) by {
                assert("prv"@[2] == 'v');
                if t.len() > 0 {
                    assert(s[2] == t[0]);
                }
            }
            assert(!is_prefix_at(s, 0, "mi"@)) by {
                assert("mi"@[0] == 'm');
                assert(s[0] == 'p');
            }
            assert(is_prefix_at(s, 0, "pr"@));
            assert(suffix_match_spec(s, 0, 4) == Some((2int, -2i8)));
        } else if g == -3 {
            assert(!is_prefix_at(s, 0, "mrvi"@)) by {
                assert("mrvi"@[0] == 'm');
                assert(s[0] == 'p');
            }
            assert(!is_prefix_at(s, 0, "mri"@)) by {
                assert("mri"@[0] == 'm');
                assert(s[0] == 'p');
            }
            assert(is_prefix_at(s, 0, "prv"@));
            assert(suffix_match_spec(s, 0, 4) == Some((3int, -3i8)));
        }
    } else if d == 5 {
        if g == 1 {
            assert(!is_prefix_at(s, 0, "zrvi"@)) by {
                assert("zrvi"@[1] == 'r');
                assert(s[1] == 'i');
            }
            assert(!is_prefix_at(s, 0, "tsch"@)) by {
                assert("tsch"@[0] == 't');
                assert(s[0] == 'z');
            }
            assert(!is_prefix_at(s, 0, "zri"@)) by {
                assert("zri"@[1] == 'r');
                assert(s[1] == 'i');
            }
            assert(!is_prefix_at(s, 0, "krv"@)) by {
                assert("krv"@[0] == 'k');
                assert(s[0] == 'z');
            }
            assert(is_prefix_at(s, 0, "zi"@));
            assert(suffix_match_spec(s, 0, 5) == Some((2int, 1i8)));
        } else if g == 2 {
            assert(!is_prefix_at(s, 0, "zrvi"@)) by {
                assert("zrvi"@[2] == 'v');
                assert(s[2] == 'i');
            }
            assert(!is_prefix_at(s, 0, "tsch"@)) by {
                assert("tsch"@[0] == 't');
                assert(s[0] == 'z');
            }
            assert(is_prefix_at(s, 0, "zri"@));
            assert(suffix_match_spec(s, 0, 5) == Some((3int, 2i8)));
        } else if g == 3 {
            assert(is_prefix_at(s, 0, "zrvi"@));
            assert(suffix_match_spec(s, 0, 5) == Some((4int, 3i8)));
        } else if g == -1 {
            assert(!is_prefix_at(s, 0, "zrvi"@)) by {
                assert("zrvi"@[0] == 'z');
                assert(s[0] == 't');
            }
            assert(is_prefix_at(s, 0, "tsch"@));
            assert(suffix_match_spec(s, 0, 5) == Some((4int, -1i8)));
        } else if g == -2 {
            assert(!is_prefix_at(s, 0, "zrvi"@)) by {
                assert("zrvi"@[0] == 'z');
                assert(s[0] == 'k');
            }
            assert(!is_prefix_at(s, 0, "tsch"@)) by {
                assert("tsch"@[0] == 't');
                assert(s[0] == 'k');
            }
            assert(!is_prefix_at(s, 0, "zri"@)) by {
                assert("zri"@[0] == 'z');
                assert(s[0] == 'k');
            }
            assert(!is_prefix_at(s, 0, "krv"@)) by {
                assert("krv"@[2] == 'v');
                if t.len() > 0 {
                    assert(s[2] == t[0]);
                }
            }
            assert(!is_prefix_at(s, 0, "zi"@)) by {
                assert("zi"@[0] == 'z');
                assert(s[0] == 'k');
            }
            assert(is_prefix_at(s, 0, "kr"@));
            assert(suffix_match_spec(s, 0, 5) == Some((2int, -2i8)));
        } else if g == -3 {
            assert(!is_prefix_at(s, 0, "zrvi"@)) by {
                assert("zrvi"@[0] == 'z');
                assert(s[0] == 'k');
            }
            assert(!is_prefix_at(s, 0, "tsch"@)) by {
                assert("tsch"@[0] == 't');
                assert(s[0] == 'k');
            }
            assert(!is_prefix_at(s, 0, "zri"@)) by {
                assert("zri"@[0] == 'z');
                assert(s[0] == 'k');
            }
            assert(is_prefix_at(s, 0, "krv"@));
            assert(suffix_match_spec(s, 0, 5) == Some((3int, -3i8)));
        }
    }
}

/// A suffix syllable of a dimension above 2 is matched by no entry of
/// dimension 2's suffix table.
#[verifier::rlimit(100)]
proof fn lemma_later_suffix_no_match_2(dn: int, g: int, t: Seq<char>)
    requires
        2 < dn <= 5,
        -3 <= g <= 3,
        g != 0,
        tail_ok(t, dn),
    ensures
        suffix_match_spec(suffix_chars(dn, g) + t, 0, 2) is None,
{
    reveal_strlit("chi");
    reveal_strlit("dri");
    reveal_strlit("drvi");
    reveal_strlit("f");
    reveal_strlit("j");
    reveal_strlit("kr");
    reveal_strlit("krv");
    reveal_strlit("li");
    reveal_strlit("mi");
    reveal_strlit("mri");
    reveal_strlit("mrvi");
    reveal_strlit("p");
    reveal_strlit("pr");
    reveal_strlit("prv");
    reveal_strlit("s");
    reveal_strlit("sch");
    reveal_strlit("sci");
    reveal_strlit("sr");
    reveal_strlit("srv");
    reveal_strlit("tsch");
    reveal_strlit("xci");
    reveal_strlit("zi");
    reveal_strlit("zri");
    reveal_strlit("zrvi");
    let syl = suffix_chars(dn, g);
    let s = syl + t;
    lemma_concat_facts(syl, t);
    if dn == 3 {
        if g == 1 {
            assert(!is_prefix_at(s, 0, "chi"@)) by {
                assert("chi"@[0] == 'c');
                assert(s[0] == 'l');
            }
            assert(!is_prefix_at(s, 0, "sci"@)) by {
                assert("sci"@[0] == 's');
                assert(s[0] == 'l');
            }
            assert(!is_prefix_at(s, 0, "xci"@)) by {
                assert("xci"@[0] == 'x');
                assert(s[0] == 'l');
            }
            assert(!is_prefix_at(s, 0, "sch"@)) by {
                assert("sch"@[0] == 's');
                assert(s[0] == 'l');
            }
            assert(!is_prefix_at(s, 0, "f"@)) by {
                assert("f"@[0] == 'f');
                assert(s[0] == 'l');
            }
            assert(!is_prefix_at(s, 0, "j"@)) by {
                assert("j"@[0] == 'j');
                assert(s[0] == 'l');
            }
        } else if g == 2 {
            assert(!is_prefix_at(s, 0, "chi"@)) by {
                assert("chi"@[0] == 'c');
                assert(s[0] == 'd');
            }
            assert(!is_prefix_at(s, 0, "sci"@)) by {
                assert("sci"@[0] == 's');
                assert(s[0] == 'd');
            }
            assert(!is_prefix_at(s, 0, "xci"@)) by {
                assert("xci"@[0] == 'x');
                assert(s[0] == 'd');
            }
            assert(!is_prefix_at(s, 0, "sch"@)) by {
                assert("sch"@[0] == 's');
                assert(s[0] == 'd');
            }
            assert(!is_prefix_at(s, 0, "f"@)) by {
                assert("f"@[0] == 'f');
                assert(s[0] == 'd');
            }
            assert(!is_prefix_at(s, 0, "j"@)) by {
                assert("j"@[0] == 'j');
                assert(s[0] == 'd');
            }
        } else if g == 3 {
            assert(!is_prefix_at(s, 0, "chi"@)) by {
                assert("chi"@[0] == 'c');
                assert(s[0] == 'd');
            }
            assert(!is_prefix_at(s, 0, "sci"@)) by {
                assert("sci"@[0] == 's');
                assert(s[0] == 'd');
            }
            assert(!is_prefix_at(s, 0, "xci"@)) by {
                assert("xci"@[0] == 'x');
                assert(s[0] == 'd');
            }
            assert(!is_prefix_at(s, 0, "sch"@)) by {
                assert("sch"@[0] == 's');
                assert(s[0] == 'd');
            }
            assert(!is_prefix_at(s, 0, "f"@)) by {
                assert("f"@[0] == 'f');
                assert(s[0] == 'd');
            }
            assert(!is_prefix_at(s, 0, "j"@)) by {
                assert("j"@[0] == 'j');
                assert(s[0] == 'd');
            }
        } else if g == -1 {
            assert(!is_prefix_at(s, 0, "chi"@)) by {
                assert("chi"@[0] == 'c');
                assert(s[0] == 's');
            }
            assert(!is_prefix_at(s, 0, "sci"@)) by {
                assert("sci"@[1] == 'c');
                if t.len() > 0 {
                    assert(s[1] == t[0]);
                }
            }
            assert(!is_prefix_at(s, 0, "xci"@)) by {
                assert("xci"@[0] == 'x');
                assert(s[0] == 's');
            }
            assert(!is_prefix_at(s, 0, "sch"@)) by {
                assert("sch"@[1] == 'c');
                if t.len() > 0 {
                    assert(s[1] == t[0]);
                }
            }
            assert(!is_prefix_at(s, 0, "f"@)) by {
                assert("f"@[0] == 'f');
                assert(s[0] == 's');
            }
            assert(!is_prefix_at(s, 0, "j"@)) by {
                assert("j"@[0] == 'j');
                assert(s[0] == 's');
            }
        } else if g == -2 {
            assert(!is_prefix_at(s, 0, "chi"@)) by {
                assert("chi"@[0] == 'c');
                assert(s[0] == 's');
            }
            assert(!is_prefix_at(s, 0, "sci"@)) by {
                assert("sci"@[1] == 'c');
                assert(s[1] == 'r');
            }
            assert(!is_prefix_at(s, 0, "xci"@)) by {
                assert("xci"@[0] == 'x');
                assert(s[0] == 's');
            }
            assert(!is_prefix_at(s, 0, "sch"@)) by {
                assert("sch"@[1] == 'c');
                assert(s[1] == 'r');
            }
            assert(!is_prefix_at(s, 0, "f"@)) by {
                assert("f"@[0] == 'f');
                assert(s[0] == 's');
            }
            assert(!is_prefix_at(s, 0, "j"@)) by {
                assert("j"@[0] == 'j');
                assert(s[0] == 's');
            }
        } else if g == -3 {
            assert(!is_prefix_at(s, 0, "chi"@)) by {
                assert("chi"@[0] == 'c');
                assert(s[0] == 's');
            }
            assert(!is_prefix_at(s, 0, "sci"@)) by {
                assert("sci"@[1] == 'c');
                assert(s[1] == 'r');
            }
            assert(!is_prefix_at(s, 0, "xci"@)) by {
                assert("xci"@[0] == 'x');
                assert(s[0] == 's');
            }
            assert(!is_prefix_at(s, 0, "sch"@)) by {
                assert("sch"@[1] == 'c');
                assert(s[1] == 'r');
            }
            assert(!is_prefix_at(s, 0, "f"@)) by {
                assert("f"@[0] == 'f');
                assert(s[0] == 's');
            }
            assert(!is_prefix_at(s, 0, "j"@)) by {
                assert("j"@[0] == 'j');
                assert(s[0] == 's');
            }
        }
    } else if dn == 4 {
        if g == 1 {
            assert(!is_prefix_at(s, 0, "chi"@)) by {
                assert("chi"@[0] == 'c');
                assert(s[0] == 'm');
            }
            assert(!is_prefix_at(s, 0, "sci"@)) by {
                assert("sci"@[0] == 's');
                assert(s[0] == 'm');
            }
            assert(!is_prefix_at(s, 0, "xci"@)) by {
                assert("xci"@[0] == 'x');
                assert(s[0] == 'm');
            }
            assert(!is_prefix_at(s, 0, "sch"@)) by {
                assert("sch"@[0] == 's');
                assert(s[0] == 'm');
            }
            assert(!is_prefix_at(s, 0, "f"@)) by {
                assert("f"@[0] == 'f');
                assert(s[0] == 'm');
            }
            assert(!is_prefix_at(s, 0, "j"@)) by {
                assert("j"@[0] == 'j');
                assert(s[0] == 'm');
            }
        } else if g == 2 {
            assert(!is_prefix_at(s, 0, "chi"@)) by {
                assert("chi"@[0] == 'c');
                assert(s[0] == 'm');
            }
            assert(!is_prefix_at(s, 0, "sci"@)) by {
                assert("sci"@[0] == 's');
                assert(s[0] == 'm');
            }
            assert(!is_prefix_at(s, 0, "xci"@)) by {
                assert("xci"@[0] == 'x');
                assert(s[0] == 'm');
            }
            assert(!is_prefix_at(s, 0, "sch"@)) by {
                assert("sch"@[0] == 's');
                assert(s[0] == 'm');
            }
            assert(!is_prefix_at(s, 0, "f"@)) by {
                assert("f"@[0] == 'f');
                assert(s[0] == 'm');
            }
            assert(!is_prefix_at(s, 0, "j"@)) by {
                assert("j"@[0] == 'j');
                assert(s[0] == 'm');
            }
        } else if g == 3 {
            assert(!is_prefix_at(s, 0, "chi"@)) by {
                assert("chi"@[0] == 'c');
                assert(s[0] == 'm');
            }
            assert(!is_prefix_at(s, 0, "sci"@)) by {
                assert("sci"@[0] == 's');
                assert(s[0] == 'm');
            }
            assert(!is_prefix_at(s, 0, "xci"@)) by {
                assert("xci"@[0] == 'x');
                assert(s[0] == 'm');
            }
            assert(!is_prefix_at(s, 0, "sch"@)) by {
                assert("sch"@[0] == 's');
                assert(s[0] == 'm');
            }
            assert(!is_prefix_at(s, 0, "f"@)) by {
                assert("f"@[0] == 'f');
                assert(s[0] == 'm');
            }
            assert(!is_prefix_at(s, 0, "j"@)) by {
                assert("j"@[0] == 'j');
                assert(s[0] == 'm');
            }
        } else if g == -1 {
            assert(!is_prefix_at(s, 0, "chi"@)) by {
                assert("chi"@[0] == 'c');
                assert(s[0] == 'p');
            }
            assert(!is_prefix_at(s, 0, "sci"@)) by {
                assert("sci"@[0] == 's');
                assert(s[0] == 'p');
            }
            assert(!is_prefix_at(s, 0, "xci"@)) by {
                assert("xci"@[0] == 'x');
                assert(s[0] == 'p');
            }
            assert(!is_prefix_at(s, 0, "sch"@)) by {
                assert("sch"@[0] == 's');
                assert(s[0] == 'p');
            }
            assert(!is_prefix_at(s, 0, "f"@)) by {
                assert("f"@[0] == 'f');
                assert(s[0] == 'p');
            }
            assert(!is_prefix_at(s, 0, "j"@)) by {
                assert("j"@[0] == 'j');
                assert(s[0] == 'p');
            }
        } else if g == -2 {
            assert(!is_prefix_at(s, 0, "chi"@)) by {
                assert("chi"@[0] == 'c');
                assert(s[0] == 'p');
            }
            assert(!is_prefix_at(s, 0, "sci"@)) by {
                assert("sci"@[0] == 's');
                assert(s[0] == 'p');
            }
            assert(!is_prefix_at(s, 0, "xci"@)) by {
                assert("xci"@[0] == 'x');
                assert(s[0] == 'p');
            }
            assert(!is_prefix_at(s, 0, "sch"@)) by {
                assert("sch"@[0] == 's');
                assert(s[0] == 'p');
            }
            assert(!is_prefix_at(s, 0, "f"@)) by {
                assert("f"@[0] == 'f');
                assert(s[0] == 'p');
            }
            assert(!is_prefix_at(s, 0, "j"@)) by {
                assert("j"@[0] == 'j');
                assert(s[0] == 'p');
            }
        } else if g == -3 {
            assert(!is_prefix_at(s, 0, "chi"@)) by {
                assert("chi"@[0] == 'c');
                assert(s[0] == 'p');
            }
            assert(!is_prefix_at(s, 0, "sci"@)) by {
                assert("sci"@[0] == 's');
                assert(s[0] == 'p');
            }
            assert(!is_prefix_at(s, 0, "xci"@)) by {
                assert("xci"@[0] == 'x');
                assert(s[0] == 'p');
            }
            assert(!is_prefix_at(s, 0, "sch"@)) by {
                assert("sch"@[0] == 's');
                assert(s[0] == 'p');
            }
            assert(!is_prefix_at(s, 0, "f"@)) by {
                assert("f"@[0] == 'f');
                assert(s[0] == 'p');
            }
            assert(!is_prefix_at(s, 0, "j"@)) by {
                assert("j"@[0] == 'j');
                assert(s[0] == 'p');
            }
        }
    } else if dn == 5 {
        if g == 1 {
            assert(!is_prefix_at(s, 0, "chi"@)) by {
                assert("chi"@[0] == 'c');
                assert(s[0] == 'z');
            }
            assert(!is_prefix_at(s, 0, "sci"@)) by {
                assert("sci"@[0] == 's');
                assert(s[0] == 'z');
            }
            assert(!is_prefix_at(s, 0, "xci"@)) by {
                assert("xci"@[0] == 'x');
                assert(s[0] == 'z');
            }
            assert(!is_prefix_at(s, 0, "sch"@)) by {
                assert("sch"@[0] == 's');
                assert(s[0] == 'z');
            }
            assert(!is_prefix_at(s, 0, "f"@)) by {
                assert("f"@[0] == 'f');
                assert(s[0] == 'z');
            }
            assert(!is_prefix_at(s, 0, "j"@)) by {
                assert("j"@[0] == 'j');
                assert(s[0] == 'z');
            }
        } else if g == 2 {
            assert(!is_prefix_at(s, 0, "chi"@)) by {
                assert("chi"@[0] == 'c');
                assert(s[0] == 'z');
            }
            assert(!is_prefix_at(s, 0, "sci"@)) by {
                assert("sci"@[0] == 's');
                assert(s[0] == 'z');
            }
            assert(!is_prefix_at(s, 0, "xci"@)) by {
                assert("xci"@[0] == 'x');
                assert(s[0] == 'z');
            }
            assert(!is_prefix_at(s, 0, "sch"@)) by {
                assert("sch"@[0] == 's');
                assert(s[0] == 'z');
            }
            assert(!is_prefix_at(s, 0, "f"@)) by {
                assert("f"@[0] == 'f');
                assert(s[0] == 'z');
            }
            assert(!is_prefix_at(s, 0, "j"@)) by {
                assert("j"@[0] == 'j');
                assert(s[0] == 'z');
            }
        } else if g == 3 {
            assert(!is_prefix_at(s, 0, "chi"@)) by {
                assert("chi"@[0] == 'c');
                assert(s[0] == 'z');
            }
            assert(!is_prefix_at(s, 0, "sci"@)) by {
                assert("sci"@[0] == 's');
                assert(s[0] == 'z');
            }
            assert(!is_prefix_at(s, 0, "xci"@)) by {
                assert("xci"@[0] == 'x');
                assert(s[0] == 'z');
            }
            assert(!is_prefix_at(s, 0, "sch"@)) by {
                assert("sch"@[0] == 's');
                assert(s[0] == 'z');
            }
            assert(!is_prefix_at(s, 0, "f"@)) by {
                assert("f"@[0] == 'f');
                assert(s[0] == 'z');
            }
            assert(!is_prefix_at(s, 0, "j"@)) by {
                assert("j"@[0] == 'j');
                assert(s[0] == 'z');
            }
        } else if g == -1 {
            assert(!is_prefix_at(s, 0, "chi"@)) by {
                assert("chi"@[0] == 'c');
                assert(s[0] == 't');
            }
            assert(!is_prefix_at(s, 0, "sci"@)) by {
                assert("sci"@[0] == 's');
                assert(s[0] == 't');
            }
            assert(!is_prefix_at(s, 0, "xci"@)) by {
                assert("xci"@[0] == 'x');
                assert(s[0] == 't');
            }
            assert(!is_prefix_at(s, 0, "sch"@)) by {
                assert("sch"@[0] == 's');
                assert(s[0] == 't');
            }
            assert(!is_prefix_at(s, 0, "f"@)) by {
                assert("f"@[0] == 'f');
                assert(s[0] == 't');
            }
            assert(!is_prefix_at(s, 0, "j"@)) by {
                assert("j"@[0] == 'j');
                assert(s[0] == 't');
            }
        } else if g == -2 {
            assert(!is_prefix_at(s, 0, "chi"@)) by {
                assert("chi"@[0] == 'c');
                assert(s[0] == 'k');
            }
            assert(!is_prefix_at(s, 0, "sci"@)) by {
                assert("sci"@[0] == 's');
                assert(s[0] == 'k');
            }
            assert(!is_prefix_at(s, 0, "xci"@)) by {
                assert("xci"@[0] == 'x');
                assert(s[0] == 'k');
            }
            assert(!is_prefix_at(s, 0, "sch"@)) by {
                assert("sch"@[0] == 's');
                assert(s[0] == 'k');
            }
            assert(!is_prefix_at(s, 0, "f"@)) by {
                assert("f"@[0] == 'f');
                assert(s[0] == 'k');
            }
            assert(!is_prefix_at(s, 0, "j"@)) by {
                assert("j"@[0] == 'j');
                assert(s[0] == 'k');
            }
        } else if g == -3 {
            assert(!is_prefix_at(s, 0, "chi"@)) by {
                assert("chi"@[0] == 'c');
                assert(s[0] == 'k');
            }
            assert(!is_prefix_at(s, 0, "sci"@)) by {
                assert("sci"@[0] == 's');
                assert(s[0] == 'k');
            }
            assert(!is_prefix_at(s, 0, "xci"@)) by {
                assert("xci"@[0] == 'x');
                assert(s[0] == 'k');
            }
            assert(!is_prefix_at(s, 0, "sch"@)) by {
                assert("sch"@[0] == 's');
                assert(s[0] == 'k');
            }
            assert(!is_prefix_at(s, 0, "f"@)) by {
                assert("f"@[0] == 'f');
                assert(s[0] == 'k');
            }
            assert(!is_prefix_at(s, 0, "j"@)) by {
                assert("j"@[0] == 'j');
                assert(s[0] == 'k');
            }
        }
    }
}
/// A suffix syllable of a dimension above 3 is matched by no entry of
/// dimension 3's suffix table.
#[verifier::rlimit(100)]
proof fn lemma_later_suffix_no_match_3(dn: int, g: int, t: Seq<char>)
    requires
        3 < dn <= 5,
        -3 <= g <= 3,
        g != 0,
        tail_ok(t, dn),
    ensures
        suffix_match_spec(suffix_chars(dn, g) + t, 0, 3) is None,
{
    reveal_strlit("chi");
    reveal_strlit("dri");
    reveal_strlit("drvi");
    reveal_strlit("f");
    reveal_strlit("j");
    reveal_strlit("kr");
    reveal_strlit("krv");
    reveal_strlit("li");
    reveal_strlit("mi");
    reveal_strlit("mri");
    reveal_strlit("mrvi");
    reveal_strlit("p");
    reveal_strlit("pr");
    reveal_strlit("prv");
    reveal_strlit("s");
    reveal_strlit("sch");
    reveal_strlit("sci");
    reveal_strlit("sr");
    reveal_strlit("srv");
    reveal_strlit("tsch");
    reveal_strlit("xci");
    reveal_strlit("zi");
    reveal_strlit("zri");
    reveal_strlit("zrvi");
    let syl = suffix_chars(dn, g);
    let s = syl + t;
    lemma_concat_facts(syl, t);
    if dn == 4 {
        if g == 1 {
            assert(!is_prefix_at(s, 0, "drvi"@)) by {
                assert("drvi"@[0] == 'd');
                assert(s[0] == 'm');
            }
            assert(!is_prefix_at(s, 0, "dri"@)) by {
                assert("dri"@[0] == 'd');
                assert(s[0] == 'm');
            }
            assert(!is_prefix_at(s, 0, "srv"@)) by {
                assert("srv"@[0] == 's');
                assert(s[0] == 'm');
            }
            assert(!is_prefix_at(s, 0, "li"@)) by {
                assert("li"@[0] == 'l');
                assert(s[0] == 'm');
            }
            assert(!is_prefix_at(s, 0, "sr"@)) by {
                assert("sr"@[0] == 's');
                assert(s[0] == 'm');
            }
            assert(!is_prefix_at(s, 0, "s"@)) by {
                assert("s"@[0] == 's');
                assert(s[0] == 'm');
            }
        } else if g == 2 {
            assert(!is_prefix_at(s, 0, "drvi"@)) by {
                assert("drvi"@[0] == 'd');
                assert(s[0] == 'm');
            }
            assert(!is_prefix_at(s, 0, "dri"@)) by {
                assert("dri"@[0] == 'd');
                assert(s[0] == 'm');
            }
            assert(!is_prefix_at(s, 0, "srv"@)) by {
                assert("srv"@[0] == 's');
                assert(s[0] == 'm');
            }
            assert(!is_prefix_at(s, 0, "li"@)) by {
                assert("li"@[0] == 'l');
                assert(s[0] == 'm');
            }
            assert(!is_prefix_at(s, 0, "sr"@)) by {
                assert("sr"@[0] == 's');
                assert(s[0] == 'm');
            }
            assert(!is_prefix_at(s, 0, "s"@)) by {
                assert("s"@[0] == 's');
                assert(s[0] == 'm');
            }
        } else if g == 3 {
            assert(!is_prefix_at(s, 0, "drvi"@)) by {
                assert("drvi"@[0] == 'd');
                assert(s[0] == 'm');
            }
            assert(!is_prefix_at(s, 0, "dri"@)) by {
                assert("dri"@[0] == 'd');
                assert(s[0] == 'm');
            }
            assert(!is_prefix_at(s, 0, "srv"@)) by {
                assert("srv"@[0] == 's');
                assert(s[0] == 'm');
            }
            assert(!is_prefix_at(s, 0, "li"@)) by {
                assert("li"@[0] == 'l');
                assert(s[0] == 'm');
            }
            assert(!is_prefix_at(s, 0, "sr"@)) by {
                assert("sr"@[0] == 's');
                assert(s[0] == 'm');
            }
            assert(!is_prefix_at(s, 0, "s"@)) by {
                assert("s"@[0] == 's');
                assert(s[0] == 'm');
            }
        } else if g == -1 {
            assert(!is_prefix_at(s, 0, "drvi"@)) by {
                assert("drvi"@[0] == 'd');
                assert(s[0] == 'p');
            }
            assert(!is_prefix_at(s, 0, "dri"@)) by {
                assert("dri"@[0] == 'd');
                assert(s[0] == 'p');
            }
            assert(!is_prefix_at(s, 0, "srv"@)) by {
                assert("srv"@[0] == 's');
                assert(s[0] == 'p');
            }
            assert(!is_prefix_at(s, 0, "li"@)) by {
                assert("li"@[0] == 'l');
                assert(s[0] == 'p');
            }
            assert(!is_prefix_at(s, 0, "sr"@)) by {
                assert("sr"@[0] == 's');
                assert(s[0] == 'p');
            }
            assert(!is_prefix_at(s, 0, "s"@)) by {
                assert("s"@[0] == 's');
                assert(s[0] == 'p');
            }
        } else if g == -2 {
            assert(!is_prefix_at(s, 0, "drvi"@)) by {
                assert("drvi"@[0] == 'd');
                assert(s[0] == 'p');
            }
            assert(!is_prefix_at(s, 0, "dri"@)) by {
                assert("dri"@[0] == 'd');
                assert(s[0] == 'p');
            }
            assert(!is_prefix_at(s, 0, "srv"@)) by {
                assert("srv"@[0] == 's');
                assert(s[0] == 'p');
            }
            assert(!is_prefix_at(s, 0, "li"@)) by {
                assert("li"@[0] == 'l');
                assert(s[0] == 'p');
            }
            assert(!is_prefix_at(s, 0, "sr"@)) by {
                assert("sr"@[0] == 's');
                assert(s[0] == 'p');
            }
            assert(!is_prefix_at(s, 0, "s"@)) by {
                assert("s"@[0] == 's');
                assert(s[0] == 'p');
            }
        } else if g == -3 {
            assert(!is_prefix_at(s, 0, "drvi"@)) by {
                assert("drvi"@[0] == 'd');
                assert(s[0] == 'p');
            }
            assert(!is_prefix_at(s, 0, "dri"@)) by {
                assert("dri"@[0] == 'd');
                assert(s[0] == 'p');
            }
            assert(!is_prefix_at(s, 0, "srv"@)) by {
                assert("srv"@[0] == 's');
                assert(s[0] == 'p');
            }
            assert(!is_prefix_at(s, 0, "li"@)) by {
                assert("li"@[0] == 'l');
                assert(s[0] == 'p');
            }
            assert(!is_prefix_at(s, 0, "sr"@)) by {
                assert("sr"@[0] == 's');
                assert(s[0] == 'p');
            }
            assert(!is_prefix_at(s, 0, "s"@)) by {
                assert("s"@[0] == 's');
                assert(s[0] == 'p');
            }
        }
    } else if dn == 5 {
        if g == 1 {
            assert(!is_prefix_at(s, 0, "drvi"@)) by {
                assert("drvi"@[0] == 'd');
                assert(s[0] == 'z');
            }
            assert(!is_prefix_at(s, 0, "dri"@)) by {
                assert("dri"@[0] == 'd');
                assert(s[0] == 'z');
            }
            assert(!is_prefix_at(s, 0, "srv"@)) by {
                assert("srv"@[0] == 's');
                assert(s[0] == 'z');
            }
            assert(!is_prefix_at(s, 0, "li"@)) by {
                assert("li"@[0] == 'l');
                assert(s[0] == 'z');
            }
            assert(!is_prefix_at(s, 0, "sr"@)) by {
                assert("sr"@[0] == 's');
                assert(s[0] == 'z');
            }
            assert(!is_prefix_at(s, 0, "s"@)) by {
                assert("s"@[0] == 's');
                assert(s[0] == 'z');
            }
        } else if g == 2 {
            assert(!is_prefix_at(s, 0, "drvi"@)) by {
                assert("drvi"@[0] == 'd');
                assert(s[0] == 'z');
            }
            assert(!is_prefix_at(s, 0, "dri"@)) by {
                assert("dri"@[0] == 'd');
                assert(s[0] == 'z');
            }
            assert(!is_prefix_at(s, 0, "srv"@)) by {
                assert("srv"@[0] == 's');
                assert(s[0] == 'z');
            }
            assert(!is_prefix_at(s, 0, "li"@)) by {
                assert("li"@[0] == 'l');
                assert(s[0] == 'z');
            }
            assert(!is_prefix_at(s, 0, "sr"@)) by {
                assert("sr"@[0] == 's');
                assert(s[0] == 'z');
            }
            assert(!is_prefix_at(s, 0, "s"@)) by {
                assert("s"@[0] == 's');
                assert(s[0] == 'z');
            }
        } else if g == 3 {
            assert(!is_prefix_at(s, 0, "drvi"@)) by {
                assert("drvi"@[0] == 'd');
                assert(s[0] == 'z');
            }
            assert(!is_prefix_at(s, 0, "dri"@)) by {
                assert("dri"@[0] == 'd');
                assert(s[0] == 'z');
            }
            assert(!is_prefix_at(s, 0, "srv"@)) by {
                assert("srv"@[0] == 's');
                assert(s[0] == 'z');
            }
            assert(!is_prefix_at(s, 0, "li"@)) by {
                assert("li"@[0] == 'l');
                assert(s[0] == 'z');
            }
            assert(!is_prefix_at(s, 0, "sr"@)) by {
                assert("sr"@[0] == 's');
                assert(s[0] == 'z');
            }
            assert(!is_prefix_at(s, 0, "s"@)) by {
                assert("s"@[0] == 's');
                assert(s[0] == 'z');
            }
        } else if g == -1 {
            assert(!is_prefix_at(s, 0, "drvi"@)) by {
                assert("drvi"@[0] == 'd');
                assert(s[0] == 't');
            }
            assert(!is_prefix_at(s, 0, "dri"@)) by {
                assert("dri"@[0] == 'd');
                assert(s[0] == 't');
            }
            assert(!is_prefix_at(s, 0, "srv"@)) by {
                assert("srv"@[0] == 's');
                assert(s[0] == 't');
            }
            assert(!is_prefix_at(s, 0, "li"@)) by {
                assert("li"@[0] == 'l');
                assert(s[0] == 't');
            }
            assert(!is_prefix_at(s, 0, "sr"@)) by {
                assert("sr"@[0] == 's');
                assert(s[0] == 't');
            }
            assert(!is_prefix_at(s, 0, "s"@)) by {
                assert("s"@[0] == 's');
                assert(s[0] == 't');
            }
        } else if g == -2 {
            assert(!is_prefix_at(s, 0, "drvi"@)) by {
                assert("drvi"@[0] == 'd');
                assert(s[0] == 'k');
            }
            assert(!is_prefix_at(s, 0, "dri"@)) by {
                assert("dri"@[0] == 'd');
                assert(s[0] == 'k');
            }
            assert(!is_prefix_at(s, 0, "srv"@)) by {
                assert("srv"@[0] == 's');
                assert(s[0] == 'k');
            }
            assert(!is_prefix_at(s, 0, "li"@)) by {
                assert("li"@[0] == 'l');
                assert(s[0] == 'k');
            }
            assert(!is_prefix_at(s, 0, "sr"@)) by {
                assert("sr"@[0] == 's');
                assert(s[0] == 'k');
            }
            assert(!is_prefix_at(s, 0, "s"@)) by {
                assert("s"@[0] == 's');
                assert(s[0] == 'k');
            }
        } else if g == -3 {
            assert(!is_prefix_at(s, 0, "drvi"@)) by {
                assert("drvi"@[0] == 'd');
                assert(s[0] == 'k');
            }
            assert(!is_prefix_at(s, 0, "dri"@)) by {
                assert("dri"@[0] == 'd');
                assert(s[0] == 'k');
            }
            assert(!is_prefix_at(s, 0, "srv"@)) by {
                assert("srv"@[0] == 's');
                assert(s[0] == 'k');
            }
            assert(!is_prefix_at(s, 0, "li"@)) by {
                assert("li"@[0] == 'l');
                assert(s[0] == 'k');
            }
            assert(!is_prefix_at(s, 0, "sr"@)) by {
                assert("sr"@[0] == 's');
                assert(s[0] == 'k');
            }
            assert(!is_prefix_at(s, 0, "s"@)) by {
                assert("s"@[0] == 's');
                assert(s[0] == 'k');
            }
        }
    }
}
/// A suffix syllable of a dimension above 4 is matched by no entry of
/// dimension 4's suffix table.
#[verifier::rlimit(100)]
proof fn lemma_later_suffix_no_match_4(dn: int, g: int, t: Seq<char>)
    requires
        4 < dn <= 5,
        -3 <= g <= 3,
        g != 0,
        tail_ok(t, dn),
    ensures
        suffix_match_spec(suffix_chars(dn, g) + t, 0, 4) is None,
{
    reveal_strlit("chi");
    reveal_strlit("dri");
    reveal_strlit("drvi");
    reveal_strlit("f");
    reveal_strlit("j");
    reveal_strlit("kr");
    reveal_strlit("krv");
    reveal_strlit("li");
    reveal_strlit("mi");
    reveal_strlit("mri");
    reveal_strlit("mrvi");
    reveal_strlit("p");
    reveal_strlit("pr");
    reveal_strlit("prv");
    reveal_strlit("s");
    reveal_strlit("sch");
    reveal_strlit("sci");
    reveal_strlit("sr");
    reveal_strlit("srv");
    reveal_strlit("tsch");
    reveal_strlit("xci");
    reveal_strlit("zi");
    reveal_strlit("zri");
    reveal_strlit("zrvi");
    let syl = suffix_chars(dn, g);
    let s = syl + t;
    lemma_concat_facts(syl, t);
    if dn == 5 {
        if g == 1 {
            assert(!is_prefix_at(s, 0, "mrvi"@)) by {
                assert("mrvi"@[0] == 'm');
                assert(s[0] == 'z');
            }
            assert(!is_prefix_at(s, 0, "mri"@)) by {
                assert("mri"@[0] == 'm');
                assert(s[0] == 'z');
            }
            assert(!is_prefix_at(s, 0, "prv"@)) by {
                assert("prv"@[0] == 'p');
                assert(s[0] == 'z');
            }
            assert(!is_prefix_at(s, 0, "mi"@)) by {
                assert("mi"@[0] == 'm');
                assert(s[0] == 'z');
            }
            assert(!is_prefix_at(s, 0, "pr"@)) by {
                assert("pr"@[0] == 'p');
                assert(s[0] == 'z');
            }
            assert(!is_prefix_at(s, 0, "p"@)) by {
                assert("p"@[0] == 'p');
                assert(s[0] == 'z');
            }
        } else if g == 2 {
            assert(!is_prefix_at(s, 0, "mrvi"@)) by {
                assert("mrvi"@[0] == 'm');
                assert(s[0] == 'z');
            }
            assert(!is_prefix_at(s, 0, "mri"@)) by {
                assert("mri"@[0] == 'm');
                assert(s[0] == 'z');
            }
            assert(!is_prefix_at(s, 0, "prv"@)) by {
                assert("prv"@[0] == 'p');
                assert(s[0] == 'z');
            }
            assert(!is_prefix_at(s, 0, "mi"@)) by {
                assert("mi"@[0] == 'm');
                assert(s[0] == 'z');
            }
            assert(!is_prefix_at(s, 0, "pr"@)) by {
                assert("pr"@[0] == 'p');
                assert(s[0] == 'z');
            }
            assert(!is_prefix_at(s, 0, "p"@)) by {
                assert("p"@[0] == 'p');
                assert(s[0] == 'z');
            }
        } else if g == 3 {
            assert(!is_prefix_at(s, 0, "mrvi"@)) by {
                assert("mrvi"@[0] == 'm');
                assert(s[0] == 'z');
            }
            assert(!is_prefix_at(s, 0, "mri"@)) by {
                assert("mri"@[0] == 'm');
                assert(s[0] == 'z');
            }
            assert(!is_prefix_at(s, 0, "prv"@)) by {
                assert("prv"@[0] == 'p');
                assert(s[0] == 'z');
            }
            assert(!is_prefix_at(s, 0, "mi"@)) by {
                assert("mi"@[0] == 'm');
                assert(s[0] == 'z');
            }
            assert(!is_prefix_at(s, 0, "pr"@)) by {
                assert("pr"@[0] == 'p');
                assert(s[0] == 'z');
            }
            assert(!is_prefix_at(s, 0, "p"@)) by {
                assert("p"@[0] == 'p');
                assert(s[0] == 'z');
            }
        } else if g == -1 {
            assert(!is_prefix_at(s, 0, "mrvi"@)) by {
                assert("mrvi"@[0] == 'm');
                assert(s[0] == 't');
            }
            assert(!is_prefix_at(s, 0, "mri"@)) by {
                assert("mri"@[0] == 'm');
                assert(s[0] == 't');
            }
            assert(!is_prefix_at(s, 0, "prv"@)) by {
                assert("prv"@[0] == 'p');
                assert(s[0] == 't');
            }
            assert(!is_prefix_at(s, 0, "mi"@)) by {
                assert("mi"@[0] == 'm');
                assert(s[0] == 't');
            }
            assert(!is_prefix_at(s, 0, "pr"@)) by {
                assert("pr"@[0] == 'p');
                assert(s[0] == 't');
            }
            assert(!is_prefix_at(s, 0, "p"@)) by {
                assert("p"@[0] == 'p');
                assert(s[0] == 't');
            }
        } else if g == -2 {
            assert(!is_prefix_at(s, 0, "mrvi"@)) by {
                assert("mrvi"@[0] == 'm');
                assert(s[0] == 'k');
            }
            assert(!is_prefix_at(s, 0, "mri"@)) by {
                assert("mri"@[0] == 'm');
                assert(s[0] == 'k');
            }
            assert(!is_prefix_at(s, 0, "prv"@)) by {
                assert("prv"@[0] == 'p');
                assert(s[0] == 'k');
            }
            assert(!is_prefix_at(s, 0, "mi"@)) by {
                assert("mi"@[0] == 'm');
                assert(s[0] == 'k');
            }
            assert(!is_prefix_at(s, 0, "pr"@)) by {
                assert("pr"@[0] == 'p');
                assert(s[0] == 'k');
            }
            assert(!is_prefix_at(s, 0, "p"@)) by {
                assert("p"@[0] == 'p');
                assert(s[0] == 'k');
            }
        } else if g == -3 {
            assert(!is_prefix_at(s, 0, "mrvi"@)) by {
                assert("mrvi"@[0] == 'm');
                assert(s[0] == 'k');
            }
            assert(!is_prefix_at(s, 0, "mri"@)) by {
                assert("mri"@[0] == 'm');
                assert(s[0] == 'k');
            }
            assert(!is_prefix_at(s, 0, "prv"@)) by {
                assert("prv"@[0] == 'p');
                assert(s[0] == 'k');
            }
            assert(!is_prefix_at(s, 0, "mi"@)) by {
                assert("mi"@[0] == 'm');
                assert(s[0] == 'k');
            }
            assert(!is_prefix_at(s, 0, "pr"@)) by {
                assert("pr"@[0] == 'p');
                assert(s[0] == 'k');
            }
            assert(!is_prefix_at(s, 0, "p"@)) by {
                assert("p"@[0] == 'p');
                assert(s[0] == 'k');
            }
        }
    }
}
/// A suffix syllable of a dimension above `d` is matched by no entry of
/// dimension `d`'s suffix table.
proof fn lemma_later_suffix_no_match(d: int, dn: int, g: int, t: Seq<char>)
    requires
        2 <= d < dn <= 5,
        -3 <= g <= 3,
        g != 0,
        tail_ok(t, dn),
    ensures
        suffix_match_spec(suffix_chars(dn, g) + t, 0, d) is None,
{
    if d == 2 {
        lemma_later_suffix_no_match_2(dn, g, t);
    } else if d == 3 {
        lemma_later_suffix_no_match_3(dn, g, t);
    } else {
        lemma_later_suffix_no_match_4(dn, g, t);
    }
}
/// Text that is empty or opens with an octave marker is matched by no
/// suffix table.
#[verifier::rlimit(100)]
proof fn lemma_markers_no_suffix_match(d: int, t: Seq<char>)
    requires
        t.len() == 0 || t[0] == '+' || t[0] == '-',
    ensures
        suffix_match_spec(t, 0, d) is None,
{
    reveal_strlit("chi");
    reveal_strlit("dri");
    reveal_strlit("drvi");
    reveal_strlit("f");
    reveal_strlit("j");
    reveal_strlit("kr");
    reveal_strlit("krv");
    reveal_strlit("li");
    reveal_strlit("mi");
    reveal_strlit("mri");
    reveal_strlit("mrvi");
    reveal_strlit("p");
    reveal_strlit("pr");
    reveal_strlit("prv");
    reveal_strlit("s");
    reveal_strlit("sch");
    reveal_strlit("sci");
    reveal_strlit("sr");
    reveal_strlit("srv");
    reveal_strlit("tsch");
    reveal_strlit("xci");
    reveal_strlit("zi");
    reveal_strlit("zri");
    reveal_strlit("zrvi");
    if d == 2 {
        assert(!is_prefix_at(t, 0, "chi"@)) by {
            assert("chi"@[0] == 'c');
        }
        assert(!is_prefix_at(t, 0, "sci"@)) by {
            assert("sci"@[0] == 's');
        }
        assert(!is_prefix_at(t, 0, "xci"@)) by {
            assert("xci"@[0] == 'x');
        }
        assert(!is_prefix_at(t, 0, "sch"@)) by {
            assert("sch"@[0] == 's');
        }
        assert(!is_prefix_at(t, 0, "f"@)) by {
            assert("f"@[0] == 'f');
        }
        assert(!is_prefix_at(t, 0, "j"@)) by {
            assert("j"@[0] == 'j');
        }
    } else if d == 3 {
        assert(!is_prefix_at(t, 0, "drvi"@)) by {
            assert("drvi"@[0] == 'd');
        }
        assert(!is_prefix_at(t, 0, "dri"@)) by {
            assert("dri"@[0] == 'd');
        }
        assert(!is_prefix_at(t, 0, "srv"@)) by {
            assert("srv"@[0] == 's');
        }
        assert(!is_prefix_at(t, 0, "li"@)) by {
            assert("li"@[0] == 'l');
        }
        assert(!is_prefix_at(t, 0, "sr"@)) by {
            assert("sr"@[0] == 's');
        }
        assert(!is_prefix_at(t, 0, "s"@)) by {
            assert("s"@[0] == 's');
        }
    } else if d == 4 {
        assert(!is_prefix_at(t, 0, "mrvi"@)) by {
            assert("mrvi"@[0] == 'm');
        }
        assert(!is_prefix_at(t, 0, "mri"@)) by {
            assert("mri"@[0] == 'm');
        }
        assert(!is_prefix_at(t, 0, "prv"@)) by {
            assert("prv"@[0] == 'p');
        }
        assert(!is_prefix_at(t, 0, "mi"@)) by {
            assert("mi"@[0] == 'm');
        }
        assert(!is_prefix_at(t, 0, "pr"@)) by {
            assert("pr"@[0] == 'p');
        }
        assert(!is_prefix_at(t, 0, "p"@)) by {
            assert("p"@[0] == 'p');
        }
    } else if d == 5 {
        assert(!is_prefix_at(t, 0, "zrvi"@)) by {
            assert("zrvi"@[0] == 'z');
        }
        assert(!is_prefix_at(t, 0, "tsch"@)) by {
            assert("tsch"@[0] == 't');
        }
        assert(!is_prefix_at(t, 0, "zri"@)) by {
            assert("zri"@[0] == 'z');
        }
        assert(!is_prefix_at(t, 0, "krv"@)) by {
            assert("krv"@[0] == 'k');
        }
        assert(!is_prefix_at(t, 0, "zi"@)) by {
            assert("zi"@[0] == 'z');
        }
        assert(!is_prefix_at(t, 0, "kr"@)) by {
            assert("kr"@[0] == 'k');
        }
    }

}

/// The anchor dimension's emitted root syllable is found by that
/// dimension's root lookup, whole, with its degree, whatever follows.
#[verifier::rlimit(100)]
pub proof fn lemma_own_root_match(a: int, g: int, t: Seq<char>)
    requires
        a == 1 || (2 <= a <= 5 && -3 <= g <= 3 && g != 0),
    ensures
        root_match_spec(root_chars(a, g) + t, 0, a) == Some(
            (root_chars(a, g).len() as int, if a == 1 { 0i8 } else { g as i8 }),
        ),
{
    reveal_strlit("Ah");
    reveal_strlit("Chy");
    reveal_strlit("Drvy");
    reveal_strlit("Dry");
    reveal_strlit("Fu");
    reveal_strlit("Ju");
    reveal_strlit("Kru");
    reveal_strlit("Krvu");
    reveal_strlit("Ly");
    reveal_strlit("Mrvy");
    reveal_strlit("Mry");
    reveal_strlit("My");
    reveal_strlit("Pru");
    reveal_strlit("Prvu");
    reveal_strlit("Pu");
    reveal_strlit("Schu");
    reveal_strlit("Scy");
    reveal_strlit("Sru");
    reveal_strlit("Srvu");
    reveal_strlit("Su");
    reveal_strlit("Tschu");
    reveal_strlit("Xcy");
    reveal_strlit("Zrvy");
    reveal_strlit("Zry");
    reveal_strlit("Zy");
    let syl = root_chars(a, g);
    let s = syl + t;
    lemma_concat_facts(syl, t);
    if a == 1 {
        assert(is_prefix_at(s, 0, "Ah"@));
    } else if a == 2 {
        if g == 1 {
            assert(!is_prefix_at(s, 0, "Schu"@)) by {
                assert("Schu"@[0] == 'S');
                assert(s[0] == 'C');
            }
            assert(is_prefix_at(s, 0, "Chy"@));
        } else if g == 2 {
            assert(!is_prefix_at(s, 0, "Schu"@)) by {
                assert("Schu"@[2] == 'h');
                assert(s[2] == 'y');
            }
            assert(!is_prefix_at(s, 0, "Chy"@)) by {
                assert("Chy"@[0] == 'C');
                assert(s[0] == 'S');
            }
            assert(is_prefix_at(s, 0, "Scy"@));
        } else if g == 3 {
            assert(!is_prefix_at(s, 0, "Schu"@)) by {
                assert("Schu"@[0] == 'S');
                assert(s[0] == 'X');
            }
            assert(!is_prefix_at(s, 0, "Chy"@)) by {
                assert("Chy"@[0] == 'C');
                assert(s[0] == 'X');
            }
            assert(!is_prefix_at(s, 0, "Scy"@)) by {
                assert("Scy"@[0] == 'S');
                assert(s[0] == 'X');
            }
            assert(is_prefix_at(s, 0, "Xcy"@));
        } else if g == -1 {
            assert(!is_prefix_at(s, 0, "Schu"@)) by {
                assert("Schu"@[0] == 'S');
                assert(s[0] == 'F');
            }
            assert(!is_prefix_at(s, 0, "Chy"@)) by {
                assert("Chy"@[0] == 'C');
                assert(s[0] == 'F');
            }
            assert(!is_prefix_at(s, 0, "Scy"@)) by {
                assert("Scy"@[0] == 'S');
                assert(s[0] == 'F');
            }
            assert(!is_prefix_at(s, 0, "Xcy"@)) by {
                assert("Xcy"@[0] == 'X');
                assert(s[0] == 'F');
            }
            assert(is_prefix_at(s, 0, "Fu"@));
        } else if g == -2 {
            assert(is_prefix_at(s, 0, "Schu"@));
        } else if g == -3 {
            assert(!is_prefix_at(s, 0, "Schu"@)) by {
                assert("Schu"@[0] == 'S');
                assert(s[0] == 'J');
            }
            assert(!is_prefix_at(s, 0, "Chy"@)) by {
                assert("Chy"@[0] == 'C');
                assert(s[0] == 'J');
            }
            assert(!is_prefix_at(s, 0, "Scy"@)) by {
                assert("Scy"@[0] == 'S');
                assert(s[0] == 'J');
            }
            assert(!is_prefix_at(s, 0, "Xcy"@)) by {
                assert("Xcy"@[0] == 'X');
                assert(s[0] == 'J');
            }
            assert(!is_prefix_at(s, 0, "Fu"@)) by {
                assert("Fu"@[0] == 'F');
                assert(s[0] == 'J');
            }
            assert(is_prefix_at(s, 0, "Ju"@));
        }
    } else if a == 3 {
        if g == 1 {
            assert(!is_prefix_at(s, 0, "Drvy"@)) by {
                assert("Drvy"@[0] == 'D');
                assert(s[0] == 'L');
            }
            assert(!is_prefix_at(s, 0, "Srvu"@)) by {
                assert("Srvu"@[0] == 'S');
                assert(s[0] == 'L');
            }
            assert(!is_prefix_at(s, 0, "Dry"@)) by {
                assert("Dry"@[0] == 'D');
                assert(s[0] == 'L');
            }
            assert(!is_prefix_at(s, 0, "Sru"@)) by {
                assert("Sru"@[0] == 'S');
                assert(s[0] == 'L');
            }
            assert(is_prefix_at(s, 0, "Ly"@));
        } else if g == 2 {
            assert(!is_prefix_at(s, 0, "Drvy"@)) by {
                assert("Drvy"@[2] == 'v');
                assert(s[2] == 'y');
            }
            assert(!is_prefix_at(s, 0, "Srvu"@)) by {
                assert("Srvu"@[0] == 'S');
                assert(s[0] == 'D');
            }
            assert(is_prefix_at(s, 0, "Dry"@));
        } else if g == 3 {
            assert(is_prefix_at(s, 0, "Drvy"@));
        } else if g == -1 {
            assert(!is_prefix_at(s, 0, "Drvy"@)) by {
                assert("Drvy"@[0] == 'D');
                assert(s[0] == 'S');
            }
            assert(!is_prefix_at(s, 0, "Srvu"@)) by {
                assert("Srvu"@[1] == 'r');
                assert(s[1] == 'u');
            }
            assert(!is_prefix_at(s, 0, "Dry"@)) by {
                assert("Dry"@[0] == 'D');
                assert(s[0] == 'S');
            }
            assert(!is_prefix_at(s, 0, "Sru"@)) by {
                assert("Sru"@[1] == 'r');
                assert(s[1] == 'u');
            }
            assert(!is_prefix_at(s, 0, "Ly"@)) by {
                assert("Ly"@[0] == 'L');
                assert(s[0] == 'S');
            }
            assert(is_prefix_at(s, 0, "Su"@));
        } else if g == -2 {
            assert(!is_prefix_at(s, 0, "Drvy"@)) by {
                assert("Drvy"@[0] == 'D');
                assert(s[0] == 'S');
            }
            assert(!is_prefix_at(s, 0, "Srvu"@)) by {
                assert("Srvu"@[2] == 'v');
                assert(s[2] == 'u');
            }
            assert(!is_prefix_at(s, 0, "Dry"@)) by {
                assert("Dry"@[0] == 'D');
                assert(s[0] == 'S');
            }
            assert(is_prefix_at(s, 0, "Sru"@));
        } else if g == -3 {
            assert(!is_prefix_at(s, 0, "Drvy"@)) by {
                assert("Drvy"@[0] == 'D');
                assert(s[0] == 'S');
            }
            assert(is_prefix_at(s, 0, "Srvu"@));
        }
    } else if a == 4 {
        if g == 1 {
            assert(!is_prefix_at(s, 0, "Mrvy"@)) by {
                assert("Mrvy"@[1] == 'r');
                assert(s[1] == 'y');
            }
            assert(!is_prefix_at(s, 0, "Prvu"@)) by {
                assert("Prvu"@[0] == 'P');
                assert(s[0] == 'M');
            }
            assert(!is_prefix_at(s, 0, "Mry"@)) by {
                assert("Mry"@[1] == 'r');
                assert(s[1] == 'y');
            }
            assert(!is_prefix_at(s, 0, "Pru"@)) by {
                assert("Pru"@[0] == 'P');
                assert(s[0] == 'M');
            }
            assert(is_prefix_at(s, 0, "My"@));
        } else if g == 2 {
            assert(!is_prefix_at(s, 0, "Mrvy"@)) by {
                assert("Mrvy"@[2] == 'v');
                assert(s[2] == 'y');
            }
            assert(!is_prefix_at(s, 0, "Prvu"@)) by {
                assert("Prvu"@[0] == 'P');
                assert(s[0] == 'M');
            }
            assert(is_prefix_at(s, 0, "Mry"@));
        } else if g == 3 {
            assert(is_prefix_at(s, 0, "Mrvy"@));
        } else if g == -1 {
            assert(!is_prefix_at(s, 0, "Mrvy"@)) by {
                assert("Mrvy"@[0] == 'M');
                assert(s[0] == 'P');
            }
            assert(!is_prefix_at(s, 0, "Prvu"@)) by {
                assert("Prvu"@[1] == 'r');
                assert(s[1] == 'u');
            }
            assert(!is_prefix_at(s, 0, "Mry"@)) by {
                assert("Mry"@[0] == 'M');
                assert(s[0] == 'P');
            }
            assert(!is_prefix_at(s, 0, "Pru"@)) by {
                assert("Pru"@[1] == 'r');
                assert(s[1] == 'u');
            }
            assert(!is_prefix_at(s, 0, "My"@)) by {
                assert("My"@[0] == 'M');
                assert(s[0] == 'P');
            }
            assert(is_prefix_at(s, 0, "Pu"@));
        } else if g == -2 {
            assert(!is_prefix_at(s, 0, "Mrvy"@)) by {
                assert("Mrvy"@[0] == 'M');
                assert(s[0] == 'P');
            }
            assert(!is_prefix_at(s, 0, "Prvu"@)) by {
                assert("Prvu"@[2] == 'v');
                assert(s[2] == 'u');
            }
            assert(!is_prefix_at(s, 0, "Mry"@)) by {
                assert("Mry"@[0] == 'M');
                assert(s[0] == 'P');
            }
            assert(is_prefix_at(s, 0, "Pru"@));
        } else if g == -3 {
            assert(!is_prefix_at(s, 0, "Mrvy"@)) by {
                assert("Mrvy"@[0] == 'M');
                assert(s[0] == 'P');
            }
            assert(is_prefix_at(s, 0, "Prvu"@));
        }
    } else if a == 5 {
        if g == 1 {
            assert(!is_prefix_at(s, 0, "Tschu"@)) by {
                assert("Tschu"@[0] == 'T');
                assert(s[0] == 'Z');
            }
            assert(!is_prefix_at(s, 0, "Zrvy"@)) by {
                assert("Zrvy"@[1] == 'r');
                assert(s[1] == 'y');
            }
            assert(!is_prefix_at(s, 0, "Krvu"@)) by {
                assert("Krvu"@[0] == 'K');
                assert(s[0] == 'Z');
            }
            assert(!is_prefix_at(s, 0, "Zry"@)) by {
                assert("Zry"@[1] == 'r');
                assert(s[1] == 'y');
            }
            assert(!is_prefix_at(s, 0, "Kru"@)) by {
                assert("Kru"@[0] == 'K');
                assert(s[0] == 'Z');
            }
            assert(is_prefix_at(s, 0, "Zy"@));
        } else if g == 2 {
            assert(!is_prefix_at(s, 0, "Tschu"@)) by {
                assert("Tschu"@[0] == 'T');
                assert(s[0] == 'Z');
            }
            assert(!is_prefix_at(s, 0, "Zrvy"@)) by {
                assert("Zrvy"@[2] == 'v');
                assert(s[2] == 'y');
            }
            assert(!is_prefix_at(s, 0, "Krvu"@)) by {
                assert("Krvu"@[0] == 'K');
                assert(s[0] == 'Z');
            }
            assert(is_prefix_at(s, 0, "Zry"@));
        } else if g == 3 {
            assert(!is_prefix_at(s, 0, "Tschu"@)) by {
                assert("Tschu"@[0] == 'T');
                assert(s[0] == 'Z');
            }
            assert(is_prefix_at(s, 0, "Zrvy"@));
        } else if g == -1 {
            assert(is_prefix_at(s, 0, "Tschu"@));
        } else if g == -2 {
            assert(!is_prefix_at(s, 0, "Tschu"@)) by {
                assert("Tschu"@[0] == 'T');
                assert(s[0] == 'K');
            }
            assert(!is_prefix_at(s, 0, "Zrvy"@)) by {
                assert("Zrvy"@[0] == 'Z');
                assert(s[0] == 'K');
            }
            assert(!is_prefix_at(s, 0, "Krvu"@)) by {
                assert("Krvu"@[2] == 'v');
                assert(s[2] == 'u');
            }
            assert(!is_prefix_at(s, 0, "Zry"@)) by {
                assert("Zry"@[0] == 'Z');
                assert(s[0] == 'K');
            }
            assert(is_prefix_at(s, 0, "Kru"@));
        } else if g == -3 {
            assert(!is_prefix_at(s, 0, "Tschu"@)) by {
                assert("Tschu"@[0] == 'T');
                assert(s[0] == 'K');
            }
            assert(!is_prefix_at(s, 0, "Zrvy"@)) by {
                assert("Zrvy"@[0] == 'Z');
                assert(s[0] == 'K');
            }
            assert(is_prefix_at(s, 0, "Krvu"@));
        }
    }
}

/// The anchor's emitted root syllable is matched by no entry of any
/// lower dimension's root table, whatever follows.
#[verifier::rlimit(100)]
pub proof fn lemma_earlier_root_no_match(d: int, a: int, g: int, t: Seq<char>)
    requires
        1 <= d < a <= 5,
        2 <= a,
        -3 <= g <= 3,
        g != 0,
    ensures
        root_match_spec(root_chars(a, g) + t, 0, d) is None,
{
    reveal_strlit("Ah");
    reveal_strlit("Chy");
    reveal_strlit("Drvy");
    reveal_strlit("Dry");
    reveal_strlit("Fu");
    reveal_strlit("Ju");
    reveal_strlit("Kru");
    reveal_strlit("Krvu");
    reveal_strlit("Ly");
    reveal_strlit("Mrvy");
    reveal_strlit("Mry");
    reveal_strlit("My");
    reveal_strlit("Pru");
    reveal_strlit("Prvu");
    reveal_strlit("Pu");
    reveal_strlit("Schu");
    reveal_strlit("Scy");
    reveal_strlit("Sru");
    reveal_strlit("Srvu");
    reveal_strlit("Su");
    reveal_strlit("Tschu");
    reveal_strlit("Xcy");
    reveal_strlit("Zrvy");
    reveal_strlit("Zry");
    reveal_strlit("Zy");
    let syl = root_chars(a, g);
    let s = syl + t;
    lemma_concat_facts(syl, t);
    if a == 2 {
        if g == 1 {
            assert(!is_prefix_at(s, 0, "Ah"@)) by {
                assert("Ah"@[0] == 'A');
                assert(s[0] == 'C');
            }
        } else if g == 2 {
            assert(!is_prefix_at(s, 0, "Ah"@)) by {
                assert("Ah"@[0] == 'A');
                assert(s[0] == 'S');
            }
        } else if g == 3 {
            assert(!is_prefix_at(s, 0, "Ah"@)) by {
                assert("Ah"@[0] == 'A');
                assert(s[0] == 'X');
            }
        } else if g == -1 {
            assert(!is_prefix_at(s, 0, "Ah"@)) by {
                assert("Ah"@[0] == 'A');
                assert(s[0] == 'F');
            }
        } else if g == -2 {
            assert(!is_prefix_at(s, 0, "Ah"@)) by {
                assert("Ah"@[0] == 'A');
                assert(s[0] == 'S');
            }
        } else if g == -3 {
            assert(!is_prefix_at(s, 0, "Ah"@)) by {
                assert("Ah"@[0] == 'A');
                assert(s[0] == 'J');
            }
        }
    } else if a == 3 {
        if g == 1 {
            assert(!is_prefix_at(s, 0, "Ah"@)) by {
                assert("Ah"@[0] == 'A');
                assert(s[0] == 'L');
            }
            assert(!is_prefix_at(s, 0, "Schu"@)) by {
                assert("Schu"@[0] == 'S');
                assert(s[0] == 'L');
            }
            assert(!is_prefix_at(s, 0, "Chy"@)) by {
                assert("Chy"@[0] == 'C');
                assert(s[0] == 'L');
            }
            assert(!is_prefix_at(s, 0, "Scy"@)) by {
                assert("Scy"@[0] == 'S');
                assert(s[0] == 'L');
            }
            assert(!is_prefix_at(s, 0, "Xcy"@)) by {
                assert("Xcy"@[0] == 'X');
                assert(s[0] == 'L');
            }
            assert(!is_prefix_at(s, 0, "Fu"@)) by {
                assert("Fu"@[0] == 'F');
                assert(s[0] == 'L');
            }
            assert(!is_prefix_at(s, 0, "Ju"@)) by {
                assert("Ju"@[0] == 'J');
                assert(s[0] == 'L');
            }
        } else if g == 2 {
            assert(!is_prefix_at(s, 0, "Ah"@)) by {
                assert("Ah"@[0] == 'A');
                assert(s[0] == 'D');
            }
            assert(!is_prefix_at(s, 0, "Schu"@)) by {
                assert("Schu"@[0] == 'S');
                assert(s[0] == 'D');
            }
            assert(!is_prefix_at(s, 0, "Chy"@)) by {
                assert("Chy"@[0] == 'C');
                assert(s[0] == 'D');
            }
            assert(!is_prefix_at(s, 0, "Scy"@)) by {
                assert("Scy"@[0] == 'S');
                assert(s[0] == 'D');
            }
            assert(!is_prefix_at(s, 0, "Xcy"@)) by {
                assert("Xcy"@[0] == 'X');
                assert(s[0] == 'D');
            }
            assert(!is_prefix_at(s, 0, "Fu"@)) by {
                assert("Fu"@[0] == 'F');
                assert(s[0] == 'D');
            }
            assert(!is_prefix_at(s, 0, "Ju"@)) by {
                assert("Ju"@[0] == 'J');
                assert(s[0] == 'D');
            }
        } else if g == 3 {
            assert(!is_prefix_at(s, 0, "Ah"@)) by {
                assert("Ah"@[0] == 'A');
                assert(s[0] == 'D');
            }
            assert(!is_prefix_at(s, 0, "Schu"@)) by {
                assert("Schu"@[0] == 'S');
                assert(s[0] == 'D');
            }
            assert(!is_prefix_at(s, 0, "Chy"@)) by {
                assert("Chy"@[0] == 'C');
                assert(s[0] == 'D');
            }
            assert(!is_prefix_at(s, 0, "Scy"@)) by {
                assert("Scy"@[0] == 'S');
                assert(s[0] == 'D');
            }
            assert(!is_prefix_at(s, 0, "Xcy"@)) by {
                assert("Xcy"@[0] == 'X');
                assert(s[0] == 'D');
            }
            assert(!is_prefix_at(s, 0, "Fu"@)) by {
                assert("Fu"@[0] == 'F');
                assert(s[0] == 'D');
            }
            assert(!is_prefix_at(s, 0, "Ju"@)) by {
                assert("Ju"@[0] == 'J');
                assert(s[0] == 'D');
            }
        } else if g == -1 {
            assert(!is_prefix_at(s, 0, "Ah"@)) by {
                assert("Ah"@[0] == 'A');
                assert(s[0] == 'S');
            }
            assert(!is_prefix_at(s, 0, "Schu"@)) by {
                assert("Schu"@[1] == 'c');
                assert(s[1] == 'u');
            }
            assert(!is_prefix_at(s, 0, "Chy"@)) by {
                assert("Chy"@[0] == 'C');
                assert(s[0] == 'S');
            }
            assert(!is_prefix_at(s, 0, "Scy"@)) by {
                assert("Scy"@[1] == 'c');
                assert(s[1] == 'u');
            }
            assert(!is_prefix_at(s, 0, "Xcy"@)) by {
                assert("Xcy"@[0] == 'X');
                assert(s[0] == 'S');
            }
            assert(!is_prefix_at(s, 0, "Fu"@)) by {
                assert("Fu"@[0] == 'F');
                assert(s[0] == 'S');
            }
            assert(!is_prefix_at(s, 0, "Ju"@)) by {
                assert("Ju"@[0] == 'J');
                assert(s[0] == 'S');
            }
        } else if g == -2 {
            assert(!is_prefix_at(s, 0, "Ah"@)) by {
                assert("Ah"@[0] == 'A');
                assert(s[0] == 'S');
            }
            assert(!is_prefix_at(s, 0, "Schu"@)) by {
                assert("Schu"@[1] == 'c');
                assert(s[1] == 'r');
            }
            assert(!is_prefix_at(s, 0, "Chy"@)) by {
                assert("Chy"@[0] == 'C');
                assert(s[0] == 'S');
            }
            assert(!is_prefix_at(s, 0, "Scy"@)) by {
                assert("Scy"@[1] == 'c');
                assert(s[1] == 'r');
            }
            assert(!is_prefix_at(s, 0, "Xcy"@)) by {
                assert("Xcy"@[0] == 'X');
                assert(s[0] == 'S');
            }
            assert(!is_prefix_at(s, 0, "Fu"@)) by {
                assert("Fu"@[0] == 'F');
                assert(s[0] == 'S');
            }
            assert(!is_prefix_at(s, 0, "Ju"@)) by {
                assert("Ju"@[0] == 'J');
                assert(s[0] == 'S');
            }
        } else if g == -3 {
            assert(!is_prefix_at(s, 0, "Ah"@)) by {
                assert("Ah"@[0] == 'A');
                assert(s[0] == 'S');
            }
            assert(!is_prefix_at(s, 0, "Schu"@)) by {
                assert("Schu"@[1] == 'c');
                assert(s[1] == 'r');
            }
            assert(!is_prefix_at(s, 0, "Chy"@)) by {
                assert("Chy"@[0] == 'C');
                assert(s[0] == 'S');
            }
            assert(!is_prefix_at(s, 0, "Scy"@)) by {
                assert("Scy"@[1] == 'c');
                assert(s[1] == 'r');
            }
            assert(!is_prefix_at(s, 0, "Xcy"@)) by {
                assert("Xcy"@[0] == 'X');
                assert(s[0] == 'S');
            }
            assert(!is_prefix_at(s, 0, "Fu"@)) by {
                assert("Fu"@[0] == 'F');
                assert(s[0] == 'S');
            }
            assert(!is_prefix_at(s, 0, "Ju"@)) by {
                assert("Ju"@[0] == 'J');
                assert(s[0] == 'S');
            }
        }
    } else if a == 4 {
        if g == 1 {
            assert(!is_prefix_at(s, 0, "Ah"@)) by {
                assert("Ah"@[0] == 'A');
                assert(s[0] == 'M');
            }
            assert(!is_prefix_at(s, 0, "Schu"@)) by {
                assert("Schu"@[0] == 'S');
                assert(s[0] == 'M');
            }
            assert(!is_prefix_at(s, 0, "Chy"@)) by {
                assert("Chy"@[0] == 'C');
                assert(s[0] == 'M');
            }
            assert(!is_prefix_at(s, 0, "Scy"@)) by {
                assert("Scy"@[0] == 'S');
                assert(s[0] == 'M');
            }
            assert(!is_prefix_at(s, 0, "Xcy"@)) by {
                assert("Xcy"@[0] == 'X');
                assert(s[0] == 'M');
            }
            assert(!is_prefix_at(s, 0, "Fu"@)) by {
                assert("Fu"@[0] == 'F');
                assert(s[0] == 'M');
            }
            assert(!is_prefix_at(s, 0, "Ju"@)) by {
                assert("Ju"@[0] == 'J');
                assert(s[0] == 'M');
            }
            assert(!is_prefix_at(s, 0, "Drvy"@)) by {
                assert("Drvy"@[0] == 'D');
                assert(s[0] == 'M');
            }
            assert(!is_prefix_at(s, 0, "Srvu"@)) by {
                assert("Srvu"@[0] == 'S');
                assert(s[0] == 'M');
            }
            assert(!is_prefix_at(s, 0, "Dry"@)) by {
                assert("Dry"@[0] == 'D');
                assert(s[0] == 'M');
            }
            assert(!is_prefix_at(s, 0, "Sru"@)) by {
                assert("Sru"@[0] == 'S');
                assert(s[0] == 'M');
            }
            assert(!is_prefix_at(s, 0, "Ly"@)) by {
                assert("Ly"@[0] == 'L');
                assert(s[0] == 'M');
            }
            assert(!is_prefix_at(s, 0, "Su"@)) by {
                assert("Su"@[0] == 'S');
                assert(s[0] == 'M');
            }
        } else if g == 2 {
            assert(!is_prefix_at(s, 0, "Ah"@)) by {
                assert("Ah"@[0] == 'A');
                assert(s[0] == 'M');
            }
            assert(!is_prefix_at(s, 0, "Schu"@)) by {
                assert("Schu"@[0] == 'S');
                assert(s[0] == 'M');
            }
            assert(!is_prefix_at(s, 0, "Chy"@)) by {
                assert("Chy"@[0] == 'C');
                assert(s[0] == 'M');
            }
            assert(!is_prefix_at(s, 0, "Scy"@)) by {
                assert("Scy"@[0] == 'S');
                assert(s[0] == 'M');
            }
            assert(!is_prefix_at(s, 0, "Xcy"@)) by {
                assert("Xcy"@[0] == 'X');
                assert(s[0] == 'M');
            }
            assert(!is_prefix_at(s, 0, "Fu"@)) by {
                assert("Fu"@[0] == 'F');
                assert(s[0] == 'M');
            }
            assert(!is_prefix_at(s, 0, "Ju"@)) by {
                assert("Ju"@[0] == 'J');
                assert(s[0] == 'M');
            }
            assert(!is_prefix_at(s, 0, "Drvy"@)) by {
                assert("Drvy"@[0] == 'D');
                assert(s[0] == 'M');
            }
            assert(!is_prefix_at(s, 0, "Srvu"@)) by {
                assert("Srvu"@[0] == 'S');
                assert(s[0] == 'M');
            }
            assert(!is_prefix_at(s, 0, "Dry"@)) by {
                assert("Dry"@[0] == 'D');
                assert(s[0] == 'M');
            }
            assert(!is_prefix_at(s, 0, "Sru"@)) by {
                assert("Sru"@[0] == 'S');
                assert(s[0] == 'M');
            }
            assert(!is_prefix_at(s, 0, "Ly"@)) by {
                assert("Ly"@[0] == 'L');
                assert(s[0] == 'M');
            }
            assert(!is_prefix_at(s, 0, "Su"@)) by {
                assert("Su"@[0] == 'S');
                assert(s[0] == 'M');
            }
        } else if g == 3 {
            assert(!is_prefix_at(s, 0, "Ah"@)) by {
                assert("Ah"@[0] == 'A');
                assert(s[0] == 'M');
            }
            assert(!is_prefix_at(s, 0, "Schu"@)) by {
                assert("Schu"@[0] == 'S');
                assert(s[0] == 'M');
            }
            assert(!is_prefix_at(s, 0, "Chy"@)) by {
                assert("Chy"@[0] == 'C');
                assert(s[0] == 'M');
            }
            assert(!is_prefix_at(s, 0, "Scy"@)) by {
                assert("Scy"@[0] == 'S');
                assert(s[0] == 'M');
            }
            assert(!is_prefix_at(s, 0, "Xcy"@)) by {
                assert("Xcy"@[0] == 'X');
                assert(s[0] == 'M');
            }
            assert(!is_prefix_at(s, 0, "Fu"@)) by {
                assert("Fu"@[0] == 'F');
                assert(s[0] == 'M');
            }
            assert(!is_prefix_at(s, 0, "Ju"@)) by {
                assert("Ju"@[0] == 'J');
                assert(s[0] == 'M');
            }
            assert(!is_prefix_at(s, 0, "Drvy"@)) by {
                assert("Drvy"@[0] == 'D');
                assert(s[0] == 'M');
            }
            assert(!is_prefix_at(s, 0, "Srvu"@)) by {
                assert("Srvu"@[0] == 'S');
                assert(s[0] == 'M');
            }
            assert(!is_prefix_at(s, 0, "Dry"@)) by {
                assert("Dry"@[0] == 'D');
                assert(s[0] == 'M');
            }
            assert(!is_prefix_at(s, 0, "Sru"@)) by {
                assert("Sru"@[0] == 'S');
                assert(s[0] == 'M');
            }
            assert(!is_prefix_at(s, 0, "Ly"@)) by {
                assert("Ly"@[0] == 'L');
                assert(s[0] == 'M');
            }
            assert(!is_prefix_at(s, 0, "Su"@)) by {
                assert("Su"@[0] == 'S');
                assert(s[0] == 'M');
            }
        } else if g == -1 {
            assert(!is_prefix_at(s, 0, "Ah"@)) by {
                assert("Ah"@[0] == 'A');
                assert(s[0] == 'P');
            }
            assert(!is_prefix_at(s, 0, "Schu"@)) by {
                assert("Schu"@[0] == 'S');
                assert(s[0] == 'P');
            }
            assert(!is_prefix_at(s, 0, "Chy"@)) by {
                assert("Chy"@[0] == 'C');
                assert(s[0] == 'P');
            }
            assert(!is_prefix_at(s, 0, "Scy"@)) by {
                assert("Scy"@[0] == 'S');
                assert(s[0] == 'P');
            }
            assert(!is_prefix_at(s, 0, "Xcy"@)) by {
                assert("Xcy"@[0] == 'X');
                assert(s[0] == 'P');
            }
            assert(!is_prefix_at(s, 0, "Fu"@)) by {
                assert("Fu"@[0] == 'F');
                assert(s[0] == 'P');
            }
            assert(!is_prefix_at(s, 0, "Ju"@)) by {
                assert("Ju"@[0] == 'J');
                assert(s[0] == 'P');
            }
            assert(!is_prefix_at(s, 0, "Drvy"@)) by {
                assert("Drvy"@[0] == 'D');
                assert(s[0] == 'P');
            }
            assert(!is_prefix_at(s, 0, "Srvu"@)) by {
                assert("Srvu"@[0] == 'S');
                assert(s[0] == 'P');
            }
            assert(!is_prefix_at(s, 0, "Dry"@)) by {
                assert("Dry"@[0] == 'D');
                assert(s[0] == 'P');
            }
            assert(!is_prefix_at(s, 0, "Sru"@)) by {
                assert("Sru"@[0] == 'S');
                assert(s[0] == 'P');
            }
            assert(!is_prefix_at(s, 0, "Ly"@)) by {
                assert("Ly"@[0] == 'L');
                assert(s[0] == 'P');
            }
            assert(!is_prefix_at(s, 0, "Su"@)) by {
                assert("Su"@[0] == 'S');
                assert(s[0] == 'P');
            }
        } else if g == -2 {
            assert(!is_prefix_at(s, 0, "Ah"@)) by {
                assert("Ah"@[0] == 'A');
                assert(s[0] == 'P');
            }
            assert(!is_prefix_at(s, 0, "Schu"@)) by {
                assert("Schu"@[0] == 'S');
                assert(s[0] == 'P');
            }
            assert(!is_prefix_at(s, 0, "Chy"@)) by {
                assert("Chy"@[0] == 'C');
                assert(s[0] == 'P');
            }
            assert(!is_prefix_at(s, 0, "Scy"@)) by {
                assert("Scy"@[0] == 'S');
                assert(s[0] == 'P');
            }
            assert(!is_prefix_at(s, 0, "Xcy"@)) by {
                assert("Xcy"@[0] == 'X');
                assert(s[0] == 'P');
            }
            assert(!is_prefix_at(s, 0, "Fu"@)) by {
                assert("Fu"@[0] == 'F');
                assert(s[0] == 'P');
            }
            assert(!is_prefix_at(s, 0, "Ju"@)) by {
                assert("Ju"@[0] == 'J');
                assert(s[0] == 'P');
            }
            assert(!is_prefix_at(s, 0, "Drvy"@)) by {
                assert("Drvy"@[0] == 'D');
                assert(s[0] == 'P');
            }
            assert(!is_prefix_at(s, 0, "Srvu"@)) by {
                assert("Srvu"@[0] == 'S');
                assert(s[0] == 'P');
            }
            assert(!is_prefix_at(s, 0, "Dry"@)) by {
                assert("Dry"@[0] == 'D');
                assert(s[0] == 'P');
            }
            assert(!is_prefix_at(s, 0, "Sru"@)) by {
                assert("Sru"@[0] == 'S');
                assert(s[0] == 'P');
            }
            assert(!is_prefix_at(s, 0, "Ly"@)) by {
                assert("Ly"@[0] == 'L');
                assert(s[0] == 'P');
            }
            assert(!is_prefix_at(s, 0, "Su"@)) by {
                assert("Su"@[0] == 'S');
                assert(s[0] == 'P');
            }
        } else if g == -3 {
            assert(!is_prefix_at(s, 0, "Ah"@)) by {
                assert("Ah"@[0] == 'A');
                assert(s[0] == 'P');
            }
            assert(!is_prefix_at(s, 0, "Schu"@)) by {
                assert("Schu"@[0] == 'S');
                assert(s[0] == 'P');
            }
            assert(!is_prefix_at(s, 0, "Chy"@)) by {
                assert("Chy"@[0] == 'C');
                assert(s[0] == 'P');
            }
            assert(!is_prefix_at(s, 0, "Scy"@)) by {
                assert("Scy"@[0] == 'S');
                assert(s[0] == 'P');
            }
            assert(!is_prefix_at(s, 0, "Xcy"@)) by {
                assert("Xcy"@[0] == 'X');
                assert(s[0] == 'P');
            }
            assert(!is_prefix_at(s, 0, "Fu"@)) by {
                assert("Fu"@[0] == 'F');
                assert(s[0] == 'P');
            }
            assert(!is_prefix_at(s, 0, "Ju"@)) by {
                assert("Ju"@[0] == 'J');
                assert(s[0] == 'P');
            }
            assert(!is_prefix_at(s, 0, "Drvy"@)) by {
                assert("Drvy"@[0] == 'D');
                assert(s[0] == 'P');
            }
            assert(!is_prefix_at(s, 0, "Srvu"@)) by {
                assert("Srvu"@[0] == 'S');
                assert(s[0] == 'P');
            }
            assert(!is_prefix_at(s, 0, "Dry"@)) by {
                assert("Dry"@[0] == 'D');
                assert(s[0] == 'P');
            }
            assert(!is_prefix_at(s, 0, "Sru"@)) by {
                assert("Sru"@[0] == 'S');
                assert(s[0] == 'P');
            }
            assert(!is_prefix_at(s, 0, "Ly"@)) by {
                assert("Ly"@[0] == 'L');
                assert(s[0] == 'P');
            }
            assert(!is_prefix_at(s, 0, "Su"@)) by {
                assert("Su"@[0] == 'S');
                assert(s[0] == 'P');
            }
        }
    } else if a == 5 {
        if g == 1 {
            assert(!is_prefix_at(s, 0, "Ah"@)) by {
                assert("Ah"@[0] == 'A');
                assert(s[0] == 'Z');
            }
            assert(!is_prefix_at(s, 0, "Schu"@)) by {
                assert("Schu"@[0] == 'S');
                assert(s[0] == 'Z');
            }
            assert(!is_prefix_at(s, 0, "Chy"@)) by {
                assert("Chy"@[0] == 'C');
                assert(s[0] == 'Z');
            }
            assert(!is_prefix_at(s, 0, "Scy"@)) by {
                assert("Scy"@[0] == 'S');
                assert(s[0] == 'Z');
            }
            assert(!is_prefix_at(s, 0, "Xcy"@)) by {
                assert("Xcy"@[0] == 'X');
                assert(s[0] == 'Z');
            }
            assert(!is_prefix_at(s, 0, "Fu"@)) by {
                assert("Fu"@[0] == 'F');
                assert(s[0] == 'Z');
            }
            assert(!is_prefix_at(s, 0, "Ju"@)) by {
                assert("Ju"@[0] == 'J');
                assert(s[0] == 'Z');
            }
            assert(!is_prefix_at(s, 0, "Drvy"@)) by {
                assert("Drvy"@[0] == 'D');
                assert(s[0] == 'Z');
            }
            assert(!is_prefix_at(s, 0, "Srvu"@)) by {
                assert("Srvu"@[0] == 'S');
                assert(s[0] == 'Z');
            }
            assert(!is_prefix_at(s, 0, "Dry"@)) by {
                assert("Dry"@[0] == 'D');
                assert(s[0] == 'Z');
            }
            assert(!is_prefix_at(s, 0, "Sru"@)) by {
                assert("Sru"@[0] == 'S');
                assert(s[0] == 'Z');
            }
            assert(!is_prefix_at(s, 0, "Ly"@)) by {
                assert("Ly"@[0] == 'L');
                assert(s[0] == 'Z');
            }
            assert(!is_prefix_at(s, 0, "Su"@)) by {
                assert("Su"@[0] == 'S');
                assert(s[0] == 'Z');
            }
            assert(!is_prefix_at(s, 0, "Mrvy"@)) by {
                assert("Mrvy"@[0] == 'M');
                assert(s[0] == 'Z');
            }
            assert(!is_prefix_at(s, 0, "Prvu"@)) by {
                assert("Prvu"@[0] == 'P');
                assert(s[0] == 'Z');
            }
            assert(!is_prefix_at(s, 0, "Mry"@)) by {
                assert("Mry"@[0] == 'M');
                assert(s[0] == 'Z');
            }
            assert(!is_prefix_at(s, 0, "Pru"@)) by {
                assert("Pru"@[0] == 'P');
                assert(s[0] == 'Z');
            }
            assert(!is_prefix_at(s, 0, "My"@)) by {
                assert("My"@[0] == 'M');
                assert(s[0] == 'Z');
            }
            assert(!is_prefix_at(s, 0, "Pu"@)) by {
                assert("Pu"@[0] == 'P');
                assert(s[0] == 'Z');
            }
        } else if g == 2 {
            assert(!is_prefix_at(s, 0, "Ah"@)) by {
                assert("Ah"@[0] == 'A');
                assert(s[0] == 'Z');
            }
            assert(!is_prefix_at(s, 0, "Schu"@)) by {
                assert("Schu"@[0] == 'S');
                assert(s[0] == 'Z');
            }
            assert(!is_prefix_at(s, 0, "Chy"@)) by {
                assert("Chy"@[0] == 'C');
                assert(s[0] == 'Z');
            }
            assert(!is_prefix_at(s, 0, "Scy"@)) by {
                assert("Scy"@[0] == 'S');
                assert(s[0] == 'Z');
            }
            assert(!is_prefix_at(s, 0, "Xcy"@)) by {
                assert("Xcy"@[0] == 'X');
                assert(s[0] == 'Z');
            }
            assert(!is_prefix_at(s, 0, "Fu"@)) by {
                assert("Fu"@[0] == 'F');
                assert(s[0] == 'Z');
            }
            assert(!is_prefix_at(s, 0, "Ju"@)) by {
                assert("Ju"@[0] == 'J');
                assert(s[0] == 'Z');
            }
            assert(!is_prefix_at(s, 0, "Drvy"@)) by {
                assert("Drvy"@[0] == 'D');
                assert(s[0] == 'Z');
            }
            assert(!is_prefix_at(s, 0, "Srvu"@)) by {
                assert("Srvu"@[0] == 'S');
                assert(s[0] == 'Z');
            }
            assert(!is_prefix_at(s, 0, "Dry"@)) by {
                assert("Dry"@[0] == 'D');
                assert(s[0] == 'Z');
            }
            assert(!is_prefix_at(s, 0, "Sru"@)) by {
                assert("Sru"@[0] == 'S');
                assert(s[0] == 'Z');
            }
            assert(!is_prefix_at(s, 0, "Ly"@)) by {
                assert("Ly"@[0] == 'L');
                assert(s[0] == 'Z');
            }
            assert(!is_prefix_at(s, 0, "Su"@)) by {
                assert("Su"@[0] == 'S');
                assert(s[0] == 'Z');
            }
            assert(!is_prefix_at(s, 0, "Mrvy"@)) by {
                assert("Mrvy"@[0] == 'M');
                assert(s[0] == 'Z');
            }
            assert(!is_prefix_at(s, 0, "Prvu"@)) by {
                assert("Prvu"@[0] == 'P');
                assert(s[0] == 'Z');
            }
            assert(!is_prefix_at(s, 0, "Mry"@)) by {
                assert("Mry"@[0] == 'M');
                assert(s[0] == 'Z');
            }
            assert(!is_prefix_at(s, 0, "Pru"@)) by {
                assert("Pru"@[0] == 'P');
                assert(s[0] == 'Z');
            }
            assert(!is_prefix_at(s, 0, "My"@)) by {
                assert("My"@[0] == 'M');
                assert(s[0] == 'Z');
            }
            assert(!is_prefix_at(s, 0, "Pu"@)) by {
                assert("Pu"@[0] == 'P');
                assert(s[0] == 'Z');
            }
        } else if g == 3 {
            assert(!is_prefix_at(s, 0, "Ah"@)) by {
                assert("Ah"@[0] == 'A');
                assert(s[0] == 'Z');
            }
            assert(!is_prefix_at(s, 0, "Schu"@)) by {
                assert("Schu"@[0] == 'S');
                assert(s[0] == 'Z');
            }
            assert(!is_prefix_at(s, 0, "Chy"@)) by {
                assert("Chy"@[0] == 'C');
                assert(s[0] == 'Z');
            }
            assert(!is_prefix_at(s, 0, "Scy"@)) by {
                assert("Scy"@[0] == 'S');
                assert(s[0] == 'Z');
            }
            assert(!is_prefix_at(s, 0, "Xcy"@)) by {
                assert("Xcy"@[0] == 'X');
                assert(s[0] == 'Z');
            }
            assert(!is_prefix_at(s, 0, "Fu"@)) by {
                assert("Fu"@[0] == 'F');
                assert(s[0] == 'Z');
            }
            assert(!is_prefix_at(s, 0, "Ju"@)) by {
                assert("Ju"@[0] == 'J');
                assert(s[0] == 'Z');
            }
            assert(!is_prefix_at(s, 0, "Drvy"@)) by {
                assert("Drvy"@[0] == 'D');
                assert(s[0] == 'Z');
            }
            assert(!is_prefix_at(s, 0, "Srvu"@)) by {
                assert("Srvu"@[0] == 'S');
                assert(s[0] == 'Z');
            }
            assert(!is_prefix_at(s, 0, "Dry"@)) by {
                assert("Dry"@[0] == 'D');
                assert(s[0] == 'Z');
            }
            assert(!is_prefix_at(s, 0, "Sru"@)) by {
                assert("Sru"@[0] == 'S');
                assert(s[0] == 'Z');
            }
            assert(!is_prefix_at(s, 0, "Ly"@)) by {
                assert("Ly"@[0] == 'L');
                assert(s[0] == 'Z');
            }
            assert(!is_prefix_at(s, 0, "Su"@)) by {
                assert("Su"@[0] == 'S');
                assert(s[0] == 'Z');
            }
            assert(!is_prefix_at(s, 0, "Mrvy"@)) by {
                assert("Mrvy"@[0] == 'M');
                assert(s[0] == 'Z');
            }
            assert(!is_prefix_at(s, 0, "Prvu"@)) by {
                assert("Prvu"@[0] == 'P');
                assert(s[0] == 'Z');
            }
            assert(!is_prefix_at(s, 0, "Mry"@)) by {
                assert("Mry"@[0] == 'M');
                assert(s[0] == 'Z');
            }
            assert(!is_prefix_at(s, 0, "Pru"@)) by {
                assert("Pru"@[0] == 'P');
                assert(s[0] == 'Z');
            }
            assert(!is_prefix_at(s, 0, "My"@)) by {
                assert("My"@[0] == 'M');
                assert(s[0] == 'Z');
            }
            assert(!is_prefix_at(s, 0, "Pu"@)) by {
                assert("Pu"@[0] == 'P');
                assert(s[0] == 'Z');
            }
        } else if g == -1 {
            assert(!is_prefix_at(s, 0, "Ah"@)) by {
                assert("Ah"@[0] == 'A');
                assert(s[0] == 'T');
            }
            assert(!is_prefix_at(s, 0, "Schu"@)) by {
                assert("Schu"@[0] == 'S');
                assert(s[0] == 'T');
            }
            assert(!is_prefix_at(s, 0, "Chy"@)) by {
                assert("Chy"@[0] == 'C');
                assert(s[0] == 'T');
            }
            assert(!is_prefix_at(s, 0, "Scy"@)) by {
                assert("Scy"@[0] == 'S');
                assert(s[0] == 'T');
            }
            assert(!is_prefix_at(s, 0, "Xcy"@)) by {
                assert("Xcy"@[0] == 'X');
                assert(s[0] == 'T');
            }
            assert(!is_prefix_at(s, 0, "Fu"@)) by {
                assert("Fu"@[0] == 'F');
                assert(s[0] == 'T');
            }
            assert(!is_prefix_at(s, 0, "Ju"@)) by {
                assert("Ju"@[0] == 'J');
                assert(s[0] == 'T');
            }
            assert(!is_prefix_at(s, 0, "Drvy"@)) by {
                assert("Drvy"@[0] == 'D');
                assert(s[0] == 'T');
            }
            assert(!is_prefix_at(s, 0, "Srvu"@)) by {
                assert("Srvu"@[0] == 'S');
                assert(s[0] == 'T');
            }
            assert(!is_prefix_at(s, 0, "Dry"@)) by {
                assert("Dry"@[0] == 'D');
                assert(s[0] == 'T');
            }
            assert(!is_prefix_at(s, 0, "Sru"@)) by {
                assert("Sru"@[0] == 'S');
                assert(s[0] == 'T');
            }
            assert(!is_prefix_at(s, 0, "Ly"@)) by {
                assert("Ly"@[0] == 'L');
                assert(s[0] == 'T');
            }
            assert(!is_prefix_at(s, 0, "Su"@)) by {
                assert("Su"@[0] == 'S');
                assert(s[0] == 'T');
            }
            assert(!is_prefix_at(s, 0, "Mrvy"@)) by {
                assert("Mrvy"@[0] == 'M');
                assert(s[0] == 'T');
            }
            assert(!is_prefix_at(s, 0, "Prvu"@)) by {
                assert("Prvu"@[0] == 'P');
                assert(s[0] == 'T');
            }
            assert(!is_prefix_at(s, 0, "Mry"@)) by {
                assert("Mry"@[0] == 'M');
                assert(s[0] == 'T');
            }
            assert(!is_prefix_at(s, 0, "Pru"@)) by {
                assert("Pru"@[0] == 'P');
                assert(s[0] == 'T');
            }
            assert(!is_prefix_at(s, 0, "My"@)) by {
                assert("My"@[0] == 'M');
                assert(s[0] == 'T');
            }
            assert(!is_prefix_at(s, 0, "Pu"@)) by {
                assert("Pu"@[0] == 'P');
                assert(s[0] == 'T');
            }
        } else if g == -2 {
            assert(!is_prefix_at(s, 0, "Ah"@)) by {
                assert("Ah"@[0] == 'A');
                assert(s[0] == 'K');
            }
            assert(!is_prefix_at(s, 0, "Schu"@)) by {
                assert("Schu"@[0] == 'S');
                assert(s[0] == 'K');
            }
            assert(!is_prefix_at(s, 0, "Chy"@)) by {
                assert("Chy"@[0] == 'C');
                assert(s[0] == 'K');
            }
            assert(!is_prefix_at(s, 0, "Scy"@)) by {
                assert("Scy"@[0] == 'S');
                assert(s[0] == 'K');
            }
            assert(!is_prefix_at(s, 0, "Xcy"@)) by {
                assert("Xcy"@[0] == 'X');
                assert(s[0] == 'K');
            }
            assert(!is_prefix_at(s, 0, "Fu"@)) by {
                assert("Fu"@[0] == 'F');
                assert(s[0] == 'K');
            }
            assert(!is_prefix_at(s, 0, "Ju"@)) by {
                assert("Ju"@[0] == 'J');
                assert(s[0] == 'K');
            }
            assert(!is_prefix_at(s, 0, "Drvy"@)) by {
                assert("Drvy"@[0] == 'D');
                assert(s[0] == 'K');
            }
            assert(!is_prefix_at(s, 0, "Srvu"@)) by {
                assert("Srvu"@[0] == 'S');
                assert(s[0] == 'K');
            }
            assert(!is_prefix_at(s, 0, "Dry"@)) by {
                assert("Dry"@[0] == 'D');
                assert(s[0] == 'K');
            }
            assert(!is_prefix_at(s, 0, "Sru"@)) by {
                assert("Sru"@[0] == 'S');
                assert(s[0] == 'K');
            }
            assert(!is_prefix_at(s, 0, "Ly"@)) by {
                assert("Ly"@[0] == 'L');
                assert(s[0] == 'K');
            }
            assert(!is_prefix_at(s, 0, "Su"@)) by {
                assert("Su"@[0] == 'S');
                assert(s[0] == 'K');
            }
            assert(!is_prefix_at(s, 0, "Mrvy"@)) by {
                assert("Mrvy"@[0] == 'M');
                assert(s[0] == 'K');
            }
            assert(!is_prefix_at(s, 0, "Prvu"@)) by {
                assert("Prvu"@[0] == 'P');
                assert(s[0] == 'K');
            }
            assert(!is_prefix_at(s, 0, "Mry"@)) by {
                assert("Mry"@[0] == 'M');
                assert(s[0] == 'K');
            }
            assert(!is_prefix_at(s, 0, "Pru"@)) by {
                assert("Pru"@[0] == 'P');
                assert(s[0] == 'K');
            }
            assert(!is_prefix_at(s, 0, "My"@)) by {
                assert("My"@[0] == 'M');
                assert(s[0] == 'K');
            }
            assert(!is_prefix_at(s, 0, "Pu"@)) by {
                assert("Pu"@[0] == 'P');
                assert(s[0] == 'K');
            }
        } else if g == -3 {
            assert(!is_prefix_at(s, 0, "Ah"@)) by {
                assert("Ah"@[0] == 'A');
                assert(s[0] == 'K');
            }
            assert(!is_prefix_at(s, 0, "Schu"@)) by {
                assert("Schu"@[0] == 'S');
                assert(s[0] == 'K');
            }
            assert(!is_prefix_at(s, 0, "Chy"@)) by {
                assert("Chy"@[0] == 'C');
                assert(s[0] == 'K');
            }
            assert(!is_prefix_at(s, 0, "Scy"@)) by {
                assert("Scy"@[0] == 'S');
                assert(s[0] == 'K');
            }
            assert(!is_prefix_at(s, 0, "Xcy"@)) by {
                assert("Xcy"@[0] == 'X');
                assert(s[0] == 'K');
            }
            assert(!is_prefix_at(s, 0, "Fu"@)) by {
                assert("Fu"@[0] == 'F');
                assert(s[0] == 'K');
            }
            assert(!is_prefix_at(s, 0, "Ju"@)) by {
                assert("Ju"@[0] == 'J');
                assert(s[0] == 'K');
            }
            assert(!is_prefix_at(s, 0, "Drvy"@)) by {
                assert("Drvy"@[0] == 'D');
                assert(s[0] == 'K');
            }
            assert(!is_prefix_at(s, 0, "Srvu"@)) by {
                assert("Srvu"@[0] == 'S');
                assert(s[0] == 'K');
            }
            assert(!is_prefix_at(s, 0, "Dry"@)) by {
                assert("Dry"@[0] == 'D');
                assert(s[0] == 'K');
            }
            assert(!is_prefix_at(s, 0, "Sru"@)) by {
                assert("Sru"@[0] == 'S');
                assert(s[0] == 'K');
            }
            assert(!is_prefix_at(s, 0, "Ly"@)) by {
                assert("Ly"@[0] == 'L');
                assert(s[0] == 'K');
            }
            assert(!is_prefix_at(s, 0, "Su"@)) by {
                assert("Su"@[0] == 'S');
                assert(s[0] == 'K');
            }
            assert(!is_prefix_at(s, 0, "Mrvy"@)) by {
                assert("Mrvy"@[0] == 'M');
                assert(s[0] == 'K');
            }
            assert(!is_prefix_at(s, 0, "Prvu"@)) by {
                assert("Prvu"@[0] == 'P');
                assert(s[0] == 'K');
            }
            assert(!is_prefix_at(s, 0, "Mry"@)) by {
                assert("Mry"@[0] == 'M');
                assert(s[0] == 'K');
            }
            assert(!is_prefix_at(s, 0, "Pru"@)) by {
                assert("Pru"@[0] == 'P');
                assert(s[0] == 'K');
            }
            assert(!is_prefix_at(s, 0, "My"@)) by {
                assert("My"@[0] == 'M');
                assert(s[0] == 'K');
            }
            assert(!is_prefix_at(s, 0, "Pu"@)) by {
                assert("Pu"@[0] == 'P');
                assert(s[0] == 'K');
            }
        }
    }
}


/// A suffix syllable of dimension 3, 4, or 5 opens with a character that
/// may follow any lower dimension's contribution.
proof fn lemma_suffix_first_char(e: int, g: int)
    requires
        3 <= e <= 5,
        -3 <= g <= 3,
        g != 0,
    ensures
        suffix_chars(e, g).len() >= 1,
        forall|d: int| d < e ==> suffix_lead_ok(suffix_chars(e, g)[0], d),
{
    reveal_strlit("li");
    reveal_strlit("dri");
    reveal_strlit("drvi");
    reveal_strlit("s");
    reveal_strlit("sr");
    reveal_strlit("srv");
    reveal_strlit("mi");
    reveal_strlit("mri");
    reveal_strlit("mrvi");
    reveal_strlit("p");
    reveal_strlit("pr");
    reveal_strlit("prv");
    reveal_strlit("zi");
    reveal_strlit("zri");
    reveal_strlit("zrvi");
    reveal_strlit("tsch");
    reveal_strlit("kr");
    reveal_strlit("krv");
}

/// What a rendered note holds after dimension `d`'s contribution — the
/// suffixes of dimensions `e` and up, then the octave markers — is empty
/// or opens with an allowed character.
proof fn lemma_rest_tail_ok(h: Harmonym, a: int, e: int, d: int)
    requires
        h.wf(),
        2 <= d,
        d < e,
    ensures
        tail_ok(sufs_from(h, a, e) + marker_chars(h.deg(1)), d),
    decreases 6 - e,
{
    let m = marker_chars(h.deg(1));
    let t = sufs_from(h, a, e) + m;
    if e > 5 {
        assert(t =~= m);
        if h.deg(1) > 0 {
            assert(m[0] == '+');
        } else if h.deg(1) < 0 {
            assert(m[0] == '-');
        }
    } else if e > a && h.deg(e) != 0 {
        let syl = suffix_chars(e, h.deg(e));
        lemma_suffix_first_char(e, h.deg(e));
        assert(t =~= syl + (sufs_from(h, a, e + 1) + m));
        assert(t[0] == syl[0]);
    } else {
        assert(t =~= sufs_from(h, a, e + 1) + m);
        lemma_rest_tail_ok(h, a, e + 1, d);
    }
}

/// What a rendered note holds after dimension `d`'s contribution is
/// matched by no entry of dimension `d`'s suffix table.
proof fn lemma_rest_no_suffix_match(h: Harmonym, a: int, d: int, e: int)
    requires
        h.wf(),
        2 <= d <= 5,
        d < e,
    ensures
        suffix_match_spec(sufs_from(h, a, e) + marker_chars(h.deg(1)), 0, d) is None,
    decreases 6 - e,
{
    let m = marker_chars(h.deg(1));
    let t = sufs_from(h, a, e) + m;
    if e > 5 {
        assert(t =~= m);
        if h.deg(1) > 0 {
            assert(m[0] == '+');
        } else if h.deg(1) < 0 {
            assert(m[0] == '-');
        }
        lemma_markers_no_suffix_match(d, m);
    } else if e > a && h.deg(e) != 0 {
        let rest = sufs_from(h, a, e + 1) + m;
        assert(t =~= suffix_chars(e, h.deg(e)) + rest);
        lemma_rest_tail_ok(h, a, e + 1, e);
        lemma_later_suffix_no_match(d, e, h.deg(e), rest);
    } else {
        assert(t =~= sufs_from(h, a, e + 1) + m);
        lemma_rest_no_suffix_match(h, a, d, e + 1);
    }
}

/// Walking the suffix pass over a rendered note: after trying dimensions
/// up to `d`, the parser stands exactly behind the suffixes emitted up to
/// `d`, and has read each emitted degree.
proof fn lemma_spos_chain(h: Harmonym, a: int, d: int)
    requires
        h.wf(),
        a == anchor_of(h),
        1 <= d <= 5,
    ensures
        spos(spec_render(h), root_chars(a, h.deg(a)).len() as int, a, d) == root_chars(
            a,
            h.deg(a),
        ).len() + sufs_to(h, a, d).len(),
        2 <= d && d > a ==> sdeg(spec_render(h), root_chars(a, h.deg(a)).len() as int, a, d) as int
            == h.deg(d),
        2 <= d && d <= a ==> sdeg(spec_render(h), root_chars(a, h.deg(a)).len() as int, a, d)
            == 0i8,
    decreases d,
{
    let r = root_chars(a, h.deg(a));
    let s5 = sufs_to(h, a, 5);
    let m = marker_chars(h.deg(1));
    let full = spec_render(h);
    let p0 = r.len() as int;
    if d == 1 {
        assert(sufs_to(h, a, 1) =~= Seq::<char>::empty());
    } else if d <= a {
        lemma_spos_chain(h, a, d - 1);
        assert(sufs_to(h, a, d) =~= Seq::<char>::empty());
    } else {
        lemma_spos_chain(h, a, d - 1);
        let q = spos(full, p0, a, d - 1);
        let x = r + sufs_to(h, a, d - 1);
        let rest = sufs_from(h, a, d) + m;
        lemma_sufs_split(h, a, d - 1);
        assert(full =~= x + rest);
        assert(x.len() == q);
        lemma_suffix_match_shift(x, rest, d);
        assert(suffix_match_spec(full, q, d) == suffix_match_spec(rest, 0, d));
        if h.deg(d) != 0 {
            let syl = suffix_chars(d, h.deg(d));
            let tail = sufs_from(h, a, d + 1) + m;
            assert(rest =~= syl + tail);
            lemma_rest_tail_ok(h, a, d + 1, d);
            lemma_own_suffix_match(d, h.deg(d), tail);
            assert(suffix_match_spec(rest, 0, d) == Some((syl.len() as int, h.deg(d) as i8)));
            assert(sufs_to(h, a, d) =~= sufs_to(h, a, d - 1) + syl);
        } else {
            assert(rest =~= sufs_from(h, a, d + 1) + m);
            lemma_rest_no_suffix_match(h, a, d, d + 1);
            assert(suffix_match_spec(rest, 0, d) is None);
            assert(sufs_to(h, a, d) =~= sufs_to(h, a, d - 1));
        }
    }
}

/// Round trip: parsing the rendered notation of any well-formed pitch
/// vector gives exactly that vector back.  In particular the two evaluate
/// to the same frequency ratio.
#[verifier::rlimit(100)]
pub proof fn lemma_parse_render_round_trip(h: Harmonym)
    requires
        h.wf(),
    ensures
        spec_parse(spec_render(h)) == Ok::<Harmonym, ParseError>(h),
{
    let a = anchor_of(h);
    let ga = h.deg(a);
    let r = root_chars(a, ga);
    let s5 = sufs_to(h, a, 5);
    let e1 = h.deg(1);
    let m = marker_chars(e1);
    let full = spec_render(h);
    let p0 = r.len() as int;
    assert(full == r + s5 + m);
    assert(full =~= r + (s5 + m));
    lemma_own_root_match(a, ga, s5 + m);
    if a >= 2 {
        lemma_earlier_root_no_match(1, a, ga, s5 + m);
    }
    if a >= 3 {
        lemma_earlier_root_no_match(2, a, ga, s5 + m);
    }
    if a >= 4 {
        lemma_earlier_root_no_match(3, a, ga, s5 + m);
    }
    if a == 5 {
        lemma_earlier_root_no_match(4, a, ga, s5 + m);
    }
    let gi8: i8 = if a == 1 { 0i8 } else { ga as i8 };
    assert(find_root_spec(full) == Some((a, p0, gi8)));
    lemma_spos_chain(h, a, 2);
    lemma_spos_chain(h, a, 3);
    lemma_spos_chain(h, a, 4);
    lemma_spos_chain(h, a, 5);
    let p1 = spos(full, p0, a, 5);
    assert(p1 == p0 + s5.len());
    let x = r + s5;
    assert(full =~= x + m);
    assert(x.len() == p1);
    lemma_run_shift(x, m, 0, '+');
    lemma_run_shift(x, m, 0, '-');
    lemma_marker_runs(e1);
    let plus = run_len(full, p1, '+');
    let minus = run_len(full, p1, '-');
    if e1 > 0 {
        assert(plus == e1);
        assert(m.len() == e1);
        assert(full.len() == p1 + e1);
    } else {
        assert(plus == 0);
        assert(minus == -e1);
        assert(m.len() == -e1);
        assert(full.len() == p1 + (-e1));
    }
    assert(h.notes[0].dimension == 1 && h.notes[1].dimension == 2 && h.notes[2].dimension == 3
        && h.notes[3].dimension == 4 && h.notes[4].dimension == 5);
    match spec_parse(full) {
        Ok(built) => {
            assert(built.notes[0] == h.notes[0]);
            assert(built.notes[1] == h.notes[1]) by {
                if 2 < a {
                    assert(h.deg(2) == 0);
                }
            }
            assert(built.notes[2] == h.notes[2]) by {
                if 3 < a {
                    assert(h.deg(3) == 0);
                }
            }
            assert(built.notes[3] == h.notes[3]) by {
                if 4 < a {
                    assert(h.deg(4) == 0);
                }
            }
            assert(built.notes[4] == h.notes[4]) by {
                if 5 < a {
                    assert(h.deg(5) == 0);
                }
            }
            assert(built.notes =~= h.notes);
            assert(built =~= h);
        },
        Err(_) => {
            assert(false);
        },
    }
}


/// Ordering law: the exact pitch comparison of two tones agrees with the
/// comparison of their evaluated (reduced) frequency ratios.
pub proof fn lemma_order_matches_evaluation(a: Harmonym, b: Harmonym)
    requires
        a.wf(),
        b.wf(),
    ensures
        spec_lt(a, b) == (canon_num(spec_num(a), spec_den(a)) * canon_den(spec_num(b), spec_den(b))
            < canon_num(spec_num(b), spec_den(b)) * canon_den(spec_num(a), spec_den(a))),
{
    lemma_prefix_bounds(a, 5);
    lemma_prefix_bounds(b, 5);
    let na = spec_num(a);
    let da = spec_den(a);
    let nb = spec_num(b);
    let db = spec_den(b);
    lemma_canon(na, da);
    lemma_canon(nb, db);
    let g1 = spec_gcd(na, da);
    let g2 = spec_gcd(nb, db);
    let cn1 = canon_num(na, da);
    let cd1 = canon_den(na, da);
    let cn2 = canon_num(nb, db);
    let cd2 = canon_den(nb, db);
    assert((cn1 * cd2 < cn2 * cd1) == (na * db < nb * da)) by (nonlinear_arith)
        requires
            na == g1 * cn1,
            da == g1 * cd1,
            nb == g2 * cn2,
            db == g2 * cd2,
            g1 > 0,
            g2 > 0,
    {}
}

} // verus!
