//! The fixed notation vocabulary.  Every lattice dimension owns a root form
//! (capitalized, used for the first matched syllable) and, for dimensions 2
//! through 5, a suffix form (lowercase-initial, used for every later
//! syllable).  Lookup is longest-prefix-match: each matcher tries its
//! entries longest first, so a short entry can never shadow a longer one.

use vstd::prelude::*;
use vstd::string::StrSliceExecFns;

verus! {

/// The root syllable of degree `g` on dimension `d`; the octave axis has
/// the single root `Ah` whatever its degree, and degree 0 on any other
/// dimension has no syllable.
pub open spec fn root_chars(d: int, g: int) -> Seq<char> {
    if d == 1 {
        "Ah"@
    } else if d == 2 {
        if g == 1 { "Chy"@ } else if g == 2 { "Scy"@ } else if g == 3 { "Xcy"@ }
        else if g == -1 { "Fu"@ } else if g == -2 { "Schu"@ } else if g == -3 { "Ju"@ }
        else { Seq::empty() }
    } else if d == 3 {
        if g == 1 { "Ly"@ } else if g == 2 { "Dry"@ } else if g == 3 { "Drvy"@ }
        else if g == -1 { "Su"@ } else if g == -2 { "Sru"@ } else if g == -3 { "Srvu"@ }
        else { Seq::empty() }
    } else if d == 4 {
        if g == 1 { "My"@ } else if g == 2 { "Mry"@ } else if g == 3 { "Mrvy"@ }
        else if g == -1 { "Pu"@ } else if g == -2 { "Pru"@ } else if g == -3 { "Prvu"@ }
        else { Seq::empty() }
    } else if d == 5 {
        if g == 1 { "Zy"@ } else if g == 2 { "Zry"@ } else if g == 3 { "Zrvy"@ }
        else if g == -1 { "Tschu"@ } else if g == -2 { "Kru"@ } else if g == -3 { "Krvu"@ }
        else { Seq::empty() }
    } else {
        Seq::empty()
    }
}

/// The suffix syllable of degree `g` on dimension `d`.
pub open spec fn suffix_chars(d: int, g: int) -> Seq<char> {
    if d == 1 {
        "ah"@
    } else if d == 2 {
        if g == 1 { "chi"@ } else if g == 2 { "sci"@ } else if g == 3 { "xci"@ }
        else if g == -1 { "f"@ } else if g == -2 { "sch"@ } else if g == -3 { "j"@ }
        else { Seq::empty() }
    } else if d == 3 {
        if g == 1 { "li"@ } else if g == 2 { "dri"@ } else if g == 3 { "drvi"@ }
        else if g == -1 { "s"@ } else if g == -2 { "sr"@ } else if g == -3 { "srv"@ }
        else { Seq::empty() }
    } else if d == 4 {
        if g == 1 { "mi"@ } else if g == 2 { "mri"@ } else if g == 3 { "mrvi"@ }
        else if g == -1 { "p"@ } else if g == -2 { "pr"@ } else if g == -3 { "prv"@ }
        else { Seq::empty() }
    } else if d == 5 {
        if g == 1 { "zi"@ } else if g == 2 { "zri"@ } else if g == 3 { "zrvi"@ }
        else if g == -1 { "tsch"@ } else if g == -2 { "kr"@ } else if g == -3 { "krv"@ }
        else { Seq::empty() }
    } else {
        Seq::empty()
    }
}

/// `t` occurs in `s` starting at position `pos`.
pub open spec fn is_prefix_at(s: Seq<char>, pos: int, t: Seq<char>) -> bool {
    &&& 0 <= pos
    &&& pos + t.len() <= s.len()
    &&& forall|j: int| 0 <= j < t.len() ==> s[pos + j] == #[trigger] t[j]
}

/// The longest-first root lookup of dimension `d` at position `pos`:
/// the matched syllable's length and degree, or nothing.
pub open spec fn root_match_spec(s: Seq<char>, pos: int, d: int) -> Option<(int, i8)> {
    if d == 1 {
        if is_prefix_at(s, pos, "Ah"@) { Some((2int, 0i8)) } else { None }
    } else if d == 2 {
        if is_prefix_at(s, pos, "Schu"@) { Some((4int, -2i8)) }
        else if is_prefix_at(s, pos, "Chy"@) { Some((3int, 1i8)) }
        else if is_prefix_at(s, pos, "Scy"@) { Some((3int, 2i8)) }
        else if is_prefix_at(s, pos, "Xcy"@) { Some((3int, 3i8)) }
        else if is_prefix_at(s, pos, "Fu"@) { Some((2int, -1i8)) }
        else if is_prefix_at(s, pos, "Ju"@) { Some((2int, -3i8)) }
        else { None }
    } else if d == 3 {
        if is_prefix_at(s, pos, "Drvy"@) { Some((4int, 3i8)) }
        else if is_prefix_at(s, pos, "Srvu"@) { Some((4int, -3i8)) }
        else if is_prefix_at(s, pos, "Dry"@) { Some((3int, 2i8)) }
        else if is_prefix_at(s, pos, "Sru"@) { Some((3int, -2i8)) }
        else if is_prefix_at(s, pos, "Ly"@) { Some((2int, 1i8)) }
        else if is_prefix_at(s, pos, "Su"@) { Some((2int, -1i8)) }
        else { None }
    } else if d == 4 {
        if is_prefix_at(s, pos, "Mrvy"@) { Some((4int, 3i8)) }
        else if is_prefix_at(s, pos, "Prvu"@) { Some((4int, -3i8)) }
        else if is_prefix_at(s, pos, "Mry"@) { Some((3int, 2i8)) }
        else if is_prefix_at(s, pos, "Pru"@) { Some((3int, -2i8)) }
        else if is_prefix_at(s, pos, "My"@) { Some((2int, 1i8)) }
        else if is_prefix_at(s, pos, "Pu"@) { Some((2int, -1i8)) }
        else { None }
    } else if d == 5 {
        if is_prefix_at(s, pos, "Tschu"@) { Some((5int, -1i8)) }
        else if is_prefix_at(s, pos, "Zrvy"@) { Some((4int, 3i8)) }
        else if is_prefix_at(s, pos, "Krvu"@) { Some((4int, -3i8)) }
        else if is_prefix_at(s, pos, "Zry"@) { Some((3int, 2i8)) }
        else if is_prefix_at(s, pos, "Kru"@) { Some((3int, -2i8)) }
        else if is_prefix_at(s, pos, "Zy"@) { Some((2int, 1i8)) }
        else { None }
    } else {
        None
    }
}

/// The longest-first suffix lookup of dimension `d` at position `pos`.
pub open spec fn suffix_match_spec(s: Seq<char>, pos: int, d: int) -> Option<(int, i8)> {
    if d == 2 {
        if is_prefix_at(s, pos, "chi"@) { Some((3int, 1i8)) }
        else if is_prefix_at(s, pos, "sci"@) { Some((3int, 2i8)) }
        else if is_prefix_at(s, pos, "xci"@) { Some((3int, 3i8)) }
        else if is_prefix_at(s, pos, "sch"@) { Some((3int, -2i8)) }
        else if is_prefix_at(s, pos, "f"@) { Some((1int, -1i8)) }
        else if is_prefix_at(s, pos, "j"@) { Some((1int, -3i8)) }
        else { None }
    } else if d == 3 {
        if is_prefix_at(s, pos, "drvi"@) { Some((4int, 3i8)) }
        else if is_prefix_at(s, pos, "dri"@) { Some((3int, 2i8)) }
        else if is_prefix_at(s, pos, "srv"@) { Some((3int, -3i8)) }
        else if is_prefix_at(s, pos, "li"@) { Some((2int, 1i8)) }
        else if is_prefix_at(s, pos, "sr"@) { Some((2int, -2i8)) }
        else if is_prefix_at(s, pos, "s"@) { Some((1int, -1i8)) }
        else { None }
    } else if d == 4 {
        if is_prefix_at(s, pos, "mrvi"@) { Some((4int, 3i8)) }
        else if is_prefix_at(s, pos, "mri"@) { Some((3int, 2i8)) }
        else if is_prefix_at(s, pos, "prv"@) { Some((3int, -3i8)) }
        else if is_prefix_at(s, pos, "mi"@) { Some((2int, 1i8)) }
        else if is_prefix_at(s, pos, "pr"@) { Some((2int, -2i8)) }
        else if is_prefix_at(s, pos, "p"@) { Some((1int, -1i8)) }
        else { None }
    } else if d == 5 {
        if is_prefix_at(s, pos, "zrvi"@) { Some((4int, 3i8)) }
        else if is_prefix_at(s, pos, "tsch"@) { Some((4int, -1i8)) }
        else if is_prefix_at(s, pos, "zri"@) { Some((3int, 2i8)) }
        else if is_prefix_at(s, pos, "krv"@) { Some((3int, -3i8)) }
        else if is_prefix_at(s, pos, "zi"@) { Some((2int, 1i8)) }
        else if is_prefix_at(s, pos, "kr"@) { Some((2int, -2i8)) }
        else { None }
    } else {
        None
    }
}

/// Whether the pattern occurs in `s` at `pos`, by character comparison.
pub fn match_prefix(s: &Vec<char>, pos: usize, pat: &str) -> (r: bool)
    requires
        pos <= s@.len(),
    ensures
        r == is_prefix_at(s@, pos as int, pat@),
{
    let n = pat.unicode_len();
    let slen = s.len();
    if n > slen - pos {
        return false;
    }
    let mut j: usize = 0;
    while j < n
        invariant
            pos + n <= slen,
            slen == s@.len(),
            n == pat@.len(),
            j <= n,
            forall|k: int| 0 <= k < j ==> s@[pos + k] == #[trigger] pat@[k],
        decreases n - j,
    {
        if s[pos + j] != pat.get_char(j) {
            return false;
        }
        j = j + 1;
    }
    true
}

/// The longest-first root lookup of dimension `d`, executed.
pub fn root_match(s: &Vec<char>, pos: usize, d: u8) -> (r: Option<(usize, i8)>)
    requires
        pos <= s@.len(),
    ensures
        r matches Some(m) ==> root_match_spec(s@, pos as int, d as int) == Some(
            (m.0 as int, m.1),
        ),
        r is None ==> root_match_spec(s@, pos as int, d as int) is None,
{
    match d {
        1 => {
            if match_prefix(s, pos, "Ah") { Some((2, 0)) } else { None }
        },
        2 => {
            if match_prefix(s, pos, "Schu") { Some((4, -2)) }
            else if match_prefix(s, pos, "Chy") { Some((3, 1)) }
            else if match_prefix(s, pos, "Scy") { Some((3, 2)) }
            else if match_prefix(s, pos, "Xcy") { Some((3, 3)) }
            else if match_prefix(s, pos, "Fu") { Some((2, -1)) }
            else if match_prefix(s, pos, "Ju") { Some((2, -3)) }
            else { None }
        },
        3 => {
            if match_prefix(s, pos, "Drvy") { Some((4, 3)) }
            else if match_prefix(s, pos, "Srvu") { Some((4, -3)) }
            else if match_prefix(s, pos, "Dry") { Some((3, 2)) }
            else if match_prefix(s, pos, "Sru") { Some((3, -2)) }
            else if match_prefix(s, pos, "Ly") { Some((2, 1)) }
            else if match_prefix(s, pos, "Su") { Some((2, -1)) }
            else { None }
        },
        4 => {
            if match_prefix(s, pos, "Mrvy") { Some((4, 3)) }
            else if match_prefix(s, pos, "Prvu") { Some((4, -3)) }
            else if match_prefix(s, pos, "Mry") { Some((3, 2)) }
            else if match_prefix(s, pos, "Pru") { Some((3, -2)) }
            else if match_prefix(s, pos, "My") { Some((2, 1)) }
            else if match_prefix(s, pos, "Pu") { Some((2, -1)) }
            else { None }
        },
        5 => {
            if match_prefix(s, pos, "Tschu") { Some((5, -1)) }
            else if match_prefix(s, pos, "Zrvy") { Some((4, 3)) }
            else if match_prefix(s, pos, "Krvu") { Some((4, -3)) }
            else if match_prefix(s, pos, "Zry") { Some((3, 2)) }
            else if match_prefix(s, pos, "Kru") { Some((3, -2)) }
            else if match_prefix(s, pos, "Zy") { Some((2, 1)) }
            else { None }
        },
        _ => None,
    }
}

/// A successful root lookup names a syllable of 2 to 5 characters lying
/// inside the input, with a degree in range (zero only on the octave axis).
pub proof fn lemma_root_match_bounds(s: Seq<char>, pos: int, d: int)
    ensures
        root_match_spec(s, pos, d) matches Some(m) ==> {
            &&& 2 <= m.0 <= 5
            &&& 0 <= pos
            &&& pos + m.0 <= s.len()
            &&& -3 <= m.1 <= 3
            &&& (d != 1 ==> m.1 != 0)
            &&& (d == 1 ==> m.1 == 0)
        },
{
    reveal_strlit("Ah");
    reveal_strlit("Chy");
    reveal_strlit("Scy");
    reveal_strlit("Xcy");
    reveal_strlit("Fu");
    reveal_strlit("Schu");
    reveal_strlit("Ju");
    reveal_strlit("Ly");
    reveal_strlit("Dry");
    reveal_strlit("Drvy");
    reveal_strlit("Su");
    reveal_strlit("Sru");
    reveal_strlit("Srvu");
    reveal_strlit("My");
    reveal_strlit("Mry");
    reveal_strlit("Mrvy");
    reveal_strlit("Pu");
    reveal_strlit("Pru");
    reveal_strlit("Prvu");
    reveal_strlit("Zy");
    reveal_strlit("Zry");
    reveal_strlit("Zrvy");
    reveal_strlit("Tschu");
    reveal_strlit("Kru");
    reveal_strlit("Krvu");
}

/// A successful suffix lookup names a syllable of 1 to 4 characters lying
/// inside the input, with a nonzero degree in range.
pub proof fn lemma_suffix_match_bounds(s: Seq<char>, pos: int, d: int)
    ensures
        suffix_match_spec(s, pos, d) matches Some(m) ==> {
            &&& 1 <= m.0 <= 4
            &&& 0 <= pos
            &&& pos + m.0 <= s.len()
            &&& -3 <= m.1 <= 3
            &&& m.1 != 0
        },
{
    reveal_strlit("chi");
    reveal_strlit("sci");
    reveal_strlit("xci");
    reveal_strlit("f");
    reveal_strlit("sch");
    reveal_strlit("j");
    reveal_strlit("li");
    reveal_strlit("dri");
    reveal_strlit("drvi");
    reveal_strlit("s");
    reveal_strlit("sr");
    reveal_strlit("srv");
    reveal_strlit("mi");
    reveal_strlit("mri");
    reveal_strlit("mrvi");
    reveal_strlit("p");
    reveal_strlit("pr");
    reveal_strlit("prv");
    reveal_strlit("zi");
    reveal_strlit("zri");
    reveal_strlit("zrvi");
    reveal_strlit("tsch");
    reveal_strlit("kr");
    reveal_strlit("krv");
}

/// The longest-first suffix lookup of dimension `d`, executed.
pub fn suffix_match(s: &Vec<char>, pos: usize, d: u8) -> (r: Option<(usize, i8)>)
    requires
        pos <= s@.len(),
    ensures
        r matches Some(m) ==> suffix_match_spec(s@, pos as int, d as int) == Some(
            (m.0 as int, m.1),
        ),
        r is None ==> suffix_match_spec(s@, pos as int, d as int) is None,
{
    match d {
        2 => {
            if match_prefix(s, pos, "chi") { Some((3, 1)) }
            else if match_prefix(s, pos, "sci") { Some((3, 2)) }
            else if match_prefix(s, pos, "xci") { Some((3, 3)) }
            else if match_prefix(s, pos, "sch") { Some((3, -2)) }
            else if match_prefix(s, pos, "f") { Some((1, -1)) }
            else if match_prefix(s, pos, "j") { Some((1, -3)) }
            else { None }
        },
        3 => {
            if match_prefix(s, pos, "drvi") { Some((4, 3)) }
            else if match_prefix(s, pos, "dri") { Some((3, 2)) }
            else if match_prefix(s, pos, "srv") { Some((3, -3)) }
            else if match_prefix(s, pos, "li") { Some((2, 1)) }
            else if match_prefix(s, pos, "sr") { Some((2, -2)) }
            else if match_prefix(s, pos, "s") { Some((1, -1)) }
            else { None }
        },
        4 => {
            if match_prefix(s, pos, "mrvi") { Some((4, 3)) }
            else if match_prefix(s, pos, "mri") { Some((3, 2)) }
            else if match_prefix(s, pos, "prv") { Some((3, -3)) }
            else if match_prefix(s, pos, "mi") { Some((2, 1)) }
            else if match_prefix(s, pos, "pr") { Some((2, -2)) }
            else if match_prefix(s, pos, "p") { Some((1, -1)) }
            else { None }
        },
        5 => {
            if match_prefix(s, pos, "zrvi") { Some((4, 3)) }
            else if match_prefix(s, pos, "tsch") { Some((4, -1)) }
            else if match_prefix(s, pos, "zri") { Some((3, 2)) }
            else if match_prefix(s, pos, "krv") { Some((3, -3)) }
            else if match_prefix(s, pos, "zi") { Some((2, 1)) }
            else if match_prefix(s, pos, "kr") { Some((2, -2)) }
            else { None }
        },
        _ => None,
    }
}

} // verus!
