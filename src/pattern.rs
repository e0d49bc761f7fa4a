use crate::common::LineCol;
use std::borrow::Cow;
use vstd::prelude::*;
use vstd::string::*;

verus! {

/// The lines of a slice of strings, as character sequences.
pub open spec fn lines_view(v: Seq<String>) -> Seq<Seq<char>> {
    Seq::new(v.len(), |i: int| v[i]@)
}

/// A searchable position: a line of `hs` and a column from 0 up to that line's length.
pub open spec fn in_lines(hs: Seq<Seq<char>>, l: int, c: int) -> bool {
    0 <= l < hs.len() && 0 <= c <= hs[l].len()
}

/// `r` is the first position, in lexicographic order, where `p` occurs in `hs`.
pub open spec fn first_hit<P: Probe + ?Sized>(p: &P, hs: Seq<Seq<char>>, r: Option<LineCol>) -> bool {
    match r {
        Some(lc) => {
            &&& in_lines(hs, lc.line as int, lc.col as int)
            &&& p.hits(hs[lc.line as int], lc.col as int)
            &&& forall|l: int, c: int|
                in_lines(hs, l, c) && (l < lc.line || (l == lc.line && c < lc.col))
                    ==> #[trigger] p.misses(hs[l], c)
        },
        None => forall|l: int, c: int| in_lines(hs, l, c) ==> #[trigger] p.misses(hs[l], c),
    }
}

/// `r` is the last position, in lexicographic order, where `p` occurs in `hs`.
pub open spec fn last_hit<P: Probe + ?Sized>(p: &P, hs: Seq<Seq<char>>, r: Option<LineCol>) -> bool {
    match r {
        Some(lc) => {
            &&& in_lines(hs, lc.line as int, lc.col as int)
            &&& p.hits(hs[lc.line as int], lc.col as int)
            &&& forall|l: int, c: int|
                in_lines(hs, l, c) && (l > lc.line || (l == lc.line && c > lc.col))
                    ==> #[trigger] p.misses(hs[l], c)
        },
        None => forall|l: int, c: int| in_lines(hs, l, c) ==> #[trigger] p.misses(hs[l], c),
    }
}

/// A test, at one position of a line, of whether something occurs there.
pub trait Probe {
    /// The pattern can be tested at any position.
    spec fn total(&self) -> bool;

    /// An occurrence of the pattern starts at `col` of `line`.
    spec fn hits(&self, line: Seq<char>, col: int) -> bool;

    /// A test of the pattern at `col` of `line` came out negative.
    spec fn misses(&self, line: Seq<char>, col: int) -> bool;

    /// Tests whether an occurrence starts at `col` of `line`.
    fn matches_at(&self, line: &str, col: usize) -> (r: bool)
        requires
            self.total(),
            col <= line@.len(),
        ensures
            r ==> self.hits(line@, col as int),
            !r ==> self.misses(line@, col as int),
    ;
}

/// Something that can be located in a slice of lines.
///
/// A match is reported as the line of the slice and the column where it starts.
pub trait Pattern: Probe {
    /// The first occurrence in the haystack.
    fn find_pattern(&self, haystack: &[String]) -> (r: Option<LineCol>)
        requires
            self.total(),
        ensures
            r matches Some(lc) ==> {
                &&& in_lines(lines_view(haystack@), lc.line as int, lc.col as int)
                &&& self.hits(lines_view(haystack@)[lc.line as int], lc.col as int)
                &&& forall|l: int, c: int|
                    in_lines(lines_view(haystack@), l, c) && (l < lc.line || (l == lc.line && c
                        < lc.col)) ==> #[trigger] self.misses(lines_view(haystack@)[l], c)
            },
            r is None ==> forall|l: int, c: int|
                in_lines(lines_view(haystack@), l, c) ==> #[trigger] self.misses(
                    lines_view(haystack@)[l],
                    c,
                ),
    ;

    /// The last occurrence in the haystack.
    fn rfind_pattern(&self, haystack: &[String]) -> (r: Option<LineCol>)
        requires
            self.total(),
        ensures
            r matches Some(lc) ==> {
                &&& in_lines(lines_view(haystack@), lc.line as int, lc.col as int)
                &&& self.hits(lines_view(haystack@)[lc.line as int], lc.col as int)
                &&& forall|l: int, c: int|
                    in_lines(lines_view(haystack@), l, c) && (l > lc.line || (l == lc.line && c
                        > lc.col)) ==> #[trigger] self.misses(lines_view(haystack@)[l], c)
            },
            r is None ==> forall|l: int, c: int|
                in_lines(lines_view(haystack@), l, c) ==> #[trigger] self.misses(
                    lines_view(haystack@)[l],
                    c,
                ),
    ;
}

/// Scans the haystack front to back and reports the first position where `p` matches.
pub fn find_first<P: Probe + ?Sized>(p: &P, haystack: &[String]) -> (r: Option<LineCol>)
    requires
        p.total(),
    ensures
        first_hit(p, lines_view(haystack@), r),
{
    let ghost hs = lines_view(haystack@);
    let mut l: usize = 0;
    while l < haystack.len()
        invariant
            l <= haystack@.len(),
            hs == lines_view(haystack@),
            p.total(),
            forall|l2: int, c: int| in_lines(hs, l2, c) && l2 < l ==> #[trigger] p.misses(hs[l2], c),
        decreases haystack@.len() - l,
    {
        let line = haystack[l].as_str();
        assert(line@ == hs[l as int]);
        let n = line.unicode_len();
        let mut c: usize = 0;
        loop
            invariant
                l < haystack@.len(),
                hs == lines_view(haystack@),
                line@ == hs[l as int],
                n == line@.len(),
                c <= n,
                p.total(),
                forall|l2: int, c2: int|
                    in_lines(hs, l2, c2) && (l2 < l || (l2 == l && c2 < c)) ==> #[trigger] p.misses(
                        hs[l2],
                        c2,
                    ),
            ensures
                forall|l2: int, c2: int|
                    in_lines(hs, l2, c2) && l2 <= l ==> #[trigger] p.misses(hs[l2], c2),
            decreases n - c,
        {
            if p.matches_at(line, c) {
                return Some(LineCol { line: l, col: c });
            }
            if c == n {
                break;
            }
            c += 1;
        }
        l += 1;
    }
    None
}

/// Scans the haystack back to front and reports the last position where `p` matches.
pub fn find_last<P: Probe + ?Sized>(p: &P, haystack: &[String]) -> (r: Option<LineCol>)
    requires
        p.total(),
    ensures
        last_hit(p, lines_view(haystack@), r),
{
    let ghost hs = lines_view(haystack@);
    let mut l: usize = haystack.len();
    while l > 0
        invariant
            l <= haystack@.len(),
            hs == lines_view(haystack@),
            p.total(),
            forall|l2: int, c: int| in_lines(hs, l2, c) && l2 >= l ==> #[trigger] p.misses(hs[l2], c),
        decreases l,
    {
        l -= 1;
        let line = haystack[l].as_str();
        assert(line@ == hs[l as int]);
        let n = line.unicode_len();
        let mut c: usize = n;
        loop
            invariant
                l < haystack@.len(),
                hs == lines_view(haystack@),
                line@ == hs[l as int],
                n == line@.len(),
                c <= n,
                p.total(),
                forall|l2: int, c2: int|
                    in_lines(hs, l2, c2) && (l2 > l || (l2 == l && c2 > c)) ==> #[trigger] p.misses(
                        hs[l2],
                        c2,
                    ),
            ensures
                forall|l2: int, c2: int|
                    in_lines(hs, l2, c2) && l2 >= l ==> #[trigger] p.misses(hs[l2], c2),
            decreases c,
        {
            if p.matches_at(line, c) {
                return Some(LineCol { line: l, col: c });
            }
            if c == 0 {
                break;
            }
            c -= 1;
        }
    }
    None
}

impl<'a> Probe for &'a str {
    open spec fn total(&self) -> bool {
        true
    }

    open spec fn hits(&self, line: Seq<char>, col: int) -> bool {
        &&& 0 <= col
        &&& col + self@.len() <= line.len()
        &&& line.subrange(col, col + self@.len()) == self@
    }

    open spec fn misses(&self, line: Seq<char>, col: int) -> bool {
        !self.hits(line, col)
    }

    fn matches_at(&self, line: &str, col: usize) -> (r: bool) {
        let s: &str = *self;
        let plen = s.unicode_len();
        let n = line.unicode_len();
        assert(s@ == self@);
        if plen > n - col {
            assert(!self.hits(line@, col as int));
            assert(self.misses(line@, col as int));
            return false;
        }
        let mut j: usize = 0;
        while j < plen
            invariant
                s@ == self@,
                plen == self@.len(),
                n == line@.len(),
                col + plen <= n,
                j <= plen,
                forall|k: int| 0 <= k < j ==> line@[col + k] == self@[k],
            decreases plen - j,
        {
            if line.get_char(col + j) != s.get_char(j) {
                assert(line@.subrange(col as int, col + plen)[j as int] != self@[j as int]);
                assert(!self.hits(line@, col as int));
                assert(self.misses(line@, col as int));
                return false;
            }
            j += 1;
        }
        assert(line@.subrange(col as int, col + plen) =~= self@);
        assert(self.hits(line@, col as int));
        true
    }

}

impl Probe for String {
    open spec fn total(&self) -> bool {
        true
    }

    open spec fn hits(&self, line: Seq<char>, col: int) -> bool {
        &&& 0 <= col
        &&& col + self@.len() <= line.len()
        &&& line.subrange(col, col + self@.len()) == self@
    }

    open spec fn misses(&self, line: Seq<char>, col: int) -> bool {
        !self.hits(line, col)
    }

    fn matches_at(&self, line: &str, col: usize) -> (r: bool) {
        self.as_str().matches_at(line, col)
    }

}

impl<'a> Probe for Cow<'a, str> {
    open spec fn total(&self) -> bool {
        true
    }

    open spec fn hits(&self, line: Seq<char>, col: int) -> bool {
        &&& 0 <= col
        &&& col + self@.len() <= line.len()
        &&& line.subrange(col, col + self@.len()) == self@
    }

    open spec fn misses(&self, line: Seq<char>, col: int) -> bool {
        !self.hits(line, col)
    }

    fn matches_at(&self, line: &str, col: usize) -> (r: bool) {
        match self {
            Cow::Borrowed(b) => b.matches_at(line, col),
            Cow::Owned(o) => o.matches_at(line, col),
        }
    }
}

impl Probe for char {
    open spec fn total(&self) -> bool {
        true
    }

    open spec fn hits(&self, line: Seq<char>, col: int) -> bool {
        0 <= col < line.len() && line[col] == *self
    }

    open spec fn misses(&self, line: Seq<char>, col: int) -> bool {
        !self.hits(line, col)
    }

    fn matches_at(&self, line: &str, col: usize) -> (r: bool) {
        col < line.unicode_len() && line.get_char(col) == *self
    }
}

/// A character predicate occurs wherever it accepts the character at that column.
impl<F: Fn(char) -> bool> Probe for F {
    open spec fn total(&self) -> bool {
        forall|c: char| #[trigger] self.requires((c,))
    }

    open spec fn hits(&self, line: Seq<char>, col: int) -> bool {
        0 <= col < line.len() && self.ensures((line[col],), true)
    }

    open spec fn misses(&self, line: Seq<char>, col: int) -> bool {
        0 <= col < line.len() ==> self.ensures((line[col],), false)
    }

    fn matches_at(&self, line: &str, col: usize) -> (r: bool) {
        if col < line.unicode_len() {
            let ch = line.get_char(col);
            self(ch)
        } else {
            false
        }
    }
}

/// The characters with the Unicode `White_Space` property.
pub open spec fn unicode_whitespace(c: char) -> bool {
    let u = c as u32;
    ||| 9 <= u <= 13
    ||| u == 32
    ||| u == 0x85
    ||| u == 0xa0
    ||| u == 0x1680
    ||| 0x2000 <= u <= 0x200a
    ||| u == 0x2028
    ||| u == 0x2029
    ||| u == 0x202f
    ||| u == 0x205f
    ||| u == 0x3000
}

/// Whether `c` is whitespace in the Unicode sense.
pub fn is_whitespace(c: char) -> (r: bool)
    ensures
        r == unicode_whitespace(c),
{
    let u = c as u32;
    (9 <= u && u <= 13) || u == 32 || u == 0x85 || u == 0xa0 || u == 0x1680 || (0x2000 <= u && u
        <= 0x200a) || u == 0x2028 || u == 0x2029 || u == 0x202f || u == 0x205f || u == 0x3000
}

/// Whether a character is alphabetic or numeric in Unicode.
pub uninterp spec fn alphanumeric(c: char) -> bool;

/// Relies on `char::is_alphanumeric`: the Unicode `Alphabetic` or `Numeric` test of one
/// character, which depends on the character alone.
#[verifier::external_body]
fn char_is_alphanumeric(c: char) -> (r: bool)
    ensures
        r == alphanumeric(c),
{
    c.is_alphanumeric()
}

/// The character classes that word and symbol motions look for.
#[derive(Clone, Copy, Debug, PartialEq, Eq, Structural)]
pub enum CharClass {
    Whitespace,
    NotWhitespace,
    /// A letter, a digit or an underscore.
    WordChar,
    /// Neither a word character nor whitespace.
    SymbolChar,
}

pub open spec fn class_holds(k: CharClass, c: char) -> bool {
    match k {
        CharClass::Whitespace => unicode_whitespace(c),
        CharClass::NotWhitespace => !unicode_whitespace(c),
        CharClass::WordChar => alphanumeric(c) || c == '_',
        CharClass::SymbolChar => !alphanumeric(c) && c != '_' && !unicode_whitespace(c),
    }
}

impl CharClass {
    /// Whether `c` belongs to the class.
    pub fn holds(&self, c: char) -> (r: bool)
        ensures
            r == class_holds(*self, c),
    {
        match self {
            CharClass::Whitespace => is_whitespace(c),
            CharClass::NotWhitespace => !is_whitespace(c),
            CharClass::WordChar => char_is_alphanumeric(c) || c == '_',
            CharClass::SymbolChar => !char_is_alphanumeric(c) && c != '_' && !is_whitespace(c),
        }
    }
}

impl Probe for CharClass {
    open spec fn total(&self) -> bool {
        true
    }

    open spec fn hits(&self, line: Seq<char>, col: int) -> bool {
        0 <= col < line.len() && class_holds(*self, line[col])
    }

    open spec fn misses(&self, line: Seq<char>, col: int) -> bool {
        !self.hits(line, col)
    }

    fn matches_at(&self, line: &str, col: usize) -> (r: bool) {
        col < line.unicode_len() && self.holds(line.get_char(col))
    }
}

impl<'a> Pattern for &'a str {
    fn find_pattern(&self, haystack: &[String]) -> (r: Option<LineCol>) {
        find_first(self, haystack)
    }

    fn rfind_pattern(&self, haystack: &[String]) -> (r: Option<LineCol>) {
        find_last(self, haystack)
    }
}

impl Pattern for String {
    fn find_pattern(&self, haystack: &[String]) -> (r: Option<LineCol>) {
        find_first(self, haystack)
    }

    fn rfind_pattern(&self, haystack: &[String]) -> (r: Option<LineCol>) {
        find_last(self, haystack)
    }
}

impl <'a> Pattern for Cow<'a, str> {
    fn find_pattern(&self, haystack: &[String]) -> (r: Option<LineCol>) {
        find_first(self, haystack)
    }

    fn rfind_pattern(&self, haystack: &[String]) -> (r: Option<LineCol>) {
        find_last(self, haystack)
    }
}

impl Pattern for char {
    fn find_pattern(&self, haystack: &[String]) -> (r: Option<LineCol>) {
        find_first(self, haystack)
    }

    fn rfind_pattern(&self, haystack: &[String]) -> (r: Option<LineCol>) {
        find_last(self, haystack)
    }
}

impl <F: Fn(char) -> bool> Pattern for F {
    fn find_pattern(&self, haystack: &[String]) -> (r: Option<LineCol>) {
        find_first(self, haystack)
    }

    fn rfind_pattern(&self, haystack: &[String]) -> (r: Option<LineCol>) {
        find_last(self, haystack)
    }
}

impl Pattern for CharClass {
    fn find_pattern(&self, haystack: &[String]) -> (r: Option<LineCol>) {
        find_first(self, haystack)
    }

    fn rfind_pattern(&self, haystack: &[String]) -> (r: Option<LineCol>) {
        find_last(self, haystack)
    }
}

} // verus!
