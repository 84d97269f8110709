use vstd::prelude::*;
use vstd::string::StrSliceExecFns;
use vstd::string::StringExecFns;

verus! {

pub const CFA_COLOR_R: usize = 0;

pub const CFA_COLOR_G: usize = 1;

pub const CFA_COLOR_B: usize = 2;

/// Colors of the filters in front of the pixels of a sensor.
#[derive(Clone, Copy, Debug, PartialEq, Eq, PartialOrd, Ord, Structural)]
#[allow(non_camel_case_types)]
pub enum CFAColor {
    RED,
    GREEN,
    BLUE,
    CYAN,
    MAGENTA,
    YELLOW,
    WHITE,
    FUJI_GREEN,
    END,
    UNKNOWN,
}

/// The number that stands for each color in patterns and tags.
pub open spec fn color_code(c: CFAColor) -> u8 {
    match c {
        CFAColor::RED => 0,
        CFAColor::GREEN => 1,
        CFAColor::BLUE => 2,
        CFAColor::CYAN => 3,
        CFAColor::MAGENTA => 4,
        CFAColor::YELLOW => 5,
        CFAColor::WHITE => 6,
        CFAColor::FUJI_GREEN => 7,
        CFAColor::END => 8,
        CFAColor::UNKNOWN => 255,
    }
}

/// The color a number stands for, where one does.
pub open spec fn color_of_code(v: u8) -> Option<CFAColor> {
    if v == 0 {
        Some(CFAColor::RED)
    } else if v == 1 {
        Some(CFAColor::GREEN)
    } else if v == 2 {
        Some(CFAColor::BLUE)
    } else if v == 3 {
        Some(CFAColor::CYAN)
    } else if v == 4 {
        Some(CFAColor::MAGENTA)
    } else if v == 5 {
        Some(CFAColor::YELLOW)
    } else if v == 6 {
        Some(CFAColor::WHITE)
    } else if v == 7 {
        Some(CFAColor::FUJI_GREEN)
    } else if v == 8 {
        Some(CFAColor::END)
    } else if v == 255 {
        Some(CFAColor::UNKNOWN)
    } else {
        None
    }
}

/// The color a pattern letter stands for: `R`, `G`, `B`, then `E` and `C`
/// for cyan, `M` for magenta and `Y` for yellow.
pub open spec fn color_of_char(c: char) -> Option<CFAColor> {
    if c == 'R' {
        Some(CFAColor::RED)
    } else if c == 'G' {
        Some(CFAColor::GREEN)
    } else if c == 'B' {
        Some(CFAColor::BLUE)
    } else if c == 'E' || c == 'C' {
        Some(CFAColor::CYAN)
    } else if c == 'M' {
        Some(CFAColor::MAGENTA)
    } else if c == 'Y' {
        Some(CFAColor::YELLOW)
    } else {
        None
    }
}

impl Default for CFAColor {
    fn default() -> (r: Self)
        ensures
            r == CFAColor::UNKNOWN,
    {
        CFAColor::UNKNOWN
    }
}

impl CFAColor {
    /// The number of the color (its `u8` representation).
    pub fn to_u8(self) -> (r: u8)
        ensures
            r == color_code(self),
    {
        match self {
            CFAColor::RED => 0,
            CFAColor::GREEN => 1,
            CFAColor::BLUE => 2,
            CFAColor::CYAN => 3,
            CFAColor::MAGENTA => 4,
            CFAColor::YELLOW => 5,
            CFAColor::WHITE => 6,
            CFAColor::FUJI_GREEN => 7,
            CFAColor::END => 8,
            CFAColor::UNKNOWN => 255,
        }
    }

    /// The color with the number `v`, or `None` where no color has it.
    pub fn try_from_u8(v: u8) -> (r: Option<CFAColor>)
        ensures
            r == color_of_code(v),
    {
        if v == 0 {
            Some(CFAColor::RED)
        } else if v == 1 {
            Some(CFAColor::GREEN)
        } else if v == 2 {
            Some(CFAColor::BLUE)
        } else if v == 3 {
            Some(CFAColor::CYAN)
        } else if v == 4 {
            Some(CFAColor::MAGENTA)
        } else if v == 5 {
            Some(CFAColor::YELLOW)
        } else if v == 6 {
            Some(CFAColor::WHITE)
        } else if v == 7 {
            Some(CFAColor::FUJI_GREEN)
        } else if v == 8 {
            Some(CFAColor::END)
        } else if v == 255 {
            Some(CFAColor::UNKNOWN)
        } else {
            None
        }
    }

    /// The color a pattern letter stands for, or `None` for an unknown letter.
    pub fn try_from_char(c: char) -> (r: Option<CFAColor>)
        ensures
            r == color_of_char(c),
    {
        if c == 'R' {
            Some(CFAColor::RED)
        } else if c == 'G' {
            Some(CFAColor::GREEN)
        } else if c == 'B' {
            Some(CFAColor::BLUE)
        } else if c == 'E' || c == 'C' {
            Some(CFAColor::CYAN)
        } else if c == 'M' {
            Some(CFAColor::MAGENTA)
        } else if c == 'Y' {
            Some(CFAColor::YELLOW)
        } else {
            None
        }
    }
}

/// Every color number, read back as a color, gives the same number.
pub proof fn lemma_color_code_roundtrip(c: CFAColor)
    ensures
        color_of_code(color_code(c)) == Some(c),
{
}

/// Pattern sizes: the width and height of the repeating block that a
/// pattern name of `len` letters describes.
pub open spec fn pattern_dims(len: nat) -> (usize, usize) {
    if len == 0 {
        (0, 0)
    } else if len == 4 {
        (2, 2)
    } else if len == 36 {
        (6, 6)
    } else if len == 16 {
        (2, 8)
    } else {
        (12, 12)
    }
}

/// A pattern name `CFA::new` accepts: of a known size, made of known letters.
pub open spec fn valid_pattern_name(name: Seq<char>) -> bool {
    &&& (name.len() == 0 || name.len() == 4 || name.len() == 16 || name.len() == 36 || name.len()
        == 144)
    &&& forall|i: int| 0 <= i < name.len() ==> (#[trigger] color_of_char(name[i])) is Some
}

/// Color number at pattern letter `i`.
pub open spec fn letter_code(name: Seq<char>, i: int) -> u8 {
    color_code(color_of_char(name[i]).unwrap())
}

/// The 48x48 matrix of color numbers that the pattern name describes: the
/// block repeated over the matrix, all zero for the empty pattern.
pub open spec fn expanded_pattern(name: Seq<char>) -> Seq<u8> {
    let (w, h) = pattern_dims(name.len());
    Seq::new(
        2304,
        |k: int|
            if w == 0 {
                0u8
            } else {
                letter_code(name, ((k / 48) % h as int) * w + (k % 48) % w as int)
            },
    )
}

/// The pattern letter written for a color number.
pub open spec fn code_letter(v: u8) -> char {
    if v == 0 {
        'R'
    } else if v == 1 {
        'G'
    } else if v == 2 {
        'B'
    } else if v == 3 {
        'C'
    } else if v == 4 {
        'M'
    } else {
        'Y'
    }
}

/// Representation of the color filter array pattern in raw cameras: the
/// repeating block of colors, expanded to a 48x48 matrix of color numbers
/// stored row by row.
pub struct CFA {
    /// CFA pattern as a String
    pub name: String,
    /// Width of the repeating pattern
    pub width: usize,
    /// Height of the repeating pattern
    pub height: usize,
    pattern: Vec<u8>,
}

impl CFA {
    /// The pattern name.
    pub closed spec fn spec_name(&self) -> Seq<char> {
        self.name@
    }

    /// Width of the repeating block.
    pub closed spec fn spec_width(&self) -> usize {
        self.width
    }

    /// Height of the repeating block.
    pub closed spec fn spec_height(&self) -> usize {
        self.height
    }

    /// The color numbers of the 48x48 matrix, row by row.
    pub closed spec fn matrix(&self) -> Seq<u8> {
        self.pattern@
    }

    /// A full matrix and a block size of the known ones.
    pub closed spec fn wf(&self) -> bool {
        &&& self.matrix().len() == 2304
        &&& ((self.width == 0 && self.height == 0) || (self.width == 2 && self.height == 2) || (
        self.width == 6 && self.height == 6) || (self.width == 2 && self.height == 8) || (
        self.width == 12 && self.height == 12))
    }

    /// The color number at a position of the matrix.
    pub open spec fn at(&self, row: int, col: int) -> u8 {
        self.matrix()[row * 48 + col]
    }

    /// Create a new CFA from a string describing it. The pattern is given as
    /// the colors of each row concatenated, so `RGGB` means a first row `RG`
    /// and a second row `GB`; the size of the pattern decides its shape
    /// (4 letters: 2x2, 16: 2x8, 36: 6x6, 144: 12x12).
    pub fn new(patname: &str) -> (r: CFA)
        requires
            valid_pattern_name(patname@),
        ensures
            r.wf(),
            r.spec_name() == patname@,
            (r.spec_width(), r.spec_height()) == pattern_dims(patname@.len()),
            r.matrix() == expanded_pattern(patname@),
            r.letters_only(),
    {
        let len = patname.unicode_len();
        let (width, height): (usize, usize) = if len == 0 {
            (0, 0)
        } else if len == 4 {
            (2, 2)
        } else if len == 36 {
            (6, 6)
        } else if len == 16 {
            (2, 8)
        } else {
            (12, 12)
        };
        let ghost name = patname@;
        // the block, row by row
        let mut block: Vec<u8> = Vec::new();
        for i in 0..len
            invariant
                len == name.len(),
                valid_pattern_name(name),
                name == patname@,
                block@.len() == i,
                forall|j: int| 0 <= j < i ==> block@[j] == #[trigger] letter_code(name, j),
        {
            let c = patname.get_char(i);
            assert(color_of_char(name[i as int]) is Some);
            let color = CFAColor::try_from_char(c).unwrap();
            block.push(color.to_u8());
        }
        // the block repeated over the matrix
        let mut pattern: Vec<u8> = Vec::new();
        for k in 0..2304usize
            invariant
                len == name.len(),
                valid_pattern_name(name),
                (width, height) == pattern_dims(name.len()),
                block@.len() == len,
                forall|j: int| 0 <= j < len ==> block@[j] == #[trigger] letter_code(name, j),
                pattern@.len() == k,
                forall|j: int| 0 <= j < k ==> pattern@[j] == #[trigger] expanded_pattern(name)[j],
        {
            if width > 0 {
                let idx = ((k / 48) % height) * width + (k % 48) % width;
                assert(idx < len) by (nonlinear_arith)
                    requires
                        idx == ((k / 48) % height) * width + (k % 48) % width,
                        width > 0,
                        height > 0,
                        len == width * height,
                ;
                pattern.push(block[idx]);
            } else {
                pattern.push(0);
            }
        }
        assert(pattern@ =~= expanded_pattern(name));
        assert forall|k: int| 0 <= k < 2304 implies #[trigger] pattern@[k] <= 5 by {
            if width > 0 {
                let idx = ((k / 48) % height as int) * width + (k % 48) % width as int;
                assert(0 <= idx < len) by (nonlinear_arith)
                    requires
                        idx == ((k / 48) % height as int) * width + (k % 48) % width as int,
                        width > 0,
                        height > 0,
                        len == width * height,
                        0 <= k,
                ;
                assert(color_of_char(name[idx]) is Some);
            }
        }
        CFA { name: patname.to_owned(), width, height, pattern }
    }

    /// Get the color index at the given position.
    pub fn color_at(&self, row: usize, col: usize) -> (r: usize)
        requires
            self.wf(),
            row + 48 <= usize::MAX,
            col + 48 <= usize::MAX,
        ensures
            r as int == self.at(row as int % 48, col as int % 48),
    {
        let r = (row + 48) % 48;
        let c = (col + 48) % 48;
        self.pattern[r * 48 + c] as usize
    }

    /// Test if this is actually a valid CFA pattern
    pub fn is_valid(&self) -> (r: bool)
        ensures
            r == (self.spec_width() != 0 && self.spec_height() != 0),
    {
        self.width != 0 && self.height != 0
    }
}


/// The letter for color number `v` appended to `s`.
fn push_letter(s: &mut String, v: u8)
    requires
        v <= 5,
    ensures
        final(s)@ == old(s)@.push(code_letter(v)),
{
    proof {
        reveal_strlit("R");
        reveal_strlit("G");
        reveal_strlit("B");
        reveal_strlit("C");
        reveal_strlit("M");
        reveal_strlit("Y");
    }
    if v == 0 {
        s.append("R");
    } else if v == 1 {
        s.append("G");
    } else if v == 2 {
        s.append("B");
    } else if v == 3 {
        s.append("C");
    } else if v == 4 {
        s.append("M");
    } else {
        s.append("Y");
    }
    assert(final(s)@ =~= old(s)@.push(code_letter(v)));
}

/// The pattern name for the color numbers of a TIFF CFA pattern tag.
pub open spec fn tag_pattern_name(pat: Seq<u32>) -> Seq<char> {
    Seq::new(pat.len(), |i: int| code_letter(pat[i] as u8))
}

/// The pattern name of the `w`x`h` block at the top left of a matrix.
pub open spec fn block_name(m: Seq<u8>, w: int, h: int) -> Seq<char> {
    Seq::new((w * h) as nat, |i: int| code_letter(m[(i / w) * 48 + i % w]))
}

/// `itertools::Itertools::unique` followed by `count`: the number of
/// distinct values in `v`.
#[verifier::external_body]
fn count_unique(v: &[u8]) -> (r: usize)
    ensures
        r as nat == v@.to_set().len(),
{
    itertools::Itertools::unique(v.iter()).count()
}

impl CFA {
    /// The CFA of the color numbers of a TIFF CFA pattern tag.
    pub fn new_from_tag(pat: &[u32]) -> (r: CFA)
        requires
            pat@.len() == 0 || pat@.len() == 4 || pat@.len() == 16 || pat@.len() == 36 || pat@.len()
                == 144,
            forall|i: int| 0 <= i < pat@.len() ==> pat@[i] <= 5,
        ensures
            r.wf(),
            r.spec_name() == tag_pattern_name(pat@),
            (r.spec_width(), r.spec_height()) == pattern_dims(pat@.len()),
            r.matrix() == expanded_pattern(tag_pattern_name(pat@)),
            r.letters_only(),
    {
        let mut patname = String::new();
        for i in 0..pat.len()
            invariant
                forall|j: int| 0 <= j < pat@.len() ==> pat@[j] <= 5,
                patname@ =~= tag_pattern_name(pat@).subrange(0, i as int),
        {
            push_letter(&mut patname, pat[i] as u8);
            assert(patname@ =~= tag_pattern_name(pat@).subrange(0, i + 1));
        }
        assert(patname@ =~= tag_pattern_name(pat@));
        assert forall|i: int| 0 <= i < patname@.len() implies (#[trigger] color_of_char(patname@[i])) is Some by {
            assert(pat@[i] <= 5);
        }
        CFA::new(patname.as_str())
    }

    /// Remap the color values: each position of the block gets the color
    /// `op(row, col, color)` yields for it, and the matrix repeats that.
    pub fn map_colors<F: Fn(usize, usize, u8) -> u8>(&self, op: F) -> (r: Self)
        requires
            self.wf(),
            self.spec_width() > 0,
            forall|row: usize, col: usize, v: u8|
                row < self.spec_height() && col < self.spec_width() ==> call_requires(
                    op,
                    (row, col, v),
                ),
        ensures
            r.wf(),
            r.spec_name() == self.spec_name(),
            r.spec_width() == self.spec_width(),
            r.spec_height() == self.spec_height(),
            forall|k: int|
                0 <= k < 2304 ==> call_ensures(
                    op,
                    (
                        ((k / 48) % self.spec_height() as int) as usize,
                        ((k % 48) % self.spec_width() as int) as usize,
                        self.at((k / 48) % self.spec_height() as int, (k % 48) % self.spec_width() as int),
                    ),
                    #[trigger] r.matrix()[k],
                ),
    {
        let mut pattern: Vec<u8> = Vec::new();
        for row in 0..48usize
            invariant
                self.wf(),
                self.width > 0,
                forall|rr: usize, cc: usize, v: u8|
                    rr < self.height && cc < self.width ==> call_requires(op, (rr, cc, v)),
                pattern@.len() == row * 48,
                forall|k: int|
                    0 <= k < row * 48 ==> call_ensures(
                        op,
                        (
                            ((k / 48) % self.height as int) as usize,
                            ((k % 48) % self.width as int) as usize,
                            self.at((k / 48) % self.height as int, (k % 48) % self.width as int),
                        ),
                        #[trigger] pattern@[k],
                    ),
        {
            for col in 0..48usize
                invariant
                    self.wf(),
                    self.width > 0,
                    row < 48,
                    forall|rr: usize, cc: usize, v: u8|
                        rr < self.height && cc < self.width ==> call_requires(op, (rr, cc, v)),
                    pattern@.len() == row * 48 + col,
                    forall|k: int|
                        0 <= k < row * 48 + col ==> call_ensures(
                            op,
                            (
                                ((k / 48) % self.height as int) as usize,
                                ((k % 48) % self.width as int) as usize,
                                self.at((k / 48) % self.height as int, (k % 48) % self.width as int),
                            ),
                            #[trigger] pattern@[k],
                        ),
            {
                let rr = row % self.height;
                let cc = col % self.width;
                let v = op(rr, cc, self.pattern[rr * 48 + cc]);
                proof {
                    let k = row * 48 + col;
                    assert(k / 48 == row && k % 48 == col) by (nonlinear_arith)
                        requires
                            k == row * 48 + col,
                            col < 48,
                    ;
                }
                pattern.push(v);
            }
        }
        CFA { name: self.name.clone(), width: self.width, height: self.height, pattern }
    }

    /// The color at the given position, as a `CFAColor`.
    pub fn cfa_color_at(&self, row: usize, col: usize) -> (r: CFAColor)
        requires
            self.wf(),
            row + 48 <= usize::MAX,
            col + 48 <= usize::MAX,
            color_of_code(self.at(row as int % 48, col as int % 48)) is Some,
        ensures
            Some(r) == color_of_code(self.at(row as int % 48, col as int % 48)),
    {
        let r = (row + 48) % 48;
        let c = (col + 48) % 48;
        CFAColor::try_from_u8(self.pattern[r * 48 + c]).unwrap()
    }

    /// The colors of the repeating block, row by row.
    pub fn flat_pattern(&self) -> (r: Vec<u8>)
        requires
            self.wf(),
        ensures
            r@.len() == self.spec_width() * self.spec_height(),
            forall|i: int|
                0 <= i < r@.len() ==> #[trigger] r@[i] == self.at(
                    i / self.spec_width() as int,
                    i % self.spec_width() as int,
                ),
    {
        let n = self.width * self.height;
        let mut out: Vec<u8> = Vec::new();
        for i in 0..n
            invariant
                self.wf(),
                n == self.width * self.height,
                out@.len() == i,
                forall|j: int|
                    0 <= j < i ==> #[trigger] out@[j] == self.at(
                        j / self.width as int,
                        j % self.width as int,
                    ),
        {
            let row = i / self.width;
            let col = i % self.width;
            assert(row < self.height) by (nonlinear_arith)
                requires
                    row == i / self.width,
                    i < self.width * self.height,
                    self.width > 0,
            ;
            out.push(self.pattern[row * 48 + col]);
        }
        out
    }

    /// The colors of the pattern, row by row (what `flat_pattern` gives).
    pub open spec fn spec_flat_pattern(&self) -> Seq<u8> {
        Seq::new(
            (self.spec_width() * self.spec_height()) as nat,
            |i: int| self.at(i / self.spec_width() as int, i % self.spec_width() as int),
        )
    }

    /// Count of distinct colors in the pattern (0 for the empty pattern).
    pub fn unique_colors(&self) -> (r: usize)
        requires
            self.wf(),
        ensures
            r as nat == self.spec_flat_pattern().to_set().len(),
    {
        let flat = self.flat_pattern();
        assert(flat@ =~= self.spec_flat_pattern());
        count_unique(flat.as_slice())
    }

    /// The pattern name, as the pattern was created from.
    pub fn to_string(&self) -> (r: String)
        ensures
            r@ == self.spec_name(),
    {
        self.name.clone()
    }
}

/// Whether every letter of `s` is one of `a`, `b`, `c`, `d`.
fn only_letters(s: &str, a: char, b: char, c: char, d: char) -> (r: bool)
    ensures
        r == forall|i: int| 0 <= i < s@.len() ==> #[trigger] s@[i] == a || s@[i] == b || s@[i] == c || s@[i] == d,
{
    let n = s.unicode_len();
    for i in 0..n
        invariant
            n == s@.len(),
            forall|j: int| 0 <= j < i ==> #[trigger] s@[j] == a || s@[j] == b || s@[j] == c || s@[j] == d,
    {
        let ch = s.get_char(i);
        if !(ch == a || ch == b || ch == c || ch == d) {
            return false;
        }
    }
    true
}

/// Whether `s` holds the letter `c`.
fn has_letter(s: &str, c: char) -> (r: bool)
    ensures
        r == s@.contains(c),
{
    let n = s.unicode_len();
    for i in 0..n
        invariant
            n == s@.len(),
            forall|j: int| 0 <= j < i ==> s@[j] != c,
    {
        if s.get_char(i) == c {
            return true;
        }
    }
    false
}

impl CFA {
    /// Check if pattern is a RGGB or variant: only `R`, `G` and `B`, each of
    /// them present. False for 4-color patterns like RGBE.
    pub fn is_rgb(&self) -> (r: bool)
        ensures
            r == ((forall|i: int|
                0 <= i < self.spec_name().len() ==> #[trigger] self.spec_name()[i] == 'R'
                    || self.spec_name()[i] == 'G' || self.spec_name()[i] == 'B')
                && self.spec_name().contains('R') && self.spec_name().contains('G')
                && self.spec_name().contains('B')),
    {
        let name = self.name.as_str();
        only_letters(name, 'R', 'G', 'B', 'B') && has_letter(name, 'R') && has_letter(name, 'G')
            && has_letter(name, 'B')
    }

    /// Only `R`, `G`, `B` and `E`, each of them present.
    pub fn is_rgbe(&self) -> (r: bool)
        ensures
            r == ((forall|i: int|
                0 <= i < self.spec_name().len() ==> #[trigger] self.spec_name()[i] == 'R'
                    || self.spec_name()[i] == 'G' || self.spec_name()[i] == 'B'
                    || self.spec_name()[i] == 'E') && self.spec_name().contains('R')
                && self.spec_name().contains('G') && self.spec_name().contains('B')
                && self.spec_name().contains('E')),
    {
        let name = self.name.as_str();
        only_letters(name, 'R', 'G', 'B', 'E') && has_letter(name, 'R') && has_letter(name, 'G')
            && has_letter(name, 'B') && has_letter(name, 'E')
    }

    /// Only `C`, `Y`, `G` and `M`, each of them present.
    pub fn is_cygm(&self) -> (r: bool)
        ensures
            r == ((forall|i: int|
                0 <= i < self.spec_name().len() ==> #[trigger] self.spec_name()[i] == 'C'
                    || self.spec_name()[i] == 'Y' || self.spec_name()[i] == 'G'
                    || self.spec_name()[i] == 'M') && self.spec_name().contains('C')
                && self.spec_name().contains('Y') && self.spec_name().contains('G')
                && self.spec_name().contains('M')),
    {
        let name = self.name.as_str();
        only_letters(name, 'C', 'Y', 'G', 'M') && has_letter(name, 'C') && has_letter(name, 'Y')
            && has_letter(name, 'G') && has_letter(name, 'M')
    }

    /// Every color number of the matrix has a pattern letter.
    pub closed spec fn letters_only(&self) -> bool {
        forall|k: int| 0 <= k < 2304 ==> #[trigger] self.pattern@[k] <= 5
    }

    /// Shift the pattern left by `x` and up by `y`: the color at each
    /// position becomes the one `x` columns right and `y` rows down of it.
    /// This gives the pattern of an image cropped by that much.
    pub fn shift(&self, x: usize, y: usize) -> (r: CFA)
        requires
            self.wf(),
            self.letters_only(),
            x + 96 <= usize::MAX,
            y + 96 <= usize::MAX,
        ensures
            r.wf(),
            r.letters_only(),
            r.spec_width() == self.spec_width(),
            r.spec_height() == self.spec_height(),
            forall|row: int, col: int|
                0 <= row < 48 && 0 <= col < 48 ==> #[trigger] r.at(row, col) == self.at(
                    (row + y) % 48,
                    (col + x) % 48,
                ),
            r.spec_name() == block_name(r.matrix(), r.spec_width() as int, r.spec_height() as int),
    {
        let mut pattern: Vec<u8> = Vec::new();
        for k in 0..2304usize
            invariant
                self.wf(),
                self.letters_only(),
                x + 96 <= usize::MAX,
                y + 96 <= usize::MAX,
                pattern@.len() == k,
                forall|j: int|
                    0 <= j < k ==> #[trigger] pattern@[j] == self.at(
                        (j / 48 + y) % 48,
                        (j % 48 + x) % 48,
                    ) && pattern@[j] <= 5,
        {
            let row = k / 48;
            let col = k % 48;
            let c = self.color_at(row + y, col + x);
            proof {
                let idx = ((row + y) % 48) * 48 + (col + x) % 48;
                assert(0 <= idx < 2304) by (nonlinear_arith)
                    requires
                        idx == ((row + y) % 48) * 48 + (col + x) % 48,
                ;
                assert(self.pattern@[idx] <= 5);
            }
            pattern.push(c as u8);
        }
        let n = self.width * self.height;
        let mut name = String::new();
        for i in 0..n
            invariant
                self.wf(),
                n == self.width * self.height,
                pattern@.len() == 2304,
                forall|j: int| 0 <= j < 2304 ==> #[trigger] pattern@[j] <= 5,
                name@ =~= block_name(pattern@, self.width as int, self.height as int).subrange(
                    0,
                    i as int,
                ),
        {
            let row = i / self.width;
            let col = i % self.width;
            assert(row < self.height && row * 48 + col < 2304) by (nonlinear_arith)
                requires
                    row == i / self.width,
                    col == i % self.width,
                    i < self.width * self.height,
                    self.width > 0,
                    self.height <= 12,
                    self.width <= 12,
            ;
            push_letter(&mut name, pattern[row * 48 + col]);
            assert(name@ =~= block_name(pattern@, self.width as int, self.height as int).subrange(
                0,
                i + 1,
            ));
        }
        assert(name@ =~= block_name(pattern@, self.width as int, self.height as int));
        let r = CFA { name, pattern, width: self.width, height: self.height };
        assert forall|row: int, col: int|
            0 <= row < 48 && 0 <= col < 48 implies #[trigger] r.at(row, col) == self.at(
                (row + y) % 48,
                (col + x) % 48,
            ) by {
            let k = row * 48 + col;
            assert(k / 48 == row && k % 48 == col && 0 <= k < 2304) by (nonlinear_arith)
                requires
                    k == row * 48 + col,
                    0 <= row < 48,
                    0 <= col < 48,
            ;
        }
        r
    }
}

impl Default for CFA {
    /// The empty pattern.
    fn default() -> (r: Self)
        ensures
            r.wf(),
            r.spec_name() == Seq::<char>::empty(),
            r.spec_width() == 0 && r.spec_height() == 0,
            r.matrix() == Seq::new(2304, |_k: int| 0u8),
    {
        proof {
            reveal_strlit("");
        }
        let r = CFA::new("");
        assert(r.matrix() =~= Seq::new(2304, |_k: int| 0u8));
        r
    }
}

/// `r` holds the colors of `s` shifted left by `x` and up by `y`.
pub open spec fn is_shift_of(r: CFA, s: CFA, x: int, y: int) -> bool {
    forall|row: int, col: int|
        0 <= row < 48 && 0 <= col < 48 ==> #[trigger] r.at(row, col) == s.at(
            (row + y) % 48,
            (col + x) % 48,
        )
}

/// Shifting twice is shifting once by the sums of the offsets.
pub proof fn lemma_shift_twice(a: CFA, b: CFA, c: CFA, x1: int, y1: int, x2: int, y2: int)
    requires
        x1 >= 0 && y1 >= 0 && x2 >= 0 && y2 >= 0,
        is_shift_of(b, a, x1, y1),
        is_shift_of(c, b, x2, y2),
    ensures
        is_shift_of(c, a, x1 + x2, y1 + y2),
{
    assert forall|row: int, col: int| 0 <= row < 48 && 0 <= col < 48 implies #[trigger] c.at(
        row,
        col,
    ) == a.at((row + (y1 + y2)) % 48, (col + (x1 + x2)) % 48) by {
        let r2 = (row + y2) % 48;
        let c2 = (col + x2) % 48;
        assert(0 <= r2 < 48 && 0 <= c2 < 48);
        assert(b.at(r2, c2) == a.at((r2 + y1) % 48, (c2 + x1) % 48));
        lemma_mod_shift(row + y2, y1);
        lemma_mod_shift(col + x2, x1);
    }
}

/// Shifting a pattern by its own block size leaves every color where it
/// was: the block repeats over the matrix.
pub proof fn lemma_shift_by_block(a: CFA, b: CFA)
    requires
        a.wf(),
        valid_pattern_name(a.spec_name()),
        a.matrix() == expanded_pattern(a.spec_name()),
        (a.spec_width(), a.spec_height()) == pattern_dims(a.spec_name().len()),
        is_shift_of(b, a, a.spec_width() as int, a.spec_height() as int),
    ensures
        forall|row: int, col: int| 0 <= row < 48 && 0 <= col < 48 ==> #[trigger] b.at(row, col) == a.at(row, col),
{
    let name = a.spec_name();
    let w = a.spec_width() as int;
    let h = a.spec_height() as int;
    assert forall|row: int, col: int| 0 <= row < 48 && 0 <= col < 48 implies #[trigger] b.at(row, col) == a.at(
        row,
        col,
    ) by {
        let r2 = (row + h) % 48;
        let c2 = (col + w) % 48;
        assert(b.at(row, col) == a.at(r2, c2));
        if name.len() == 0 {
            assert(w == 0 && h == 0);
            vstd::arithmetic::div_mod::lemma_small_mod(row as nat, 48);
            vstd::arithmetic::div_mod::lemma_small_mod(col as nat, 48);
        } else {
            lemma_expanded_pattern_repeats(name, row, col);
            lemma_expanded_pattern_repeats(name, r2, c2);
            assert((w == 2 && h == 2) || (w == 6 && h == 6) || (w == 2 && h == 8) || (w == 12 && h == 12));
            assert(48 == (48int / h) * h && 48 == (48int / w) * w) by {
                if h == 2 {
                    assert(48int / 2 == 24);
                } else if h == 6 {
                    assert(48int / 6 == 8);
                } else if h == 8 {
                    assert(48int / 8 == 6);
                } else {
                    assert(48int / 12 == 4);
                }
                if w == 2 {
                    assert(48int / 2 == 24);
                } else if w == 6 {
                    assert(48int / 6 == 8);
                } else {
                    assert(48int / 12 == 4);
                }
            }
            vstd::arithmetic::div_mod::lemma_mod_mod(row + h, h, 48int / h);
            vstd::arithmetic::div_mod::lemma_mod_mod(col + w, w, 48int / w);
            vstd::arithmetic::div_mod::lemma_mod_add_multiples_vanish(row, h);
            vstd::arithmetic::div_mod::lemma_mod_add_multiples_vanish(col, w);
        }
    }
}

/// Two matrices with the same colors at every position are equal.
proof fn lemma_same_colors(c: CFA, d: CFA)
    requires
        c.wf(),
        d.wf(),
        forall|row: int, col: int| 0 <= row < 48 && 0 <= col < 48 ==> #[trigger] c.at(row, col) == d.at(row, col),
    ensures
        c.matrix() == d.matrix(),
{
    assert forall|k: int| 0 <= k < 2304 implies #[trigger] c.matrix()[k] == d.matrix()[k] by {
        let row = k / 48;
        let col = k % 48;
        assert(k == row * 48 + col && 0 <= row < 48 && 0 <= col < 48) by (nonlinear_arith)
            requires
                row == k / 48,
                col == k % 48,
                0 <= k < 2304,
        ;
        assert(c.at(row, col) == d.at(row, col));
    }
    assert(c.matrix() =~= d.matrix());
}

/// Shifting twice gives the pattern of shifting once by the sums of the
/// offsets, name included.
pub proof fn lemma_shift_twice_same_pattern(a: CFA, b: CFA, c: CFA, d: CFA, x1: int, y1: int, x2: int, y2: int)
    requires
        x1 >= 0 && y1 >= 0 && x2 >= 0 && y2 >= 0,
        c.wf(),
        d.wf(),
        is_shift_of(b, a, x1, y1),
        is_shift_of(c, b, x2, y2),
        is_shift_of(d, a, x1 + x2, y1 + y2),
        c.spec_width() == d.spec_width(),
        c.spec_height() == d.spec_height(),
        c.spec_name() == block_name(c.matrix(), c.spec_width() as int, c.spec_height() as int),
        d.spec_name() == block_name(d.matrix(), d.spec_width() as int, d.spec_height() as int),
    ensures
        c.matrix() == d.matrix(),
        c.spec_name() == d.spec_name(),
{
    lemma_shift_twice(a, b, c, x1, y1, x2, y2);
    assert forall|row: int, col: int| 0 <= row < 48 && 0 <= col < 48 implies #[trigger] c.at(row, col) == d.at(
        row,
        col,
    ) by {
        assert(c.at(row, col) == a.at((row + (y1 + y2)) % 48, (col + (x1 + x2)) % 48));
        assert(d.at(row, col) == a.at((row + (y1 + y2)) % 48, (col + (x1 + x2)) % 48));
    }
    lemma_same_colors(c, d);
}

proof fn lemma_mod_shift(a: int, b: int)
    ensures
        ((a % 48) + b) % 48 == (a + b) % 48,
{
    vstd::arithmetic::div_mod::lemma_add_mod_noop_right(b, a, 48);
}

/// The matrix of a pattern repeats its block: the color at any position is
/// the one at the same position within the block.
pub proof fn lemma_expanded_pattern_repeats(name: Seq<char>, row: int, col: int)
    requires
        valid_pattern_name(name),
        name.len() > 0,
        0 <= row < 48,
        0 <= col < 48,
    ensures
        ({
            let (w, h) = pattern_dims(name.len());
            expanded_pattern(name)[row * 48 + col] == expanded_pattern(name)[(row % (h as int)) * 48
                + col % (w as int)]
        }),
{
    let (w, h) = pattern_dims(name.len());
    let ww: int = w as int;
    let hh: int = h as int;
    let k = row * 48 + col;
    let k2 = (row % hh) * 48 + col % ww;
    assert(k / 48 == row && k % 48 == col) by (nonlinear_arith)
        requires
            k == row * 48 + col,
            0 <= col < 48,
    ;
    assert(0 <= (row % hh) < 48 && 0 <= (col % ww) < 48 && k2 / 48 == row % hh && k2 % 48 == col
        % ww) by (nonlinear_arith)
        requires
            k2 == (row % hh) * 48 + col % ww,
            1 <= ww <= 12,
            1 <= hh <= 12,
            0 <= row,
            0 <= col,
    ;
    vstd::arithmetic::div_mod::lemma_mod_twice(row, hh);
    vstd::arithmetic::div_mod::lemma_mod_twice(col, ww);
}

/// The colors of the planes of an image, in plane order.
#[derive(Clone, PartialEq, Eq)]
pub struct PlaneColor {
    pub colors: Vec<CFAColor>,
}

/// The plane holding color number `k`: the last plane with that color, or
/// 255 where none has it.
pub open spec fn plane_of(colors: Seq<CFAColor>, k: int, n: int) -> usize
    decreases n,
{
    if n <= 0 {
        255
    } else if color_code(colors[n - 1]) as int == k {
        (n - 1) as usize
    } else {
        plane_of(colors, k, n - 1)
    }
}

impl PlaneColor {
    /// The planes named by the letters of `patname`.
    pub fn new(patname: &str) -> (r: Self)
        requires
            forall|i: int| 0 <= i < patname@.len() ==> (#[trigger] color_of_char(patname@[i])) is Some,
        ensures
            r.colors@.len() == patname@.len(),
            forall|i: int|
                0 <= i < patname@.len() ==> Some(#[trigger] r.colors@[i]) == color_of_char(
                    patname@[i],
                ),
    {
        let n = patname.unicode_len();
        let mut colors: Vec<CFAColor> = Vec::new();
        for i in 0..n
            invariant
                n == patname@.len(),
                forall|j: int| 0 <= j < n ==> (#[trigger] color_of_char(patname@[j])) is Some,
                colors@.len() == i,
                forall|j: int| 0 <= j < i ==> Some(#[trigger] colors@[j]) == color_of_char(patname@[j]),
        {
            let c = patname.get_char(i);
            assert(color_of_char(patname@[i as int]) is Some);
            colors.push(CFAColor::try_from_char(c).unwrap());
        }
        PlaneColor { colors }
    }

    /// The plane colors, in plane order.
    pub fn plane_colors(&self) -> (r: Vec<CFAColor>)
        ensures
            r@ == self.colors@,
    {
        let mut out: Vec<CFAColor> = Vec::new();
        for i in 0..self.colors.len()
            invariant
                out@ == self.colors@.subrange(0, i as int),
        {
            out.push(self.colors[i]);
        }
        assert(out@ =~= self.colors@);
        out
    }

    /// Build a lookup table for all possible colors (up to 255).
    /// The value is the plane/channel number.
    pub fn plane_lookup_table(&self) -> (r: [usize; 256])
        ensures
            forall|k: int| 0 <= k < 256 ==> #[trigger] r@[k] == plane_of(self.colors@, k, self.colors@.len() as int),
    {
        let mut map: [usize; 256] = [255usize; 256];
        for plane in 0..self.colors.len()
            invariant
                forall|k: int| 0 <= k < 256 ==> #[trigger] map@[k] == plane_of(self.colors@, k, plane as int),
        {
            let code = self.colors[plane].to_u8();
            map[code as usize] = plane;
        }
        map
    }

    pub fn plane_count(&self) -> (r: usize)
        ensures
            r == self.colors@.len(),
    {
        self.colors.len()
    }

    /// Returns the first position in the block, row by row, with the
    /// given color.
    pub fn cfa_index(cfa: &CFA, color: CFAColor) -> (r: usize)
        requires
            cfa.wf(),
            exists|i: int|
                0 <= i < cfa.spec_width() * cfa.spec_height() && #[trigger] color_of_code(
                    cfa.at(i / cfa.spec_width() as int, i % cfa.spec_width() as int),
                ) == Some(color),
        ensures
            (r as int) < cfa.spec_width() * cfa.spec_height(),
            color_of_code(cfa.at(r as int / cfa.spec_width() as int, r as int % cfa.spec_width() as int)) == Some(
                color,
            ),
            forall|j: int|
                0 <= j < r ==> #[trigger] color_of_code(
                    cfa.at(j / cfa.spec_width() as int, j % cfa.spec_width() as int),
                ) != Some(color),
    {
        assert(cfa.width * cfa.height <= 144 && (cfa.width == 0 ==> cfa.width * cfa.height == 0)) by (nonlinear_arith)
            requires
                ((cfa.width == 0 && cfa.height == 0) || (cfa.width == 2 && cfa.height == 2) || (
                cfa.width == 6 && cfa.height == 6) || (cfa.width == 2 && cfa.height == 8) || (
                cfa.width == 12 && cfa.height == 12)),
        ;
        let w = cfa.width;
        let n = cfa.width * cfa.height;
        assert(n > 0 ==> w > 0);
        for i in 0..n
            invariant
                cfa.wf(),
                w == cfa.spec_width(),
                n == cfa.spec_width() * cfa.spec_height(),
                n > 0 ==> w > 0,
                forall|j: int|
                    0 <= j < i ==> #[trigger] color_of_code(cfa.at(j / w as int, j % w as int)) != Some(
                        color,
                    ),
        {
            let row = i / w;
            let col = i % w;
            assert(row < cfa.height) by (nonlinear_arith)
                requires
                    row == i / w,
                    i < w * cfa.height,
                    w > 0,
            ;
            let v = cfa.pattern[row * 48 + col];
            if CFAColor::try_from_u8(v) == Some(color) {
                return i;
            }
        }
        let ghost wit = choose|i: int|
            0 <= i < cfa.spec_width() * cfa.spec_height() && #[trigger] color_of_code(
                cfa.at(i / cfa.spec_width() as int, i % cfa.spec_width() as int),
            ) == Some(color);
        assert(color_of_code(cfa.at(wit / w as int, wit % w as int)) != Some(color));
        0
    }
}

impl Default for PlaneColor {
    /// Red, green and blue planes.
    fn default() -> (r: Self)
        ensures
            r.colors@ == seq![CFAColor::RED, CFAColor::GREEN, CFAColor::BLUE],
    {
        let mut colors: Vec<CFAColor> = Vec::new();
        colors.push(CFAColor::RED);
        colors.push(CFAColor::GREEN);
        colors.push(CFAColor::BLUE);
        assert(colors@ =~= seq![CFAColor::RED, CFAColor::GREEN, CFAColor::BLUE]);
        PlaneColor { colors }
    }
}
} // verus!
