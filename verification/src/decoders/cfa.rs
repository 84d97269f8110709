use vstd::prelude::*;
use vstd::string::StrSliceExecFns;
use vstd::string::StringExecFns;

verus! {

/// The color number a pattern letter stands for in this older pattern
/// description: `R` 0, `G` 1, `B` 2, `E` 3, with `M` counted as 1 and `Y`
/// as 3.
pub open spec fn letter_value(c: char) -> Option<usize> {
    if c == 'R' {
        Some(0)
    } else if c == 'G' || c == 'M' {
        Some(1)
    } else if c == 'B' {
        Some(2)
    } else if c == 'E' || c == 'Y' {
        Some(3)
    } else {
        None
    }
}

/// A pattern name `CFA::new` accepts.
pub open spec fn valid_name(name: Seq<char>) -> bool {
    &&& (name.len() == 0 || name.len() == 4 || name.len() == 16 || name.len() == 36 || name.len()
        == 144)
    &&& forall|i: int| 0 <= i < name.len() ==> (#[trigger] letter_value(name[i])) is Some
}

pub open spec fn dims(len: nat) -> (usize, usize) {
    if len == 0 {
        (0, 0)
    } else if len == 4 {
        (2, 2)
    } else if len == 36 {
        (6, 6)
    } else if len == 16 {
        (2, 8)
    } else {
        (12, 12)
    }
}

/// The 48x48 matrix (row by row) that the pattern name describes.
pub open spec fn expanded(name: Seq<char>) -> Seq<usize> {
    let (w, h) = dims(name.len());
    Seq::new(
        2304,
        |k: int|
            if w == 0 {
                0usize
            } else {
                letter_value(name[((k / 48) % h as int) * w + (k % 48) % w as int]).unwrap()
            },
    )
}

/// The letter written for a color number by `shift`.
pub open spec fn value_letter(v: usize) -> char {
    if v == 0 {
        'R'
    } else if v == 1 {
        'G'
    } else if v == 2 {
        'B'
    } else {
        'E'
    }
}

/// The letter a TIFF CFA pattern value becomes: `R`, `G`, `B` for 0, 1, 2.
pub open spec fn tag_letter(v: u32) -> char {
    if v == 0 {
        'R'
    } else if v == 1 {
        'G'
    } else {
        'B'
    }
}

/// Representation of the color filter array pattern in raw cameras, as
/// the older decoders describe it.
pub struct CFA {
    /// CFA pattern as a String
    pub name: String,
    /// Width of the repeating pattern
    pub width: usize,
    /// Height of the repeating pattern
    pub height: usize,
    pattern: Vec<usize>,
}

fn push_letter(s: &mut String, v: usize)
    requires
        v <= 3,
    ensures
        final(s)@ == old(s)@.push(value_letter(v)),
{
    proof {
        reveal_strlit("R");
        reveal_strlit("G");
        reveal_strlit("B");
        reveal_strlit("E");
    }
    if v == 0 {
        s.append("R");
    } else if v == 1 {
        s.append("G");
    } else if v == 2 {
        s.append("B");
    } else {
        s.append("E");
    }
    assert(final(s)@ =~= old(s)@.push(value_letter(v)));
}

impl CFA {
    pub closed spec fn spec_name(&self) -> Seq<char> {
        self.name@
    }

    pub closed spec fn spec_width(&self) -> usize {
        self.width
    }

    pub closed spec fn spec_height(&self) -> usize {
        self.height
    }

    pub closed spec fn matrix(&self) -> Seq<usize> {
        self.pattern@
    }

    pub closed spec fn wf(&self) -> bool {
        &&& self.pattern@.len() == 2304
        &&& ((self.width == 0 && self.height == 0) || (self.width == 2 && self.height == 2) || (
        self.width == 6 && self.height == 6) || (self.width == 2 && self.height == 8) || (
        self.width == 12 && self.height == 12))
        &&& forall|k: int| 0 <= k < 2304 ==> #[trigger] self.pattern@[k] <= 3
    }

    pub open spec fn at(&self, row: int, col: int) -> usize {
        self.matrix()[row * 48 + col]
    }

    /// The CFA of a TIFF CFA pattern tag holding red, green and blue.
    pub fn new_from_tag(pat: &[u32]) -> (r: CFA)
        requires
            pat@.len() == 0 || pat@.len() == 4 || pat@.len() == 16 || pat@.len() == 36 || pat@.len()
                == 144,
            forall|i: int| 0 <= i < pat@.len() ==> pat@[i] <= 2,
        ensures
            r.wf(),
            r.spec_name() == Seq::new(pat@.len(), |i: int| tag_letter(pat@[i])),
            r.matrix() == expanded(Seq::new(pat@.len(), |i: int| tag_letter(pat@[i]))),
    {
        let ghost target = Seq::new(pat@.len(), |i: int| tag_letter(pat@[i]));
        let mut patname = String::new();
        for i in 0..pat.len()
            invariant
                forall|j: int| 0 <= j < pat@.len() ==> pat@[j] <= 2,
                target == Seq::new(pat@.len(), |i: int| tag_letter(pat@[i])),
                patname@ =~= target.subrange(0, i as int),
        {
            push_letter(&mut patname, pat[i] as usize);
            assert(patname@ =~= target.subrange(0, i + 1));
        }
        assert(patname@ =~= target);
        CFA::new(patname.as_str())
    }

    /// Create a new CFA from a string describing it, row by row; the size
    /// decides the shape (4: 2x2, 16: 2x8, 36: 6x6, 144: 12x12).
    pub fn new(patname: &str) -> (r: CFA)
        requires
            valid_name(patname@),
        ensures
            r.wf(),
            r.spec_name() == patname@,
            (r.spec_width(), r.spec_height()) == dims(patname@.len()),
            r.matrix() == expanded(patname@),
    {
        let len = patname.unicode_len();
        let (width, height): (usize, usize) = if len == 0 {
            (0, 0)
        } else if len == 4 {
            (2, 2)
        } else if len == 36 {
            (6, 6)
        } else if len == 16 {
            (2, 8)
        } else {
            (12, 12)
        };
        let ghost name = patname@;
        let mut block: Vec<usize> = Vec::new();
        for i in 0..len
            invariant
                len == name.len(),
                valid_name(name),
                name == patname@,
                block@.len() == i,
                forall|j: int| 0 <= j < i ==> Some(block@[j]) == #[trigger] letter_value(name[j]),
        {
            let c = patname.get_char(i);
            assert(letter_value(name[i as int]) is Some);
            let v: usize = if c == 'R' {
                0
            } else if c == 'G' || c == 'M' {
                1
            } else if c == 'B' {
                2
            } else {
                3
            };
            block.push(v);
        }
        let mut pattern: Vec<usize> = Vec::new();
        for k in 0..2304usize
            invariant
                len == name.len(),
                valid_name(name),
                (width, height) == dims(name.len()),
                block@.len() == len,
                forall|j: int| 0 <= j < len ==> Some(block@[j]) == #[trigger] letter_value(name[j]),
                pattern@.len() == k,
                forall|j: int| 0 <= j < k ==> pattern@[j] == #[trigger] expanded(name)[j],
                forall|j: int| 0 <= j < k ==> #[trigger] pattern@[j] <= 3,
        {
            if width > 0 {
                let idx = ((k / 48) % height) * width + (k % 48) % width;
                assert(idx < len) by (nonlinear_arith)
                    requires
                        idx == ((k / 48) % height) * width + (k % 48) % width,
                        width > 0,
                        height > 0,
                        len == width * height,
                ;
                assert(Some(block@[idx as int]) == letter_value(name[idx as int]));
                pattern.push(block[idx]);
            } else {
                pattern.push(0);
            }
        }
        assert(pattern@ =~= expanded(name));
        CFA { name: patname.to_owned(), pattern, width, height }
    }

    /// Get the color index at the given position.
    pub fn color_at(&self, row: usize, col: usize) -> (r: usize)
        requires
            self.wf(),
            row + 48 <= usize::MAX,
            col + 48 <= usize::MAX,
        ensures
            r == self.at(row as int % 48, col as int % 48),
            r <= 3,
    {
        let r = (row + 48) % 48;
        let c = (col + 48) % 48;
        self.pattern[r * 48 + c]
    }

    /// Shift the pattern left by `x` and up by `y`.
    pub fn shift(&self, x: usize, y: usize) -> (r: CFA)
        requires
            self.wf(),
            x + 96 <= usize::MAX,
            y + 96 <= usize::MAX,
        ensures
            r.wf(),
            r.spec_width() == self.spec_width(),
            r.spec_height() == self.spec_height(),
            forall|row: int, col: int|
                0 <= row < 48 && 0 <= col < 48 ==> #[trigger] r.at(row, col) == self.at(
                    (row + y) % 48,
                    (col + x) % 48,
                ),
            r.spec_name() == Seq::new(
                (r.spec_width() * r.spec_height()) as nat,
                |i: int|
                    value_letter(
                        r.matrix()[(i / r.spec_width() as int) * 48 + i % r.spec_width() as int],
                    ),
            ),
    {
        let mut pattern: Vec<usize> = Vec::new();
        for k in 0..2304usize
            invariant
                self.wf(),
                x + 96 <= usize::MAX,
                y + 96 <= usize::MAX,
                pattern@.len() == k,
                forall|j: int|
                    0 <= j < k ==> #[trigger] pattern@[j] == self.at(
                        (j / 48 + y) % 48,
                        (j % 48 + x) % 48,
                    ) && pattern@[j] <= 3,
        {
            let row = k / 48;
            let col = k % 48;
            pattern.push(self.color_at(row + y, col + x));
        }
        let ghost target = Seq::new(
            (self.width * self.height) as nat,
            |i: int| value_letter(pattern@[(i / self.width as int) * 48 + i % self.width as int]),
        );
        let n = self.width * self.height;
        let mut name = String::new();
        for i in 0..n
            invariant
                self.wf(),
                n == self.width * self.height,
                pattern@.len() == 2304,
                forall|j: int| 0 <= j < 2304 ==> #[trigger] pattern@[j] <= 3,
                target == Seq::new(
                    (self.width * self.height) as nat,
                    |i: int| value_letter(pattern@[(i / self.width as int) * 48 + i % self.width as int]),
                ),
                name@ =~= target.subrange(0, i as int),
        {
            let row = i / self.width;
            let col = i % self.width;
            assert(row < self.height && row * 48 + col < 2304) by (nonlinear_arith)
                requires
                    row == i / self.width,
                    col == i % self.width,
                    i < self.width * self.height,
                    self.width > 0,
                    self.height <= 12,
                    self.width <= 12,
            ;
            push_letter(&mut name, pattern[row * 48 + col]);
            assert(name@ =~= target.subrange(0, i + 1));
        }
        assert(name@ =~= target);
        let r = CFA { name, pattern, width: self.width, height: self.height };
        assert forall|row: int, col: int|
            0 <= row < 48 && 0 <= col < 48 implies #[trigger] r.at(row, col) == self.at(
                (row + y) % 48,
                (col + x) % 48,
            ) by {
            let k = row * 48 + col;
            assert(k / 48 == row && k % 48 == col && 0 <= k < 2304) by (nonlinear_arith)
                requires
                    k == row * 48 + col,
                    0 <= row < 48,
                    0 <= col < 48,
            ;
        }
        r
    }

    /// Test if this is actually a valid CFA pattern
    pub fn is_valid(&self) -> (r: bool)
        ensures
            r == (self.spec_width() != 0 && self.spec_height() != 0),
    {
        self.width != 0 && self.height != 0
    }

    /// Convert the CFA back into a pattern string
    pub fn to_string(&self) -> (r: String)
        ensures
            r@ == self.spec_name(),
    {
        self.name.clone()
    }
}

} // verus!
