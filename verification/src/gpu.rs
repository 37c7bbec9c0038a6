//! A character-cell screen: a row-major grid of coloured cells that renders
//! to ANSI-coloured text, optionally with strings laid over the cells.

use vstd::prelude::*;
use vstd::std_specs::convert::FromSpecImpl;
use crate::strutil::push_char;
use crate::strutil::push_str;
use crate::strutil::chars_of;

verus! {

/// An RGB colour.
pub type Color = (u8, u8, u8);

/// The named colours of the screen.
#[derive(Copy, Clone, Debug)]
pub enum ColorName {
    Red,
    Green,
    Blue,
    Black,
    White,
}

/// The RGB value of a named colour. `Black` and `White` are stored swapped:
/// `Black` is `(255, 255, 255)` and `White` is `(0, 0, 0)`.
pub open spec fn rgb_of(c: ColorName) -> Color {
    match c {
        ColorName::Red => (255, 0, 0),
        ColorName::Green => (0, 255, 0),
        ColorName::Blue => (0, 0, 255),
        ColorName::Black => (255, 255, 255),
        ColorName::White => (0, 0, 0),
    }
}

impl From<ColorName> for (u8, u8, u8) {
    fn from(c: ColorName) -> (u8, u8, u8) {
        match c {
            ColorName::Red => (255, 0, 0),
            ColorName::Green => (0, 255, 0),
            ColorName::Blue => (0, 0, 255),
            ColorName::Black => (255, 255, 255),
            ColorName::White => (0, 0, 0),
        }
    }
}

impl FromSpecImpl<ColorName> for (u8, u8, u8) {
    open spec fn obeys_from_spec() -> bool {
        true
    }

    open spec fn from_spec(v: ColorName) -> (u8, u8, u8) {
        rgb_of(v)
    }
}

/// The full block that an uncovered cell shows.
pub open spec fn block() -> char {
    '\u{2588}'
}

/// The ANSI foreground code that a colour is drawn with.
pub open spec fn ansi_code(c: Color) -> Seq<char> {
    if c == (0u8, 0u8, 0u8) {
        seq!['9', '7']
    } else if c == (255u8, 255u8, 255u8) {
        seq!['3', '0']
    } else if c == (255u8, 0u8, 0u8) {
        seq!['3', '1']
    } else if c == (0u8, 255u8, 0u8) {
        seq!['3', '2']
    } else if c == (0u8, 0u8, 255u8) {
        seq!['3', '4']
    } else {
        seq!['3', '7']
    }
}

/// `ch` drawn in colour `c`: the colour's escape sequence, the character,
/// and the reset sequence.
pub open spec fn ansi_glyph(c: Color, ch: char) -> Seq<char> {
    seq!['\x1b', '['] + ansi_code(c) + seq!['m', ch, '\x1b', '[', '0', 'm']
}

fn push_ansi_code(s: &mut String, c: Color)
    ensures
        final(s)@ == old(s)@ + ansi_code(c),
{
    let (a, b): (char, char) = if c.0 == 0 && c.1 == 0 && c.2 == 0 {
        ('9', '7')
    } else if c.0 == 255 && c.1 == 255 && c.2 == 255 {
        ('3', '0')
    } else if c.0 == 255 && c.1 == 0 && c.2 == 0 {
        ('3', '1')
    } else if c.0 == 0 && c.1 == 255 && c.2 == 0 {
        ('3', '2')
    } else if c.0 == 0 && c.1 == 0 && c.2 == 255 {
        ('3', '4')
    } else {
        ('3', '7')
    };
    push_char(s, a);
    push_char(s, b);
    assert(final(s)@ =~= old(s)@ + ansi_code(c));
}

/// Appends `ch` drawn in colour `c` to `s`.
fn push_glyph(s: &mut String, c: Color, ch: char)
    ensures
        final(s)@ == old(s)@ + ansi_glyph(c, ch),
{
    push_char(s, '\x1b');
    push_char(s, '[');
    push_ansi_code(s, c);
    push_char(s, 'm');
    push_char(s, ch);
    push_char(s, '\x1b');
    push_char(s, '[');
    push_char(s, '0');
    push_char(s, 'm');
    assert(final(s)@ =~= old(s)@ + ansi_glyph(c, ch));
}

/// A full block drawn in colour `c`.
pub fn color_to_ansi(c: Color) -> (s: String)
    ensures
        s@ == ansi_glyph(c, block()),
{
    let mut s = String::new();
    push_glyph(&mut s, c, '\u{2588}');
    assert(s@ =~= ansi_glyph(c, block()));
    s
}

/// The character `ch` drawn in colour `fg`.
pub fn color_to_ansi_char(fg: Color, ch: char) -> (s: String)
    ensures
        s@ == ansi_glyph(fg, ch),
{
    let mut s = String::new();
    push_glyph(&mut s, fg, ch);
    assert(s@ =~= ansi_glyph(fg, ch));
    s
}

/// One cell of the screen, holding its colour.
#[derive(Copy, Clone, Debug)]
pub struct GpuTransistor {
    val: Color,
}

impl View for GpuTransistor {
    type V = Color;

    closed spec fn view(&self) -> Color {
        self.val
    }
}

impl GpuTransistor {
    /// A cell holding `(0, 0, 0)`.
    pub fn new() -> (t: Self)
        ensures
            t@ == (0u8, 0u8, 0u8),
    {
        Self { val: (0, 0, 0) }
    }

    /// Stores `val` in the cell.
    pub fn set(&mut self, val: Color)
        ensures
            final(self)@ == val,
    {
        self.val = val;
    }

    /// The cell's colour.
    pub fn get(&self) -> (c: Color)
        ensures
            c == self@,
    {
        self.val
    }
}

/// A string laid over the screen, starting at cell `start_idx`.
pub struct Text {
    text: String,
    start_idx: usize,
}

impl View for Text {
    type V = (Seq<char>, usize);

    closed spec fn view(&self) -> (Seq<char>, usize) {
        (self.text@, self.start_idx)
    }
}

impl Text {
    /// The string `text`, laid over the cells from `start_idx` on.
    pub fn new(text: &str, start_idx: usize) -> (t: Self)
        ensures
            t@ == (text@, start_idx),
    {
        let mut s = String::new();
        push_str(&mut s, text);
        Self { text: s, start_idx }
    }
}

/// The views of a sequence of texts.
pub open spec fn text_views(texts: Seq<Text>) -> Seq<(Seq<char>, usize)> {
    texts.map_values(|t: Text| t@)
}

/// Whether text `t` covers cell `i`: `i` is at or after its start and before
/// the start plus its number of characters.
pub open spec fn covers(t: (Seq<char>, usize), i: int) -> bool {
    t.1 <= i < t.1 + t.0.len()
}

/// The character that the first text covering cell `i` puts there, if any.
pub open spec fn cover(texts: Seq<(Seq<char>, usize)>, i: int) -> Option<char>
    decreases texts.len(),
{
    if texts.len() == 0 {
        None
    } else if covers(texts[0], i) {
        Some(texts[0].0[i - texts[0].1])
    } else {
        cover(texts.drop_first(), i)
    }
}

/// What cell `i` shows: the covering character, or a full block.
pub open spec fn glyph_at(texts: Seq<(Seq<char>, usize)>, i: int) -> char {
    match cover(texts, i) {
        Some(ch) => ch,
        None => block(),
    }
}

/// The line break that follows cell `i` when it ends a row of `row_size` cells.
pub open spec fn row_break(row_size: usize, i: int) -> Seq<char> {
    if (i + 1) % (row_size as int) == 0 {
        seq!['\n']
    } else {
        Seq::empty()
    }
}

/// The text of cell `i` with the texts laid over the screen.
pub open spec fn cell_text(
    cells: Seq<Color>,
    texts: Seq<(Seq<char>, usize)>,
    row_size: usize,
    i: int,
) -> Seq<char> {
    ansi_glyph(cells[i], glyph_at(texts, i)) + row_break(row_size, i)
}

/// The text of the first `n` cells with the texts laid over the screen.
pub open spec fn render_upto(
    cells: Seq<Color>,
    texts: Seq<(Seq<char>, usize)>,
    row_size: usize,
    n: nat,
) -> Seq<char>
    decreases n,
{
    if n == 0 {
        Seq::empty()
    } else {
        render_upto(cells, texts, row_size, (n - 1) as nat) + cell_text(
            cells,
            texts,
            row_size,
            n - 1,
        )
    }
}

/// The whole screen with the texts laid over it, row after row.
pub open spec fn render(
    cells: Seq<Color>,
    texts: Seq<(Seq<char>, usize)>,
    row_size: usize,
) -> Seq<char> {
    render_upto(cells, texts, row_size, cells.len())
}

/// The text of the first `n` cells, each a full block.
pub open spec fn blocks_upto(cells: Seq<Color>, row_size: usize, n: nat) -> Seq<char>
    decreases n,
{
    if n == 0 {
        Seq::empty()
    } else {
        blocks_upto(cells, row_size, (n - 1) as nat) + ansi_glyph(cells[n - 1], block())
            + row_break(row_size, n - 1)
    }
}

/// The whole screen, each cell a full block in its colour, row after row.
pub open spec fn render_blocks(cells: Seq<Color>, row_size: usize) -> Seq<char> {
    blocks_upto(cells, row_size, cells.len())
}

/// A row size that the screen can be drawn with: rows are never empty,
/// unless there is nothing to draw.
pub open spec fn row_size_ok(cells: Seq<Color>, row_size: usize) -> bool {
    row_size > 0 || cells.len() == 0
}

/// Texts that can be laid over a screen: their starts fit in an `isize`,
/// which is how their offsets are computed.
pub open spec fn starts_ok(texts: Seq<(Seq<char>, usize)>) -> bool {
    forall|k: int| 0 <= k < texts.len() ==> #[trigger] texts[k].1 <= isize::MAX
}

/// Drawing a screen with strings laid over it.
pub trait WebShowGPU {
    /// Whether the screen can be drawn with rows of `row_size` cells and
    /// these texts.
    spec fn web_show_ok(&self, row_size: usize, texts: Seq<Text>) -> bool;

    /// The text that drawing the screen gives.
    spec fn web_view(&self, row_size: usize, texts: Seq<Text>) -> Seq<char>;

    /// Draws the screen in rows of `row_size` cells with `text` laid over it.
    fn web_show(&self, row_size: usize, text: Vec<Text>) -> (out: String)
        requires
            self.web_show_ok(row_size, text@),
        ensures
            out@ == self.web_view(row_size, text@),
    ;
}

/// A screen of coloured cells.
#[derive(Clone, Debug)]
pub struct Gpu {
    transistors: Vec<GpuTransistor>,
}

impl View for Gpu {
    type V = Seq<Color>;

    closed spec fn view(&self) -> Seq<Color> {
        self.transistors@.map_values(|t: GpuTransistor| t@)
    }
}

/// `n` cells of `(0, 0, 0)`.
pub open spec fn blank_cells(n: nat) -> Seq<Color> {
    Seq::new(n, |i: int| (0u8, 0u8, 0u8))
}

/// The cells with those from `start` up to (not including) `end` set to `color`.
pub open spec fn paint_range(cells: Seq<Color>, start: int, end: int, color: Color) -> Seq<Color> {
    Seq::new(cells.len(), |i: int| if start <= i < end { color } else { cells[i] })
}

fn blank_transistors(n: usize) -> (v: Vec<GpuTransistor>)
    ensures
        v@.map_values(|t: GpuTransistor| t@) == blank_cells(n as nat),
{
    let mut v: Vec<GpuTransistor> = Vec::new();
    let mut i: usize = 0;
    while i < n
        invariant
            i <= n,
            v@.len() == i,
            forall|j: int| 0 <= j < i ==> #[trigger] v@[j]@ == (0u8, 0u8, 0u8),
        decreases n - i,
    {
        v.push(GpuTransistor::new());
        i = i + 1;
    }
    assert(v@.map_values(|t: GpuTransistor| t@) =~= blank_cells(n as nat));
    v
}

impl Gpu {
    /// A screen of `total_transistors` cells, each `(0, 0, 0)`.
    pub fn new(total_transistors: usize) -> (g: Self)
        ensures
            g@ == blank_cells(total_transistors as nat),
    {
        Self { transistors: blank_transistors(total_transistors) }
    }

    /// The number of cells.
    pub fn len(&self) -> (n: usize)
        ensures
            n == self@.len(),
    {
        self.transistors.len()
    }

    /// Replaces the screen by `tsis_len` cells, each `(0, 0, 0)`.
    pub fn set_tsis_len(&mut self, tsis_len: usize)
        ensures
            final(self)@ == blank_cells(tsis_len as nat),
    {
        self.transistors = blank_transistors(tsis_len);
    }

    /// Sets cell `x` to `color` when there is such a cell; says whether
    /// there was one (an index past the end changes nothing).
    pub fn set_x_transistor(&mut self, x: usize, color: Color) -> (done: bool)
        ensures
            done == (x < old(self)@.len()),
            done ==> final(self)@ == old(self)@.update(x as int, color),
            !done ==> final(self)@ == old(self)@,
    {
        if x < self.transistors.len() {
            let mut t = self.transistors[x];
            t.set(color);
            self.transistors.set(x, t);
            assert(self@ =~= old(self)@.update(x as int, color));
            true
        } else {
            false
        }
    }

    /// Sets every cell to `color`.
    pub fn set_all(&mut self, color: Color)
        ensures
            final(self)@ == Seq::new(old(self)@.len(), |i: int| color),
    {
        let n = self.transistors.len();
        let ghost before = self@;
        let mut i: usize = 0;
        while i < n
            invariant
                i <= n,
                n == self.transistors@.len(),
                before.len() == n,
                forall|j: int| 0 <= j < n ==> #[trigger] self@[j] == if j < i { color } else { before[j] },
            decreases n - i,
        {
            let ghost prev = self@;
            let mut t = self.transistors[i];
            t.set(color);
            self.transistors.set(i, t);
            assert(self@ =~= prev.update(i as int, color));
            i = i + 1;
        }
        assert(self@ =~= Seq::new(before.len(), |i: int| color));
    }

    /// Sets the cells from `start_index` up to (not including) `end_index`
    /// to `color`; indices past the end are skipped.
    pub fn set_range(&mut self, start_index: usize, end_index: usize, color: Color)
        ensures
            final(self)@ == paint_range(old(self)@, start_index as int, end_index as int, color),
    {
        let n = self.transistors.len();
        let ghost before = self@;
        let mut i: usize = start_index;
        while i < end_index
            invariant
                start_index <= end_index ==> start_index <= i <= end_index,
                start_index > end_index ==> i == start_index,
                n == self.transistors@.len(),
                before.len() == n,
                forall|j: int|
                    0 <= j < n ==> #[trigger] self@[j] == if start_index <= j < i {
                        color
                    } else {
                        before[j]
                    },
            decreases end_index - i,
        {
            if i < n {
                let ghost prev = self@;
                let mut t = self.transistors[i];
                t.set(color);
                self.transistors.set(i, t);
                assert(self@ =~= prev.update(i as int, color));
            }
            i = i + 1;
        }
        assert(self@ =~= paint_range(before, start_index as int, end_index as int, color));
    }

    /// The screen drawn in rows of `row_size` cells, each cell a full block
    /// in its colour, with a line break after every full row.
    pub fn show(&self, row_size: usize) -> (out: String)
        requires
            row_size_ok(self@, row_size),
        ensures
            out@ == render_blocks(self@, row_size),
    {
        let n = self.transistors.len();
        let mut out = String::new();
        let mut i: usize = 0;
        while i < n
            invariant
                i <= n,
                n == self@.len(),
                row_size_ok(self@, row_size),
                out@ == blocks_upto(self@, row_size, i as nat),
            decreases n - i,
        {
            let c = self.transistors[i].get();
            push_glyph(&mut out, c, '\u{2588}');
            if (i + 1) % row_size == 0 {
                push_char(&mut out, '\n');
            }
            assert(out@ =~= blocks_upto(self@, row_size, (i + 1) as nat));
            i = i + 1;
        }
        out
    }
}

/// The characters and start of each text, read once before drawing.
fn text_chars(texts: &Vec<Text>) -> (r: (Vec<Vec<char>>, Vec<usize>))
    ensures
        r.0@.len() == texts@.len(),
        r.1@.len() == texts@.len(),
        forall|k: int|
            0 <= k < texts@.len() ==> (#[trigger] r.0@[k])@ == texts@[k]@.0 && r.1@[k]
                == texts@[k]@.1,
{
    let mut cs: Vec<Vec<char>> = Vec::new();
    let mut ss: Vec<usize> = Vec::new();
    let mut k: usize = 0;
    while k < texts.len()
        invariant
            k <= texts@.len(),
            cs@.len() == k,
            ss@.len() == k,
            forall|j: int|
                0 <= j < k ==> (#[trigger] cs@[j])@ == texts@[j]@.0 && ss@[j] == texts@[j]@.1,
        decreases texts@.len() - k,
    {
        let t = &texts[k];
        cs.push(chars_of(t.text.as_str()));
        ss.push(t.start_idx);
        k = k + 1;
    }
    (cs, ss)
}

/// The character that the first text covering cell `i` puts there.
fn find_cover(
    cs: &Vec<Vec<char>>,
    ss: &Vec<usize>,
    i: usize,
    Ghost(tv): Ghost<Seq<(Seq<char>, usize)>>,
) -> (r: Option<char>)
    requires
        cs@.len() == tv.len(),
        ss@.len() == tv.len(),
        forall|k: int| 0 <= k < tv.len() ==> (#[trigger] cs@[k])@ == tv[k].0 && ss@[k] == tv[k].1,
    ensures
        r == cover(tv, i as int),
{
    let mut k: usize = 0;
    assert(tv.subrange(0, tv.len() as int) =~= tv);
    while k < cs.len()
        invariant
            k <= cs@.len(),
            cs@.len() == tv.len(),
            ss@.len() == tv.len(),
            forall|j: int| 0 <= j < tv.len() ==> (#[trigger] cs@[j])@ == tv[j].0 && ss@[j] == tv[j].1,
            cover(tv, i as int) == cover(tv.subrange(k as int, tv.len() as int), i as int),
        decreases cs@.len() - k,
    {
        let ghost rest = tv.subrange(k as int, tv.len() as int);
        let start = ss[k];
        let len = cs[k].len();
        if start <= i && i - start < len {
            assert(rest[0] == tv[k as int]);
            return Some(cs[k][i - start]);
        }
        assert(rest.drop_first() =~= tv.subrange(k + 1, tv.len() as int));
        k = k + 1;
    }
    None
}

impl WebShowGPU for Gpu {
    open spec fn web_show_ok(&self, row_size: usize, texts: Seq<Text>) -> bool {
        row_size_ok(self@, row_size) && starts_ok(text_views(texts))
    }

    open spec fn web_view(&self, row_size: usize, texts: Seq<Text>) -> Seq<char> {
        render(self@, text_views(texts), row_size)
    }

    fn web_show(&self, row_size: usize, text: Vec<Text>) -> (out: String) {
        let ghost tv = text_views(text@);
        let (cs, ss) = text_chars(&text);
        let n = self.transistors.len();
        let mut out = String::new();
        let mut i: usize = 0;
        while i < n
            invariant
                i <= n,
                n == self@.len(),
                row_size_ok(self@, row_size),
                tv == text_views(text@),
                cs@.len() == tv.len(),
                ss@.len() == tv.len(),
                forall|k: int| 0 <= k < tv.len() ==> (#[trigger] cs@[k])@ == tv[k].0 && ss@[k] == tv[k].1,
                out@ == render_upto(self@, tv, row_size, i as nat),
            decreases n - i,
        {
            let c = self.transistors[i].get();
            let ch = match find_cover(&cs, &ss, i, Ghost(tv)) {
                Some(ch) => ch,
                None => '\u{2588}',
            };
            push_glyph(&mut out, c, ch);
            if (i + 1) % row_size == 0 {
                push_char(&mut out, '\n');
            }
            assert(out@ =~= render_upto(self@, tv, row_size, (i + 1) as nat));
            i = i + 1;
        }
        out
    }
}

/// Drawing with no texts laid over the screen gives the plain screen:
/// `web_show` with an empty list draws what `show` draws.
pub proof fn law_web_show_without_texts(cells: Seq<Color>, row_size: usize)
    ensures
        render(cells, Seq::empty(), row_size) == render_blocks(cells, row_size),
{
    lemma_no_texts_upto(cells, row_size, cells.len());
}

proof fn lemma_no_texts_upto(cells: Seq<Color>, row_size: usize, n: nat)
    ensures
        render_upto(cells, Seq::empty(), row_size, n) == blocks_upto(cells, row_size, n),
    decreases n,
{
    if n > 0 {
        lemma_no_texts_upto(cells, row_size, (n - 1) as nat);
        assert(glyph_at(Seq::empty(), n - 1) == block());
        assert(cell_text(cells, Seq::empty(), row_size, n - 1) =~= ansi_glyph(cells[n - 1], block())
            + row_break(row_size, n - 1));
    }
}

/// Painting every index from the first to the last is painting all cells:
/// `set_range(0, len, c)` leaves the screen as `set_all(c)` does.
pub proof fn law_full_range_is_all(cells: Seq<Color>, color: Color)
    ensures
        paint_range(cells, 0, cells.len() as int, color) == Seq::new(cells.len(), |i: int| color),
{
    assert(paint_range(cells, 0, cells.len() as int, color) =~= Seq::new(cells.len(), |i: int| color));
}

/// The first text that covers a cell decides what the cell shows: where
/// text `k` covers cell `i` and no earlier text does, the cell holds the
/// character of text `k` at offset `i` minus its start.
pub(crate) proof fn lemma_first_cover(texts: Seq<(Seq<char>, usize)>, i: int, k: int)
    requires
        0 <= k < texts.len(),
        covers(texts[k], i),
        forall|j: int| 0 <= j < k ==> !covers(#[trigger] texts[j], i),
    ensures
        cover(texts, i) == Some(texts[k].0[i - texts[k].1]),
    decreases k,
{
    if k > 0 {
        assert(!covers(texts[0], i));
        let rest = texts.drop_first();
        assert forall|j: int| 0 <= j < k - 1 implies !covers(#[trigger] rest[j], i) by {
            assert(rest[j] == texts[j + 1]);
        }
        assert(rest[k - 1] == texts[k]);
        lemma_first_cover(rest, i, k - 1);
    }
}

/// A cell that no text covers has no covering character.
proof fn lemma_no_cover(texts: Seq<(Seq<char>, usize)>, i: int)
    requires
        forall|j: int| 0 <= j < texts.len() ==> !covers(#[trigger] texts[j], i),
    ensures
        cover(texts, i) == None::<char>,
    decreases texts.len(),
{
    if texts.len() > 0 {
        assert(!covers(texts[0], i));
        let rest = texts.drop_first();
        assert forall|j: int| 0 <= j < rest.len() implies !covers(#[trigger] rest[j], i) by {
            assert(rest[j] == texts[j + 1]);
        }
        lemma_no_cover(rest, i);
    }
}

/// What is drawn of the first cells stays at the front of the whole drawing.
proof fn lemma_upto_is_prefix(
    cells: Seq<Color>,
    texts: Seq<(Seq<char>, usize)>,
    row_size: usize,
    n: nat,
    m: nat,
)
    requires
        n <= m,
    ensures
        render_upto(cells, texts, row_size, n).is_prefix_of(render_upto(cells, texts, row_size, m)),
    decreases m,
{
    if n < m {
        lemma_upto_is_prefix(cells, texts, row_size, n, (m - 1) as nat);
        let a = render_upto(cells, texts, row_size, n);
        let b = render_upto(cells, texts, row_size, (m - 1) as nat);
        let c = render_upto(cells, texts, row_size, m);
        assert(c == b + cell_text(cells, texts, row_size, m - 1));
        assert(c.subrange(0, a.len() as int) =~= b.subrange(0, a.len() as int));
    }
}

/// A cell covered by a text shows that text's own character, whatever the
/// character is (a space included): where text `k` is the first to cover
/// cell `i`, the drawing of the screen holds, after what the cells before
/// `i` give, the escape sequence of the cell's colour, the character of text
/// `k` at offset `i` minus its start, the reset sequence, and a line break
/// where the cell ends a row.
pub proof fn law_covered_cell_shows_its_character(
    cells: Seq<Color>,
    texts: Seq<(Seq<char>, usize)>,
    row_size: usize,
    i: int,
    k: int,
)
    requires
        0 <= i < cells.len(),
        0 <= k < texts.len(),
        texts[k].1 <= i < texts[k].1 + texts[k].0.len(),
        forall|j: int|
            0 <= j < k ==> !(texts[j].1 <= i < texts[j].1 + (#[trigger] texts[j]).0.len()),
    ensures
        render_upto(cells, texts, row_size, (i + 1) as nat) == render_upto(
            cells,
            texts,
            row_size,
            i as nat,
        ) + seq!['\x1b', '['] + ansi_code(cells[i]) + seq![
            'm',
            texts[k].0[i - texts[k].1],
            '\x1b',
            '[',
            '0',
            'm',
        ] + (if (i + 1) % (row_size as int) == 0 {
            seq!['\n']
        } else {
            Seq::empty()
        }),
        render_upto(cells, texts, row_size, (i + 1) as nat).is_prefix_of(
            render(cells, texts, row_size),
        ),
{
    assert forall|j: int| 0 <= j < k implies !covers(#[trigger] texts[j], i) by {}
    lemma_first_cover(texts, i, k);
    lemma_upto_is_prefix(cells, texts, row_size, (i + 1) as nat, cells.len());
    assert(render_upto(cells, texts, row_size, (i + 1) as nat) =~= render_upto(
        cells,
        texts,
        row_size,
        i as nat,
    ) + seq!['\x1b', '['] + ansi_code(cells[i]) + seq![
        'm',
        texts[k].0[i - texts[k].1],
        '\x1b',
        '[',
        '0',
        'm',
    ] + (if (i + 1) % (row_size as int) == 0 {
        seq!['\n']
    } else {
        Seq::empty()
    }));
}

/// A cell that no text covers shows a full block: the drawing holds, after
/// what the cells before it give, the escape sequence of the cell's colour,
/// the full block, the reset sequence, and a line break where the cell ends
/// a row.
pub proof fn law_uncovered_cell_shows_block(
    cells: Seq<Color>,
    texts: Seq<(Seq<char>, usize)>,
    row_size: usize,
    i: int,
)
    requires
        0 <= i < cells.len(),
        forall|j: int|
            0 <= j < texts.len() ==> !(texts[j].1 <= i < texts[j].1 + (
            #[trigger] texts[j]).0.len()),
    ensures
        render_upto(cells, texts, row_size, (i + 1) as nat) == render_upto(
            cells,
            texts,
            row_size,
            i as nat,
        ) + seq!['\x1b', '['] + ansi_code(cells[i]) + seq!['m', '\u{2588}', '\x1b', '[', '0', 'm']
            + (if (i + 1) % (row_size as int) == 0 {
            seq!['\n']
        } else {
            Seq::empty()
        }),
        render_upto(cells, texts, row_size, (i + 1) as nat).is_prefix_of(
            render(cells, texts, row_size),
        ),
{
    assert forall|j: int| 0 <= j < texts.len() implies !covers(#[trigger] texts[j], i) by {}
    lemma_no_cover(texts, i);
    lemma_upto_is_prefix(cells, texts, row_size, (i + 1) as nat, cells.len());
    assert(render_upto(cells, texts, row_size, (i + 1) as nat) =~= render_upto(
        cells,
        texts,
        row_size,
        i as nat,
    ) + seq!['\x1b', '['] + ansi_code(cells[i]) + seq!['m', '\u{2588}', '\x1b', '[', '0', 'm']
        + (if (i + 1) % (row_size as int) == 0 {
        seq!['\n']
    } else {
        Seq::empty()
    }));
}

/// Painting a range is painting its cells one by one: an empty range
/// changes nothing, and a range one cell longer is the shorter range with
/// that last cell set as `set_x_transistor` sets it; the screen keeps its
/// size.
pub proof fn law_range_is_cells_one_by_one(cells: Seq<Color>, start: int, end: int, color: Color)
    requires
        0 <= start <= end < cells.len(),
    ensures
        paint_range(cells, start, start, color) == cells,
        paint_range(cells, start, end + 1, color) == paint_range(cells, start, end, color).update(
            end,
            color,
        ),
        paint_range(cells, start, end, color).len() == cells.len(),
{
    assert(paint_range(cells, start, start, color) =~= cells);
    assert(paint_range(cells, start, end + 1, color) =~= paint_range(
        cells,
        start,
        end,
        color,
    ).update(end, color));
}

} // verus!
