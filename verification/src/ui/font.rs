use vstd::prelude::*;

verus! {

/// Number of characters the bitmap font can draw.
pub const GLYPH_COUNT: usize = 35;

/// The characters the bitmap font can draw, in table order.
pub const GLYPH_CHARS: [char; 35] = [
    'A', 'B', 'C', 'D', 'E', 'F', 'G', 'H', 'I', 'J', 'L', 'M', 'N', 'O', 'P', 'R', 'S', 'T', 'U',
    'V', 'W', 'Y', ':', '-', '_', '0', '1', '2', '3', '4', '5', '6', '7', '8', '9',
];

/// Seven rows of five pixels for each character of `GLYPH_CHARS`; bit 4 of a
/// row is its leftmost pixel.
pub const GLYPH_ROWS: [[u8; 7]; 35] = [
    [0b01110, 0b10001, 0b10001, 0b11111, 0b10001, 0b10001, 0b10001],
    [0b11110, 0b10001, 0b11110, 0b10001, 0b10001, 0b10001, 0b11110],
    [0b01110, 0b10001, 0b10000, 0b10000, 0b10000, 0b10001, 0b01110],
    [0b11110, 0b10001, 0b10001, 0b10001, 0b10001, 0b10001, 0b11110],
    [0b11111, 0b10000, 0b11110, 0b10000, 0b10000, 0b10000, 0b11111],
    [0b11111, 0b10000, 0b11110, 0b10000, 0b10000, 0b10000, 0b10000],
    [0b01110, 0b10001, 0b10000, 0b10111, 0b10001, 0b10001, 0b01110],
    [0b10001, 0b10001, 0b11111, 0b10001, 0b10001, 0b10001, 0b10001],
    [0b11111, 0b00100, 0b00100, 0b00100, 0b00100, 0b00100, 0b11111],
    [0b00111, 0b00010, 0b00010, 0b00010, 0b10010, 0b10010, 0b01100],
    [0b10000, 0b10000, 0b10000, 0b10000, 0b10000, 0b10000, 0b11111],
    [0b10001, 0b11011, 0b10101, 0b10001, 0b10001, 0b10001, 0b10001],
    [0b10001, 0b11001, 0b10101, 0b10011, 0b10001, 0b10001, 0b10001],
    [0b01110, 0b10001, 0b10001, 0b10001, 0b10001, 0b10001, 0b01110],
    [0b11110, 0b10001, 0b10001, 0b11110, 0b10000, 0b10000, 0b10000],
    [0b11110, 0b10001, 0b10001, 0b11110, 0b10100, 0b10010, 0b10001],
    [0b01111, 0b10000, 0b10000, 0b01110, 0b00001, 0b00001, 0b11110],
    [0b11111, 0b00100, 0b00100, 0b00100, 0b00100, 0b00100, 0b00100],
    [0b10001, 0b10001, 0b10001, 0b10001, 0b10001, 0b10001, 0b01110],
    [0b10001, 0b10001, 0b10001, 0b10001, 0b01010, 0b01010, 0b00100],
    [0b10001, 0b10001, 0b10001, 0b10101, 0b10101, 0b10101, 0b01010],
    [0b10001, 0b10001, 0b01010, 0b00100, 0b00100, 0b00100, 0b00100],
    [0b00000, 0b00100, 0b00100, 0b00000, 0b00100, 0b00100, 0b00000],
    [0b00000, 0b00000, 0b00000, 0b11111, 0b00000, 0b00000, 0b00000],
    [0b00000, 0b00000, 0b00000, 0b00000, 0b00000, 0b00000, 0b11111],
    [0b01110, 0b10011, 0b10101, 0b10101, 0b11001, 0b10001, 0b01110],
    [0b00100, 0b01100, 0b00100, 0b00100, 0b00100, 0b00100, 0b01110],
    [0b01110, 0b10001, 0b00001, 0b00110, 0b01000, 0b10000, 0b11111],
    [0b11110, 0b00001, 0b00001, 0b01110, 0b00001, 0b00001, 0b11110],
    [0b00010, 0b00110, 0b01010, 0b10010, 0b11111, 0b00010, 0b00010],
    [0b11111, 0b10000, 0b10000, 0b11110, 0b00001, 0b00001, 0b11110],
    [0b01110, 0b10000, 0b10000, 0b11110, 0b10001, 0b10001, 0b01110],
    [0b11111, 0b00001, 0b00010, 0b00100, 0b01000, 0b01000, 0b01000],
    [0b01110, 0b10001, 0b10001, 0b01110, 0b10001, 0b10001, 0b01110],
    [0b01110, 0b10001, 0b10001, 0b01111, 0b00001, 0b00001, 0b01110],
];

/// The bitmap of `c`, looked up from table entry `i` on: the rows of the
/// first entry at or after `i` that names `c`.
pub open spec fn glyph_from(c: char, i: int) -> Option<[u8; 7]>
    decreases GLYPH_COUNT - i,
{
    if i < 0 || i >= GLYPH_COUNT {
        None
    } else if GLYPH_CHARS@[i] == c {
        Some(GLYPH_ROWS@[i])
    } else {
        glyph_from(c, i + 1)
    }
}

/// The bitmap of `c`, if the font has one.
pub open spec fn font_glyph(c: char) -> Option<[u8; 7]> {
    glyph_from(c, 0)
}

/// The bitmap of `c`: seven rows of five pixels, or `None` for a
/// character the font cannot draw (lower-case letters among them).
pub fn glyph(c: char) -> (g: Option<[u8; 7]>)
    ensures
        g == font_glyph(c),
{
    let mut i: usize = 0;
    while i < GLYPH_COUNT
        invariant
            i <= GLYPH_COUNT,
            glyph_from(c, 0) == glyph_from(c, i as int),
        decreases GLYPH_COUNT - i,
    {
        if GLYPH_CHARS[i] == c {
            return Some(GLYPH_ROWS[i]);
        }
        i = i + 1;
    }
    None
}

} // verus!

verus! {

/// `c` with a lower-case ASCII letter turned to upper case.
pub open spec fn ascii_upper(c: char) -> char {
    if 'a' <= c && c <= 'z' {
        ((c as u32) - 32) as char
    } else {
        c
    }
}

/// Whether pixel `col` (0 = leftmost of 5) of a font row is lit.
pub open spec fn pixel_lit(bits: u8, col: int) -> bool {
    (bits >> ((4 - col) as u8)) & 1u8 == 1u8
}

/// The lit pixels among the first `col` of row `row` of the `k`-th character
/// of a text, as (x, y) cells: x counts from the text's left edge, 6 cells
/// per character, y from its top.
pub open spec fn row_cells(bits: u8, k: int, row: int, col: int) -> Seq<(u64, u64)>
    decreases col,
{
    if col <= 0 {
        Seq::empty()
    } else {
        row_cells(bits, k, row, col - 1) + if pixel_lit(bits, col - 1) {
            seq![((6 * k + col - 1) as u64, row as u64)]
        } else {
            Seq::empty()
        }
    }
}

/// The lit cells of the first `rows` rows of glyph `g` drawn as the `k`-th
/// character of a text.
pub open spec fn glyph_cells(g: [u8; 7], k: int, rows: int) -> Seq<(u64, u64)>
    decreases rows,
{
    if rows <= 0 {
        Seq::empty()
    } else {
        glyph_cells(g, k, rows - 1) + row_cells(g@[rows - 1], k, rows - 1, 5)
    }
}

/// The lit cells of character `c` drawn as the `k`-th character of a text:
/// none when the font cannot draw it (a space among them).
pub open spec fn char_cells(c: char, k: int) -> Seq<(u64, u64)> {
    match font_glyph(ascii_upper(c)) {
        Some(g) => glyph_cells(g, k, 7),
        None => Seq::empty(),
    }
}

/// The lit cells of the first `n` characters of `s`, character by
/// character, each row by row and left to right.
pub open spec fn text_cells(s: Seq<char>, n: int) -> Seq<(u64, u64)>
    decreases n,
{
    if n <= 0 {
        Seq::empty()
    } else {
        text_cells(s, n - 1) + char_cells(s[n - 1], n - 1)
    }
}

/// `c` with a lower-case ASCII letter turned to upper case.
pub fn to_ascii_upper(c: char) -> (u: char)
    ensures
        u == ascii_upper(c),
{
    if 'a' <= c && c <= 'z' {
        ((c as u8) - 32) as char
    } else {
        c
    }
}

/// The cells that `text` lights in the bitmap font, one 6 x 7 cell box per
/// character (5 columns of pixels and a gap). Every character moves the pen
/// one box to the right; a space, like any character the font lacks, lights
/// nothing. A caller draws each cell as a square of the text's scale.
pub fn text_pixels(text: &str) -> (cells: Vec<(u64, u64)>)
    requires
        6 * text@.len() <= u64::MAX,
    ensures
        cells@ == text_cells(text@, text@.len() as int),
{
    let n = text.unicode_len();
    let mut cells: Vec<(u64, u64)> = Vec::new();
    let mut k: usize = 0;
    while k < n
        invariant
            n == text@.len(),
            k <= n,
            6 * n <= u64::MAX,
            cells@ == text_cells(text@, k as int),
        decreases n - k,
    {
        let c = text.get_char(k);
        if let Some(rows) = glyph(to_ascii_upper(c)) {
            let ghost before = cells@;
            let mut row: usize = 0;
            while row < 7
                invariant
                    n == text@.len(),
                    k < n,
                    6 * n <= u64::MAX,
                    row <= 7,
                    cells@ == before + glyph_cells(rows, k as int, row as int),
                decreases 7 - row,
            {
                let bits = rows[row];
                let ghost row_start = cells@;
                let mut col: usize = 0;
                while col < 5
                    invariant
                        n == text@.len(),
                        k < n,
                        6 * n <= u64::MAX,
                        row < 7,
                        col <= 5,
                        bits == rows@[row as int],
                        cells@ == row_start + row_cells(bits, k as int, row as int, col as int),
                    decreases 5 - col,
                {
                    if (bits >> ((4 - col) as u8)) & 1u8 == 1u8 {
                        cells.push((6 * (k as u64) + (col as u64), row as u64));
                    }
                    col = col + 1;
                }
                row = row + 1;
            }
        }
        k = k + 1;
    }
    cells
}

} // verus!

verus! {

/// Whether cell `c` lies in the 5 x 7 pixel box of the `k`-th character.
pub open spec fn in_char_box(c: (u64, u64), k: int) -> bool {
    6 * k <= c.0 < 6 * k + 5 && c.1 < 7
}

/// Whether cell `c` lies in the box of one of the first `n` characters.
pub open spec fn in_some_box(c: (u64, u64), n: int) -> bool {
    exists|k: int| 0 <= k < n && in_char_box(c, k)
}

proof fn lemma_row_cells_in_box(bits: u8, k: int, row: int, col: int)
    requires
        0 <= k,
        6 * k + 5 <= u64::MAX,
        0 <= row < 7,
        col <= 5,
    ensures
        forall|i: int|
            0 <= i < row_cells(bits, k, row, col).len() ==> in_char_box(
                #[trigger] row_cells(bits, k, row, col)[i],
                k,
            ),
    decreases col,
{
    if col > 0 {
        lemma_row_cells_in_box(bits, k, row, col - 1);
        let prefix = row_cells(bits, k, row, col - 1);
        let whole = row_cells(bits, k, row, col);
        assert forall|i: int| 0 <= i < whole.len() implies in_char_box(#[trigger] whole[i], k) by {
            if i < prefix.len() {
                assert(whole[i] == prefix[i]);
            } else {
                assert(whole[i] == ((6 * k + col - 1) as u64, row as u64));
            }
        }
    }
}

proof fn lemma_glyph_cells_in_box(g: [u8; 7], k: int, rows: int)
    requires
        0 <= k,
        6 * k + 5 <= u64::MAX,
        rows <= 7,
    ensures
        forall|i: int|
            0 <= i < glyph_cells(g, k, rows).len() ==> in_char_box(
                #[trigger] glyph_cells(g, k, rows)[i],
                k,
            ),
    decreases rows,
{
    if rows > 0 {
        lemma_glyph_cells_in_box(g, k, rows - 1);
        lemma_row_cells_in_box(g@[rows - 1], k, rows - 1, 5);
        let prefix = glyph_cells(g, k, rows - 1);
        let last = row_cells(g@[rows - 1], k, rows - 1, 5);
        let whole = glyph_cells(g, k, rows);
        assert forall|i: int| 0 <= i < whole.len() implies in_char_box(#[trigger] whole[i], k) by {
            if i < prefix.len() {
                assert(whole[i] == prefix[i]);
            } else {
                assert(whole[i] == last[i - prefix.len()]);
            }
        }
    }
}

/// Every cell that a text lights lies in the 5 x 7 pixel box of one of its
/// characters: glyphs never overlap and the sixth column of each box stays
/// dark.
pub proof fn lemma_text_cells_in_boxes(s: Seq<char>, n: int)
    requires
        0 <= n <= s.len(),
        6 * n <= u64::MAX,
    ensures
        forall|i: int|
            0 <= i < text_cells(s, n).len() ==> in_some_box(#[trigger] text_cells(s, n)[i], n),
    decreases n,
{
    if n > 0 {
        lemma_text_cells_in_boxes(s, n - 1);
        let prefix = text_cells(s, n - 1);
        let last = char_cells(s[n - 1], n - 1);
        match font_glyph(ascii_upper(s[n - 1])) {
            Some(g) => lemma_glyph_cells_in_box(g, n - 1, 7),
            None => {},
        }
        assert forall|i: int| 0 <= i < text_cells(s, n).len() implies in_some_box(
            #[trigger] text_cells(s, n)[i],
            n,
        ) by {
            if i < prefix.len() {
                assert(text_cells(s, n)[i] == prefix[i]);
                assert(in_some_box(prefix[i], n - 1));
                let k = choose|k: int| 0 <= k < n - 1 && in_char_box(prefix[i], k);
                assert(in_char_box(text_cells(s, n)[i], k));
            } else {
                assert(text_cells(s, n)[i] == last[i - prefix.len()]);
                assert(in_char_box(text_cells(s, n)[i], n - 1));
            }
        }
    }
}

} // verus!

verus! {

/// Cell `p` moved `6 * k` cells to the right: into the box of the `k`-th
/// character.
pub open spec fn shifted(p: (u64, u64), k: int) -> (u64, u64) {
    ((p.0 + 6 * k) as u64, p.1)
}

proof fn lemma_row_cells_shift(bits: u8, k: int, row: int, col: int)
    requires
        0 <= k,
        6 * k + 5 <= u64::MAX,
        0 <= row < 7,
        col <= 5,
    ensures
        row_cells(bits, k, row, col) == row_cells(bits, 0, row, col).map_values(
            |p: (u64, u64)| shifted(p, k),
        ),
    decreases col,
{
    if col > 0 {
        lemma_row_cells_shift(bits, k, row, col - 1);
        let f = |p: (u64, u64)| shifted(p, k);
        let a = row_cells(bits, 0, row, col - 1);
        let b: Seq<(u64, u64)> = if pixel_lit(bits, col - 1) {
            seq![((col - 1) as u64, row as u64)]
        } else {
            Seq::empty()
        };
        assert((a + b).map_values(f) =~= a.map_values(f) + b.map_values(f));
        if pixel_lit(bits, col - 1) {
            assert(b.map_values(f) =~= seq![((6 * k + col - 1) as u64, row as u64)]);
        } else {
            assert(b.map_values(f) =~= Seq::<(u64, u64)>::empty());
        }
    }
}

proof fn lemma_glyph_cells_shift(g: [u8; 7], k: int, rows: int)
    requires
        0 <= k,
        6 * k + 5 <= u64::MAX,
        rows <= 7,
    ensures
        glyph_cells(g, k, rows) == glyph_cells(g, 0, rows).map_values(
            |p: (u64, u64)| shifted(p, k),
        ),
    decreases rows,
{
    if rows > 0 {
        lemma_glyph_cells_shift(g, k, rows - 1);
        lemma_row_cells_shift(g@[rows - 1], k, rows - 1, 5);
        let f = |p: (u64, u64)| shifted(p, k);
        let a = glyph_cells(g, 0, rows - 1);
        let b = row_cells(g@[rows - 1], 0, rows - 1, 5);
        assert((a + b).map_values(f) =~= a.map_values(f) + b.map_values(f));
    }
}

/// The `k`-th character of a text lights the cells that it lights on its
/// own, moved `6 * k` cells to the right: every character, a space or one
/// the font lacks included, takes one box.
pub proof fn lemma_char_cells_shift(c: char, k: int)
    requires
        0 <= k,
        6 * k + 5 <= u64::MAX,
    ensures
        char_cells(c, k) == char_cells(c, 0).map_values(|p: (u64, u64)| shifted(p, k)),
{
    match font_glyph(ascii_upper(c)) {
        Some(g) => lemma_glyph_cells_shift(g, k, 7),
        None => {
            assert(char_cells(c, 0).map_values(|p: (u64, u64)| shifted(p, k)) =~= Seq::<
                (u64, u64),
            >::empty());
        },
    }
}

/// A text's cells are those of its first `n - 1` characters followed by
/// those of character `n - 1`; in particular they depend on the first `n`
/// characters only.
pub proof fn lemma_text_cells_prefix(s: Seq<char>, n: int)
    requires
        0 <= n <= s.len(),
    ensures
        text_cells(s, n) == text_cells(s.take(n), n),
    decreases n,
{
    if n > 0 {
        lemma_text_cells_prefix(s, n - 1);
        lemma_text_cells_prefix(s.take(n), n - 1);
        assert(s.take(n).take(n - 1) =~= s.take(n - 1));
        assert(s.take(n)[n - 1] == s[n - 1]);
    }
}

/// A lower-case letter draws like its upper-case form.
pub proof fn lemma_char_cells_upper(c: char, k: int)
    ensures
        char_cells(c, k) == char_cells(ascii_upper(c), k),
{
    assert(ascii_upper(ascii_upper(c)) == ascii_upper(c));
}

} // verus!

verus! {

/// The value of the pixel in column `col` of a font row: the leftmost
/// column (0) is worth 16, the rightmost (4) is worth 1.
pub open spec fn column_weight(col: int) -> int {
    if col == 0 {
        16
    } else if col == 1 {
        8
    } else if col == 2 {
        4
    } else if col == 3 {
        2
    } else {
        1
    }
}

proof fn lemma_pixel_lit_weight(bits: u8, col: int)
    requires
        0 <= col < 5,
    ensures
        pixel_lit(bits, col) <==> (bits as int / column_weight(col)) % 2 == 1,
{
    if col == 0 {
        assert(((bits >> 4u8) & 1u8 == 1u8) <==> ((bits / 16) % 2 == 1)) by (bit_vector);
    } else if col == 1 {
        assert(((bits >> 3u8) & 1u8 == 1u8) <==> ((bits / 8) % 2 == 1)) by (bit_vector);
    } else if col == 2 {
        assert(((bits >> 2u8) & 1u8 == 1u8) <==> ((bits / 4) % 2 == 1)) by (bit_vector);
    } else if col == 3 {
        assert(((bits >> 1u8) & 1u8 == 1u8) <==> ((bits / 2) % 2 == 1)) by (bit_vector);
    } else {
        assert(((bits >> 0u8) & 1u8 == 1u8) <==> (bits % 2 == 1)) by (bit_vector);
    }
}

proof fn lemma_row_cells_members(bits: u8, row: int, n: int, cell: (u64, u64))
    requires
        0 <= row < 7,
        n <= 5,
    ensures
        row_cells(bits, 0, row, n).contains(cell) <==> (cell.1 == row && cell.0 < n && pixel_lit(
            bits,
            cell.0 as int,
        )),
    decreases n,
{
    if n > 0 {
        lemma_row_cells_members(bits, row, n - 1, cell);
        let a = row_cells(bits, 0, row, n - 1);
        let b: Seq<(u64, u64)> = if pixel_lit(bits, n - 1) {
            seq![((n - 1) as u64, row as u64)]
        } else {
            Seq::empty()
        };
        let whole = row_cells(bits, 0, row, n);
        assert(whole == a + b);
        if whole.contains(cell) {
            let i = choose|i: int| 0 <= i < whole.len() && whole[i] == cell;
            if i >= a.len() {
                assert(b[i - a.len()] == cell);
            } else {
                assert(a[i] == cell);
            }
        }
        if cell.1 == row && cell.0 < n && pixel_lit(bits, cell.0 as int) {
            if cell.0 == n - 1 {
                assert(whole[a.len() as int] == cell);
            } else {
                let i = choose|i: int| 0 <= i < a.len() && a[i] == cell;
                assert(whole[i] == cell);
            }
        }
    }
}

proof fn lemma_glyph_cells_members(g: [u8; 7], rows: int, cell: (u64, u64))
    requires
        0 <= rows <= 7,
    ensures
        glyph_cells(g, 0, rows).contains(cell) <==> (cell.1 < rows && cell.0 < 5 && pixel_lit(
            g@[cell.1 as int],
            cell.0 as int,
        )),
    decreases rows,
{
    if rows > 0 {
        lemma_glyph_cells_members(g, rows - 1, cell);
        lemma_row_cells_members(g@[rows - 1], rows - 1, 5, cell);
        let a = glyph_cells(g, 0, rows - 1);
        let b = row_cells(g@[rows - 1], 0, rows - 1, 5);
        let whole = glyph_cells(g, 0, rows);
        assert(whole == a + b);
        if whole.contains(cell) {
            let i = choose|i: int| 0 <= i < whole.len() && whole[i] == cell;
            if i >= a.len() {
                assert(b[i - a.len()] == cell);
            } else {
                assert(a[i] == cell);
            }
        }
        if a.contains(cell) {
            let i = choose|i: int| 0 <= i < a.len() && a[i] == cell;
            assert(whole[i] == cell);
        }
        if b.contains(cell) {
            let i = choose|i: int| 0 <= i < b.len() && b[i] == cell;
            assert(whole[a.len() + i] == cell);
        }
    }
}

/// Drawn on its own, character `c` lights cell (col, row) of its 5 x 7 box
/// exactly when the font has a glyph for `c` (upper-cased) whose row `row`,
/// read as a number, has the bit of weight `column_weight(col)` set: the
/// most significant of a row's five bits is its leftmost pixel.
pub proof fn lemma_single_char_pixels(c: char, col: int, row: int)
    requires
        0 <= col < 5,
        0 <= row < 7,
    ensures
        text_cells(seq![c], 1).contains((col as u64, row as u64)) <==> (font_glyph(
            ascii_upper(c),
        ) matches Some(g) && (g@[row] as int / column_weight(col)) % 2 == 1),
{
    let s = seq![c];
    assert(text_cells(s, 0) == Seq::<(u64, u64)>::empty());
    assert(text_cells(s, 1) =~= char_cells(c, 0));
    match font_glyph(ascii_upper(c)) {
        Some(g) => {
            lemma_glyph_cells_members(g, 7, (col as u64, row as u64));
            lemma_pixel_lit_weight(g@[row], col);
        },
        None => {},
    }
}

} // verus!
