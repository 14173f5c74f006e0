use vstd::prelude::*;

verus! {

/// Channel layout of a pixel buffer.
#[derive(Clone, Copy, Debug, PartialEq, Eq, Structural)]
pub enum PixelLayout {
    /// Red, green, blue: the layout of exported images.
    Rgb,
    /// Red, green, blue and an opaque alpha: the layout of displayed images.
    Rgba,
}

/// Alpha byte of every pixel in the `Rgba` layout.
pub const OPAQUE: u8 = 255;

/// Bytes per pixel in `layout`.
pub open spec fn channels_of(layout: PixelLayout) -> nat {
    match layout {
        PixelLayout::Rgb => 3,
        PixelLayout::Rgba => 4,
    }
}

/// The bytes of one pixel of colour `rgb` in `layout`.
pub open spec fn pixel_bytes(rgb: [u8; 3], layout: PixelLayout) -> Seq<u8> {
    match layout {
        PixelLayout::Rgb => seq![rgb[0], rgb[1], rgb[2]],
        PixelLayout::Rgba => seq![rgb[0], rgb[1], rgb[2], OPAQUE],
    }
}

/// A row of pixels, left to right, packed tightly in `layout`.
pub open spec fn encoded_row(colors: Seq<[u8; 3]>, layout: PixelLayout) -> Seq<u8>
    decreases colors.len(),
{
    if colors.len() == 0 {
        Seq::empty()
    } else {
        encoded_row(colors.drop_last(), layout) + pixel_bytes(colors.last(), layout)
    }
}

/// Rows of bytes laid one after the other, the top row first.
pub open spec fn joined(rows: Seq<Seq<u8>>) -> Seq<u8>
    decreases rows.len(),
{
    if rows.len() == 0 {
        Seq::empty()
    } else {
        joined(rows.drop_last()) + rows.last()
    }
}

/// A whole image of rows of colours, top row first, in `layout`.
pub open spec fn encoded_image(rows: Seq<Seq<[u8; 3]>>, layout: PixelLayout) -> Seq<u8> {
    joined(rows.map_values(|row: Seq<[u8; 3]>| encoded_row(row, layout)))
}

impl PixelLayout {
    /// Bytes per pixel.
    pub fn channels(&self) -> (r: usize)
        ensures
            r == channels_of(*self),
    {
        match self {
            PixelLayout::Rgb => 3,
            PixelLayout::Rgba => 4,
        }
    }
}

/// Appends the bytes of one pixel of colour `rgb` to `buf`.
pub fn push_pixel(buf: &mut Vec<u8>, rgb: [u8; 3], layout: PixelLayout)
    ensures
        final(buf)@ == old(buf)@ + pixel_bytes(rgb, layout),
{
    buf.push(rgb[0]);
    buf.push(rgb[1]);
    buf.push(rgb[2]);
    if layout == PixelLayout::Rgba {
        buf.push(OPAQUE);
    }
    assert(final(buf)@ =~= old(buf)@ + pixel_bytes(rgb, layout));
}

/// The bytes of a row of pixels of colours `colors`, left to right.
pub fn encode_row(colors: &Vec<[u8; 3]>, layout: PixelLayout) -> (r: Vec<u8>)
    ensures
        r@ == encoded_row(colors@, layout),
        r@.len() == colors@.len() * channels_of(layout),
{
    let mut out: Vec<u8> = Vec::new();
    let mut i: usize = 0;
    while i < colors.len()
        invariant
            i <= colors.len(),
            out@ == encoded_row(colors@.take(i as int), layout),
        decreases colors.len() - i,
    {
        proof {
            assert(colors@.take(i as int + 1).drop_last() =~= colors@.take(i as int));
        }
        push_pixel(&mut out, colors[i], layout);
        i = i + 1;
    }
    proof {
        assert(colors@.take(colors.len() as int) =~= colors@);
        lemma_encoded_row_len(colors@, layout);
    }
    out
}

/// The rows of `rows` laid one after the other, the top row first.
pub fn join_rows(rows: &Vec<Vec<u8>>) -> (r: Vec<u8>)
    ensures
        r@ == joined(rows@.map_values(|row: Vec<u8>| row@)),
{
    let ghost views = rows@.map_values(|row: Vec<u8>| row@);
    let mut out: Vec<u8> = Vec::new();
    let mut y: usize = 0;
    while y < rows.len()
        invariant
            y <= rows.len(),
            views == rows@.map_values(|row: Vec<u8>| row@),
            out@ == joined(views.take(y as int)),
        decreases rows.len() - y,
    {
        let row = &rows[y];
        let ghost start = out@;
        let mut k: usize = 0;
        while k < row.len()
            invariant
                k <= row.len(),
                out@ == start + row@.take(k as int),
            decreases row.len() - k,
        {
            out.push(row[k]);
            k = k + 1;
            assert(out@ =~= start + row@.take(k as int));
        }
        proof {
            assert(row@.take(row.len() as int) =~= row@);
            assert(views.take(y as int + 1).drop_last() =~= views.take(y as int));
            assert(views.take(y as int + 1).last() == row@);
        }
        y = y + 1;
    }
    proof {
        assert(views.take(rows.len() as int) =~= views);
    }
    out
}

/// A row of `n` pixels takes `n` times the bytes of one pixel.
pub proof fn lemma_encoded_row_len(colors: Seq<[u8; 3]>, layout: PixelLayout)
    ensures
        encoded_row(colors, layout).len() == colors.len() * channels_of(layout),
    decreases colors.len(),
{
    if colors.len() > 0 {
        lemma_encoded_row_len(colors.drop_last(), layout);
        assert(colors.len() * channels_of(layout) == (colors.len() - 1) * channels_of(layout)
            + channels_of(layout)) by (nonlinear_arith);
    }
}

/// Channel `c` of pixel `x` of a row stands at `x * channels + c`, and the
/// alpha of every pixel of an `Rgba` row is opaque.
pub proof fn lemma_encoded_row_index(colors: Seq<[u8; 3]>, layout: PixelLayout, x: int, c: int)
    requires
        0 <= x < colors.len(),
        0 <= c < channels_of(layout),
    ensures
        encoded_row(colors, layout)[x * channels_of(layout) + c] == pixel_bytes(colors[x], layout)[c],
        c == 3 ==> encoded_row(colors, layout)[x * channels_of(layout) + c] == OPAQUE,
    decreases colors.len(),
{
    let n = colors.len() - 1;
    let ch = channels_of(layout) as int;
    lemma_encoded_row_len(colors.drop_last(), layout);
    assert(n * ch >= 0) by (nonlinear_arith)
        requires n >= 0, ch >= 0;
    if x < n {
        lemma_encoded_row_index(colors.drop_last(), layout, x, c);
        assert(x * ch + c < n * ch) by (nonlinear_arith)
            requires x < n, 0 <= c < ch;
        assert(x * ch + c >= 0) by (nonlinear_arith)
            requires x >= 0, c >= 0, ch >= 0;
    }
}

/// Rows of equal length `len`, `h` of them, join into `h * len` bytes, and
/// byte `i` of row `y` stands at `y * len + i`.
pub proof fn lemma_joined_rows(rows: Seq<Seq<u8>>, len: nat, y: int, i: int)
    requires
        forall|k: int| 0 <= k < rows.len() ==> (#[trigger] rows[k]).len() == len,
    ensures
        joined(rows).len() == rows.len() * len,
        0 <= y < rows.len() && 0 <= i < len ==> joined(rows)[y * len + i] == rows[y][i],
    decreases rows.len(),
{
    if rows.len() > 0 {
        let n = rows.len() - 1;
        let front = rows.drop_last();
        lemma_joined_rows(front, len, y, i);
        assert(rows.len() * len == n * len + len) by (nonlinear_arith)
            requires n == rows.len() - 1;
        if 0 <= y < rows.len() && 0 <= i < len {
            if y < n {
                assert(front[y] == rows[y]);
                assert(y * len + i < n * len) by (nonlinear_arith)
                    requires y < n, 0 <= i < len;
                assert(y * len + i >= 0) by (nonlinear_arith)
                    requires y >= 0, i >= 0;
            } else {
                assert(y == n);
            }
        }
    }
}

/// An image of `h` rows of `w` pixels takes `w * h * channels` bytes, and
/// channel `c` of pixel `(x, y)` stands at `(y * w + x) * channels + c`,
/// with an opaque alpha in every `Rgba` pixel.
pub proof fn lemma_image_layout(
    rows: Seq<Seq<[u8; 3]>>,
    w: nat,
    layout: PixelLayout,
    x: int,
    y: int,
    c: int,
)
    requires
        forall|k: int| 0 <= k < rows.len() ==> (#[trigger] rows[k]).len() == w,
    ensures
        encoded_image(rows, layout).len() == w * rows.len() * channels_of(layout),
        0 <= x < w && 0 <= y < rows.len() && 0 <= c < channels_of(layout) ==> {
            &&& encoded_image(rows, layout)[(y * w + x) * channels_of(layout) + c] == pixel_bytes(
                rows[y][x],
                layout,
            )[c]
            &&& c == 3 ==> encoded_image(rows, layout)[(y * w + x) * channels_of(layout) + c] == OPAQUE
        },
{
    let ch = channels_of(layout);
    let bytes = rows.map_values(|row: Seq<[u8; 3]>| encoded_row(row, layout));
    let len = w * ch;
    assert forall|k: int| 0 <= k < bytes.len() implies (#[trigger] bytes[k]).len() == len by {
        lemma_encoded_row_len(rows[k], layout);
    }
    let i = x * ch + c;
    lemma_joined_rows(bytes, len, y, i);
    assert(rows.len() * (w * ch) == w * rows.len() * ch) by (nonlinear_arith);
    if 0 <= x < w && 0 <= y < rows.len() && 0 <= c < ch {
        lemma_encoded_row_index(rows[y], layout, x, c);
        assert((x + 1) * ch <= w * ch) by (nonlinear_arith)
            requires x + 1 <= w;
        assert(x * ch >= 0) by (nonlinear_arith)
            requires x >= 0;
        assert((x + 1) * ch == x * ch + ch) by (nonlinear_arith);
        assert(y * len + i == (y * w + x) * ch + c) by (nonlinear_arith)
            requires len == w * ch, i == x * ch + c;
    }
}

/// An image whose every row is of one colour holds, at each pixel, the
/// bytes of its row's colour, and takes `w * h * channels` bytes.
pub proof fn lemma_uniform_rows(
    rows: Seq<Seq<[u8; 3]>>,
    row_colors: Seq<[u8; 3]>,
    w: nat,
    layout: PixelLayout,
)
    requires
        rows.len() == row_colors.len(),
        forall|k: int| 0 <= k < rows.len() ==> (#[trigger] rows[k]).len() == w,
        forall|k: int, x: int| 0 <= k < rows.len() && 0 <= x < w ==> #[trigger] rows[k][x] == row_colors[k],
    ensures
        encoded_image(rows, layout).len() == w * rows.len() * channels_of(layout),
        forall|x: int, y: int, c: int|
            0 <= x < w && 0 <= y < rows.len() && 0 <= c < channels_of(layout) ==> encoded_image(
                rows,
                layout,
            )[#[trigger] ((y * w + x) * channels_of(layout) + c)] == pixel_bytes(row_colors[y], layout)[c],
{
    lemma_image_layout(rows, w, layout, 0, 0, 0);
    assert forall|x: int, y: int, c: int|
        0 <= x < w && 0 <= y < rows.len() && 0 <= c < channels_of(layout) implies encoded_image(
            rows,
            layout,
        )[#[trigger] ((y * w + x) * channels_of(layout) + c)] == pixel_bytes(row_colors[y], layout)[c] by {
        lemma_image_layout(rows, w, layout, x, y, c);
        assert(rows[y][x] == row_colors[y]);
    }
}

} // verus!
