use vstd::prelude::*;

verus! {

/// BT.601 luma of one pixel, scaled to the studio range `16..=235`.
pub open spec fn luma(r: int, g: int, b: int) -> int {
    (66 * r + 129 * g + 25 * b) / 256 + 16
}

/// BT.601 blue-difference chroma of one pixel, centred on 128.
pub open spec fn chroma_u(r: int, g: int, b: int) -> int {
    (112 * b - 38 * r - 74 * g) / 256 + 128
}

/// BT.601 red-difference chroma of one pixel, centred on 128.
pub open spec fn chroma_v(r: int, g: int, b: int) -> int {
    (112 * r - 94 * g - 18 * b) / 256 + 128
}

/// Luma of pixel `p` of a BGR0 buffer (four bytes per pixel: blue, green, red, unused).
pub open spec fn luma_at(rgb: Seq<u8>, p: int) -> int {
    luma(rgb[4 * p + 2] as int, rgb[4 * p + 1] as int, rgb[4 * p] as int)
}

/// Blue-difference chroma of pixel `p` of a BGR0 buffer.
pub open spec fn chroma_u_at(rgb: Seq<u8>, p: int) -> int {
    chroma_u(rgb[4 * p + 2] as int, rgb[4 * p + 1] as int, rgb[4 * p] as int)
}

/// Red-difference chroma of pixel `p` of a BGR0 buffer.
pub open spec fn chroma_v_at(rgb: Seq<u8>, p: int) -> int {
    chroma_v(rgb[4 * p + 2] as int, rgb[4 * p + 1] as int, rgb[4 * p] as int)
}

/// Index of the first pixel of `line`. Even lines hold `width` pixels; odd
/// lines are walked in pairs and so hold `width` rounded up to even.
pub open spec fn line_start(width: int, line: int) -> int {
    line * width + (line / 2) * (width % 2)
}

/// Number of pixels a conversion reads and luma samples it writes.
pub open spec fn pixel_count(width: int, height: int) -> int {
    line_start(width, height)
}

/// Chroma samples taken on each odd line: one per pair of pixels.
pub open spec fn chroma_per_line(width: int) -> int {
    (width + 1) / 2
}

/// Number of chroma samples written to each of the two chroma planes.
pub open spec fn chroma_count(width: int, height: int) -> int {
    (height / 2) * chroma_per_line(width)
}

/// The pixel the `k`-th chroma sample is taken from: the first pixel of pair
/// `k % per_line` on the `k / per_line`-th odd line.
pub open spec fn chroma_pixel(width: int, k: int) -> int {
    line_start(width, 2 * (k / chroma_per_line(width)) + 1) + 2 * (k % chroma_per_line(width))
}

/// Every converted sample is a byte in the studio range: luma within
/// `16..=235`, chroma within `16..=239`.
pub proof fn law_studio_range(r: u8, g: u8, b: u8)
    ensures
        16 <= luma(r as int, g as int, b as int) <= 235,
        16 <= chroma_u(r as int, g as int, b as int) <= 239,
        16 <= chroma_v(r as int, g as int, b as int) <= 239,
{
}

/// Grey pixels carry no colour: both chroma samples of a pixel whose three
/// channels are equal are the neutral value 128.
pub proof fn law_grey_is_neutral(x: u8)
    ensures
        chroma_u(x as int, x as int, x as int) == 128,
        chroma_v(x as int, x as int, x as int) == 128,
{
}

/// For frames of even width the planes have the familiar 4:2:0 sizes:
/// one luma sample per pixel and one chroma sample per 2 by 2 block.
pub proof fn law_even_width_sizes(w: int, h: int)
    requires
        w >= 0,
        h >= 0,
        w % 2 == 0,
    ensures
        pixel_count(w, h) == w * h,
        chroma_count(w, h) == (h / 2) * (w / 2),
{
    assert(h * w == w * h) by (nonlinear_arith);
    assert((h / 2) * (w % 2) == 0) by (nonlinear_arith)
        requires w % 2 == 0;
}

/// Converts BGR0 frames of a fixed size into planar YUV.
pub struct BGR0YUVConverter {
    width: usize,
    height: usize,
}

proof fn lemma_line_step(w: int, l: int)
    requires
        w >= 0,
        l >= 0,
    ensures
        line_start(w, l + 1) == line_start(w, l) + w + (l % 2) * (w % 2),
{
    assert((l + 1) * w == l * w + w) by (nonlinear_arith);
    assert((l + 1) / 2 == l / 2 + l % 2);
    assert(((l + 1) / 2) * (w % 2) == (l / 2) * (w % 2) + (l % 2) * (w % 2)) by (nonlinear_arith)
        requires
            (l + 1) / 2 == l / 2 + l % 2,
    ;
}

proof fn lemma_line_monotone(w: int, l: int, h: int)
    requires
        w >= 0,
        0 <= l <= h,
    ensures
        line_start(w, l) <= line_start(w, h),
    decreases h - l,
{
    if l < h {
        lemma_line_monotone(w, l + 1, h);
        lemma_line_step(w, l);
        assert((l % 2) * (w % 2) >= 0) by (nonlinear_arith)
            requires
                l >= 0,
                w >= 0,
        ;
    }
}

proof fn lemma_chroma_index(c: int, m: int, j: int)
    requires
        c > 0,
        m >= 0,
        0 <= j < c,
    ensures
        (m * c + j) / c == m,
        (m * c + j) % c == j,
{
    vstd::arithmetic::div_mod::lemma_fundamental_div_mod_converse(m * c + j, c, m, j);
}

proof fn lemma_next_row(c: int, m: int)
    ensures
        (m + 1) * c == m * c + c,
{
    assert((m + 1) * c == m * c + c) by (nonlinear_arith);
}

/// Writes the luma of pixel `i` into `y[i]`.
fn put_luma(rgb: &[u8], y: &mut Vec<u8>, i: usize)
    requires
        4 * i + 2 < rgb@.len(),
        i < old(y)@.len(),
    ensures
        final(y)@ == old(y)@.update(i as int, luma_at(rgb@, i as int) as u8),
{
    let _n = rgb.len();
    let b = rgb[4 * i];
    let g = rgb[4 * i + 1];
    let r = rgb[4 * i + 2];
    y[i] = luma_byte(b, g, r);
}

/// Writes the two chroma samples of pixel `i` into `u[k]` and `v[k]`.
fn put_chroma(rgb: &[u8], u: &mut Vec<u8>, v: &mut Vec<u8>, i: usize, k: usize)
    requires
        4 * i + 2 < rgb@.len(),
        k < old(u)@.len(),
        k < old(v)@.len(),
    ensures
        final(u)@ == old(u)@.update(k as int, chroma_u_at(rgb@, i as int) as u8),
        final(v)@ == old(v)@.update(k as int, chroma_v_at(rgb@, i as int) as u8),
{
    let _n = rgb.len();
    let b = rgb[4 * i];
    let g = rgb[4 * i + 1];
    let r = rgb[4 * i + 2];
    u[k] = chroma_u_byte(b, g, r);
    v[k] = chroma_v_byte(b, g, r);
}

/// Facts about odd line `line`: where its chroma samples go.
proof fn lemma_odd_line(w: int, h: int, line: int, c: int, m: int)
    requires
        w >= 0,
        0 <= line < h,
        line % 2 == 1,
        m == line / 2,
        c == chroma_per_line(w),
    ensures
        m * c + c <= chroma_count(w, h),
        (m + 1) * c == m * c + c,
        2 * c == w + w % 2,
        (line + 1) / 2 == m + 1,
{
    assert(m + 1 <= h / 2);
    assert(m * c + c <= (h / 2) * c) by (nonlinear_arith)
        requires
            m + 1 <= h / 2,
            c >= 0,
    ;
    lemma_next_row(c, m);
}

/// The chroma samples of odd line `line` come from the first pixel of each
/// pair of the line.
proof fn lemma_odd_line_chroma(w: int, line: int, c: int, m: int, i: int, upos: int)
    requires
        w >= 0,
        line >= 0,
        line % 2 == 1,
        m == line / 2,
        c == chroma_per_line(w),
        i == line_start(w, line),
        upos == m * c,
    ensures
        forall|k: int| upos <= k < upos + c ==> #[trigger] chroma_pixel(w, k) == i + 2 * (k - upos),
{
    assert forall|k: int| upos <= k < upos + c implies #[trigger] chroma_pixel(w, k) == i + 2 * (k - upos) by {
        lemma_chroma_index(c, m, k - upos);
        assert(2 * m + 1 == line);
    }
}

/// Writes the luma of `count` consecutive pixels starting at pixel `start`.
fn convert_luma_line(rgb: &[u8], y: &mut Vec<u8>, start: usize, count: usize)
    requires
        4 * (start + count) <= rgb@.len(),
        start + count <= old(y)@.len(),
    ensures
        final(y)@.len() == old(y)@.len(),
        forall|p: int| start <= p < start + count ==> #[trigger] final(y)@[p] == luma_at(rgb@, p),
        forall|p: int|
            0 <= p < old(y)@.len() && !(start <= p < start + count) ==> #[trigger] final(y)@[p]
                == old(y)@[p],
{
    let ghost y0 = y@;
    let ylen = y.len();
    let mut x: usize = 0;
    while x < count
        invariant
            4 * (start + count) <= rgb@.len(),
            start + count <= y0.len(),
            ylen == y0.len(),
            y@.len() == y0.len(),
            x <= count,
            forall|p: int| start <= p < start + x ==> #[trigger] y@[p] == luma_at(rgb@, p),
            forall|p: int|
                0 <= p < y0.len() && !(start <= p < start + x) ==> #[trigger] y@[p] == y0[p],
        decreases count - x,
    {
        put_luma(rgb, y, start + x);
        x += 1;
    }
}

/// Walks `pairs` pairs of pixels from pixel `start`: writes the luma of
/// every pixel and, for each pair, the chroma of its first pixel at
/// consecutive chroma positions from `cstart`.
fn convert_pair_line(
    rgb: &[u8],
    y: &mut Vec<u8>,
    u: &mut Vec<u8>,
    v: &mut Vec<u8>,
    start: usize,
    cstart: usize,
    pairs: usize,
)
    requires
        4 * (start + 2 * pairs) <= rgb@.len(),
        start + 2 * pairs <= old(y)@.len(),
        cstart + pairs <= old(u)@.len(),
        cstart + pairs <= old(v)@.len(),
    ensures
        final(y)@.len() == old(y)@.len(),
        final(u)@.len() == old(u)@.len(),
        final(v)@.len() == old(v)@.len(),
        forall|p: int| start <= p < start + 2 * pairs ==> #[trigger] final(y)@[p] == luma_at(rgb@, p),
        forall|p: int|
            0 <= p < old(y)@.len() && !(start <= p < start + 2 * pairs) ==> #[trigger] final(y)@[p]
                == old(y)@[p],
        forall|k: int|
            cstart <= k < cstart + pairs ==> #[trigger] final(u)@[k] == chroma_u_at(
                rgb@,
                start + 2 * (k - cstart),
            ),
        forall|k: int|
            0 <= k < old(u)@.len() && !(cstart <= k < cstart + pairs) ==> #[trigger] final(u)@[k]
                == old(u)@[k],
        forall|k: int|
            cstart <= k < cstart + pairs ==> #[trigger] final(v)@[k] == chroma_v_at(
                rgb@,
                start + 2 * (k - cstart),
            ),
        forall|k: int|
            0 <= k < old(v)@.len() && !(cstart <= k < cstart + pairs) ==> #[trigger] final(v)@[k]
                == old(v)@[k],
{
    let ghost y0 = y@;
    let ghost u0 = u@;
    let ghost v0 = v@;
    let ylen = y.len();
    let ulen = u.len();
    let mut j: usize = 0;
    while j < pairs
        invariant
            4 * (start + 2 * pairs) <= rgb@.len(),
            start + 2 * pairs <= y0.len(),
            ylen == y0.len(),
            ulen == u0.len(),
            cstart + pairs <= u0.len(),
            cstart + pairs <= v0.len(),
            y@.len() == y0.len(),
            u@.len() == u0.len(),
            v@.len() == v0.len(),
            j <= pairs,
            forall|p: int| start <= p < start + 2 * j ==> #[trigger] y@[p] == luma_at(rgb@, p),
            forall|p: int|
                0 <= p < y0.len() && !(start <= p < start + 2 * j) ==> #[trigger] y@[p] == y0[p],
            forall|k: int|
                cstart <= k < cstart + j ==> #[trigger] u@[k] == chroma_u_at(rgb@, start + 2 * (k - cstart)),
            forall|k: int|
                0 <= k < u0.len() && !(cstart <= k < cstart + j) ==> #[trigger] u@[k] == u0[k],
            forall|k: int|
                cstart <= k < cstart + j ==> #[trigger] v@[k] == chroma_v_at(rgb@, start + 2 * (k - cstart)),
            forall|k: int|
                0 <= k < v0.len() && !(cstart <= k < cstart + j) ==> #[trigger] v@[k] == v0[k],
        decreases pairs - j,
    {
        let p = start + 2 * j;
        put_luma(rgb, y, p);
        put_chroma(rgb, u, v, p, cstart + j);
        put_luma(rgb, y, p + 1);
        j += 1;
    }
}

fn luma_byte(b: u8, g: u8, r: u8) -> (res: u8)
    ensures
        res as int == luma(r as int, g as int, b as int),
{
    let s: u32 = 66 * (r as u32) + 129 * (g as u32) + 25 * (b as u32);
    let q: u32 = s / 256 + 16;
    assert(q <= 235);
    q as u8
}

fn chroma_u_byte(b: u8, g: u8, r: u8) -> (res: u8)
    ensures
        res as int == chroma_u(r as int, g as int, b as int),
{
    let s: u32 = 112 * (b as u32) + 28672 - 38 * (r as u32) - 74 * (g as u32);
    let q: u32 = s / 256 + 16;
    assert((s as int) / 256 == (112 * b - 38 * r - 74 * g) / 256 + 112);
    assert(q <= 239);
    q as u8
}

fn chroma_v_byte(b: u8, g: u8, r: u8) -> (res: u8)
    ensures
        res as int == chroma_v(r as int, g as int, b as int),
{
    let s: u32 = 112 * (r as u32) + 28672 - 94 * (g as u32) - 18 * (b as u32);
    let q: u32 = s / 256 + 16;
    assert((s as int) / 256 == (112 * r - 94 * g - 18 * b) / 256 + 112);
    assert(q <= 239);
    q as u8
}


impl BGR0YUVConverter {
    /// Width in pixels of the frames this converter handles.
    pub closed spec fn spec_width(&self) -> int {
        self.width as int
    }

    /// Height in pixels of the frames this converter handles.
    pub closed spec fn spec_height(&self) -> int {
        self.height as int
    }

    /// A converter for frames of `width` by `height` pixels.
    pub fn new(width: usize, height: usize) -> (c: Self)
        ensures
            c.spec_width() == width,
            c.spec_height() == height,
    {
        Self { width, height }
    }

    /// Converts one BGR0 frame into planar YUV.
    ///
    /// Every line yields a luma sample per pixel. Odd lines are walked in
    /// pairs of pixels (so a line of odd width is read one pixel past its
    /// width) and yield one blue- and one red-difference sample per pair,
    /// taken from the first pixel of the pair; even lines yield no chroma.
    /// Bytes of the planes past what is written are left as they were.
    pub fn convert(&mut self, rgb: &[u8], y: &mut Vec<u8>, u: &mut Vec<u8>, v: &mut Vec<u8>)
        requires
            4 * pixel_count(old(self).spec_width(), old(self).spec_height()) <= rgb@.len(),
            pixel_count(old(self).spec_width(), old(self).spec_height()) <= old(y)@.len(),
            chroma_count(old(self).spec_width(), old(self).spec_height()) <= old(u)@.len(),
            chroma_count(old(self).spec_width(), old(self).spec_height()) <= old(v)@.len(),
        ensures
            *final(self) == *old(self),
            final(y)@.len() == old(y)@.len(),
            final(u)@.len() == old(u)@.len(),
            final(v)@.len() == old(v)@.len(),
            forall|p: int|
                0 <= p < pixel_count(old(self).spec_width(), old(self).spec_height()) ==> #[trigger] final(y)@[p]
                    == luma_at(rgb@, p),
            forall|p: int|
                pixel_count(old(self).spec_width(), old(self).spec_height()) <= p < old(y)@.len()
                    ==> #[trigger] final(y)@[p] == old(y)@[p],
            forall|k: int|
                0 <= k < chroma_count(old(self).spec_width(), old(self).spec_height()) ==> #[trigger] final(u)@[k]
                    == chroma_u_at(rgb@, chroma_pixel(old(self).spec_width(), k)),
            forall|k: int|
                chroma_count(old(self).spec_width(), old(self).spec_height()) <= k < old(u)@.len()
                    ==> #[trigger] final(u)@[k] == old(u)@[k],
            forall|k: int|
                0 <= k < chroma_count(old(self).spec_width(), old(self).spec_height()) ==> #[trigger] final(v)@[k]
                    == chroma_v_at(rgb@, chroma_pixel(old(self).spec_width(), k)),
            forall|k: int|
                chroma_count(old(self).spec_width(), old(self).spec_height()) <= k < old(v)@.len()
                    ==> #[trigger] final(v)@[k] == old(v)@[k],
    {
        let w = self.width;
        let h = self.height;
        let ghost wi = w as int;
        let ghost c = chroma_per_line(wi);
        let ghost total = pixel_count(wi, h as int);
        let rgb_len = rgb.len();
        let u_len = u.len();
        let ghost y0 = y@;
        let ghost u0 = u@;
        let ghost v0 = v@;
        let mut i: usize = 0;
        let mut upos: usize = 0;
        let mut line: usize = 0;
        while line < h
            invariant
                w == self.width,
                h == self.height,
                wi == w,
                c == chroma_per_line(wi),
                total == pixel_count(wi, h as int),
                4 * total <= rgb@.len(),
                rgb_len == rgb@.len(),
                u_len == u0.len(),
                total <= y0.len(),
                chroma_count(wi, h as int) <= u0.len(),
                chroma_count(wi, h as int) <= v0.len(),
                line <= h,
                i == line_start(wi, line as int),
                upos == (line / 2) * c,
                y@.len() == y0.len(),
                u@.len() == u0.len(),
                v@.len() == v0.len(),
                forall|p: int| 0 <= p < i ==> #[trigger] y@[p] == luma_at(rgb@, p),
                forall|p: int| i <= p < y0.len() ==> #[trigger] y@[p] == y0[p],
                forall|k: int|
                    0 <= k < upos ==> #[trigger] u@[k] == chroma_u_at(rgb@, chroma_pixel(wi, k)),
                forall|k: int| upos <= k < u0.len() ==> #[trigger] u@[k] == u0[k],
                forall|k: int|
                    0 <= k < upos ==> #[trigger] v@[k] == chroma_v_at(rgb@, chroma_pixel(wi, k)),
                forall|k: int| upos <= k < v0.len() ==> #[trigger] v@[k] == v0[k],
            decreases h - line,
        {
            proof {
                lemma_line_step(wi, line as int);
                lemma_line_monotone(wi, line as int + 1, h as int);
            }
            if line % 2 != 0 {
                let ghost m = (line / 2) as int;
                let pairs: usize = w / 2 + w % 2;
                proof {
                    assert(((line as int) % 2) * (wi % 2) == wi % 2) by (nonlinear_arith)
                        requires
                            (line as int) % 2 == 1,
                    ;
                    assert(pairs == c);
                    lemma_odd_line(wi, h as int, line as int, c, m);
                }
                convert_pair_line(rgb, y, u, v, i, upos, pairs);
                proof {
                    lemma_odd_line_chroma(wi, line as int, c, m, i as int, upos as int);
                }
                i += 2 * pairs;
                upos += pairs;
            } else {
                proof {
                    assert(((line as int) % 2) * (wi % 2) == 0) by (nonlinear_arith)
                        requires
                            (line as int) % 2 == 0,
                    ;
                }
                convert_luma_line(rgb, y, i, w);
                i += w;
            }
            line += 1;
        }
    }
}

} // verus!
