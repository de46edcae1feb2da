use vstd::prelude::*;

verus! {

/// Byte layout of one pixel in a decoded CPU frame.
#[derive(Clone, Copy, Debug, PartialEq, Eq, Structural)]
pub enum PixelLayout {
    /// Four bytes: blue, green, red, ignored.
    BGRx,
    /// Four bytes: red, green, blue, ignored.
    RGBx,
    /// Four bytes: ignored, blue, green, red.
    XBGR,
    /// Three bytes: red, green, blue.
    RGB,
    /// Four bytes: blue, green, red, alpha.
    BGRA,
}

/// The layouts that can be converted to the canonical blue-green-red-alpha order.
pub open spec fn is_convertible(layout: PixelLayout) -> bool {
    !(layout is BGRA)
}

/// Bytes taken by one source pixel.
pub open spec fn source_pixel_bytes(layout: PixelLayout) -> nat {
    match layout {
        PixelLayout::RGB => 3,
        _ => 4,
    }
}

/// Truth table: the offset inside a source pixel that feeds output channel `c`
/// (0 blue, 1 green, 2 red) of the canonical pixel.
pub open spec fn source_channel(layout: PixelLayout, c: int) -> int {
    match layout {
        PixelLayout::BGRx => c,
        PixelLayout::RGBx => 2 - c,
        PixelLayout::XBGR => c + 1,
        PixelLayout::RGB => 2 - c,
        PixelLayout::BGRA => c,
    }
}

/// Number of whole source pixels in `data`; a trailing partial pixel is ignored.
pub open spec fn pixel_count(layout: PixelLayout, data: Seq<u8>) -> nat {
    data.len() / source_pixel_bytes(layout)
}

/// Byte `k` of the canonical conversion: alpha is always opaque, the colour
/// channels come from the source pixel as the truth table says.
pub open spec fn canonical_byte(layout: PixelLayout, data: Seq<u8>, k: int) -> u8 {
    let i = k / 4;
    let c = k % 4;
    if c == 3 {
        255u8
    } else {
        data[source_pixel_bytes(layout) * i + source_channel(layout, c)]
    }
}

/// The canonical blue-green-red-alpha bytes of every whole source pixel.
pub open spec fn to_canonical(layout: PixelLayout, data: Seq<u8>) -> Seq<u8> {
    Seq::new(4 * pixel_count(layout, data), |k: int| canonical_byte(layout, data, k))
}

/// Converts the whole pixels of `data`, laid out as `layout`, to blue-green-red-alpha
/// with alpha forced to 255.
pub fn convert_to_bgra(layout: PixelLayout, data: &Vec<u8>) -> (out: Vec<u8>)
    requires
        is_convertible(layout),
        4 * (data@.len() / source_pixel_bytes(layout)) <= usize::MAX,
    ensures
        out@ == to_canonical(layout, data@),
{
    let bpp: usize = match layout {
        PixelLayout::RGB => 3,
        _ => 4,
    };
    let (b, g, r): (usize, usize, usize) = match layout {
        PixelLayout::BGRx => (0, 1, 2),
        PixelLayout::RGBx => (2, 1, 0),
        PixelLayout::XBGR => (1, 2, 3),
        _ => (2, 1, 0),
    };
    let n: usize = data.len() / bpp;
    let mut out: Vec<u8> = Vec::with_capacity(4 * n);
    let mut i: usize = 0;
    while i < n
        invariant
            is_convertible(layout),
            bpp as nat == source_pixel_bytes(layout),
            n == pixel_count(layout, data@),
            4 * n <= usize::MAX,
            b as int == source_channel(layout, 0),
            g as int == source_channel(layout, 1),
            r as int == source_channel(layout, 2),
            i <= n,
            out@ == to_canonical(layout, data@).take(4 * i as int),
        decreases n - i,
    {
        let base: usize = bpp * i;
        assert(base + bpp <= data@.len()) by (nonlinear_arith)
            requires
                base == bpp * i,
                i < n,
                n == data@.len() / (bpp as nat),
                bpp == 3 || bpp == 4,
        ;
        let ghost prev = out@;
        out.push(data[base + b]);
        out.push(data[base + g]);
        out.push(data[base + r]);
        out.push(255u8);
        proof {
            let whole = to_canonical(layout, data@);
            let q = 4 * i as int;
            assert(q / 4 == i && q % 4 == 0);
            assert((q + 1) / 4 == i && (q + 1) % 4 == 1);
            assert((q + 2) / 4 == i && (q + 2) % 4 == 2);
            assert((q + 3) / 4 == i && (q + 3) % 4 == 3);
            assert(out@ =~= whole.take(4 * (i + 1) as int));
        }
        i = i + 1;
    }
    proof {
        assert(out@ =~= to_canonical(layout, data@));
    }
    out
}

/// Every converted pixel is opaque, and each colour channel sits where the
/// layout's truth table puts it: output channel `c` of pixel `i` is source byte
/// `i * width + source_channel(layout, c)`.
pub proof fn lemma_conversion_table(layout: PixelLayout, data: Seq<u8>, i: int)
    requires
        is_convertible(layout),
        0 <= i < pixel_count(layout, data),
    ensures
        to_canonical(layout, data).len() == 4 * pixel_count(layout, data),
        to_canonical(layout, data)[4 * i + 3] == 255u8,
        forall|c: int|
            0 <= c < 3 ==> #[trigger] to_canonical(layout, data)[4 * i + c] == data[source_pixel_bytes(
                layout,
            ) * i + source_channel(layout, c)],
        0 <= source_channel(layout, 0) < source_pixel_bytes(layout),
        0 <= source_channel(layout, 1) < source_pixel_bytes(layout),
        0 <= source_channel(layout, 2) < source_pixel_bytes(layout),
{
    let q = 4 * i;
    assert(q / 4 == i && q % 4 == 0);
    assert((q + 1) / 4 == i && (q + 1) % 4 == 1);
    assert((q + 2) / 4 == i && (q + 2) % 4 == 2);
    assert((q + 3) / 4 == i && (q + 3) % 4 == 3);
}

} // verus!
