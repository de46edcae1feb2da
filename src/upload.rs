use vstd::prelude::*;
use vstd::arithmetic::div_mod::{
    lemma_fundamental_div_mod, lemma_fundamental_div_mod_converse, lemma_mod_pos_bound,
};

verus! {

/// Relies on wgpu::COPY_BYTES_PER_ROW_ALIGNMENT: the multiple of which the row
/// stride of a buffer-to-texture copy must be, 256 bytes.
#[verifier::external_body]
pub(crate) fn copy_row_alignment() -> (r: u32)
    ensures
        r == 256,
{
    wgpu::COPY_BYTES_PER_ROW_ALIGNMENT
}

/// `row` rounded up to a multiple of `align`.
pub open spec fn padded_row_bytes(row: nat, align: nat) -> nat
    recommends
        align > 0,
{
    ((row + align - 1) as nat / align) * align
}

/// Byte `k` of a buffer whose rows of `row` bytes are stored `stride` bytes apart,
/// the gap after each row filled with zeros.
pub open spec fn padded_byte(data: Seq<u8>, row: nat, stride: nat, k: int) -> u8 {
    let r = k / (stride as int);
    let c = k % (stride as int);
    if c < row {
        data[r * row + c]
    } else {
        0u8
    }
}

/// The rows of `data` laid out `stride` bytes apart, `height` rows in all.
pub open spec fn padded_rows(data: Seq<u8>, row: nat, stride: nat, height: nat) -> Seq<u8> {
    Seq::new(stride * height, |k: int| padded_byte(data, row, stride, k))
}

/// Whether an image of `width` x `height` four-byte pixels, uploaded from a
/// buffer of `len` bytes with rows aligned to `align`, can be described with
/// 32-bit strides and sizes, and the buffer holds every row.
pub open spec fn upload_fits(len: nat, width: nat, height: nat, align: nat) -> bool {
    &&& padded_row_bytes(4 * width, align) <= u32::MAX
    &&& padded_row_bytes(4 * width, align) * height <= u32::MAX
    &&& 4 * width * height <= len
}

/// Rounding up adds less than one alignment unit.
proof fn lemma_padded_bounds(row: nat, align: nat)
    requires
        align > 0,
    ensures
        row <= padded_row_bytes(row, align) < row + align,
{
    let x = (row + align - 1) as int;
    lemma_fundamental_div_mod(x, align as int);
    lemma_mod_pos_bound(x, align as int);
    assert((x / align as int) * align == align * (x / align as int)) by (nonlinear_arith);
}

/// The padded stride is the row length rounded up to a multiple of the
/// alignment, and a padded image holds exactly `stride * height` bytes.
pub proof fn lemma_padding_law(data: Seq<u8>, width: nat, height: nat, align: nat)
    requires
        align > 0,
    ensures
        padded_row_bytes(4 * width, align) % align == 0,
        4 * width <= padded_row_bytes(4 * width, align) < 4 * width + align,
        padded_rows(data, 4 * width, padded_row_bytes(4 * width, align), height).len()
            == padded_row_bytes(4 * width, align) * height,
{
    lemma_padded_bounds(4 * width, align);
    vstd::arithmetic::div_mod::lemma_mod_multiples_basic(
        ((4 * width + align - 1) as nat / align) as int,
        align as int,
    );
}

/// The bytes to upload for one image, and the stride between its rows.
pub struct RowUpload {
    /// Distance in bytes between the starts of two rows of `data`.
    pub bytes_per_row: u32,
    pub data: Vec<u8>,
}

/// Lays out the tightly packed rows of `data` so that each row starts at a
/// multiple of `align`. When the rows are already aligned, `data` is handed on
/// as it is; otherwise each row is copied into a buffer of
/// `padded_row_bytes * height` bytes. `None` when the sizes do not fit in 32
/// bits or `data` is shorter than the image.
pub fn align_rows(data: Vec<u8>, width: u32, height: u32, align: u32) -> (r: Option<RowUpload>)
    requires
        align > 0,
    ensures
        r is Some <==> upload_fits(data@.len(), width as nat, height as nat, align as nat),
        r matches Some(u) ==> {
            let row = 4 * width as nat;
            let stride = padded_row_bytes(row, align as nat);
            &&& u.bytes_per_row == stride
            &&& stride == row ==> u.data@ == data@
            &&& stride != row ==> u.data@ == padded_rows(data@, row, stride, height as nat)
        },
{
    let row: u64 = width as u64 * 4;
    let a: u64 = align as u64;
    let q: u64 = (row + a - 1) / a;
    proof {
        lemma_padded_bounds(row as nat, a as nat);
    }
    assert(q * a == padded_row_bytes(row as nat, a as nat));
    let stride: u64 = q * a;
    if stride > u32::MAX as u64 {
        return None;
    }
    assert(stride * height <= u64::MAX) by (nonlinear_arith)
        requires
            stride <= u32::MAX,
            height <= u32::MAX,
    ;
    let total: u64 = stride * height as u64;
    if total > u32::MAX as u64 {
        return None;
    }
    assert(row * height <= total) by (nonlinear_arith)
        requires
            row <= stride,
            total == stride * height,
    ;
    let packed: u64 = row * height as u64;
    if packed > data.len() as u64 {
        return None;
    }
    if stride == row {
        return Some(RowUpload { bytes_per_row: stride as u32, data });
    }
    let data_len: usize = data.len();
    let row_len: usize = row as usize;
    let stride_len: usize = stride as usize;
    let h: usize = height as usize;
    let ghost whole = padded_rows(data@, row as nat, stride as nat, height as nat);
    let mut out: Vec<u8> = Vec::with_capacity(total as usize);
    let mut y: usize = 0;
    while y < h
        invariant
            h == height,
            row_len == row,
            stride_len == stride,
            row_len < stride_len,
            stride_len * h <= u32::MAX,
            row_len * h <= data@.len(),
            data_len == data@.len(),
            whole == padded_rows(data@, row as nat, stride as nat, height as nat),
            y <= h,
            out@ == whole.take(y * stride_len),
        decreases h - y,
    {
        let mut x: usize = 0;
        while x < stride_len
            invariant
                h == height,
                row_len == row,
                stride_len == stride,
                row_len < stride_len,
                stride_len * h <= u32::MAX,
                row_len * h <= data@.len(),
            data_len == data@.len(),
                whole == padded_rows(data@, row as nat, stride as nat, height as nat),
                y < h,
                x <= stride_len,
                out@ == whole.take(y * stride_len + x),
            decreases stride_len - x,
        {
            assert(y * stride_len + x < stride_len * h) by (nonlinear_arith)
                requires
                    y < h,
                    x < stride_len,
            ;
            proof {
                lemma_fundamental_div_mod_converse(
                    y * stride_len + x,
                    stride_len as int,
                    y as int,
                    x as int,
                );
            }
            if x < row_len {
                assert(y * row_len + x < row_len * h) by (nonlinear_arith)
                    requires
                        y < h,
                        x < row_len,
                ;
                out.push(data[y * row_len + x]);
            } else {
                out.push(0u8);
            }
            assert(out@ =~= whole.take(y * stride_len + x + 1));
            x = x + 1;
        }
        assert((y + 1) * stride_len == y * stride_len + stride_len) by (nonlinear_arith);
        y = y + 1;
    }
    assert(y * stride_len == stride_len * h) by (nonlinear_arith)
        requires
            y == h,
    ;
    assert(out@ =~= whole);
    Some(RowUpload { bytes_per_row: stride as u32, data: out })
}

} // verus!
