//! Owned frames: immutable snapshots of one captured frame's pixels plus its
//! dimensions, decoupled from the capture API's transient frame handle. The
//! conversion copies the raw buffer row by row with the row padding cut off.

use vstd::prelude::*;

use crate::errors::FrameError;

verus! {

/// One captured frame, owned by this process: the pixel bytes with padding
/// already stripped, and the frame's dimensions.
#[derive(Clone, Debug)]
pub struct OwnedFrame {
    pub data: Vec<u8>,
    pub width: u32,
    pub height: u32,
}

/// The pixel rows of `buf` laid end to end with the row padding cut off:
/// row `r` (for `0 <= r < h`) contributes bytes `[r*pitch, r*pitch + 4*w)`.
pub open spec fn unpadded(buf: Seq<u8>, pitch: int, w: int, h: int) -> Seq<u8>
    decreases h,
{
    if h <= 0 {
        Seq::empty()
    } else {
        unpadded(buf, pitch, w, h - 1) + buf.subrange((h - 1) * pitch, (h - 1) * pitch + 4 * w)
    }
}

/// Every row of the geometry lies inside a buffer of length `len`.
pub open spec fn rows_in_bounds(len: int, pitch: int, w: int, h: int) -> bool {
    &&& 0 <= w
    &&& 0 <= h
    &&& 4 * w <= pitch
    &&& (h == 0 || (h - 1) * pitch + 4 * w <= len)
}

/// The stripped buffer holds exactly four bytes per pixel.
pub proof fn lemma_unpadded_len(buf: Seq<u8>, pitch: int, w: int, h: int)
    requires
        rows_in_bounds(buf.len() as int, pitch, w, h),
    ensures
        unpadded(buf, pitch, w, h).len() == 4 * w * h,
    decreases h,
{
    if h > 0 {
        assert((h - 2) * pitch <= (h - 1) * pitch && 0 <= (h - 1) * pitch) by (nonlinear_arith)
            requires
                0 < h,
                0 <= pitch,
        ;
        lemma_unpadded_len(buf, pitch, w, h - 1);
        assert(4 * w * (h - 1) + 4 * w == 4 * w * h) by (nonlinear_arith);
    }
}

impl OwnedFrame {
    /// The snapshot is exactly `width * height` pixels of four bytes each.
    pub open spec fn wf(self) -> bool {
        self.data@.len() == 4 * self.width * self.height
    }

    /// Whether a raw buffer of length `len` with the given geometry can be
    /// converted: the pitch holds a full row, and every row lies inside it.
    pub open spec fn convertible(len: int, pitch: int, w: int, h: int) -> bool {
        &&& pitch >= 4 * w
        &&& (h == 0 || len >= (h - 1) * pitch + 4 * w)
    }

    /// An owned copy of this frame: the same bytes and the same dimensions.
    pub fn duplicate(&self) -> (r: OwnedFrame)
        ensures
            r.data@ == self.data@,
            r.width == self.width,
            r.height == self.height,
            r.wf() == self.wf(),
    {
        let data = self.data.clone();
        proof {
            assert(data@ =~= self.data@);
        }
        OwnedFrame { data, width: self.width, height: self.height }
    }

    /// Convert one transient raw frame buffer into an owned snapshot. Rows
    /// start `row_pitch` bytes apart; only the first `4 * width` bytes of
    /// each row are pixels, the rest is padding and is dropped.
    pub fn from_padded(buffer: &Vec<u8>, row_pitch: usize, width: u32, height: u32) -> (r: Result<
        OwnedFrame,
        FrameError,
    >)
        ensures
            r is Ok <==> Self::convertible(
                buffer@.len() as int,
                row_pitch as int,
                width as int,
                height as int,
            ),
            row_pitch < 4 * width ==> r == Err::<OwnedFrame, FrameError>(
                FrameError::RowPitchTooSmall,
            ),
            r is Err && row_pitch >= 4 * width ==> r == Err::<OwnedFrame, FrameError>(
                FrameError::BufferTooShort,
            ),
            r matches Ok(f) ==> {
                &&& f.width == width
                &&& f.height == height
                &&& f.data@ == unpadded(buffer@, row_pitch as int, width as int, height as int)
                &&& f.wf()
            },
    {
        let w4_wide: u128 = (width as u128) * 4;
        if (row_pitch as u128) < w4_wide {
            return Err(FrameError::RowPitchTooSmall);
        }
        let w4: usize = (width as usize) * 4;
        if height == 0 {
            let f = OwnedFrame { data: Vec::new(), width, height };
            proof {
                assert(f.data@ =~= unpadded(buffer@, row_pitch as int, width as int, 0));
                assert(4 * (width as int) * 0 == 0) by (nonlinear_arith);
            }
            return Ok(f);
        }
        proof {
            assert(((height - 1) as int) * (row_pitch as int) + (w4 as int) <= 0xffff_ffff
                * 0xffff_ffff_ffff_ffff + 0xffff_ffff_ffff_ffff) by (nonlinear_arith)
                requires
                    0 <= (height - 1) as int <= 0xffff_ffff,
                    0 <= row_pitch as int <= 0xffff_ffff_ffff_ffff,
                    0 <= w4 as int <= 0xffff_ffff_ffff_ffff,
            ;
        }
        let needed: u128 = ((height - 1) as u128) * (row_pitch as u128) + (w4 as u128);
        let blen: usize = buffer.len();
        if (blen as u128) < needed {
            return Err(FrameError::BufferTooShort);
        }
        let ghost pitch = row_pitch as int;
        let ghost w = width as int;
        let mut data: Vec<u8> = Vec::new();
        let mut r: u32 = 0;
        while r < height
            invariant
                row_pitch >= 4 * width,
                0 < height,
                r <= height,
                w4 == 4 * width,
                pitch == row_pitch as int,
                w == width as int,
                blen == buffer@.len(),
                blen >= (height - 1) * pitch + 4 * w,
                data@ == unpadded(buffer@, pitch, w, r as int),
            decreases height - r,
        {
            proof {
                assert((r as int) * pitch <= (height - 1) * pitch && 0 <= (r as int) * pitch) by (
                nonlinear_arith)
                    requires
                        r < height,
                        pitch >= 0,
                ;
            }
            let start: usize = (r as usize) * row_pitch;
            let mut j: usize = 0;
            proof {
                assert(data@ =~= unpadded(buffer@, pitch, w, r as int) + buffer@.subrange(
                    start as int,
                    start as int,
                ));
            }
            while j < w4
                invariant
                    r < height,
                    w4 == 4 * width,
                    pitch == row_pitch as int,
                    w == width as int,
                    j <= w4,
                    start == (r as int) * pitch,
                    blen == buffer@.len(),
                    start + w4 <= blen,
                    data@ == unpadded(buffer@, pitch, w, r as int) + buffer@.subrange(
                        start as int,
                        start + j,
                    ),
                decreases w4 - j,
            {
                let b = buffer[start + j];
                data.push(b);
                proof {
                    assert(buffer@.subrange(start as int, start + j + 1) =~= buffer@.subrange(
                        start as int,
                        start + j,
                    ).push(b));
                }
                j += 1;
            }
            proof {
                assert(data@ =~= unpadded(buffer@, pitch, w, r as int + 1));
            }
            r += 1;
        }
        proof {
            lemma_unpadded_len(buffer@, pitch, w, height as int);
        }
        let f = OwnedFrame { data, width, height };
        Ok(f)
    }
}

/// With no padding at all (the pitch is exactly one row of pixels) the first
/// `h` rows of the stripped buffer are the buffer's own first `4*w*h` bytes.
pub proof fn lemma_unpadded_prefix(buf: Seq<u8>, w: int, h: int)
    requires
        0 <= w,
        0 <= h,
        4 * w * h <= buf.len(),
    ensures
        unpadded(buf, 4 * w, w, h) == buf.subrange(0, 4 * w * h),
    decreases h,
{
    if h == 0 {
        assert(4 * w * 0 == 0) by (nonlinear_arith);
        assert(unpadded(buf, 4 * w, w, 0) =~= buf.subrange(0, 0));
    } else {
        assert(0 <= 4 * w * (h - 1) && 4 * w * (h - 1) <= 4 * w * h && 4 * w * (h - 1) + 4 * w == 4
            * w * h && (h - 1) * (4 * w) == 4 * w * (h - 1)) by (nonlinear_arith)
            requires
                0 <= w,
                0 < h,
        ;
        lemma_unpadded_prefix(buf, w, h - 1);
        assert(unpadded(buf, 4 * w, w, h) =~= buf.subrange(0, 4 * w * h));
    }
}

/// Round trip: a buffer that is exactly `h` unpadded rows comes back from the
/// padding strip byte-identical.
pub proof fn lemma_unpadded_identity(buf: Seq<u8>, w: int, h: int)
    requires
        0 <= w,
        0 <= h,
        buf.len() == 4 * w * h,
    ensures
        unpadded(buf, 4 * w, w, h) == buf,
{
    lemma_unpadded_prefix(buf, w, h);
    assert(buf.subrange(0, 4 * w * h) =~= buf);
}

} // verus!
