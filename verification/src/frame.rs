use vstd::prelude::*;

verus! {

/// An RGBA image held as rows of 4-byte pixels, top row first.
#[derive(Debug)]
pub struct RgbaFrame {
    width: u32,
    height: u32,
    data: Vec<u8>,
}

/// Bytes per row of an image `width` pixels wide.
pub open spec fn row_bytes(width: u32) -> int {
    width as int * 4
}

/// What `copy_region` leaves in the destination bytes: the `height` rows that
/// start at row `src_y` of the source replace the rows that start at row
/// `dest_y`, both counted in rows of the source's width; when either range
/// runs past its buffer, or `height` is zero, nothing changes.
pub open spec fn spec_copy_rows(
    src: Seq<u8>,
    src_width: u32,
    src_y: u32,
    dest: Seq<u8>,
    dest_y: u32,
    height: u32,
) -> Seq<u8> {
    let wb = row_bytes(src_width);
    let count = height as int * wb;
    let so = src_y as int * wb;
    let dof = dest_y as int * wb;
    if height == 0 || so + count > src.len() || dof + count > dest.len() {
        dest
    } else {
        dest.take(dof) + src.subrange(so, so + count) + dest.skip(dof + count)
    }
}

/// The byte sizes that `copy_region` computes fit in a `usize`.
pub open spec fn copy_fits(src_width: u32, src_y: u32, dest_y: u32, height: u32) -> bool {
    let wb = row_bytes(src_width);
    &&& wb <= u32::MAX
    &&& (src_y as int + height as int) * wb <= usize::MAX
    &&& (dest_y as int + height as int) * wb <= usize::MAX
}

impl RgbaFrame {
    pub closed spec fn spec_width(&self) -> u32 {
        self.width
    }

    pub closed spec fn spec_height(&self) -> u32 {
        self.height
    }

    /// The pixel bytes, row by row, 4 bytes (R, G, B, A) per pixel.
    pub closed spec fn bytes(&self) -> Seq<u8> {
        self.data@
    }

    /// The buffer holds exactly `width * height` pixels.
    pub open spec fn wf(&self) -> bool {
        &&& self.bytes().len() == self.spec_width() as int * self.spec_height() as int * 4
        &&& self.bytes().len() <= usize::MAX
    }

    /// The bytes of rows `[start, end)`.
    pub open spec fn rows(&self, start: int, end: int) -> Seq<u8> {
        self.bytes().subrange(start * row_bytes(self.spec_width()), end * row_bytes(self.spec_width()))
    }

    /// A black, fully transparent image.
    pub fn new(width: u32, height: u32) -> (r: Self)
        requires
            width as int * height as int * 4 <= usize::MAX,
        ensures
            r.wf(),
            r.spec_width() == width,
            r.spec_height() == height,
            forall|i: int| 0 <= i < r.bytes().len() ==> #[trigger] r.bytes()[i] == 0u8,
    {
        let len: usize = (width as usize) * (height as usize) * 4;
        let mut data: Vec<u8> = Vec::with_capacity(len);
        let mut i: usize = 0;
        while i < len
            invariant
                i <= len,
                data@.len() == i,
                forall|j: int| 0 <= j < i ==> #[trigger] data@[j] == 0u8,
            decreases len - i,
        {
            data.push(0u8);
            i = i + 1;
        }
        RgbaFrame { width, height, data }
    }

    /// An image over the given pixel bytes, or `None` when their number is
    /// not `width * height * 4`.
    pub fn from_raw(width: u32, height: u32, data: Vec<u8>) -> (r: Option<Self>)
        ensures
            (data@.len() == width as int * height as int * 4) <==> r.is_some(),
            r matches Some(f) ==> f.wf() && f.spec_width() == width && f.spec_height() == height
                && f.bytes() == data@,
    {
        proof {
            assert(width as int * height as int <= u32::MAX as int * u32::MAX as int) by (nonlinear_arith);
        }
        let expected: u128 = (width as u128) * (height as u128) * 4;
        if data.len() as u128 == expected {
            Some(RgbaFrame { width, height, data })
        } else {
            None
        }
    }

    pub fn width(&self) -> (w: u32)
        ensures
            w == self.spec_width(),
    {
        self.width
    }

    pub fn height(&self) -> (h: u32)
        ensures
            h == self.spec_height(),
    {
        self.height
    }

    pub fn as_raw(&self) -> (d: &Vec<u8>)
        ensures
            d@ == self.bytes(),
    {
        &self.data
    }

    pub fn into_raw(self) -> (d: Vec<u8>)
        ensures
            d@ == self.bytes(),
    {
        self.data
    }

    /// Sets the alpha byte of every pixel to 255 and leaves the colour bytes
    /// as they are.
    pub fn normalize_alpha_opaque(&mut self)
        requires
            old(self).wf(),
        ensures
            final(self).wf(),
            final(self).spec_width() == old(self).spec_width(),
            final(self).spec_height() == old(self).spec_height(),
            final(self).bytes().len() == old(self).bytes().len(),
            forall|i: int|
                0 <= i < final(self).bytes().len() ==> #[trigger] final(self).bytes()[i] == if i % 4 == 3 {
                    255u8
                } else {
                    old(self).bytes()[i]
                },
    {
        let len = self.data.len();
        let mut p: usize = 0;
        while len - p >= 4
            invariant
                len == self.data@.len(),
                len == old(self).data@.len(),
                len % 4 == 0,
                p % 4 == 0,
                p <= len,
                self.width == old(self).width,
                self.height == old(self).height,
                forall|i: int|
                    0 <= i < len ==> #[trigger] self.data@[i] == if i < p && i % 4 == 3 {
                        255u8
                    } else {
                        old(self).data@[i]
                    },
            decreases len - p,
        {
            self.data[p + 3] = 255u8;
            p = p + 4;
        }
    }

    /// Copies `height` rows of `src`, from row `src_y` on, into `dest` from
    /// row `dest_y` on. Rows are measured in the source's width; a copy that
    /// would run past either buffer is skipped.
    pub fn copy_region(src: &RgbaFrame, src_y: u32, dest: &mut RgbaFrame, dest_y: u32, height: u32)
        requires
            src.wf(),
            old(dest).wf(),
            copy_fits(src.spec_width(), src_y, dest_y, height),
        ensures
            final(dest).wf(),
            final(dest).spec_width() == old(dest).spec_width(),
            final(dest).spec_height() == old(dest).spec_height(),
            final(dest).bytes() == spec_copy_rows(
                src.bytes(),
                src.spec_width(),
                src_y,
                old(dest).bytes(),
                dest_y,
                height,
            ),
    {
        if height == 0 {
            return;
        }
        let width_bytes: usize = (src.width * 4) as usize;
        proof {
            assert((src_y as int + height as int) * width_bytes == src_y as int * width_bytes + height as int
                * width_bytes) by (nonlinear_arith);
            assert((dest_y as int + height as int) * width_bytes == dest_y as int * width_bytes + height as int
                * width_bytes) by (nonlinear_arith);
            assert(0 <= src_y as int * width_bytes) by (nonlinear_arith)
                requires
                    width_bytes >= 0,
            ;
            assert(0 <= dest_y as int * width_bytes) by (nonlinear_arith)
                requires
                    width_bytes >= 0,
            ;
            assert(0 <= height as int * width_bytes) by (nonlinear_arith)
                requires
                    width_bytes >= 0,
            ;
        }
        let copy_bytes: usize = height as usize * width_bytes;
        let src_offset: usize = src_y as usize * width_bytes;
        let dest_offset: usize = dest_y as usize * width_bytes;

        let src_len = src.data.len();
        let dest_len = dest.data.len();
        if src_offset <= src_len && copy_bytes <= src_len - src_offset && dest_offset <= dest_len
            && copy_bytes <= dest_len - dest_offset {
            let ghost old_bytes = dest.data@;
            let mut i: usize = 0;
            while i < copy_bytes
                invariant
                    i <= copy_bytes,
                    src_offset + copy_bytes <= src_len,
                    src.data@.len() == src_len,
                    dest_offset + copy_bytes <= dest_len,
                    dest.data@.len() == dest_len,
                    old_bytes.len() == dest_len,
                    dest.width == old(dest).width,
                    dest.height == old(dest).height,
                    forall|j: int|
                        0 <= j < dest_len ==> #[trigger] dest.data@[j] == if dest_offset <= j < dest_offset + i {
                            src.data@[src_offset + (j - dest_offset)]
                        } else {
                            old_bytes[j]
                        },
                decreases copy_bytes - i,
            {
                let b = src.data[src_offset + i];
                dest.data[dest_offset + i] = b;
                i = i + 1;
            }
            proof {
                let expect = spec_copy_rows(
                    src.data@,
                    src.width,
                    src_y,
                    old_bytes,
                    dest_y,
                    height,
                );
                assert(dest.data@ =~= expect);
            }
        }
    }
}

/// The bytes of the `width x height` region of `frame` whose top left pixel
/// is `(x, y)`, row by row.
pub open spec fn spec_crop_bytes(frame: RgbaFrame, x: u32, y: u32, width: u32, height: u32) -> Seq<u8> {
    Seq::new(
        (width * height * 4) as nat,
        |k: int| frame.bytes()[(y + k / (width * 4)) * row_bytes(frame.spec_width()) + x * 4 + k % (width * 4)],
    )
}

/// Copies a region with `image::imageops::crop_imm` and `to_image`. The
/// contract claims the region's pixels, row by row: `crop_imm` only clamps
/// the region to the image, which the `requires` already keeps it within,
/// and `to_image` copies its pixels in row order.
#[verifier::external_body]
fn crop_imm_frame(frame: &RgbaFrame, x: u32, y: u32, width: u32, height: u32) -> (r: RgbaFrame)
    requires
        frame.wf(),
        x + width <= frame.spec_width(),
        y + height <= frame.spec_height(),
    ensures
        r.wf(),
        r.spec_width() == width,
        r.spec_height() == height,
        r.bytes() == spec_crop_bytes(*frame, x, y, width, height),
{
    let source = image::RgbaImage::from_raw(frame.width, frame.height, frame.data.clone()).unwrap();
    let out = image::imageops::crop_imm(&source, x, y, width, height).to_image();
    RgbaFrame { width, height, data: out.into_raw() }
}

impl RgbaFrame {
    /// The `width x height` region whose top left pixel is `(x, y)`, or
    /// `None` when the region does not lie within the image.
    pub fn crop(&self, x: u32, y: u32, width: u32, height: u32) -> (r: Option<RgbaFrame>)
        requires
            self.wf(),
        ensures
            r is Some <==> (x + width <= self.spec_width() && y + height <= self.spec_height()),
            r matches Some(f) ==> f.wf() && f.spec_width() == width && f.spec_height() == height && f.bytes()
                == spec_crop_bytes(*self, x, y, width, height),
    {
        if x as u64 + width as u64 > self.width as u64 || y as u64 + height as u64 > self.height as u64 {
            return None;
        }
        Some(crop_imm_frame(self, x, y, width, height))
    }
}

/// The pixel bytes that `image::imageops::resize` with the triangle filter
/// gives for an RGBA image of `width x height` with these bytes, resized to
/// `new_width x new_height`.
pub uninterp spec fn triangle_resized(bytes: Seq<u8>, width: u32, height: u32, new_width: u32, new_height: u32) -> Seq<u8>;

/// Resizes `frame` with `image::imageops::resize` and its triangle filter.
/// The contract claims an image of the new size whose bytes are
/// `triangle_resized` of the frame's bytes and size; the sampling itself,
/// which computes in `f32`, is left unsaid. The bounds keep the crate's
/// intermediate `f32` buffer and its result within what a `Vec` can hold.
#[verifier::external_body]
pub(crate) fn resize_triangle(frame: &RgbaFrame, new_width: u32, new_height: u32) -> (r: RgbaFrame)
    requires
        frame.wf(),
        frame.spec_width() as int * new_height as int * 16 <= isize::MAX,
        new_width as int * new_height as int * 4 <= isize::MAX,
    ensures
        r.wf(),
        r.spec_width() == new_width,
        r.spec_height() == new_height,
        r.bytes() == triangle_resized(frame.bytes(), frame.spec_width(), frame.spec_height(), new_width, new_height),
{
    let source = image::RgbaImage::from_raw(frame.width, frame.height, frame.data.clone()).unwrap();
    let out = image::imageops::resize(&source, new_width, new_height, image::imageops::FilterType::Triangle);
    RgbaFrame { width: new_width, height: new_height, data: out.into_raw() }
}

impl Clone for RgbaFrame {
    fn clone(&self) -> (r: Self)
        ensures
            r.spec_width() == self.spec_width(),
            r.spec_height() == self.spec_height(),
            r.bytes() == self.bytes(),
    {
        let data = self.data.clone();
        proof {
            assert(data@ =~= self.data@);
        }
        RgbaFrame { width: self.width, height: self.height, data }
    }
}

} // verus!
