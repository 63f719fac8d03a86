use vstd::prelude::*;

verus! {

/// A frame of packed `0xAARRGGBB` pixels, laid out row after row.
///
/// The number of pixels is fixed at construction: `width * height`.
pub struct Buffer {
    width: usize,
    height: usize,
    buffer: Vec<u32>,
}

impl Buffer {
    /// Number of columns.
    pub closed spec fn spec_width(&self) -> nat {
        self.width as nat
    }

    /// Number of rows.
    pub closed spec fn spec_height(&self) -> nat {
        self.height as nat
    }

    /// The pixels, in flat row-major order.
    pub closed spec fn spec_pixels(&self) -> Seq<u32> {
        self.buffer@
    }

    /// Both dimensions are positive and there is exactly one slot per pixel.
    pub open spec fn wf(&self) -> bool {
        &&& self.spec_width() >= 1
        &&& self.spec_height() >= 1
        &&& self.spec_pixels().len() == self.spec_width() * self.spec_height()
    }

    /// A zeroed frame of `width` by `height` pixels.
    pub fn new(width: usize, height: usize) -> (r: Self)
        requires
            width >= 1,
            height >= 1,
            width * height <= usize::MAX,
        ensures
            r.wf(),
            r.spec_width() == width,
            r.spec_height() == height,
            r.spec_pixels() == Seq::new((width * height) as nat, |i: int| 0u32),
    {
        let n: usize = width * height;
        let buffer = vec![0u32; n];
        let r = Self { width, height, buffer };
        assert(r.spec_pixels() =~= Seq::new((width * height) as nat, |i: int| 0u32));
        r
    }

    pub fn width(&self) -> (r: usize)
        ensures
            r == self.spec_width(),
    {
        self.width
    }

    pub fn height(&self) -> (r: usize)
        ensures
            r == self.spec_height(),
    {
        self.height
    }

    /// Read view of the pixels.
    pub fn as_slice(&self) -> (r: &[u32])
        ensures
            r@ == self.spec_pixels(),
    {
        self.buffer.as_slice()
    }

    /// Exclusive write view of the pixels; the dimensions stay as they are.
    pub fn as_mut_slice(&mut self) -> (r: &mut [u32])
        ensures
            r@ == old(self).spec_pixels(),
            final(self).spec_pixels() == final(r)@,
            final(self).spec_width() == old(self).spec_width(),
            final(self).spec_height() == old(self).spec_height(),
    {
        self.buffer.as_mut_slice()
    }
}

} // verus!
