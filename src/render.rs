//! The compute side: render parameters, the messages exchanged with the
//! controller, and the chunked parallel fill of a frame.
use vstd::prelude::*;
use crate::buffer::Buffer;
use crate::kernel::{coord_of, pixel_coord};
use rayon::iter::{IndexedParallelIterator, ParallelIterator};
use rayon::slice::ParallelSliceMut;
use std::time::Duration;

verus! {

/// What a frame is rendered from: the iteration budget and the fractal's
/// constant `(cx, cy)`, each held as the bit pattern of an IEEE-754
/// single-precision number. Two parameter sets are equal when all three
/// fields are.
#[derive(Clone, Copy, Debug, PartialEq, Eq, Structural)]
pub struct RenderParameters {
    pub iterations: u32,
    pub cx_bits: u32,
    pub cy_bits: u32,
}

/// A message from the controller to the worker.
pub enum RenderCommand {
    /// Render `buffer` from `params`; the worker owns the buffer until it
    /// hands it back.
    RenderRequest { buffer: Buffer, params: RenderParameters },
    /// Stop the worker.
    Quit,
}

/// A message from the worker to the controller: the finished frame and the
/// time it took.
pub struct RenderResult {
    pub buffer: Buffer,
    pub render_time: Duration,
}

/// The number of pixels in each chunk of parallel work.
pub const CHUNK_LEN: usize = 8192;

/// `value` is a colour the kernel may give for the pixel at flat index
/// `index` of `frame`, rendered from `params`.
pub open spec fn kernel_gives<F: Fn(RenderParameters, (usize, usize), (usize, usize)) -> u32>(
    kernel: F,
    params: RenderParameters,
    width: nat,
    height: nat,
    index: nat,
    value: u32,
) -> bool {
    let c = coord_of(index, width);
    kernel.ensures((params, (c.0 as usize, c.1 as usize), (width as usize, height as usize)), value)
}

/// The kernel may be called on every coordinate.
pub open spec fn kernel_total<F: Fn(RenderParameters, (usize, usize), (usize, usize)) -> u32>(
    kernel: F,
) -> bool {
    forall|p: RenderParameters, c: (usize, usize), d: (usize, usize)| kernel.requires((p, c, d))
}

/// `after` has the width, height and number of pixels of `before`.
pub open spec fn same_shape(before: Buffer, after: Buffer) -> bool {
    &&& after.spec_width() == before.spec_width()
    &&& after.spec_height() == before.spec_height()
    &&& after.spec_pixels().len() == before.spec_pixels().len()
}

/// Every pixel of `frame` holds what the kernel gives for it from `params`.
pub open spec fn rendered<F: Fn(RenderParameters, (usize, usize), (usize, usize)) -> u32>(
    frame: Buffer,
    kernel: F,
    params: RenderParameters,
) -> bool {
    forall|i: int|
        0 <= i < frame.spec_pixels().len() ==> kernel_gives(
            kernel,
            params,
            frame.spec_width(),
            frame.spec_height(),
            i as nat,
            #[trigger] frame.spec_pixels()[i],
        )
}

/// Fills chunk number `index` of a `width` by `height` frame: its pixel at
/// offset `i` is the one at flat index `index * CHUNK_LEN + i`.
pub fn fill_chunk<F: Fn(RenderParameters, (usize, usize), (usize, usize)) -> u32>(
    chunk: &mut [u32],
    index: usize,
    width: usize,
    height: usize,
    params: RenderParameters,
    kernel: &F,
)
    requires
        width >= 1,
        width * height <= usize::MAX,
        index * CHUNK_LEN + old(chunk)@.len() <= width * height,
        kernel_total(*kernel),
    ensures
        final(chunk)@.len() == old(chunk)@.len(),
        forall|i: int|
            0 <= i < final(chunk)@.len() ==> kernel_gives(
                *kernel,
                params,
                width as nat,
                height as nat,
                (index * CHUNK_LEN + i) as nat,
                #[trigger] final(chunk)@[i],
            ),
{
    let len = chunk.len();
    let base: usize = index * CHUNK_LEN;
    let mut i: usize = 0;
    while i < len
        invariant
            0 <= i <= len,
            len == chunk@.len(),
            len == old(chunk)@.len(),
            base == index * CHUNK_LEN,
            width >= 1,
            base + len <= width * height,
            width * height <= usize::MAX,
            kernel_total(*kernel),
            forall|j: int|
                0 <= j < i ==> kernel_gives(
                    *kernel,
                    params,
                    width as nat,
                    height as nat,
                    (base + j) as nat,
                    #[trigger] chunk@[j],
                ),
        decreases len - i,
    {
        let coord = pixel_coord(base + i, width, height);
        let value = kernel(params, coord, (width, height));
        chunk[i] = value;
        i = i + 1;
    }
}

/// Relies on rayon's `par_chunks_mut`, `enumerate` and `for_each`: the slice
/// is cut into consecutive, non-overlapping chunks of `CHUNK_LEN` elements
/// (the last one may be shorter), and the closure runs once on each chunk
/// with its position in that sequence.
#[verifier::external_body]
fn fill_chunks_parallel<F: Fn(RenderParameters, (usize, usize), (usize, usize)) -> u32 + Sync>(
    pixels: &mut [u32],
    width: usize,
    height: usize,
    params: RenderParameters,
    kernel: &F,
)
    requires
        width >= 1,
        width * height <= usize::MAX,
        old(pixels)@.len() == width * height,
        kernel_total(*kernel),
    ensures
        final(pixels)@.len() == old(pixels)@.len(),
        forall|i: int|
            0 <= i < final(pixels)@.len() ==> kernel_gives(
                *kernel,
                params,
                width as nat,
                height as nat,
                i as nat,
                #[trigger] final(pixels)@[i],
            ),
{
    pixels.par_chunks_mut(CHUNK_LEN).enumerate().for_each(
        |(index, chunk)| fill_chunk(chunk, index, width, height, params, kernel),
    );
}

/// Renders the whole frame from `params`, in parallel chunks; the frame keeps
/// its dimensions and its number of pixels.
pub fn render_frame<F: Fn(RenderParameters, (usize, usize), (usize, usize)) -> u32 + Sync>(
    buffer: &mut Buffer,
    params: RenderParameters,
    kernel: &F,
)
    requires
        old(buffer).wf(),
        kernel_total(*kernel),
    ensures
        final(buffer).wf(),
        same_shape(*old(buffer), *final(buffer)),
        rendered(*final(buffer), *kernel, params),
{
    let width = buffer.width();
    let height = buffer.height();
    let pixels = buffer.as_mut_slice();
    let len = pixels.len();
    assert(width * height == len);
    fill_chunks_parallel(pixels, width, height, params, kernel);
}

/// The worker's handling of one command: a render request gives back its
/// buffer, rendered from its parameters with the same shape; `Quit` gives
/// `None`.
pub fn execute_command<F: Fn(RenderParameters, (usize, usize), (usize, usize)) -> u32 + Sync>(
    command: RenderCommand,
    kernel: &F,
) -> (r: Option<Buffer>)
    requires
        command is RenderRequest ==> command->buffer.wf(),
        kernel_total(*kernel),
    ensures
        command is Quit <==> r is None,
        command is RenderRequest ==> {
            let out = r->0;
            &&& out.wf()
            &&& same_shape(command->buffer, out)
            &&& rendered(out, *kernel, command->params)
        },
{
    match command {
        RenderCommand::RenderRequest { mut buffer, params } => {
            render_frame(&mut buffer, params, kernel);
            Some(buffer)
        },
        RenderCommand::Quit => None,
    }
}

} // verus!
