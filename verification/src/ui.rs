//! Data of the scene and of the user interface that the renderer uploads.

use vstd::prelude::*;

verus! {

/// The indices of the scene's two quads, as 16-bit values.
pub fn indices_u16() -> (indices: [u16; 12])
    ensures
        indices@ == seq![0u16, 1, 2, 2, 3, 0, 4, 5, 6, 6, 7, 4],
{
    [0, 1, 2, 2, 3, 0, 4, 5, 6, 6, 7, 4]
}

/// The indices of the scene's two quads, as 32-bit values.
pub fn indices() -> (indices: [u32; 12])
    ensures
        indices@ == seq![0u32, 1, 2, 2, 3, 0, 4, 5, 6, 6, 7, 4],
{
    [0, 1, 2, 2, 3, 0, 4, 5, 6, 6, 7, 4]
}

/// Version of the user interface's font texture that was last uploaded.
#[derive(Debug, Clone, Copy, PartialEq, Eq, Structural)]
pub struct UiTextureState {
    uploaded_version: u64,
}

impl UiTextureState {
    pub closed spec fn uploaded(&self) -> u64 {
        self.uploaded_version
    }

    /// State before any upload: version zero counts as uploaded.
    pub fn new() -> (state: Self)
        ensures
            state.uploaded() == 0,
    {
        UiTextureState { uploaded_version: 0 }
    }

    /// Tells whether the texture of version `version` must be uploaded, and
    /// records it as the uploaded one.
    pub fn needs_upload(&mut self, version: u64) -> (upload: bool)
        ensures
            upload == (version != old(self).uploaded()),
            final(self).uploaded() == version,
    {
        if version != self.uploaded_version {
            self.uploaded_version = version;
            true
        } else {
            false
        }
    }
}

/// The RGBA pixels of a single-channel texture: each value repeated in all
/// four channels.
pub open spec fn coverage_to_rgba_spec(pixels: Seq<u8>) -> Seq<u8> {
    Seq::new(4 * pixels.len(), |k: int| pixels[k / 4])
}

/// Expands a single-channel texture to RGBA.
pub fn coverage_to_rgba(pixels: &Vec<u8>) -> (rgba: Vec<u8>)
    requires
        4 * pixels.len() <= usize::MAX,
    ensures
        rgba@ == coverage_to_rgba_spec(pixels@),
{
    let mut rgba: Vec<u8> = Vec::new();
    let mut i: usize = 0;
    while i < pixels.len()
        invariant
            0 <= i <= pixels.len(),
            rgba@ =~= coverage_to_rgba_spec(pixels@.take(i as int)),
        decreases pixels.len() - i,
    {
        let r = pixels[i];
        let ghost before = rgba@;
        rgba.push(r);
        rgba.push(r);
        rgba.push(r);
        rgba.push(r);
        proof {
            let next = coverage_to_rgba_spec(pixels@.take(i as int + 1));
            assert forall|k: int| 0 <= k < next.len() implies #[trigger] next[k] == rgba@[k] by {
                if k < 4 * i {
                    assert(k / 4 < i) by (nonlinear_arith)
                        requires
                            0 <= k < 4 * i,
                    ;
                    assert(before[k] == pixels@.take(i as int)[k / 4]);
                } else {
                    assert(k / 4 == i) by (nonlinear_arith)
                        requires
                            4 * i <= k < 4 * i + 4,
                    ;
                }
            }
            assert(rgba@ =~= next);
        }
        i = i + 1;
    }
    assert(pixels@.take(pixels.len() as int) =~= pixels@);
    rgba
}

/// The bytes of a list of RGBA pixels, pixel after pixel.
pub open spec fn flatten_pixels_spec(pixels: Seq<[u8; 4]>) -> Seq<u8> {
    Seq::new(4 * pixels.len(), |k: int| pixels[k / 4]@[k % 4])
}

/// Lays out RGBA pixels as consecutive bytes.
pub fn flatten_pixels(pixels: &Vec<[u8; 4]>) -> (bytes: Vec<u8>)
    requires
        4 * pixels.len() <= usize::MAX,
    ensures
        bytes@ == flatten_pixels_spec(pixels@),
{
    let mut bytes: Vec<u8> = Vec::new();
    let mut i: usize = 0;
    while i < pixels.len()
        invariant
            0 <= i <= pixels.len(),
            bytes@ =~= flatten_pixels_spec(pixels@.take(i as int)),
        decreases pixels.len() - i,
    {
        let p = pixels[i];
        let ghost before = bytes@;
        bytes.push(p[0]);
        bytes.push(p[1]);
        bytes.push(p[2]);
        bytes.push(p[3]);
        proof {
            let next = flatten_pixels_spec(pixels@.take(i as int + 1));
            assert forall|k: int| 0 <= k < next.len() implies #[trigger] next[k] == bytes@[k] by {
                if k < 4 * i {
                    assert(k / 4 < i) by (nonlinear_arith)
                        requires
                            0 <= k < 4 * i,
                    ;
                    assert(before[k] == pixels@.take(i as int)[k / 4]@[k % 4]);
                } else {
                    assert(k / 4 == i && k % 4 == k - 4 * i) by (nonlinear_arith)
                        requires
                            4 * i <= k < 4 * i + 4,
                    ;
                }
            }
            assert(bytes@ =~= next);
        }
        i = i + 1;
    }
    assert(pixels@.take(pixels.len() as int) =~= pixels@);
    bytes
}

/// Whether a mesh of the user interface has anything to draw.
pub fn mesh_is_drawable(vertex_count: usize, index_count: usize) -> (drawable: bool)
    ensures
        drawable == (vertex_count > 0 && index_count > 0),
{
    vertex_count != 0 && index_count != 0
}

/// Expanding a single-channel texture gives four bytes per pixel, each of
/// the four channels of pixel `i` holding the pixel's value.
pub proof fn lemma_coverage_fills_every_channel(pixels: Seq<u8>, i: int, channel: int)
    requires
        0 <= i < pixels.len(),
        0 <= channel < 4,
    ensures
        coverage_to_rgba_spec(pixels).len() == 4 * pixels.len(),
        coverage_to_rgba_spec(pixels)[4 * i + channel] == pixels[i],
{
    assert((4 * i + channel) / 4 == i) by (nonlinear_arith)
        requires
            0 <= channel < 4,
    ;
    assert(4 * i + channel < 4 * pixels.len()) by (nonlinear_arith)
        requires
            0 <= i < pixels.len(),
            0 <= channel < 4,
    ;
}

/// Laying out RGBA pixels puts channel `channel` of pixel `i` at byte
/// `4 * i + channel`, four bytes per pixel.
pub proof fn lemma_flatten_keeps_channels(pixels: Seq<[u8; 4]>, i: int, channel: int)
    requires
        0 <= i < pixels.len(),
        0 <= channel < 4,
    ensures
        flatten_pixels_spec(pixels).len() == 4 * pixels.len(),
        flatten_pixels_spec(pixels)[4 * i + channel] == pixels[i]@[channel],
{
    assert((4 * i + channel) / 4 == i && (4 * i + channel) % 4 == channel) by (nonlinear_arith)
        requires
            0 <= channel < 4,
    ;
    assert(4 * i + channel < 4 * pixels.len()) by (nonlinear_arith)
        requires
            0 <= i < pixels.len(),
            0 <= channel < 4,
    ;
}

} // verus!
