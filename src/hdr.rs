//! Sizes used when the skybox's equirectangular image is projected onto the
//! six layers of a cube map by a compute pass.
use vstd::prelude::*;

verus! {

/// Layers of a cube map.
pub const CUBEMAP_LAYERS: u32 = 6;

/// Side of the square workgroup of the projection pass, in texels.
pub const WORKGROUP_SIZE: u32 = 16;

/// Bytes of one RGBA texel with 32-bit float channels.
pub const TEXEL_BYTES: u32 = 16;

/// Workgroups to dispatch along x, y and layers to cover a cube map whose
/// faces are `dst_size` texels wide: enough squares to cover each face, one
/// layer per face.
pub fn cube_dispatch(dst_size: u32) -> (r: (u32, u32, u32))
    ensures
        r.0 == r.1,
        r.0 * WORKGROUP_SIZE >= dst_size,
        r.0 == 0 || (r.0 - 1) * WORKGROUP_SIZE < dst_size,
        r.2 == CUBEMAP_LAYERS,
{
    let n = dst_size / WORKGROUP_SIZE + if dst_size % WORKGROUP_SIZE == 0 {
        0
    } else {
        1
    };
    (n, n, CUBEMAP_LAYERS)
}

/// Bytes in one row of an RGBA float image `width` texels wide, or `None`
/// when that does not fit in a `u32`.
pub fn row_bytes(width: u32) -> (r: Option<u32>)
    ensures
        r == (if width * TEXEL_BYTES <= u32::MAX {
            Some((width * TEXEL_BYTES) as u32)
        } else {
            None
        }),
{
    width.checked_mul(TEXEL_BYTES)
}

} // verus!
