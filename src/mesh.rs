//! Index topology of the shared meshes: a latitude/longitude sphere and a flat
//! annulus (ring). Vertex attributes are computed by the renderer from the grid
//! coordinates; the library fixes how many vertices there are and how they are
//! stitched into triangles.
use vstd::prelude::*;

verus! {

/// Number of vertices of a sphere grid: one per (longitude, latitude) grid point,
/// with the seam column and both pole rows duplicated.
pub open spec fn sphere_vertex_count(lon: int, lat: int) -> int {
    (lon + 1) * (lat + 1)
}

/// The `j`-th index (0..6) of the quad at column `x` and row `y`: two triangles
/// `(i, i+1, next)` and `(i+1, next+1, next)`, where `next` is the grid point
/// right below `i`.
pub open spec fn sphere_corner(lon: int, y: int, x: int, j: int) -> int {
    let i = y * (lon + 1) + x;
    let next = i + lon + 1;
    if j == 0 {
        i
    } else if j == 1 {
        i + 1
    } else if j == 2 {
        next
    } else if j == 3 {
        i + 1
    } else if j == 4 {
        next + 1
    } else {
        next
    }
}

/// Number of vertices of a ring with `segments` segments: an inner and an outer
/// vertex for each of the `segments + 1` spokes.
pub open spec fn ring_vertex_count(segments: int) -> int {
    2 * (segments + 1)
}

/// The `j`-th index (0..6) of ring segment `s`: triangles `(i0, i0+2, i0+1)` and
/// `(i0+1, i0+2, i0+3)` with `i0 = 2 * s`.
pub open spec fn ring_corner(s: int, j: int) -> int {
    let i0 = 2 * s;
    if j == 0 {
        i0
    } else if j == 1 {
        i0 + 2
    } else if j == 2 {
        i0 + 1
    } else if j == 3 {
        i0 + 1
    } else if j == 4 {
        i0 + 2
    } else {
        i0 + 3
    }
}

proof fn lemma_quad_slot(lon: int, y: int, x: int, j: int)
    requires
        lon >= 1,
        0 <= y,
        0 <= x < lon,
        0 <= j < 6,
    ensures
        6 * (y * lon + x) + j < 6 * (y * lon + lon),
        6 * (y * lon + x) + j >= 6 * (y * lon),
        6 * (y * lon + lon) == 6 * ((y + 1) * lon),
{
    assert((y + 1) * lon == y * lon + lon) by (nonlinear_arith);
}

proof fn lemma_grid_bound(y: int, lon: int, lat: int)
    requires
        0 <= y < lat,
        lon >= 0,
    ensures
        (y + 1) * (lon + 1) == y * (lon + 1) + lon + 1,
        (y + 1) * (lon + 1) + lon + 1 <= (lon + 1) * (lat + 1),
        y * (lon + 1) >= 0,
{
    assert((y + 1) * (lon + 1) == y * (lon + 1) + lon + 1) by (nonlinear_arith);
    assert((y + 1) * (lon + 1) <= lat * (lon + 1)) by (nonlinear_arith)
        requires
            y + 1 <= lat,
            lon >= 0,
    ;
    assert(lat * (lon + 1) + lon + 1 == (lon + 1) * (lat + 1)) by (nonlinear_arith);
    assert(y * (lon + 1) >= 0) by (nonlinear_arith)
        requires
            y >= 0,
            lon >= 0,
    ;
}

/// Triangle indices of a sphere grid with the given number of longitude and
/// latitude segments, quad by quad, row by row.
pub fn generate_sphere_indices(longitude_segments: u16, latitude_segments: u16) -> (r: Vec<u16>)
    requires
        sphere_vertex_count(longitude_segments as int, latitude_segments as int) <= 0x10000,
    ensures
        r@.len() == 6 * (longitude_segments as int) * (latitude_segments as int),
        forall|y: int, x: int, j: int|
            0 <= y < latitude_segments && 0 <= x < longitude_segments && 0 <= j < 6
                ==> r@[6 * (y * longitude_segments + x) + j] as int == #[trigger] sphere_corner(
                longitude_segments as int,
                y,
                x,
                j,
            ),
{
    let lon = longitude_segments as u32;
    let lat = latitude_segments as u32;
    let ghost glon = lon as int;
    let mut indices: Vec<u16> = Vec::new();
    let mut y: u32 = 0;
    while y < lat
        invariant
            glon == lon,
            lon == longitude_segments,
            lat == latitude_segments,
            (lon + 1) * (lat + 1) <= 0x10000,
            y <= lat,
            indices@.len() == 6 * (y * glon),
            forall|yy: int, x: int, j: int|
                0 <= yy < y && 0 <= x < lon && 0 <= j < 6 ==> indices@[6 * (yy * glon + x) + j]
                    as int == #[trigger] sphere_corner(glon, yy, x, j),
        decreases lat - y,
    {
        let mut x: u32 = 0;
        while x < lon
            invariant
                glon == lon,
                lon == longitude_segments,
                lat == latitude_segments,
                (lon + 1) * (lat + 1) <= 0x10000,
                y < lat,
                x <= lon,
                indices@.len() == 6 * (y * glon + x),
                forall|yy: int, xx: int, j: int|
                    0 <= yy < y && 0 <= xx < lon && 0 <= j < 6 ==> indices@[6 * (yy * glon + xx)
                        + j] as int == #[trigger] sphere_corner(glon, yy, xx, j),
                forall|xx: int, j: int|
                    0 <= xx < x && 0 <= j < 6 ==> indices@[6 * (y * glon + xx) + j] as int
                        == #[trigger] sphere_corner(glon, y as int, xx, j),
            decreases lon - x,
        {
            proof {
                lemma_grid_bound(y as int, glon, lat as int);
            }
            let i: u32 = y * (lon + 1) + x;
            let next: u32 = i + lon + 1;
            let ghost before = indices@;
            indices.push(i as u16);
            indices.push((i + 1) as u16);
            indices.push(next as u16);
            indices.push((i + 1) as u16);
            indices.push((next + 1) as u16);
            indices.push(next as u16);
            proof {
                let base = 6 * (y * glon + x);
                assert(base == before.len());
                assert forall|yy: int, xx: int, j: int|
                    0 <= yy < y && 0 <= xx < lon && 0 <= j < 6 implies indices@[6 * (yy * glon
                        + xx) + j] as int == #[trigger] sphere_corner(glon, yy, xx, j) by {
                    lemma_quad_slot(glon, yy, xx, j);
                    assert(yy + 1 <= y);
                    assert((yy + 1) * glon <= y * glon) by (nonlinear_arith)
                        requires
                            yy + 1 <= y,
                            glon >= 0,
                    ;
                    assert(indices@[6 * (yy * glon + xx) + j] == before[6 * (yy * glon + xx)
                        + j]);
                }
                assert forall|xx: int, j: int|
                    0 <= xx < x + 1 && 0 <= j < 6 implies indices@[6 * (y * glon + xx) + j] as int
                        == #[trigger] sphere_corner(glon, y as int, xx, j) by {
                    if xx < x {
                        assert(indices@[6 * (y * glon + xx) + j] == before[6 * (y * glon + xx)
                            + j]);
                    } else {
                        assert(6 * (y * glon + xx) + j == base + j);
                    }
                }
            }
            x = x + 1;
        }
        proof {
            assert(6 * (y * glon + glon) == 6 * ((y + 1) * glon)) by (nonlinear_arith);
            assert forall|yy: int, xx: int, j: int|
                0 <= yy < y + 1 && 0 <= xx < lon && 0 <= j < 6 implies indices@[6 * (yy * glon
                    + xx) + j] as int == #[trigger] sphere_corner(glon, yy, xx, j) by {
                if yy == y {
                    assert(sphere_corner(glon, y as int, xx, j) == sphere_corner(glon, yy, xx, j));
                }
            }
        }
        y = y + 1;
    }
    assert(6 * (lat * glon) == 6 * glon * lat) by (nonlinear_arith);
    indices
}

/// Every index of a sphere grid names one of its vertices.
pub proof fn lemma_sphere_indices_in_range(lon: int, lat: int, y: int, x: int, j: int)
    requires
        0 <= y < lat,
        0 <= x < lon,
        0 <= j < 6,
    ensures
        0 <= sphere_corner(lon, y, x, j) < sphere_vertex_count(lon, lat),
{
    lemma_grid_bound(y, lon, lat);
}

/// Triangle indices of a ring with the given number of segments, segment by
/// segment.
pub fn generate_ring_indices(segments: usize) -> (r: Vec<u16>)
    requires
        ring_vertex_count(segments as int) <= 0x10000,
    ensures
        r@.len() == 6 * segments,
        forall|s: int, j: int|
            0 <= s < segments && 0 <= j < 6 ==> r@[6 * s + j] as int == #[trigger] ring_corner(
                s,
                j,
            ),
{
    let mut indices: Vec<u16> = Vec::new();
    let mut s: usize = 0;
    while s < segments
        invariant
            2 * (segments + 1) <= 0x10000,
            s <= segments,
            indices@.len() == 6 * s,
            forall|ss: int, j: int|
                0 <= ss < s && 0 <= j < 6 ==> indices@[6 * ss + j] as int == #[trigger] ring_corner(
                    ss,
                    j,
                ),
        decreases segments - s,
    {
        let i0: u16 = (s * 2) as u16;
        let ghost before = indices@;
        indices.push(i0);
        indices.push(i0 + 2);
        indices.push(i0 + 1);
        indices.push(i0 + 1);
        indices.push(i0 + 2);
        indices.push(i0 + 3);
        proof {
            assert forall|ss: int, j: int|
                0 <= ss < s + 1 && 0 <= j < 6 implies indices@[6 * ss + j] as int
                    == #[trigger] ring_corner(ss, j) by {
                if ss < s {
                    assert(indices@[6 * ss + j] == before[6 * ss + j]);
                }
            }
        }
        s = s + 1;
    }
    indices
}

/// Every index of a ring names one of its vertices.
pub proof fn lemma_ring_indices_in_range(segments: int, s: int, j: int)
    requires
        0 <= s < segments,
        0 <= j < 6,
    ensures
        0 <= ring_corner(s, j) < ring_vertex_count(segments),
{
}

} // verus!
