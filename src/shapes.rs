use vstd::prelude::*;

use vstd::arithmetic::div_mod::{lemma_div_pos_is_pos, lemma_fundamental_div_mod, lemma_mod_pos_bound};

verus! {

/// Manner in which UV coordinates are distributed vertically on a capsule.
#[derive(Debug, Clone, Copy, PartialEq, Eq, Structural)]
pub enum CapsuleUvProfile {
    /// UV space is distributed by how much of the capsule consists of the hemispheres.
    Aspect,
    /// Hemispheres get UV space according to the ratio of latitudes to rings.
    Uniform,
    /// Upper third of the texture goes to the northern hemisphere, middle third to the
    /// cylinder and lower third to the southern one.
    Fixed,
}


/// A vertex of a shape on the integer grid: position, normal and texture coordinate.
#[derive(Debug, Clone, Copy)]
pub struct ShapeVertex {
    pub position: [i32; 3],
    pub normal: [i32; 3],
    pub uv: [i32; 2],
}

/// An indexed triangle list.
#[derive(Debug, Clone)]
pub struct ShapeMesh {
    pub vertices: Vec<ShapeVertex>,
    pub indices: Vec<u32>,
}

pub open spec fn vertex_is(v: ShapeVertex, p: Seq<i32>, n: Seq<i32>, uv: Seq<i32>) -> bool {
    v.position@ == p && v.normal@ == n && v.uv@ == uv
}

/// Twice the signed area of the triangle's projection on the xy plane.
pub open spec fn signed_area(a: ShapeVertex, b: ShapeVertex, c: ShapeVertex) -> int {
    (b.position[0] - a.position[0]) * (c.position[1] - a.position[1])
        - (b.position[1] - a.position[1]) * (c.position[0] - a.position[0])
}

impl ShapeMesh {
    /// Whole triangles, every index naming a vertex.
    pub open spec fn wf(&self) -> bool {
        &&& self.indices@.len() % 3 == 0
        &&& forall|i: int| 0 <= i < self.indices@.len() ==> (#[trigger] self.indices@[i]) < self.vertices@.len()
    }

    /// Every triangle winds counter-clockwise seen from +z, so it is a front face for
    /// pipelines that take counter-clockwise triangles as front and cull back faces.
    pub open spec fn faces_viewer(&self) -> bool {
        forall|t: int|
            0 <= t < self.indices@.len() / 3 ==> signed_area(
                self.vertices@[self.indices@[3 * t] as int],
                self.vertices@[self.indices@[3 * t + 1] as int],
                #[trigger] self.vertices@[self.indices@[3 * t + 2] as int],
            ) > 0
    }
}

fn vertex(x: i32, y: i32, z: i32, nx: i32, ny: i32, nz: i32, u: i32, v: i32) -> (r: ShapeVertex)
    ensures
        vertex_is(r, seq![x, y, z], seq![nx, ny, nz], seq![u, v]),
        r.position[0] == x,
        r.position[1] == y,
{
    let r = ShapeVertex { position: [x, y, z], normal: [nx, ny, nz], uv: [u, v] };
    assert(r.position@ =~= seq![x, y, z]);
    assert(r.normal@ =~= seq![nx, ny, nz]);
    assert(r.uv@ =~= seq![u, v]);
    r
}

fn two_triangles(a: u32, b: u32, c: u32, d: u32, e: u32, f: u32) -> (r: Vec<u32>)
    ensures
        r@ == seq![a, b, c, d, e, f],
{
    let mut r: Vec<u32> = Vec::new();
    r.push(a);
    r.push(b);
    r.push(c);
    r.push(d);
    r.push(e);
    r.push(f);
    assert(r@ =~= seq![a, b, c, d, e, f]);
    r
}

/// A unit square in the xy plane, from the origin to (1, 1), facing +y in its normals.
#[derive(Debug, Copy, Clone)]
pub struct Quad;

impl Quad {
    pub fn mesh(&self) -> (r: ShapeMesh)
        ensures
            r.wf(),
            r.faces_viewer(),
            r.vertices@.len() == 4,
            vertex_is(r.vertices@[0], seq![0i32, 0, 0], seq![0i32, 1, 0], seq![0i32, 0]),
            vertex_is(r.vertices@[1], seq![1i32, 0, 0], seq![0i32, 1, 0], seq![1i32, 0]),
            vertex_is(r.vertices@[2], seq![1i32, 1, 0], seq![0i32, 1, 0], seq![1i32, 1]),
            vertex_is(r.vertices@[3], seq![0i32, 1, 0], seq![0i32, 1, 0], seq![0i32, 1]),
            r.indices@ == seq![0u32, 1, 3, 2, 3, 1],
    {
        let mut vertices: Vec<ShapeVertex> = Vec::new();
        let a = vertex(0, 0, 0, 0, 1, 0, 0, 0);
        let b = vertex(1, 0, 0, 0, 1, 0, 1, 0);
        let c = vertex(1, 1, 0, 0, 1, 0, 1, 1);
        let d = vertex(0, 1, 0, 0, 1, 0, 0, 1);
        vertices.push(a);
        vertices.push(b);
        vertices.push(c);
        vertices.push(d);
        let r = ShapeMesh { vertices, indices: two_triangles(0, 1, 3, 2, 3, 1) };
        proof {
            assert(r.vertices@ =~= seq![a, b, c, d]);
            assert(signed_area(a, b, d) > 0);
            assert(signed_area(c, d, b) > 0);
            lemma_two_triangles_face_viewer(r);
        }
        r
    }
}

/// A square covering the whole screen in clip space, from (-1, -1) to (1, 1), with texture
/// coordinates that put the top of a texture at the top of the screen.
#[derive(Debug, Copy, Clone)]
pub struct FullscreenQuad;

impl FullscreenQuad {
    pub fn mesh(&self) -> (r: ShapeMesh)
        ensures
            r.wf(),
            r.faces_viewer(),
            r.vertices@.len() == 4,
            vertex_is(r.vertices@[0], seq![-1i32, -1i32, 0], seq![0i32, 0, 0], seq![0i32, 1]),
            vertex_is(r.vertices@[1], seq![1i32, -1i32, 0], seq![0i32, 0, 0], seq![1i32, 1]),
            vertex_is(r.vertices@[2], seq![1i32, 1, 0], seq![0i32, 0, 0], seq![1i32, 0]),
            vertex_is(r.vertices@[3], seq![-1i32, 1, 0], seq![0i32, 0, 0], seq![0i32, 0]),
            r.indices@ == seq![0u32, 1, 2, 0, 2, 3],
    {
        let mut vertices: Vec<ShapeVertex> = Vec::new();
        let a = vertex(-1, -1, 0, 0, 0, 0, 0, 1);
        let b = vertex(1, -1, 0, 0, 0, 0, 1, 1);
        let c = vertex(1, 1, 0, 0, 0, 0, 1, 0);
        let d = vertex(-1, 1, 0, 0, 0, 0, 0, 0);
        vertices.push(a);
        vertices.push(b);
        vertices.push(c);
        vertices.push(d);
        let r = ShapeMesh { vertices, indices: two_triangles(0, 1, 2, 0, 2, 3) };
        proof {
            assert(r.vertices@ =~= seq![a, b, c, d]);
            assert(signed_area(a, b, c) > 0);
            assert(signed_area(a, c, d) > 0);
            lemma_two_triangles_face_viewer(r);
        }
        r
    }
}

proof fn lemma_two_triangles_face_viewer(m: ShapeMesh)
    requires
        m.indices@.len() == 6,
        forall|i: int| 0 <= i < 6 ==> (#[trigger] m.indices@[i]) < m.vertices@.len(),
        signed_area(m.vertices@[m.indices@[0] as int], m.vertices@[m.indices@[1] as int], m.vertices@[m.indices@[2] as int]) > 0,
        signed_area(m.vertices@[m.indices@[3] as int], m.vertices@[m.indices@[4] as int], m.vertices@[m.indices@[5] as int]) > 0,
    ensures
        m.wf(),
        m.faces_viewer(),
{
    assert forall|t: int| 0 <= t < m.indices@.len() / 3 implies signed_area(
        m.vertices@[m.indices@[3 * t] as int],
        m.vertices@[m.indices@[3 * t + 1] as int],
        #[trigger] m.vertices@[m.indices@[3 * t + 2] as int],
    ) > 0 by {
        assert(t == 0 || t == 1);
    }
}

/// Offset, from the lower-left vertex of a grid cell, of corner `c` of the cell's two
/// triangles, in a grid `res + 1` vertices wide.
pub open spec fn cell_corner(res: nat, c: int) -> nat {
    if c == 0 {
        0
    } else if c == 1 || c == 4 {
        res + 1
    } else if c == 2 || c == 3 {
        1
    } else {
        res + 2
    }
}

/// Position in the index list of corner `c` of cell (`x`, `y`).
pub open spec fn grid_slot(res: nat, y: nat, x: nat, c: int) -> int {
    6 * (y * res + x) + c
}

/// The vertex that corner `c` of cell (`x`, `y`) uses.
pub open spec fn grid_vertex(res: nat, y: nat, x: nat, c: int) -> nat {
    y * (res + 1) + x + cell_corner(res, c)
}

proof fn lemma_earlier_cell(res: nat, y0: nat, x0: nat, y: nat, x: nat)
    requires
        x0 < res,
        y0 < y || (y0 == y && x0 < x),
    ensures
        y0 * res + x0 + 1 <= y * res + x,
{
    if y0 < y {
        assert(y0 * res + res <= y * res) by (nonlinear_arith)
            requires y0 < y;
    }
}

proof fn lemma_grid_vertex_bound(res: nat, y: nat, x: nat, c: int)
    requires
        y < res,
        x < res,
        0 <= c < 6,
    ensures
        grid_vertex(res, y, x, c) < (res + 1) * (res + 1),
{
    assert(y * (res + 1) + x + res + 2 < (res + 1) * (res + 1)) by (nonlinear_arith)
        requires y < res, x < res;
}

/// Triangle indices of a flat grid of `resolution` x `resolution` cells whose
/// `(resolution + 1)^2` vertices are numbered row by row: two triangles per cell, every
/// index naming a grid vertex.
pub fn plane_indices(resolution: u32) -> (r: Vec<u32>)
    requires
        (resolution + 1) * (resolution + 1) <= u32::MAX,
    ensures
        r@.len() == 6 * resolution * resolution,
        forall|y: nat, x: nat, c: int|
            y < resolution && x < resolution && 0 <= c < 6 ==> r@[grid_slot(resolution as nat, y, x, c)]
                == #[trigger] grid_vertex(resolution as nat, y, x, c),
        forall|i: int| 0 <= i < r@.len() ==> (#[trigger] r@[i]) < (resolution + 1) * (resolution + 1),
{
    let ghost res = resolution as nat;
    let mut r: Vec<u32> = Vec::new();
    let mut vertex: u32 = 0;
    let mut y: u32 = 0;
    assert((res + 1) * (res + 1) >= res * res + 2 * res + 1) by (nonlinear_arith);
    while y < resolution
        invariant
            res == resolution as nat,
            (res + 1) * (res + 1) <= u32::MAX,
            y <= resolution,
            vertex == y * (res + 1),
            r@.len() == 6 * (y * res),
            forall|y0: nat, x0: nat, c: int|
                y0 < y && x0 < res && 0 <= c < 6 ==> r@[grid_slot(res, y0, x0, c)]
                    == #[trigger] grid_vertex(res, y0, x0, c),
        decreases resolution - y,
    {
        let mut x: u32 = 0;
        while x < resolution
            invariant
                res == resolution as nat,
                (res + 1) * (res + 1) <= u32::MAX,
                y < resolution,
                x <= resolution,
                vertex == y * (res + 1) + x,
                r@.len() == 6 * (y * res + x),
                forall|y0: nat, x0: nat, c: int|
                    (y0 < y || (y0 == y && x0 < x)) && x0 < res && 0 <= c < 6 ==> r@[grid_slot(res, y0, x0, c)]
                        == #[trigger] grid_vertex(res, y0, x0, c),
            decreases resolution - x,
        {
            proof {
                lemma_grid_vertex_bound(res, y as nat, x as nat, 5);
            }
            let ghost before = r@;
            let w = resolution + 1;
            r.push(vertex);
            r.push(vertex + w);
            r.push(vertex + 1);
            r.push(vertex + 1);
            r.push(vertex + w);
            r.push(vertex + w + 1);
            proof {
                assert forall|y0: nat, x0: nat, c: int|
                    (y0 < y || (y0 == y && x0 < x + 1)) && x0 < res && 0 <= c < 6 implies r@[grid_slot(res, y0, x0, c)]
                        == #[trigger] grid_vertex(res, y0, x0, c) by {
                    if y0 < y || x0 < x {
                        lemma_earlier_cell(res, y0, x0, y as nat, x as nat);
                        assert(r@[grid_slot(res, y0, x0, c)] == before[grid_slot(res, y0, x0, c)]);
                    } else {
                        assert(x0 == x && y0 == y);
                    }
                }
            }
            vertex = vertex + 1;
            x = x + 1;
        }
        proof {
            assert(y * (res + 1) + res + 1 == (y + 1) * (res + 1)) by (nonlinear_arith);
            assert(6 * (y * res + res) == 6 * ((y + 1) * res)) by (nonlinear_arith);
            assert((y + 1) * (res + 1) <= (res + 1) * (res + 1)) by (nonlinear_arith)
                requires y < res;
        }
        vertex = vertex + 1;
        y = y + 1;
    }
    proof {
        assert(6 * (y * res) == 6 * resolution * resolution) by (nonlinear_arith)
            requires y == res, res == resolution;
        assert forall|i: int| 0 <= i < r@.len() implies (#[trigger] r@[i]) < (resolution + 1) * (resolution + 1) by {
            let ires = res as int;
            let q = i / 6;
            let c = i % 6;
            assert(q < ires * ires) by (nonlinear_arith)
                requires q == i / 6, 0 <= i < 6 * (ires * ires);
            lemma_fundamental_div_mod(q, ires);
            lemma_mod_pos_bound(q, ires);
            lemma_div_pos_is_pos(q, ires);
            assert(q / ires < ires) by (nonlinear_arith)
                requires q == ires * (q / ires) + q % ires, q % ires >= 0, q < ires * ires, ires > 0;
            let y0 = (q / ires) as nat;
            let x0 = (q % ires) as nat;
            assert(q == y0 * ires + x0) by (nonlinear_arith)
                requires q == ires * (q / ires) + q % ires, y0 == q / ires, x0 == q % ires;
            assert(i == grid_slot(res, y0, x0, c));
            lemma_grid_vertex_bound(res, y0, x0, c);
        }
    }
    r
}

/// Vertices of a cylinder of `res` vertices per ring and `sub` vertical subdivisions: the
/// `sub + 1` rings of the shaft, then the top centre and ring, then the bottom centre and
/// ring.
pub open spec fn cylinder_vertex_count(res: nat, sub: nat) -> nat {
    res * (sub + 3) + 2
}

/// The vertex after `j` around a ring of `res`.
pub open spec fn ring_next(res: nat, j: nat) -> nat {
    if j + 1 < res {
        j + 1
    } else {
        0
    }
}

/// Corner `c` of the two triangles of the shaft quad between rings `i` and `i + 1` at
/// position `j` around them.
pub open spec fn shaft_vertex(res: nat, i: nat, j: nat, c: int) -> nat {
    let b1 = res * i;
    let b2 = b1 + res;
    let j1 = ring_next(res, j);
    if c == 0 {
        b1 + j
    } else if c == 1 || c == 3 {
        b1 + j1
    } else if c == 2 || c == 5 {
        b2 + j
    } else {
        b2 + j1
    }
}

/// Corner `c` of the cap triangle at position `j`: the top cap winds one way, the bottom
/// cap the other, each around its centre vertex.
pub open spec fn cap_vertex(res: nat, sub: nat, top: bool, j: nat, c: int) -> nat {
    let center = if top {
        res * (sub + 1)
    } else {
        res * (sub + 1) + res + 1
    };
    let j1 = ring_next(res, j);
    if c == 2 {
        center
    } else if (c == 0) == top {
        center + 1 + j1
    } else {
        center + 1 + j
    }
}

pub open spec fn shaft_slot(res: nat, i: nat, j: nat, c: int) -> int {
    6 * (i * res + j) + c
}

proof fn lemma_cylinder_bounds(res: nat, sub: nat, i: nat)
    requires
        i < sub,
    ensures
        res * i + res + res <= res * (sub + 1),
        res * (sub + 1) + res + 1 + res < cylinder_vertex_count(res, sub),
        6 * (i * res + res) <= 6 * (sub * res),
{
    assert(res * i + res + res <= res * (sub + 1)) by (nonlinear_arith)
        requires i < sub;
    assert(res * (sub + 1) + res + 1 + res < res * (sub + 3) + 2) by (nonlinear_arith);
    assert(i * res + res <= sub * res) by (nonlinear_arith)
        requires i < sub;
}

/// Triangle indices of a cylinder: two triangles per shaft quad, ring by ring, then one
/// triangle per top cap segment, then one per bottom cap segment; every index names one of
/// its vertices.
pub fn cylinder_indices(resolution: u32, subdivisions: u32) -> (r: Vec<u32>)
    requires
        resolution > 0,
        subdivisions > 0,
        cylinder_vertex_count(resolution as nat, subdivisions as nat) <= u32::MAX,
    ensures
        r@.len() == 6 * (subdivisions * resolution) + 6 * resolution,
        forall|i: nat, j: nat, c: int|
            i < subdivisions && j < resolution && 0 <= c < 6 ==> r@[shaft_slot(resolution as nat, i, j, c)]
                == #[trigger] shaft_vertex(resolution as nat, i, j, c),
        forall|j: nat, c: int|
            j < resolution && 0 <= c < 3 ==> r@[6 * (subdivisions * resolution) + 3 * j + c]
                == #[trigger] cap_vertex(resolution as nat, subdivisions as nat, true, j, c),
        forall|j: nat, c: int|
            j < resolution && 0 <= c < 3 ==> r@[6 * (subdivisions * resolution) + 3 * resolution + 3 * j + c]
                == #[trigger] cap_vertex(resolution as nat, subdivisions as nat, false, j, c),
        forall|k: int| 0 <= k < r@.len() ==> (#[trigger] r@[k]) < cylinder_vertex_count(resolution as nat, subdivisions as nat),
{
    let ghost res = resolution as nat;
    let ghost sub = subdivisions as nat;
    let ghost count = cylinder_vertex_count(res, sub);
    let mut r: Vec<u32> = Vec::new();
    let mut i: u32 = 0;
    while i < subdivisions
        invariant
            res == resolution as nat && sub == subdivisions as nat && count == cylinder_vertex_count(res, sub),
            res > 0,
            count <= u32::MAX,
            i <= subdivisions,
            r@.len() == 6 * (i * res),
            forall|i0: nat, j0: nat, c: int|
                i0 < i && j0 < res && 0 <= c < 6 ==> r@[shaft_slot(res, i0, j0, c)] == #[trigger] shaft_vertex(res, i0, j0, c),
            forall|k: int| 0 <= k < r@.len() ==> (#[trigger] r@[k]) < count,
        decreases subdivisions - i,
    {
        proof { lemma_cylinder_bounds(res, sub, i as nat); }
        let b1 = resolution * i;
        let b2 = b1 + resolution;
        let mut j: u32 = 0;
        while j < resolution
            invariant
                res == resolution as nat && sub == subdivisions as nat && count == cylinder_vertex_count(res, sub),
                res > 0,
                count <= u32::MAX,
                i < subdivisions,
                b1 == res * i,
                b2 == b1 + res,
                b2 + res <= res * (sub + 1),
                res * (sub + 1) < count,
                j <= resolution,
                r@.len() == 6 * (i * res + j),
                forall|i0: nat, j0: nat, c: int|
                    (i0 < i || (i0 == i && j0 < j)) && j0 < res && 0 <= c < 6 ==> r@[shaft_slot(res, i0, j0, c)]
                        == #[trigger] shaft_vertex(res, i0, j0, c),
                forall|k: int| 0 <= k < r@.len() ==> (#[trigger] r@[k]) < count,
            decreases resolution - j,
        {
            let j1 = if j + 1 < resolution { j + 1 } else { 0 };
            let ghost before = r@;
            r.push(b1 + j);
            r.push(b1 + j1);
            r.push(b2 + j);
            r.push(b1 + j1);
            r.push(b2 + j1);
            r.push(b2 + j);
            proof {
                assert forall|i0: nat, j0: nat, c: int|
                    (i0 < i || (i0 == i && j0 < j + 1)) && j0 < res && 0 <= c < 6 implies r@[shaft_slot(res, i0, j0, c)]
                        == #[trigger] shaft_vertex(res, i0, j0, c) by {
                    if i0 < i || j0 < j {
                        lemma_earlier_cell(res, i0, j0, i as nat, j as nat);
                        assert(r@[shaft_slot(res, i0, j0, c)] == before[shaft_slot(res, i0, j0, c)]);
                    }
                }
                assert forall|k: int| 0 <= k < r@.len() implies (#[trigger] r@[k]) < count by {
                    if k < before.len() {
                        assert(r@[k] == before[k]);
                    }
                }
            }
            j = j + 1;
        }
        proof {
            assert(6 * (i * res + res) == 6 * ((i + 1) * res)) by (nonlinear_arith);
        }
        i = i + 1;
    }
    let ghost shaft_len = r@.len();
    assert(shaft_len == 6 * (subdivisions * resolution));
    proof {
        lemma_cylinder_bounds(res, sub, (sub - 1) as nat);
        assert(sub + 1 <= res * (sub + 1)) by (nonlinear_arith)
            requires res >= 1;
    }
    let top = resolution * (subdivisions + 1);
    let bottom = top + resolution + 1;
    let mut k: u32 = 0;
    while k < 2 * resolution
        invariant
            res == resolution as nat && sub == subdivisions as nat && count == cylinder_vertex_count(res, sub),
            res > 0,
            top == res * (sub + 1),
            bottom == top + res + 1,
            bottom + res < count,
            count <= u32::MAX,
            k <= 2 * res,
            shaft_len == 6 * (sub * res),
            r@.len() == shaft_len + 3 * k,
            forall|i0: nat, j0: nat, c: int|
                i0 < sub && j0 < res && 0 <= c < 6 ==> r@[shaft_slot(res, i0, j0, c)] == #[trigger] shaft_vertex(res, i0, j0, c),
            forall|j0: nat, c: int|
                j0 < res && j0 < k && 0 <= c < 3 ==> r@[shaft_len + 3 * j0 + c] == #[trigger] cap_vertex(res, sub, true, j0, c),
            forall|j0: nat, c: int|
                j0 < res && res + j0 < k && 0 <= c < 3 ==> r@[shaft_len + 3 * res + 3 * j0 + c]
                    == #[trigger] cap_vertex(res, sub, false, j0, c),
            forall|q: int| 0 <= q < r@.len() ==> (#[trigger] r@[q]) < count,
        decreases 2 * resolution - k,
    {
        let is_top = k < resolution;
        let j = if is_top { k } else { k - resolution };
        let j1 = if j + 1 < resolution { j + 1 } else { 0 };
        let center = if is_top { top } else { bottom };
        let ghost before = r@;
        if is_top {
            r.push(center + 1 + j1);
            r.push(center + 1 + j);
        } else {
            r.push(center + 1 + j);
            r.push(center + 1 + j1);
        }
        r.push(center);
        proof {
            assert forall|i0: nat, j0: nat, c: int|
                i0 < sub && j0 < res && 0 <= c < 6 implies r@[shaft_slot(res, i0, j0, c)] == #[trigger] shaft_vertex(res, i0, j0, c) by {
                lemma_earlier_cell(res, i0, j0, sub, 0);
                assert(r@[shaft_slot(res, i0, j0, c)] == before[shaft_slot(res, i0, j0, c)]);
            }
            assert forall|q: int| 0 <= q < r@.len() implies (#[trigger] r@[q]) < count by {
                if q < before.len() {
                    assert(r@[q] == before[q]);
                }
            }
            assert forall|j0: nat, c: int|
                j0 < res && j0 < k + 1 && 0 <= c < 3 implies r@[shaft_len + 3 * j0 + c] == #[trigger] cap_vertex(res, sub, true, j0, c) by {
                if j0 < k {
                    assert(r@[shaft_len + 3 * j0 + c] == before[shaft_len + 3 * j0 + c]);
                }
            }
            assert forall|j0: nat, c: int|
                j0 < res && res + j0 < k + 1 && 0 <= c < 3 implies r@[shaft_len + 3 * res + 3 * j0 + c]
                    == #[trigger] cap_vertex(res, sub, false, j0, c) by {
                if res + j0 < k {
                    assert(r@[shaft_len + 3 * res + 3 * j0 + c] == before[shaft_len + 3 * res + 3 * j0 + c]);
                }
            }
        }
        k = k + 1;
    }
    r
}

} // verus!
