use vstd::prelude::*;

verus! {

/// A vertex attribute of `components` 32-bit floats at byte `offset`, read by shader input
/// `location`.
#[derive(Debug, Clone, Copy, PartialEq, Eq, Structural)]
pub struct VertexAttribute {
    pub location: u32,
    pub offset: u64,
    pub components: u32,
}

/// How a vertex buffer is read: bytes per element, whether it advances per instance or per
/// vertex, and its attributes.
#[derive(Debug, Clone)]
pub struct VertexLayout {
    pub stride: u64,
    pub per_instance: bool,
    pub attributes: Vec<VertexAttribute>,
}

/// Bytes taken by the first `n` attributes when packed back to back.
pub open spec fn packed_bytes(components: Seq<u32>, n: nat) -> nat
    decreases n,
{
    if n == 0 {
        0
    } else {
        packed_bytes(components, (n - 1) as nat) + 4 * (components[n - 1] as nat)
    }
}

/// The layout of attributes of the given float counts, packed back to back in order from
/// shader location `first_location`.
pub open spec fn is_packed(l: VertexLayout, first_location: u32, components: Seq<u32>, per_instance: bool) -> bool {
    &&& l.stride == packed_bytes(components, components.len())
    &&& l.per_instance == per_instance
    &&& l.attributes@.len() == components.len()
    &&& forall|i: int|
        0 <= i < components.len() ==> #[trigger] l.attributes@[i] == (VertexAttribute {
            location: (first_location + i) as u32,
            offset: packed_bytes(components, i as nat) as u64,
            components: components[i],
        })
}

proof fn lemma_packed_bytes_bound(components: Seq<u32>, n: nat)
    requires
        n <= components.len(),
        forall|i: int| 0 <= i < components.len() ==> #[trigger] components[i] <= 4,
    ensures
        packed_bytes(components, n) <= 16 * n,
    decreases n,
{
    if n > 0 {
        lemma_packed_bytes_bound(components, (n - 1) as nat);
    }
}

/// Packs attributes of the given float counts (one to four each) back to back.
pub fn packed_layout(first_location: u32, components: &Vec<u32>, per_instance: bool) -> (r: VertexLayout)
    requires
        first_location + components@.len() <= u32::MAX,
        components@.len() <= 0x1000_0000,
        forall|i: int| 0 <= i < components@.len() ==> 1 <= #[trigger] components@[i] <= 4,
    ensures
        is_packed(r, first_location, components@, per_instance),
{
    let mut attributes: Vec<VertexAttribute> = Vec::new();
    let mut offset: u64 = 0;
    let mut i: usize = 0;
    while i < components.len()
        invariant
            i <= components@.len(),
            first_location + components@.len() <= u32::MAX,
            components@.len() <= 0x1000_0000,
            forall|j: int| 0 <= j < components@.len() ==> 1 <= #[trigger] components@[j] <= 4,
            offset == packed_bytes(components@, i as nat),
            attributes@.len() == i,
            forall|j: int|
                0 <= j < i ==> #[trigger] attributes@[j] == (VertexAttribute {
                    location: (first_location + j) as u32,
                    offset: packed_bytes(components@, j as nat) as u64,
                    components: components@[j],
                }),
        decreases components@.len() - i,
    {
        proof { lemma_packed_bytes_bound(components@, (i + 1) as nat); }
        let c = components[i];
        attributes.push(VertexAttribute { location: first_location + i as u32, offset, components: c });
        offset = offset + 4 * c as u64;
        i = i + 1;
    }
    VertexLayout { stride: offset, per_instance, attributes }
}

/// Float counts of a mesh vertex: position, normal, texture coordinate, tangent, bitangent.
pub open spec fn vertex_components() -> Seq<u32> {
    seq![3u32, 3, 2, 3, 3]
}

/// Float counts of a raw transform: the model matrix as four columns, the normal matrix as
/// three, the inverse-transpose of the model matrix as four.
pub open spec fn transform_components() -> Seq<u32> {
    seq![4u32, 4, 4, 4, 3, 3, 3, 4, 4, 4, 4]
}

/// The mesh vertex, as read from vertex buffer slot 0.
pub struct Vertex;

impl Vertex {
    /// Five attributes from location 0, advancing per vertex; 56 bytes per vertex.
    pub fn layout() -> (r: VertexLayout)
        ensures
            is_packed(r, 0, vertex_components(), false),
            r.stride == 56,
    {
        let mut c: Vec<u32> = Vec::new();
        c.push(3);
        c.push(3);
        c.push(2);
        c.push(3);
        c.push(3);
        assert(c@ =~= vertex_components());
        let r = packed_layout(0, &c, false);
        proof { reveal_with_fuel(packed_bytes, 6); }
        r
    }
}

/// The raw transform of one instance, as read from vertex buffer slot 1: model matrix,
/// normal matrix and inverse-transpose of the model matrix, column by column, as the bit
/// patterns of 41 floats.
#[derive(Debug, Clone, Copy)]
pub struct TransformRaw {
    pub words: [u32; 41],
}

impl TransformRaw {
    /// Eleven attributes from location 5, after the mesh vertex's, advancing per instance;
    /// 164 bytes per instance.
    pub fn layout() -> (r: VertexLayout)
        ensures
            is_packed(r, 5, transform_components(), true),
            r.stride == 164,
    {
        let mut c: Vec<u32> = Vec::new();
        c.push(4);
        c.push(4);
        c.push(4);
        c.push(4);
        c.push(3);
        c.push(3);
        c.push(3);
        c.push(4);
        c.push(4);
        c.push(4);
        c.push(4);
        assert(c@ =~= transform_components());
        let r = packed_layout(5, &c, true);
        proof { reveal_with_fuel(packed_bytes, 12); }
        r
    }
}

} // verus!
