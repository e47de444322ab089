//! The capped-cylinder mesh and its builder.
//!
//! A cylinder of a given radius and height stands on the XZ plane,
//! centred on the origin. Its surface is sampled as horizontal rings of
//! `resolution` vertices each: `subdivisions + 1` rings along the shaft
//! from the top edge down to the bottom edge, then one extra ring per
//! cap (a centre vertex followed by the rim) so that the caps can carry
//! their own flat normals. The triangle index buffer walks the shaft
//! quads band by band and then fans out both caps.
//!
//! Radius and height are carried as IEEE 754 single-precision bit
//! patterns: the builder never does arithmetic on them, it only decides
//! whether they denote a positive value, and that is a question about
//! the bits alone. The caller that evaluates the mesh numerically turns
//! the bits back into its own floating-point type.

use vstd::prelude::*;
use vstd::arithmetic::div_mod::lemma_fundamental_div_mod_converse;

verus! {

/// Bit pattern of positive infinity in IEEE 754 single precision; every
/// bit pattern at or below it, other than zero, denotes a positive value
/// (sign bit clear, not a NaN), and a comparison with zero accepts
/// exactly those.
pub const F32_POSITIVE_INFINITY_BITS: u32 = 0x7f80_0000;

/// Whether an IEEE 754 single-precision bit pattern denotes a value
/// strictly greater than zero. Patterns with the sign bit set denote
/// negative values or negative zero; pattern zero denotes positive zero;
/// patterns above the positive-infinity pattern (with the sign bit
/// clear) denote NaN, which no ordered comparison accepts.
pub open spec fn f32_bits_positive(bits: u32) -> bool {
    0 < bits <= F32_POSITIVE_INFINITY_BITS
}

/// A cylinder which stands on the XZ plane.
#[derive(Clone, Copy, Debug, PartialEq, Eq, Structural)]
pub struct Cylinder {
    /// Radius of the cylinder (X and Z axis), as an IEEE 754
    /// single-precision bit pattern.
    pub radius_bits: u32,
    /// Height of the cylinder (Y axis), as an IEEE 754 single-precision
    /// bit pattern.
    pub height_bits: u32,
    /// Number of vertices around each horizontal ring.
    pub resolution: u32,
    /// Number of vertical bands along the shaft.
    pub subdivisions: u32,
}

/// The parameter field that a rejected build names.
#[derive(Clone, Copy, Debug, PartialEq, Eq, Structural)]
pub enum ParamField {
    /// The radius was not positive.
    Radius,
    /// The height was not positive.
    Height,
    /// The resolution was zero.
    Resolution,
    /// The subdivision count was zero.
    Subdivisions,
}

/// The single failure of the builder: one of the parameters admits no
/// cylinder. It names the first offending field, in the order radius,
/// height, resolution, subdivisions.
#[derive(Clone, Copy, Debug, PartialEq, Eq, Structural)]
pub struct InvalidParameter {
    /// The first offending field.
    pub field: ParamField,
}

impl InvalidParameter {
    /// A short description of why the named field was rejected.
    pub fn reason(&self) -> (r: &'static str)
        ensures
            self.field is Radius ==> r@ == "radius must be positive"@,
            self.field is Height ==> r@ == "height must be positive"@,
            self.field is Resolution ==> r@ == "resolution must be nonzero"@,
            self.field is Subdivisions ==> r@ == "subdivisions must be nonzero"@,
    {
        match self.field {
            ParamField::Radius => "radius must be positive",
            ParamField::Height => "height must be positive",
            ParamField::Resolution => "resolution must be nonzero",
            ParamField::Subdivisions => "subdivisions must be nonzero",
        }
    }
}

impl Cylinder {
    /// Whether the parameters describe a cylinder: positive radius and
    /// height, at least one vertex per ring, at least one shaft band.
    pub open spec fn params_valid(self) -> bool {
        &&& f32_bits_positive(self.radius_bits)
        &&& f32_bits_positive(self.height_bits)
        &&& self.resolution > 0
        &&& self.subdivisions > 0
    }

    /// The first invalid field, in the order radius, height, resolution,
    /// subdivisions; meaningful only when the parameters are invalid.
    pub open spec fn first_invalid(self) -> ParamField {
        if !f32_bits_positive(self.radius_bits) {
            ParamField::Radius
        } else if !f32_bits_positive(self.height_bits) {
            ParamField::Height
        } else if self.resolution == 0 {
            ParamField::Resolution
        } else {
            ParamField::Subdivisions
        }
    }

    /// Checks the parameters, returning the first offending field.
    pub fn validate(&self) -> (r: Result<(), InvalidParameter>)
        ensures
            r is Ok <==> self.params_valid(),
            r matches Err(e) ==> e.field == self.first_invalid(),
    {
        if !(0 < self.radius_bits && self.radius_bits <= F32_POSITIVE_INFINITY_BITS) {
            Err(InvalidParameter { field: ParamField::Radius })
        } else if !(0 < self.height_bits && self.height_bits <= F32_POSITIVE_INFINITY_BITS) {
            Err(InvalidParameter { field: ParamField::Height })
        } else if self.resolution == 0 {
            Err(InvalidParameter { field: ParamField::Resolution })
        } else if self.subdivisions == 0 {
            Err(InvalidParameter { field: ParamField::Subdivisions })
        } else {
            Ok(())
        }
    }
}

impl Default for Cylinder {
    /// The default cylinder: radius one half, height one (as bit
    /// patterns), twenty vertices per ring, four shaft bands.
    fn default() -> (c: Self)
        ensures
            c.radius_bits == 0x3f00_0000,
            c.height_bits == 0x3f80_0000,
            c.resolution == 20,
            c.subdivisions == 4,
            c.params_valid(),
    {
        Cylinder {
            radius_bits: 0x3f00_0000,
            height_bits: 0x3f80_0000,
            resolution: 20,
            subdivisions: 4,
        }
    }
}

/// What a slot of the vertex buffer stands for. Together with the
/// cylinder parameters it determines the vertex completely: a `Shaft`
/// vertex with ring `i` and angular step `j` sits at angle
/// `j * (2 pi / resolution)` and height `height/2 - i * (height /
/// subdivisions)`; rim vertices sit on their cap's edge at the same
/// angles; centre vertices sit on the Y axis at the cap's height.
#[derive(Clone, Copy, Debug, PartialEq, Eq, Structural)]
pub enum VertexKind {
    /// A perimeter vertex of shaft ring `ring` (ring 0 at the top edge,
    /// ring `subdivisions` at the bottom edge) at angular step `step`.
    Shaft {
        /// The ring, counted from the top edge downwards.
        ring: u32,
        /// The angular step around the ring.
        step: u32,
    },
    /// The centre vertex of the top cap.
    TopCenter,
    /// A perimeter vertex of the top cap at angular step `step`.
    TopRim {
        /// The angular step around the ring.
        step: u32,
    },
    /// The centre vertex of the bottom cap.
    BottomCenter,
    /// A perimeter vertex of the bottom cap at angular step `step`.
    BottomRim {
        /// The angular step around the ring.
        step: u32,
    },
}

/// The shading normal a vertex carries. A radial normal at angular step
/// `j` is the horizontal unit vector at angle `j * (2 pi / resolution)`;
/// `Up` is the unit vector along positive Y and `Down` its opposite.
#[derive(Clone, Copy, Debug, PartialEq, Eq, Structural)]
pub enum NormalKind {
    /// The horizontal unit vector pointing away from the axis at the
    /// given angular step.
    Radial {
        /// The angular step around the ring.
        step: u32,
    },
    /// The unit vector along positive Y.
    Up,
    /// The unit vector along negative Y.
    Down,
}

/// The normal a vertex carries: cap vertices, centre and rim alike, take
/// their cap's flat axial normal; every shaft vertex takes the radial
/// normal of its angular step, whatever its ring.
pub open spec fn normal_kind_of(v: VertexKind) -> NormalKind {
    match v {
        VertexKind::Shaft { ring: _, step } => NormalKind::Radial { step },
        VertexKind::TopCenter => NormalKind::Up,
        VertexKind::TopRim { step: _ } => NormalKind::Up,
        VertexKind::BottomCenter => NormalKind::Down,
        VertexKind::BottomRim { step: _ } => NormalKind::Down,
    }
}

impl VertexKind {
    /// The shading normal this vertex carries.
    pub fn normal_kind(&self) -> (n: NormalKind)
        ensures
            n == normal_kind_of(*self),
    {
        match *self {
            VertexKind::Shaft { ring: _, step } => NormalKind::Radial { step },
            VertexKind::TopCenter => NormalKind::Up,
            VertexKind::TopRim { step: _ } => NormalKind::Up,
            VertexKind::BottomCenter => NormalKind::Down,
            VertexKind::BottomRim { step: _ } => NormalKind::Down,
        }
    }
}

/// Number of vertices of the whole mesh: `resolution` per shaft ring for
/// `subdivisions + 1` rings, plus a rim of `resolution` and a centre
/// vertex per cap.
pub open spec fn vertex_count(res: int, sub: int) -> int {
    res * (sub + 3) + 2
}

/// Slot of the top cap's centre vertex; the shaft rings fill the slots
/// below it, the top rim follows it.
pub open spec fn top_center_slot(res: int, sub: int) -> int {
    res * (sub + 1)
}

/// Slot of the bottom cap's centre vertex; the bottom rim follows it.
pub open spec fn bottom_center_slot(res: int, sub: int) -> int {
    res * (sub + 2) + 1
}

/// What stands at slot `k` of the vertex buffer: the shaft rings from
/// the top edge down, ring by ring and step by step; then the top cap's
/// centre and rim; then the bottom cap's centre and rim.
pub open spec fn vertex_at(res: int, sub: int, k: int) -> VertexKind {
    if k < res * (sub + 1) {
        VertexKind::Shaft { ring: (k / res) as u32, step: (k % res) as u32 }
    } else if k == res * (sub + 1) {
        VertexKind::TopCenter
    } else if k < res * (sub + 2) + 1 {
        VertexKind::TopRim { step: (k - (res * (sub + 1) + 1)) as u32 }
    } else if k == res * (sub + 2) + 1 {
        VertexKind::BottomCenter
    } else {
        VertexKind::BottomRim { step: (k - (res * (sub + 2) + 2)) as u32 }
    }
}

/// Number of entries of the triangle index buffer: two triangles per
/// shaft quad, `subdivisions * resolution` quads, and one triangle per
/// cap rim edge, three entries per triangle.
pub open spec fn index_count(res: int, sub: int) -> int {
    6 * (sub * res) + 6 * res
}

/// Number of triangles of the whole mesh.
pub open spec fn triangle_count(res: int, sub: int) -> int {
    res * (2 * sub + 2)
}

/// What stands at position `p` of the triangle index buffer.
///
/// The shaft comes first: quad `q = i * resolution + j` (band `i` from
/// the top, angular step `j`, the step after it `j1` wrapping around the
/// ring) takes positions `6q .. 6q + 6` with its two triangles
/// `(upper j, upper j1, lower j)` and `(upper j1, lower j1, lower j)`,
/// both wound to face away from the axis. Then the top cap: triangle `j`
/// is `(rim j1, rim j, centre)`, wound to face up. Then the bottom cap:
/// triangle `j` is `(rim j, rim j1, centre)`, the mirrored winding,
/// facing down.
pub open spec fn index_at(res: int, sub: int, p: int) -> int {
    if p < 6 * (sub * res) {
        let q = p / 6;
        let i = q / res;
        let j = q % res;
        let j1 = (j + 1) % res;
        let w = p % 6;
        if w == 0 {
            i * res + j
        } else if w == 1 {
            i * res + j1
        } else if w == 2 {
            (i + 1) * res + j
        } else if w == 3 {
            i * res + j1
        } else if w == 4 {
            (i + 1) * res + j1
        } else {
            (i + 1) * res + j
        }
    } else if p < 6 * (sub * res) + 3 * res {
        let d = p - 6 * (sub * res);
        let j = d / 3;
        let j1 = (j + 1) % res;
        let w = d % 3;
        let rim = res * (sub + 1) + 1;
        if w == 0 {
            rim + j1
        } else if w == 1 {
            rim + j
        } else {
            top_center_slot(res, sub)
        }
    } else {
        let d = p - (6 * (sub * res) + 3 * res);
        let j = d / 3;
        let j1 = (j + 1) % res;
        let w = d % 3;
        let rim = res * (sub + 2) + 2;
        if w == 0 {
            rim + j
        } else if w == 1 {
            rim + j1
        } else {
            bottom_center_slot(res, sub)
        }
    }
}

/// The structure of a built mesh: one `VertexKind` per vertex-buffer
/// slot and the exact triangle index buffer. A well-formed value is
/// completely determined by `resolution` and `subdivisions`; the numeric
/// coordinates then follow from the radius, the height and each slot's
/// `VertexKind`.
#[derive(Debug)]
pub struct MeshLayout {
    /// Number of vertices around each horizontal ring.
    pub resolution: u32,
    /// Number of vertical bands along the shaft.
    pub subdivisions: u32,
    /// What stands at each slot of the vertex buffer.
    pub vertices: Vec<VertexKind>,
    /// The triangle index buffer: each consecutive triple is one
    /// triangle, wound to face outwards.
    pub indices: Vec<u32>,
}

impl MeshLayout {
    /// The layout is exactly the one the parameters prescribe: every
    /// vertex slot holds `vertex_at` of its position and every index
    /// position holds `index_at` of its position, with the prescribed
    /// lengths.
    pub open spec fn wf(self) -> bool {
        let res = self.resolution as int;
        let sub = self.subdivisions as int;
        &&& self.resolution > 0
        &&& self.subdivisions > 0
        &&& self.vertices@.len() == vertex_count(res, sub)
        &&& forall|k: int|
            0 <= k < self.vertices@.len() ==> (#[trigger] self.vertices@[k]) == vertex_at(
                res,
                sub,
                k,
            )
        &&& self.indices@.len() == index_count(res, sub)
        &&& forall|p: int|
            0 <= p < self.indices@.len() ==> (#[trigger] self.indices@[p]) as int == index_at(
                res,
                sub,
                p,
            )
    }

    /// Number of triangles the index buffer encodes.
    pub fn triangle_total(&self) -> (n: usize)
        requires
            self.wf(),
        ensures
            n == triangle_count(self.resolution as int, self.subdivisions as int),
    {
        proof {
            crate::laws::lemma_triangle_count(self.resolution as int, self.subdivisions as int);
        }
        self.indices.len() / 3
    }
}

/// Distributivity facts about the slot thresholds, stated once so the
/// builder's loops and the laws can reason linearly.
pub(crate) proof fn lemma_products(res: int, sub: int)
    by (nonlinear_arith)
    requires
        0 <= res,
        0 <= sub,
    ensures
        res * (sub + 1) == sub * res + res,
        res * (sub + 2) == sub * res + res + res,
        res * (sub + 3) == sub * res + res + res + res,
        (sub + 1) * res == sub * res + res,
        0 <= sub * res,
{
}

/// Law: the shaft vertex of ring `i` and angular step `j` stands at slot
/// `i * res + j`, below every cap slot — so each ring's `res` perimeter
/// vertices appear consecutively, in step order, one ring after the
/// other from the top edge down.
pub proof fn lemma_shaft_slot(res: int, sub: int, i: int, j: int)
    requires
        1 <= res,
        0 <= sub,
        0 <= i <= sub,
        0 <= j < res,
    ensures
        0 <= i * res + j,
        i * res + j < res * (sub + 1),
        vertex_at(res, sub, i * res + j) == (VertexKind::Shaft {
            ring: i as u32,
            step: j as u32,
        }),
{
    let k = i * res + j;
    assert(0 <= i * res + j && i * res + j + 1 <= (i + 1) * res && (i + 1) * res <= res * (sub
        + 1)) by (nonlinear_arith)
        requires
            1 <= res,
            0 <= i <= sub,
            0 <= j < res,
    ;
    lemma_fundamental_div_mod_converse(k, res, i, j);
}

/// The six index-buffer entries of shaft quad `(i, j)` stand at flat
/// positions `6 * (i * res + j) ..` and name the quad's four corners in
/// the outward winding; all four corners are shaft slots.
proof fn lemma_shaft_quad(res: int, sub: int, i: int, j: int)
    requires
        1 <= res,
        1 <= sub,
        0 <= i < sub,
        0 <= j < res,
    ensures
        ({
            let p0 = 6 * (i * res + j);
            let j1 = (j + 1) % res;
            &&& 0 <= j1 < res
            &&& 0 <= p0
            &&& p0 + 6 <= 6 * (sub * res)
            &&& index_at(res, sub, p0) == i * res + j
            &&& index_at(res, sub, p0 + 1) == i * res + j1
            &&& index_at(res, sub, p0 + 2) == (i + 1) * res + j
            &&& index_at(res, sub, p0 + 3) == i * res + j1
            &&& index_at(res, sub, p0 + 4) == (i + 1) * res + j1
            &&& index_at(res, sub, p0 + 5) == (i + 1) * res + j
            &&& (i + 1) * res + j < res * (sub + 1)
            &&& (i + 1) * res + j1 < res * (sub + 1)
        }),
{
    let q = i * res + j;
    let j1 = (j + 1) % res;
    let p0 = 6 * q;
    assert(0 <= j1 < res) by {
        if j + 1 < res {
            lemma_fundamental_div_mod_converse(j + 1, res, 0, j + 1);
        } else {
            lemma_fundamental_div_mod_converse(j + 1, res, 1, 0);
        }
    }
    assert(0 <= i * res + j && i * res + j + 1 <= sub * res && (i + 1) * res + res <= res * (sub
        + 1)) by (nonlinear_arith)
        requires
            1 <= res,
            1 <= sub,
            0 <= i < sub,
            0 <= j < res,
    ;
    lemma_fundamental_div_mod_converse(q, res, i, j);
    lemma_fundamental_div_mod_converse(p0, 6, q, 0);
    lemma_fundamental_div_mod_converse(p0 + 1, 6, q, 1);
    lemma_fundamental_div_mod_converse(p0 + 2, 6, q, 2);
    lemma_fundamental_div_mod_converse(p0 + 3, 6, q, 3);
    lemma_fundamental_div_mod_converse(p0 + 4, 6, q, 4);
    lemma_fundamental_div_mod_converse(p0 + 5, 6, q, 5);
}

/// The three index-buffer entries of top-cap triangle `j` stand right
/// after the shaft block and name two adjacent rim slots and the top
/// centre slot, wound to face up.
proof fn lemma_top_triangle(res: int, sub: int, j: int)
    requires
        1 <= res,
        1 <= sub,
        0 <= j < res,
    ensures
        ({
            let p0 = 6 * (sub * res) + 3 * j;
            let j1 = (j + 1) % res;
            let rim = res * (sub + 1) + 1;
            &&& 0 <= j1 < res
            &&& index_at(res, sub, p0) == rim + j1
            &&& index_at(res, sub, p0 + 1) == rim + j
            &&& index_at(res, sub, p0 + 2) == top_center_slot(res, sub)
            &&& rim + j1 < res * (sub + 2) + 1
            &&& rim + j < res * (sub + 2) + 1
        }),
{
    let p0 = 6 * (sub * res) + 3 * j;
    assert(0 <= (j + 1) % res < res) by {
        if j + 1 < res {
            lemma_fundamental_div_mod_converse(j + 1, res, 0, j + 1);
        } else {
            lemma_fundamental_div_mod_converse(j + 1, res, 1, 0);
        }
    }
    lemma_products(res, sub);
    lemma_fundamental_div_mod_converse(3 * j, 3, j, 0);
    lemma_fundamental_div_mod_converse(3 * j + 1, 3, j, 1);
    lemma_fundamental_div_mod_converse(3 * j + 2, 3, j, 2);
}

/// The three index-buffer entries of bottom-cap triangle `j` stand after
/// the top-cap block and name two adjacent rim slots and the bottom
/// centre slot, in the winding mirrored from the top cap, facing down.
proof fn lemma_bottom_triangle(res: int, sub: int, j: int)
    requires
        1 <= res,
        1 <= sub,
        0 <= j < res,
    ensures
        ({
            let p0 = 6 * (sub * res) + 3 * res + 3 * j;
            let j1 = (j + 1) % res;
            let rim = res * (sub + 2) + 2;
            &&& 0 <= j1 < res
            &&& index_at(res, sub, p0) == rim + j
            &&& index_at(res, sub, p0 + 1) == rim + j1
            &&& index_at(res, sub, p0 + 2) == bottom_center_slot(res, sub)
            &&& rim + j1 < vertex_count(res, sub)
            &&& rim + j < vertex_count(res, sub)
        }),
{
    let p0 = 6 * (sub * res) + 3 * res + 3 * j;
    assert(0 <= (j + 1) % res < res) by {
        if j + 1 < res {
            lemma_fundamental_div_mod_converse(j + 1, res, 0, j + 1);
        } else {
            lemma_fundamental_div_mod_converse(j + 1, res, 1, 0);
        }
    }
    lemma_products(res, sub);
    lemma_fundamental_div_mod_converse(3 * j, 3, j, 0);
    lemma_fundamental_div_mod_converse(3 * j + 1, 3, j, 1);
    lemma_fundamental_div_mod_converse(3 * j + 2, 3, j, 2);
}

impl Cylinder {
    /// Builds the mesh structure for these parameters.
    ///
    /// Valid parameters give the complete layout: every vertex slot and
    /// every index-buffer position holds exactly what `vertex_at` and
    /// `index_at` prescribe, so two builds with equal parameters give
    /// equal layouts, and no partial mesh ever comes back. Invalid
    /// parameters give the error naming the first offending field and
    /// nothing is built. The index format stores vertex slots as 32-bit
    /// integers, which bounds how many vertices a mesh can address.
    #[verifier::loop_isolation(false)]
    pub fn build(&self) -> (r: Result<MeshLayout, InvalidParameter>)
        requires
            vertex_count(self.resolution as int, self.subdivisions as int) <= u32::MAX,
        ensures
            match r {
                Ok(m) => {
                    &&& self.params_valid()
                    &&& m.resolution == self.resolution
                    &&& m.subdivisions == self.subdivisions
                    &&& m.wf()
                },
                Err(e) => {
                    &&& !self.params_valid()
                    &&& e.field == self.first_invalid()
                },
            },
    {
        if let Err(e) = self.validate() {
            return Err(e);
        }
        let res = self.resolution;
        let sub = self.subdivisions;
        let ghost resi = res as int;
        let ghost subi = sub as int;
        proof {
            lemma_products(resi, subi);
            // One vertex per ring at least, so the ring counters and the
            // cap slots stay within the index format's range.
            assert(subi + 3 <= resi * (subi + 3)) by (nonlinear_arith)
                requires
                    1 <= resi,
                    0 <= subi,
            ;
        }

        // Vertex slots: shaft rings from the top edge down, then the top
        // cap's centre and rim, then the bottom cap's.
        let mut vertices: Vec<VertexKind> = Vec::new();
        let mut ring: u32 = 0;
        while ring <= sub
            invariant
                ring <= sub + 1,
                vertices@.len() == ring as int * resi,
                forall|k: int|
                    0 <= k < vertices@.len() ==> vertices@[k] == vertex_at(resi, subi, k),
            decreases sub + 1 - ring,
        {
            let mut j: u32 = 0;
            while j < res
                invariant
                    ring <= sub,
                    j <= res,
                    vertices@.len() == ring as int * resi + j as int,
                    forall|k: int|
                        0 <= k < vertices@.len() ==> vertices@[k] == vertex_at(resi, subi, k),
                decreases res - j,
            {
                proof {
                    lemma_shaft_slot(resi, subi, ring as int, j as int);
                }
                vertices.push(VertexKind::Shaft { ring, step: j });
                j = j + 1;
            }
            proof {
                assert((ring as int + 1) * resi == ring as int * resi + resi) by (nonlinear_arith);
            }
            ring = ring + 1;
        }
        assert(vertices@.len() == res as int * (sub as int + 1));

        vertices.push(VertexKind::TopCenter);
        let mut j: u32 = 0;
        while j < res
            invariant
                j <= res,
                vertices@.len() == resi * (subi + 1) + 1 + j as int,
                forall|k: int|
                    0 <= k < vertices@.len() ==> vertices@[k] == vertex_at(resi, subi, k),
            decreases res - j,
        {
            vertices.push(VertexKind::TopRim { step: j });
            j = j + 1;
        }

        vertices.push(VertexKind::BottomCenter);
        let mut j: u32 = 0;
        while j < res
            invariant
                j <= res,
                vertices@.len() == resi * (subi + 2) + 2 + j as int,
                forall|k: int|
                    0 <= k < vertices@.len() ==> vertices@[k] == vertex_at(resi, subi, k),
            decreases res - j,
        {
            vertices.push(VertexKind::BottomRim { step: j });
            j = j + 1;
        }
        assert(vertices@.len() == vertex_count(resi, subi));

        // Index buffer: the shaft quads band by band, then the cap fans.
        let mut indices: Vec<u32> = Vec::new();
        let mut i: u32 = 0;
        while i < sub
            invariant
                i <= sub,
                indices@.len() == 6 * (i as int * resi),
                forall|p: int|
                    0 <= p < indices@.len() ==> indices@[p] as int == index_at(resi, subi, p),
            decreases sub - i,
        {
            proof {
                assert(i as int * resi + resi <= subi * resi && (i as int + 1) * resi == i as int
                    * resi + resi) by (nonlinear_arith)
                    requires
                        0 <= i < subi,
                        0 <= resi,
                ;
            }
            let base1: u32 = i * res;
            let base2: u32 = base1 + res;
            let mut j: u32 = 0;
            while j < res
                invariant
                    i < sub,
                    j <= res,
                    base1 == i as int * resi,
                    base2 == (i as int + 1) * resi,
                    indices@.len() == 6 * (i as int * resi) + 6 * j as int,
                    forall|p: int|
                        0 <= p < indices@.len() ==> indices@[p] as int == index_at(resi, subi, p),
                decreases res - j,
            {
                let j1: u32 = (j + 1) % res;
                proof {
                    lemma_shaft_quad(resi, subi, i as int, j as int);
                    assert(6 * (i as int * resi + j as int) == 6 * (i as int * resi) + 6
                        * j as int);
                }
                indices.push(base1 + j);
                indices.push(base1 + j1);
                indices.push(base2 + j);
                indices.push(base1 + j1);
                indices.push(base2 + j1);
                indices.push(base2 + j);
                j = j + 1;
            }
            proof {
                assert(6 * ((i as int + 1) * resi) == 6 * (i as int * resi) + 6 * resi)
                    by (nonlinear_arith);
            }
            i = i + 1;
        }
        assert(indices@.len() == 6 * (subi * resi));

        // Top cap fan.
        let top_center: u32 = res * (sub + 1);
        let mut j: u32 = 0;
        while j < res
            invariant
                j <= res,
                top_center == resi * (subi + 1),
                indices@.len() == 6 * (subi * resi) + 3 * j as int,
                forall|p: int|
                    0 <= p < indices@.len() ==> indices@[p] as int == index_at(resi, subi, p),
            decreases res - j,
        {
            let j1: u32 = (j + 1) % res;
            proof {
                lemma_top_triangle(resi, subi, j as int);
            }
            indices.push(top_center + 1 + j1);
            indices.push(top_center + 1 + j);
            indices.push(top_center);
            j = j + 1;
        }

        // Bottom cap fan, with the winding mirrored.
        let bottom_center: u32 = res * (sub + 2) + 1;
        let mut j: u32 = 0;
        while j < res
            invariant
                j <= res,
                bottom_center == resi * (subi + 2) + 1,
                indices@.len() == 6 * (subi * resi) + 3 * resi + 3 * j as int,
                forall|p: int|
                    0 <= p < indices@.len() ==> indices@[p] as int == index_at(resi, subi, p),
            decreases res - j,
        {
            let j1: u32 = (j + 1) % res;
            proof {
                lemma_bottom_triangle(resi, subi, j as int);
            }
            indices.push(bottom_center + 1 + j);
            indices.push(bottom_center + 1 + j1);
            indices.push(bottom_center);
            j = j + 1;
        }
        assert(indices@.len() == index_count(resi, subi));

        Ok(MeshLayout { resolution: res, subdivisions: sub, vertices, indices })
    }
}

} // verus!
