//! Laws that hold of every built mesh, stated over the spec model and
//! proved once and for all: the index buffer encodes whole triangles and
//! never points past the vertex buffer, the cap rings carry exactly
//! their axial normals, and the layout is determined by the parameters.

use vstd::prelude::*;
use vstd::arithmetic::div_mod::{
    lemma_fundamental_div_mod, lemma_fundamental_div_mod_converse, lemma_mod_pos_bound,
};
use crate::shapes::{
    bottom_center_slot, index_at, index_count, normal_kind_of, top_center_slot, triangle_count,
    vertex_at, vertex_count, MeshLayout, NormalKind,
};

verus! {

/// Law: the index buffer's length is a whole number of triangles, and
/// that number is `resolution * (2 * subdivisions + 2)` — two triangles
/// per shaft quad and one per cap rim edge.
pub proof fn lemma_triangle_count(res: int, sub: int)
    requires
        0 <= res,
        0 <= sub,
    ensures
        index_count(res, sub) % 3 == 0,
        index_count(res, sub) / 3 == triangle_count(res, sub),
{
    let ic = 6 * (sub * res) + 6 * res;
    let tc = res * (2 * sub + 2);
    assert(6 * (sub * res) + 6 * res == 3 * (res * (2 * sub + 2))) by (nonlinear_arith);
    lemma_fundamental_div_mod_converse(ic, 3, tc, 0);
}

/// Law: every position of the index buffer names a vertex slot below the
/// vertex count, whichever region of the buffer it falls in.
pub proof fn lemma_index_in_bounds(res: int, sub: int, p: int)
    requires
        1 <= res,
        1 <= sub,
        0 <= p < index_count(res, sub),
    ensures
        0 <= index_at(res, sub, p) < vertex_count(res, sub),
{
    crate::shapes::lemma_products(res, sub);
    if p < 6 * (sub * res) {
        let q = p / 6;
        let w = p % 6;
        lemma_fundamental_div_mod(p, 6);
        lemma_mod_pos_bound(p, 6);
        assert(0 <= q < sub * res);
        let i = q / res;
        let j = q % res;
        lemma_fundamental_div_mod(q, res);
        lemma_mod_pos_bound(q, res);
        assert(0 <= i < sub) by (nonlinear_arith)
            requires
                q == res * i + j,
                0 <= j < res,
                0 <= q < sub * res,
                1 <= res,
                1 <= sub,
        ;
        lemma_mod_pos_bound(j + 1, res);
        let j1 = (j + 1) % res;
        assert(0 <= i * res + j && 0 <= i * res + j1 && (i + 1) * res + j < sub * res + res && (i
            + 1) * res + j1 < sub * res + res && i * res + j < (i + 1) * res + j && i * res + j1
            < (i + 1) * res + j1) by (nonlinear_arith)
            requires
                0 <= i < sub,
                0 <= j < res,
                0 <= j1 < res,
                1 <= res,
        ;
    } else if p < 6 * (sub * res) + 3 * res {
        let d = p - 6 * (sub * res);
        let j = d / 3;
        lemma_fundamental_div_mod(d, 3);
        lemma_mod_pos_bound(d, 3);
        assert(0 <= j < res);
        lemma_mod_pos_bound(j + 1, res);
    } else {
        let d = p - (6 * (sub * res) + 3 * res);
        let j = d / 3;
        lemma_fundamental_div_mod(d, 3);
        lemma_mod_pos_bound(d, 3);
        assert(0 <= j < res);
        lemma_mod_pos_bound(j + 1, res);
    }
}

/// Law: in a well-formed layout every index-buffer entry is a valid
/// position of the vertex buffer, and the buffer holds whole triangles.
pub proof fn lemma_mesh_index_bounds(m: MeshLayout)
    requires
        m.wf(),
    ensures
        forall|p: int|
            0 <= p < m.indices@.len() ==> (m.indices@[p] as int) < m.vertices@.len(),
        m.indices@.len() % 3 == 0,
        m.indices@.len() / 3 == triangle_count(m.resolution as int, m.subdivisions as int),
{
    let res = m.resolution as int;
    let sub = m.subdivisions as int;
    assert forall|p: int| 0 <= p < m.indices@.len() implies (m.indices@[p] as int)
        < m.vertices@.len() by {
        lemma_index_in_bounds(res, sub, p);
    }
    lemma_triangle_count(res, sub);
}

/// Law: the cap rings carry exactly their axial normals — every slot of
/// the top ring, centre and rim alike, normal `Up`; every slot of the
/// bottom ring, normal `Down`; and every shaft slot a radial normal.
pub proof fn lemma_cap_normals(res: int, sub: int, k: int)
    requires
        1 <= res,
        1 <= sub,
    ensures
        top_center_slot(res, sub) <= k < bottom_center_slot(res, sub) ==> normal_kind_of(
            vertex_at(res, sub, k),
        ) == NormalKind::Up,
        bottom_center_slot(res, sub) <= k < vertex_count(res, sub) ==> normal_kind_of(
            vertex_at(res, sub, k),
        ) == NormalKind::Down,
        0 <= k < top_center_slot(res, sub) ==> normal_kind_of(vertex_at(res, sub, k))
            is Radial,
{
    crate::shapes::lemma_products(res, sub);
}

/// Law: in a well-formed layout the cap rings carry exactly their axial
/// normals — every slot from the top centre up to the bottom centre,
/// normal `Up`; every slot from the bottom centre on, normal `Down` —
/// and every slot below the top centre carries the radial normal of its
/// angular step.
pub proof fn lemma_mesh_cap_normals(m: MeshLayout)
    requires
        m.wf(),
    ensures
        forall|k: int|
            top_center_slot(m.resolution as int, m.subdivisions as int) <= k < bottom_center_slot(
                m.resolution as int,
                m.subdivisions as int,
            ) ==> normal_kind_of(#[trigger] m.vertices@[k]) == NormalKind::Up,
        forall|k: int|
            bottom_center_slot(m.resolution as int, m.subdivisions as int) <= k
                < m.vertices@.len() ==> normal_kind_of(#[trigger] m.vertices@[k])
                == NormalKind::Down,
        forall|k: int|
            0 <= k < top_center_slot(m.resolution as int, m.subdivisions as int)
                ==> normal_kind_of(#[trigger] m.vertices@[k]) == (NormalKind::Radial {
                step: (k % (m.resolution as int)) as u32,
            }),
{
    let res = m.resolution as int;
    let sub = m.subdivisions as int;
    crate::shapes::lemma_products(res, sub);
    assert forall|k: int|
        0 <= k < top_center_slot(res, sub) implies normal_kind_of(#[trigger] m.vertices@[k])
        == (NormalKind::Radial { step: (k % res) as u32 }) by {
        lemma_cap_normals(res, sub, k);
    }
}

/// Law: the layout is a function of the parameters alone — two
/// well-formed layouts for the same resolution and subdivision count
/// hold the same vertices and the same indices.
pub proof fn lemma_layout_determined(a: MeshLayout, b: MeshLayout)
    requires
        a.wf(),
        b.wf(),
        a.resolution == b.resolution,
        a.subdivisions == b.subdivisions,
    ensures
        a.vertices@ == b.vertices@,
        a.indices@ == b.indices@,
{
    let res = a.resolution as int;
    let sub = a.subdivisions as int;
    assert forall|k: int| 0 <= k < a.vertices@.len() implies a.vertices@[k] == b.vertices@[k] by {
        assert(a.vertices@[k] == vertex_at(res, sub, k));
        assert(b.vertices@[k] == vertex_at(res, sub, k));
    }
    assert(a.vertices@ =~= b.vertices@);
    assert forall|p: int| 0 <= p < a.indices@.len() implies a.indices@[p] == b.indices@[p] by {
        assert(a.indices@[p] as int == index_at(res, sub, p));
        assert(b.indices@[p] as int == index_at(res, sub, p));
    }
    assert(a.indices@ =~= b.indices@);
}

} // verus!
