//! Structural checks of the built mesh: counts, index bounds, vertex
//! ordering, normal regions, validation, and determinism.

use cylinder_mesh::shapes::{Cylinder, MeshLayout, NormalKind, ParamField, VertexKind};

fn params(resolution: u32, subdivisions: u32) -> Cylinder {
    Cylinder {
        radius_bits: 1.0f32.to_bits(),
        height_bits: 2.0f32.to_bits(),
        resolution,
        subdivisions,
    }
}

fn build(resolution: u32, subdivisions: u32) -> MeshLayout {
    params(resolution, subdivisions).build().expect("valid parameters must build")
}

#[test]
fn vertex_count_invariant() {
    for &(res, sub) in &[(1u32, 1u32), (4, 1), (3, 7), (20, 4), (64, 2)] {
        let m = build(res, sub);
        assert_eq!(m.vertices.len() as u32, res * (sub + 3) + 2);
        assert_eq!(m.resolution, res);
        assert_eq!(m.subdivisions, sub);
    }
}

#[test]
fn index_bounds() {
    for &(res, sub) in &[(1u32, 1u32), (4, 1), (3, 7), (20, 4), (64, 2)] {
        let m = build(res, sub);
        assert_eq!(m.indices.len() % 3, 0);
        for &ix in &m.indices {
            assert!((ix as usize) < m.vertices.len());
        }
    }
}

#[test]
fn triangle_count() {
    for &(res, sub) in &[(1u32, 1u32), (4, 1), (3, 7), (20, 4), (64, 2)] {
        let m = build(res, sub);
        assert_eq!(m.indices.len() as u32, 3 * (res * (2 * sub + 2)));
        assert_eq!(m.triangle_total() as u32, res * (2 * sub + 2));
    }
}

#[test]
fn vertex_layout_order() {
    let m = build(4, 1);
    let mut expected = Vec::new();
    for ring in 0..2u32 {
        for step in 0..4u32 {
            expected.push(VertexKind::Shaft { ring, step });
        }
    }
    expected.push(VertexKind::TopCenter);
    for step in 0..4u32 {
        expected.push(VertexKind::TopRim { step });
    }
    expected.push(VertexKind::BottomCenter);
    for step in 0..4u32 {
        expected.push(VertexKind::BottomRim { step });
    }
    assert_eq!(m.vertices, expected);
}

#[test]
fn index_buffer_smallest_cylinder() {
    let m = build(1, 1);
    // One quad (two degenerate triangles) and one degenerate triangle per
    // cap: the winding pattern is still the prescribed one.
    assert_eq!(m.indices, vec![0, 0, 1, 0, 1, 1, 3, 3, 2, 5, 5, 4]);
}

#[test]
fn shaft_quad_winding() {
    let m = build(4, 2);
    // First quad of the first band: upper ring slots 0 and 1, lower ring
    // slots 4 and 5.
    assert_eq!(&m.indices[0..6], &[0, 1, 4, 1, 5, 4]);
    // Last quad of a band wraps around the ring: steps 3 and 0.
    assert_eq!(&m.indices[18..24], &[3, 0, 7, 0, 4, 7]);
    // Top cap: centre slot 12, rim slots 13.., wound rim j+1, rim j, centre.
    let top = 6 * 2 * 4;
    assert_eq!(&m.indices[top..top + 6], &[14, 13, 12, 15, 14, 12]);
    // Bottom cap: centre slot 17, rim slots 18.., the mirrored winding.
    let bottom = top + 12;
    assert_eq!(&m.indices[bottom..bottom + 6], &[18, 19, 17, 19, 20, 17]);
}

#[test]
fn normal_regions() {
    let res = 5u32;
    let sub = 3u32;
    let m = build(res, sub);
    let shaft = (res * (sub + 1)) as usize;
    let bottom_center = (res * (sub + 2) + 1) as usize;
    for (k, v) in m.vertices.iter().enumerate() {
        let n = v.normal_kind();
        if k < shaft {
            assert_eq!(n, NormalKind::Radial { step: (k as u32) % res });
        } else if k < bottom_center {
            assert_eq!(n, NormalKind::Up);
        } else {
            assert_eq!(n, NormalKind::Down);
        }
    }
}

#[test]
fn invalid_radius_rejected() {
    for bits in [0.0f32.to_bits(), (-1.0f32).to_bits(), f32::NAN.to_bits(), (-0.0f32).to_bits()] {
        let c = Cylinder { radius_bits: bits, ..params(4, 1) };
        let e = c.build().expect_err("nonpositive radius must be rejected");
        assert_eq!(e.field, ParamField::Radius);
        assert_eq!(e.reason(), "radius must be positive");
    }
}

#[test]
fn invalid_height_rejected() {
    let c = Cylinder { height_bits: 0.0f32.to_bits(), ..params(4, 1) };
    let e = c.build().expect_err("zero height must be rejected");
    assert_eq!(e.field, ParamField::Height);
    assert_eq!(e.reason(), "height must be positive");
}

#[test]
fn invalid_resolution_rejected() {
    let e = params(0, 1).build().expect_err("zero resolution must be rejected");
    assert_eq!(e.field, ParamField::Resolution);
    assert_eq!(e.reason(), "resolution must be nonzero");
}

#[test]
fn invalid_subdivisions_rejected() {
    let e = params(4, 0).build().expect_err("zero subdivisions must be rejected");
    assert_eq!(e.field, ParamField::Subdivisions);
    assert_eq!(e.reason(), "subdivisions must be nonzero");
}

#[test]
fn first_invalid_field_wins() {
    let c = Cylinder { radius_bits: 0, height_bits: 0, resolution: 0, subdivisions: 0 };
    let e = c.build().expect_err("invalid parameters must be rejected");
    assert_eq!(e.field, ParamField::Radius);
}

#[test]
fn positive_infinity_is_positive() {
    // An infinite radius compares greater than zero, as the builder's
    // bit-pattern test mirrors.
    let c = Cylinder { radius_bits: f32::INFINITY.to_bits(), ..params(4, 1) };
    assert!(c.build().is_ok());
}

#[test]
fn deterministic_layout() {
    let a = build(20, 4);
    let b = build(20, 4);
    assert_eq!(a.vertices, b.vertices);
    assert_eq!(a.indices, b.indices);
}

#[test]
fn default_parameters() {
    let c = Cylinder::default();
    assert_eq!(c.radius_bits, 0.5f32.to_bits());
    assert_eq!(c.height_bits, 1.0f32.to_bits());
    assert_eq!(c.resolution, 20);
    assert_eq!(c.subdivisions, 4);
}

#[test]
fn default_scenario_counts() {
    let m = Cylinder::default().build().expect("the default cylinder must build");
    assert_eq!(m.vertices.len(), 20 * 7 + 2);
    assert_eq!(m.vertices.len(), 142);
    assert_eq!(m.indices.len(), 3 * 20 * 10);
    assert_eq!(m.indices.len(), 600);
}
