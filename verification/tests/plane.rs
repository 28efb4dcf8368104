use voxel_mesh::{draw_plane, fourth_corner, Color, Point, Rgb, TexCoord, Vertex};

fn positions(verts: &[Vertex]) -> Vec<Point> {
    verts.iter().map(|v| v.position).collect()
}

fn uvs(verts: &[Vertex]) -> Vec<(f32, f32)> {
    verts.iter().map(|v| (v.uv.u as f32, v.uv.v as f32)).collect()
}

#[test]
fn face_builder_round_trip() {
    let p1 = Point::new(0, 0, 0);
    let p2 = Point::new(0, 1, 0);
    let p3 = Point::new(1, 1, 0);
    let p4 = Point::new(1, 0, 0);
    assert_eq!(fourth_corner(p1, p2, p3), Some(p4));
    let verts = draw_plane(p1, p2, p3, Color::new(255, 255, 255, 255));
    assert_eq!(verts.len(), 6);
    assert_eq!(positions(&verts), vec![p1, p2, p4, p2, p4, p3]);
    assert_eq!(
        uvs(&verts),
        vec![(0.0, 0.0), (1.0, 0.0), (0.0, 1.0), (1.0, 0.0), (0.0, 1.0), (1.0, 1.0)]
    );
}

#[test]
fn face_builder_uvs_are_fixed() {
    let verts = draw_plane(
        Point::new(-7, 3, 12),
        Point::new(5, 5, 5),
        Point::new(9, -2, 0),
        Color::new(1, 2, 3, 4),
    );
    let want = vec![
        TexCoord { u: 0, v: 0 },
        TexCoord { u: 1, v: 0 },
        TexCoord { u: 0, v: 1 },
        TexCoord { u: 1, v: 0 },
        TexCoord { u: 0, v: 1 },
        TexCoord { u: 1, v: 1 },
    ];
    let got: Vec<TexCoord> = verts.iter().map(|v| v.uv).collect();
    assert_eq!(got, want);
}

#[test]
fn fourth_corner_completes_the_parallelogram() {
    // p4 = p2 - (p2 - p1) - (p2 - p3)
    let p1 = Point::new(-7, 3, 12);
    let p2 = Point::new(5, 5, 5);
    let p3 = Point::new(9, -2, 0);
    assert_eq!(fourth_corner(p1, p2, p3), Some(Point::new(-3, -4, 7)));
    let verts = draw_plane(p1, p2, p3, Color::new(0, 0, 0, 0));
    assert_eq!(
        positions(&verts),
        vec![p1, p2, Point::new(-3, -4, 7), p2, Point::new(-3, -4, 7), p3]
    );
}

#[test]
fn fourth_corner_of_a_degenerate_quad() {
    let p = Point::new(4, 4, 4);
    assert_eq!(fourth_corner(p, p, p), Some(p));
    let verts = draw_plane(p, p, p, Color::new(9, 9, 9, 9));
    assert_eq!(positions(&verts), vec![p, p, p, p, p, p]);
}

#[test]
fn fourth_corner_at_the_limits_of_a_coordinate() {
    let lo = i32::MIN;
    let hi = i32::MAX;
    // hi + hi - lo does not fit
    assert_eq!(
        fourth_corner(Point::new(hi, 0, 0), Point::new(lo, 0, 0), Point::new(hi, 0, 0)),
        None
    );
    // lo + lo - hi does not fit
    assert_eq!(
        fourth_corner(Point::new(0, lo, 0), Point::new(0, hi, 0), Point::new(0, lo, 0)),
        None
    );
    assert_eq!(
        fourth_corner(Point::new(0, 0, 1), Point::new(0, 0, 0), Point::new(0, 0, hi)),
        None
    );
    // the differences overflow on the way, the result does not
    assert_eq!(
        fourth_corner(Point::new(hi, lo, 0), Point::new(lo, hi, 0), Point::new(lo, hi, 0)),
        Some(Point::new(hi, lo, 0))
    );
    assert_eq!(
        fourth_corner(Point::new(hi, 0, 0), Point::new(0, 0, 0), Point::new(0, 0, 0)),
        Some(Point::new(hi, 0, 0))
    );
}

#[test]
fn colour_is_the_same_on_all_six_vertices() {
    let col = Color::new(12, 200, 34, 77);
    let verts = draw_plane(Point::new(0, 0, 0), Point::new(0, 2, 0), Point::new(3, 2, 0), col);
    assert_eq!(verts.len(), 6);
    for v in &verts {
        assert_eq!(v.color, Rgb { r: 12, g: 200, b: 34 });
    }
}

#[test]
fn draw_plane_gives_the_same_vertices_each_time() {
    let p1 = Point::new(1, 2, 3);
    let p2 = Point::new(1, 5, 3);
    let p3 = Point::new(4, 5, 3);
    let col = Color::new(0, 255, 255, 255);
    assert_eq!(draw_plane(p1, p2, p3, col), draw_plane(p1, p2, p3, col));
}
