use voronoi_render::geometry::{vertex_components, Point2, COMPONENTS_PER_POINT};

fn pts(coords: &[(f32, f32)]) -> Vec<Point2<f32>> {
    coords.iter().map(|&(x, y)| Point2 { x, y }).collect()
}

#[test]
fn three_components_per_point_in_order() {
    let points = pts(&[(0.5, 1.5), (1.25, 0.0), (1.999, 0.001)]);
    let c = vertex_components(&points, 0.0f32);
    assert_eq!(c.len(), 3 * points.len());
    assert_eq!(c, vec![0.5, 1.5, 0.0, 1.25, 0.0, 0.0, 1.999, 0.001, 0.0]);
}

#[test]
fn empty_sequence_gives_empty_buffer() {
    let c = vertex_components(&Vec::<Point2<f32>>::new(), 0.0f32);
    assert!(c.is_empty());
}

#[test]
fn narrowed_coordinates_within_tolerance() {
    let sites: Vec<(f64, f64)> = vec![(0.1, 1.9), (1.0 / 3.0, 2.0 / 3.0), (1.23456789, 0.0)];
    let points: Vec<Point2<f32>> =
        sites.iter().map(|&(x, y)| Point2 { x: x as f32, y: y as f32 }).collect();
    let c = vertex_components(&points, 0.0f32);
    assert_eq!(c.len(), COMPONENTS_PER_POINT * sites.len());
    for (k, &(x, y)) in sites.iter().enumerate() {
        assert!((c[3 * k] as f64 - x).abs() < 1e-6);
        assert!((c[3 * k + 1] as f64 - y).abs() < 1e-6);
        assert_eq!(c[3 * k + 2], 0.0);
    }
}

#[test]
fn pad_is_what_the_caller_gives() {
    let points = vec![Point2 { x: 7u32, y: 8u32 }];
    assert_eq!(vertex_components(&points, 9u32), vec![7, 8, 9]);
}

#[test]
fn layout_is_repeatable() {
    let points = pts(&[(0.25, 0.75), (1.5, 1.0)]);
    assert_eq!(vertex_components(&points, 0.0f32), vertex_components(&points, 0.0f32));
}
