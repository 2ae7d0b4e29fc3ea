use rand::Rng;
use voronoi::{make_polygons, voronoi, Point};
use voronoi_render::geometry::{vertex_components, Point2};
use voronoi_render::render::{scene_calls, GlCall, Primitive, Upload, VertexBuffer};
use voronoi_render::sampling::{sample_site_count, MIN_SITES, SITES_BOUND};

fn narrowed(poly: &[Point]) -> Vec<Point2<f32>> {
    poly.iter().map(|p| Point2 { x: p.x() as f32, y: p.y() as f32 }).collect()
}

#[test]
fn site_count_is_in_range() {
    let mut rng = rand::thread_rng();
    for _ in 0..200 {
        let n = sample_site_count(&mut rng);
        assert!(MIN_SITES <= n && n < SITES_BOUND);
        assert!(10 <= n && n < 100);
    }
}

#[test]
fn four_corner_sites() {
    let sites = vec![
        Point::new(0.0, 0.0),
        Point::new(1.0, 0.0),
        Point::new(0.0, 1.0),
        Point::new(1.0, 1.0),
    ];
    let polys = make_polygons(&voronoi(sites.clone(), 1.98));
    assert!(polys.len() <= sites.len());
    let total_vertices: usize = polys.iter().map(|p| p.len()).sum();
    assert!(total_vertices > 0);

    let buffers: Vec<Vec<f32>> =
        polys.iter().map(|p| vertex_components(&narrowed(p), 0.0f32)).collect();
    for b in &buffers {
        assert_eq!(b.len() % 3, 0);
    }
    let total_components: usize = buffers.iter().map(|b| b.len()).sum();
    assert_eq!(total_components, 3 * total_vertices);

    let uploads: Vec<Upload<usize>> = buffers
        .iter()
        .enumerate()
        .map(|(i, b)| Ok(VertexBuffer { handle: i, components: b.len() }))
        .collect();
    let site_buffer = vertex_components(&narrowed(&sites), 0.0f32);
    let calls = scene_calls(&Ok(VertexBuffer { handle: 99, components: site_buffer.len() }), &uploads);
    let loops = calls
        .iter()
        .filter(|c| matches!(c, GlCall::Draw(Primitive::LineLoop, _)))
        .count();
    let non_empty = buffers.iter().filter(|b| !b.is_empty()).count();
    assert_eq!(loops, non_empty);
    assert!(calls.contains(&GlCall::Draw(Primitive::Points, 4)));
}

#[test]
fn random_sites_give_polygons() {
    let mut rng = rand::thread_rng();
    let n = sample_site_count(&mut rng);
    let sites: Vec<Point> =
        (0..n).map(|_| Point::new(rng.gen_range(0.0, 2.0), rng.gen_range(0.0, 2.0))).collect();
    let polys = make_polygons(&voronoi(sites, 1.98));
    assert!(!polys.is_empty());
    let total_vertices: usize = polys.iter().map(|p| p.len()).sum();
    assert!(total_vertices > 0);
}
