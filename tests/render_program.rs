use voronoi_render::gl_error::{GlErrorKind, GlStateError, INVALID_VALUE, NO_ERROR};
use voronoi_render::render::{
    dropped_uploads, scene_calls, upload_outcome, BufferSlot, GlCall, Primitive, RenderRun,
    Upload, UploadError, VertexBuffer,
};

fn ok(handle: u32, components: usize) -> Upload<u32> {
    Ok(VertexBuffer { handle, components })
}

fn failed() -> Upload<u32> {
    Err(UploadError::BufferCreationFailure)
}

fn draw(slot: BufferSlot, primitive: Primitive, vertices: usize) -> Vec<GlCall> {
    vec![
        GlCall::Bind(slot),
        GlCall::ConfigurePosition,
        GlCall::EnablePosition,
        GlCall::Draw(primitive, vertices),
    ]
}

#[test]
fn upload_outcomes() {
    let u = upload_outcome(Some(5u32), 12);
    assert!(matches!(u, Ok(VertexBuffer { handle: 5, components: 12 })));
    let f = upload_outcome(None::<u32>, 12);
    assert!(matches!(f, Err(UploadError::BufferCreationFailure)));
}

#[test]
fn program_with_sites_and_polygons() {
    let polygons = vec![ok(1, 12), ok(2, 9)];
    let calls = scene_calls(&ok(0, 30), &polygons);
    let mut expected = vec![GlCall::Clear, GlCall::UseProgram];
    expected.extend(draw(BufferSlot::Sites, Primitive::Points, 10));
    expected.push(GlCall::UseProgram);
    expected.extend(draw(BufferSlot::Polygon(0), Primitive::LineLoop, 4));
    expected.extend(draw(BufferSlot::Polygon(1), Primitive::LineLoop, 3));
    assert_eq!(calls, expected);
}

#[test]
fn failed_and_empty_polygons_are_skipped() {
    let polygons = vec![failed(), ok(1, 0), ok(2, 6), failed()];
    let calls = scene_calls(&ok(0, 30), &polygons);
    let loops: Vec<&GlCall> = calls
        .iter()
        .filter(|c| matches!(c, GlCall::Draw(Primitive::LineLoop, _)))
        .collect();
    assert_eq!(loops, vec![&GlCall::Draw(Primitive::LineLoop, 2)]);
    assert!(calls.contains(&GlCall::Bind(BufferSlot::Polygon(2))));
    assert!(!calls.contains(&GlCall::Bind(BufferSlot::Polygon(1))));
    assert_eq!(dropped_uploads(&polygons), 2);
}

#[test]
fn no_sites_means_no_point_draw() {
    let calls = scene_calls(&ok(0, 0), &Vec::new());
    assert_eq!(calls, vec![GlCall::Clear, GlCall::UseProgram, GlCall::UseProgram]);
    let calls = scene_calls(&failed(), &vec![ok(1, 3)]);
    let mut expected = vec![GlCall::Clear, GlCall::UseProgram, GlCall::UseProgram];
    expected.extend(draw(BufferSlot::Polygon(0), Primitive::LineLoop, 1));
    assert_eq!(calls, expected);
}

#[test]
fn dropped_count_of_all_good_uploads_is_zero() {
    assert_eq!(dropped_uploads(&vec![ok(1, 3), ok(2, 6)]), 0);
    assert_eq!(dropped_uploads(&Vec::<Upload<u32>>::new()), 0);
}

#[test]
fn run_completes_when_every_code_passes() {
    let calls = scene_calls(&ok(0, 30), &vec![ok(1, 12)]);
    let n = calls.len();
    let mut run = RenderRun::new(calls.clone());
    let mut seen = Vec::new();
    while let Some(call) = run.next_call() {
        seen.push(call);
        assert_eq!(run.report(NO_ERROR), Ok(()));
    }
    assert!(run.is_complete());
    assert_eq!(run.failure(), None);
    assert_eq!(seen, calls);
    assert_eq!(seen.len(), n);
}

#[test]
fn run_stops_at_first_fatal_code() {
    let calls = scene_calls(&ok(0, 30), &vec![ok(1, 12)]);
    let mut run = RenderRun::new(calls.clone());
    assert_eq!(run.next_call(), Some(GlCall::Clear));
    assert_eq!(run.report(NO_ERROR), Ok(()));
    assert_eq!(run.next_call(), Some(GlCall::UseProgram));
    assert_eq!(run.report(0x0504), Ok(()));
    assert_eq!(run.next_call(), Some(GlCall::Bind(BufferSlot::Sites)));
    let err = GlStateError { kind: GlErrorKind::InvalidValue, site: 2 };
    assert_eq!(run.report(INVALID_VALUE), Err(err));
    assert_eq!(run.next_call(), None);
    assert!(!run.is_complete());
    assert_eq!(run.failure(), Some(err));
}
