//! The draw program: which buffers are bound and drawn, in which order, and
//! the run that walks that program with the error guard after every call.
use vstd::prelude::*;
use crate::gl_error::{check_gl_error, is_fatal, fatal_kind, GlStateError};

verus! {

/// Why a geometry item has no buffer on the GPU.
#[derive(Clone, Copy, Debug, PartialEq, Eq, Structural)]
pub enum UploadError {
    /// The context could not create the buffer object.
    BufferCreationFailure,
}

/// A buffer on the GPU and how many float components it holds.
#[derive(Clone, Copy, Debug)]
pub struct VertexBuffer<B> {
    pub handle: B,
    pub components: usize,
}

/// What came of uploading one geometry item.
pub type Upload<B> = Result<VertexBuffer<B>, UploadError>;

/// Turns the context's answer to a buffer request into an upload outcome:
/// no buffer object is the recoverable creation failure.
pub fn upload_outcome<B>(created: Option<B>, components: usize) -> (r: Upload<B>)
    ensures
        created is None ==> r == Err::<VertexBuffer<B>, UploadError>(
            UploadError::BufferCreationFailure,
        ),
        created is Some ==> r is Ok && r->Ok_0.handle == created->Some_0
            && r->Ok_0.components == components,
{
    match created {
        Some(handle) => Ok(VertexBuffer { handle, components }),
        None => Err(UploadError::BufferCreationFailure),
    }
}

/// Uploads in a list that failed.
pub open spec fn failed_uploads<B>(uploads: Seq<Upload<B>>) -> nat {
    uploads.filter(|u: Upload<B>| u is Err).len()
}

/// Counts the geometry items that were dropped because their upload failed.
pub fn dropped_uploads<B>(uploads: &Vec<Upload<B>>) -> (r: usize)
    ensures
        r == failed_uploads(uploads@),
{
    let mut count: usize = 0;
    let mut i: usize = 0;
    while i < uploads.len()
        invariant
            i <= uploads.len(),
            count == failed_uploads(uploads@.take(i as int)),
            count <= i,
        decreases uploads.len() - i,
    {
        proof {
            reveal(Seq::filter);
            assert(uploads@.take(i + 1).drop_last() =~= uploads@.take(i as int));
        }
        if uploads[i].is_err() {
            count = count + 1;
        }
        i = i + 1;
    }
    assert(uploads@.take(i as int) =~= uploads@);
    count
}

/// The primitive of a draw pass.
#[derive(Clone, Copy, Debug, PartialEq, Eq, Structural)]
pub enum Primitive {
    Points,
    LineLoop,
}

/// Which buffer a bind names: the site buffer, or the polygon buffer at an
/// index of the polygon upload list.
#[derive(Clone, Copy, Debug, PartialEq, Eq, Structural)]
pub enum BufferSlot {
    Sites,
    Polygon(usize),
}

/// One call on the rendering context.
#[derive(Clone, Copy, Debug, PartialEq, Eq, Structural)]
pub enum GlCall {
    /// Set the background clear color and clear the color buffer.
    Clear,
    /// Make the linked program current.
    UseProgram,
    /// Bind a buffer as the array buffer.
    Bind(BufferSlot),
    /// Describe attribute 0 as three tightly packed, non-normalized floats.
    ConfigurePosition,
    /// Enable attribute 0.
    EnablePosition,
    /// Draw that many vertices from the start of the bound buffer.
    Draw(Primitive, usize),
}

/// Components that an upload puts in front of a draw: none for a failed one.
pub open spec fn uploaded_components<B>(u: Upload<B>) -> usize {
    match u {
        Ok(b) => b.components,
        Err(_) => 0,
    }
}

/// The calls that draw one buffer; none when it holds no whole vertex.
pub open spec fn draw_pass(slot: BufferSlot, components: usize, primitive: Primitive) -> Seq<
    GlCall,
> {
    if components / 3 == 0 {
        seq![]
    } else {
        seq![
            GlCall::Bind(slot),
            GlCall::ConfigurePosition,
            GlCall::EnablePosition,
            GlCall::Draw(primitive, components / 3),
        ]
    }
}

/// The outline pass: one line loop per polygon buffer, in list order.
pub open spec fn outline_pass<B>(polygons: Seq<Upload<B>>) -> Seq<GlCall>
    decreases polygons.len(),
{
    if polygons.len() == 0 {
        seq![]
    } else {
        outline_pass(polygons.drop_last()) + draw_pass(
            BufferSlot::Polygon((polygons.len() - 1) as usize),
            uploaded_components(polygons.last()),
            Primitive::LineLoop,
        )
    }
}

/// The whole program: clear, the site pass, the program bound again, then
/// the outline pass.
pub open spec fn scene_program<B>(sites: Upload<B>, polygons: Seq<Upload<B>>) -> Seq<GlCall> {
    seq![GlCall::Clear, GlCall::UseProgram] + draw_pass(
        BufferSlot::Sites,
        uploaded_components(sites),
        Primitive::Points,
    ) + seq![GlCall::UseProgram] + outline_pass(polygons)
}

fn components_of<B>(u: &Upload<B>) -> (r: usize)
    ensures
        r == uploaded_components(*u),
{
    match u {
        Ok(b) => b.components,
        Err(_) => 0,
    }
}

fn push_draw_pass(calls: &mut Vec<GlCall>, slot: BufferSlot, components: usize, primitive: Primitive)
    ensures
        final(calls)@ == old(calls)@ + draw_pass(slot, components, primitive),
{
    let vertices = components / 3;
    if vertices != 0 {
        calls.push(GlCall::Bind(slot));
        calls.push(GlCall::ConfigurePosition);
        calls.push(GlCall::EnablePosition);
        calls.push(GlCall::Draw(primitive, vertices));
    }
    assert(final(calls)@ =~= old(calls)@ + draw_pass(slot, components, primitive));
}

/// Builds the draw program for the uploaded site and polygon buffers.
/// Failed uploads and buffers without a whole vertex get no calls.
pub fn scene_calls<B>(sites: &Upload<B>, polygons: &Vec<Upload<B>>) -> (r: Vec<GlCall>)
    ensures
        r@ == scene_program(*sites, polygons@),
{
    let mut calls: Vec<GlCall> = Vec::new();
    calls.push(GlCall::Clear);
    calls.push(GlCall::UseProgram);
    push_draw_pass(&mut calls, BufferSlot::Sites, components_of(sites), Primitive::Points);
    calls.push(GlCall::UseProgram);
    let ghost head = calls@;
    let mut i: usize = 0;
    while i < polygons.len()
        invariant
            i <= polygons.len(),
            calls@ == head + outline_pass(polygons@.take(i as int)),
        decreases polygons.len() - i,
    {
        assert(polygons@.take(i + 1).drop_last() =~= polygons@.take(i as int));
        push_draw_pass(
            &mut calls,
            BufferSlot::Polygon(i),
            components_of(&polygons[i]),
            Primitive::LineLoop,
        );
        i = i + 1;
        assert(calls@ =~= head + outline_pass(polygons@.take(i as int)));
    }
    assert(polygons@.take(i as int) =~= polygons@);
    assert(calls@ =~= scene_program(*sites, polygons@));
    calls
}

pub open spec fn is_outline_draw(c: GlCall) -> bool {
    c matches GlCall::Draw(Primitive::LineLoop, _)
}

/// Line-loop draws in a call sequence.
pub open spec fn outline_draws(calls: Seq<GlCall>) -> nat {
    calls.filter(|c: GlCall| is_outline_draw(c)).len()
}

/// Polygon uploads that hold at least one whole vertex.
pub open spec fn drawn_polygons<B>(polygons: Seq<Upload<B>>) -> nat {
    polygons.filter(|u: Upload<B>| uploaded_components(u) / 3 > 0).len()
}

proof fn lemma_outline_pass_draws<B>(polygons: Seq<Upload<B>>)
    ensures
        outline_draws(outline_pass(polygons)) == drawn_polygons(polygons),
    decreases polygons.len(),
{
    broadcast use Seq::filter_distributes_over_add;

    if polygons.len() > 0 {
        let rest = polygons.drop_last();
        let u = polygons.last();
        lemma_outline_pass_draws(rest);
        let pass = draw_pass(
            BufferSlot::Polygon((polygons.len() - 1) as usize),
            uploaded_components(u),
            Primitive::LineLoop,
        );
        let f = |c: GlCall| is_outline_draw(c);
        if uploaded_components(u) / 3 > 0 {
            reveal_with_fuel(Seq::filter, 5);
            assert(pass.filter(f) =~= seq![pass[3]]);
        } else {
            assert(pass.filter(f) =~= Seq::<GlCall>::empty());
        }
        assert(outline_pass(polygons) == outline_pass(rest) + pass);
        let g = |v: Upload<B>| uploaded_components(v) / 3 > 0;
        reveal(Seq::filter);
        assert(polygons.filter(g) == if g(u) {
            rest.filter(g).push(u)
        } else {
            rest.filter(g)
        });
        assert(outline_pass(polygons).filter(f) == outline_pass(rest).filter(f) + pass.filter(f));
    }
}

/// The program holds exactly one line-loop draw for each polygon upload
/// that holds a whole vertex, and no other line-loop draw.
pub proof fn lemma_one_outline_per_polygon<B>(sites: Upload<B>, polygons: Seq<Upload<B>>)
    ensures
        outline_draws(scene_program(sites, polygons)) == drawn_polygons(polygons),
{
    broadcast use Seq::filter_distributes_over_add;

    lemma_outline_pass_draws(polygons);
    let f = |c: GlCall| is_outline_draw(c);
    let head = seq![GlCall::Clear, GlCall::UseProgram] + draw_pass(
        BufferSlot::Sites,
        uploaded_components(sites),
        Primitive::Points,
    ) + seq![GlCall::UseProgram];
    reveal_with_fuel(Seq::filter, 8);
    assert(head.filter(f) =~= Seq::<GlCall>::empty());
    assert(scene_program(sites, polygons) == head + outline_pass(polygons));
}

/// One walk through a draw program. The caller performs the call that
/// `next_call` names, queries the context's error code, and hands it to
/// `report`; the run stops at the first fatal code.
pub struct RenderRun {
    calls: Vec<GlCall>,
    next: usize,
    failure: Option<GlStateError>,
    reported: Ghost<Seq<u32>>,
}

impl RenderRun {
    /// The program being walked.
    pub closed spec fn program(&self) -> Seq<GlCall> {
        self.calls@
    }

    /// Calls performed and reported so far.
    pub closed spec fn done(&self) -> nat {
        self.next as nat
    }

    /// The error codes reported so far, one per performed call.
    pub closed spec fn reported(&self) -> Seq<u32> {
        self.reported@
    }

    /// The fatal error that stopped the run, if any.
    pub closed spec fn failed(&self) -> Option<GlStateError> {
        self.failure
    }

    pub closed spec fn wf(&self) -> bool {
        &&& self.next <= self.calls.len()
        &&& self.reported@.len() == self.next
        &&& match self.failure {
            None => forall|i: int| 0 <= i < self.next ==> !is_fatal(#[trigger] self.reported@[i]),
            Some(e) => {
                &&& self.next > 0
                &&& forall|i: int|
                    0 <= i < self.next - 1 ==> !is_fatal(#[trigger] self.reported@[i])
                &&& fatal_kind(self.reported@[self.next - 1]) == Some(e.kind)
                &&& e.site == self.next - 1
            },
        }
    }

    /// Starts a run at the first call of `calls`.
    pub fn new(calls: Vec<GlCall>) -> (r: RenderRun)
        ensures
            r.wf(),
            r.program() == calls@,
            r.done() == 0,
            r.reported() == Seq::<u32>::empty(),
            r.failed() is None,
    {
        RenderRun { calls, next: 0, failure: None, reported: Ghost(Seq::empty()) }
    }

    /// The call to perform next; `None` once the program is through or a
    /// fatal error stopped it.
    pub fn next_call(&self) -> (r: Option<GlCall>)
        requires
            self.wf(),
        ensures
            r == (if self.failed() is None && self.done() < self.program().len() {
                Some(self.program()[self.done() as int])
            } else {
                None
            }),
    {
        if self.failure.is_none() && self.next < self.calls.len() {
            Some(self.calls[self.next])
        } else {
            None
        }
    }

    /// Hands the run the error code that the context reported after the
    /// call that `next_call` named, and applies the error guard to it.
    pub fn report(&mut self, code: u32) -> (r: Result<(), GlStateError>)
        requires
            old(self).wf(),
            old(self).failed() is None,
            old(self).done() < old(self).program().len(),
        ensures
            final(self).wf(),
            final(self).program() == old(self).program(),
            final(self).done() == old(self).done() + 1,
            final(self).reported() == old(self).reported().push(code),
            r is Ok <==> !is_fatal(code),
            r is Err ==> r->Err_0 == (GlStateError {
                kind: fatal_kind(code)->Some_0,
                site: old(self).done() as usize,
            }),
            final(self).failed() == (match r {
                Ok(_) => None,
                Err(e) => Some(e),
            }),
    {
        let r = check_gl_error(code, self.next);
        self.reported = Ghost(self.reported@.push(code));
        self.next = self.next + 1;
        match r {
            Ok(_) => {},
            Err(e) => {
                self.failure = Some(e);
            },
        }
        r
    }

    /// Whether every call of the program was performed without a fatal error.
    pub fn is_complete(&self) -> (r: bool)
        requires
            self.wf(),
        ensures
            r == (self.failed() is None && self.done() == self.program().len()),
    {
        self.failure.is_none() && self.next == self.calls.len()
    }

    /// The fatal error that stopped the run, if any.
    pub fn failure(&self) -> (r: Option<GlStateError>)
        ensures
            r == self.failed(),
    {
        self.failure
    }
}

/// A run that has completed saw, after every call of the program, a code
/// that the error guard lets pass.
pub proof fn lemma_complete_run_saw_no_fatal_error(run: &RenderRun)
    requires
        run.wf(),
        run.failed() is None,
        run.done() == run.program().len(),
    ensures
        run.reported().len() == run.program().len(),
        forall|i: int| 0 <= i < run.reported().len() ==> !is_fatal(#[trigger] run.reported()[i]),
{
}

} // verus!
