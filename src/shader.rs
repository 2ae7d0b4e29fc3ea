//! The fixed shader program and what a compile or a link attempt yields.
use vstd::prelude::*;

verus! {

/// Vertex stage: moves the `[0, 2)` sample square onto clip space and draws
/// points three pixels wide.
pub const VERTEX_SHADER_SOURCE: &'static str = "
        attribute vec4 position;
        void main() {
            gl_Position = position + vec4(-1,-1,0,0);
            gl_PointSize = 3.0;
        }
    ";

/// Fragment stage: opaque black.
pub const FRAGMENT_SHADER_SOURCE: &'static str = "
        void main() {
            gl_FragColor = vec4(0.0, 0.0, 0.0, 1.0);
        }
    ";

/// The context's code for a vertex shader.
pub const VERTEX_SHADER: u32 = 0x8B31;

/// The context's code for a fragment shader.
pub const FRAGMENT_SHADER: u32 = 0x8B30;

/// The message when the context gives no shader or program object.
pub open spec fn no_object_message() -> Seq<char> {
    "Unable to create shader object"@
}

/// The message when a failed compile leaves no log.
pub open spec fn no_compile_log_message() -> Seq<char> {
    "Unknown error creating shader"@
}

/// The message when a failed link leaves no log.
pub open spec fn no_link_log_message() -> Seq<char> {
    "Unknown error creating program object"@
}

/// What a compile or link yields: the object where the status is a true
/// boolean; else the log, or `fallback` where there is none.
pub open spec fn build_result<H>(
    object: H,
    status: Option<bool>,
    log: Option<Seq<char>>,
    fallback: Seq<char>,
) -> Result<H, Seq<char>> {
    if status == Some(true) {
        Ok(object)
    } else {
        match log {
            Some(text) => Err(text),
            None => Err(fallback),
        }
    }
}

pub open spec fn string_result<H>(r: Result<H, String>) -> Result<H, Seq<char>> {
    match r {
        Ok(h) => Ok(h),
        Err(s) => Err(s@),
    }
}

pub open spec fn log_view(log: Option<String>) -> Option<Seq<char>> {
    match log {
        Some(s) => Some(s@),
        None => None,
    }
}

/// The object that the context created, or the error for none.
pub fn created_object<H>(object: Option<H>) -> (r: Result<H, String>)
    ensures
        object is Some ==> r == Ok::<H, String>(object->Some_0),
        object is None ==> r is Err && r->Err_0@ == no_object_message(),
{
    match object {
        Some(h) => Ok(h),
        None => Err("Unable to create shader object".to_owned()),
    }
}

fn build_outcome<H>(object: H, status: Option<bool>, log: Option<String>, fallback: &str) -> (r:
    Result<H, String>)
    ensures
        string_result(r) == build_result(object, status, log_view(log), fallback@),
{
    if status == Some(true) {
        Ok(object)
    } else {
        match log {
            Some(text) => Err(text),
            None => Err(fallback.to_owned()),
        }
    }
}

/// What a compile of `shader` yields, from the compile status that the
/// context reported (`None` where it was no boolean) and its info log.
pub fn compile_outcome<H>(shader: H, status: Option<bool>, log: Option<String>) -> (r: Result<
    H,
    String,
>)
    ensures
        string_result(r) == build_result(shader, status, log_view(log), no_compile_log_message()),
{
    proof {
        reveal_strlit("Unknown error creating shader");
    }
    build_outcome(shader, status, log, "Unknown error creating shader")
}

/// What a link of `program` yields, from the link status that the context
/// reported (`None` where it was no boolean) and its info log.
pub fn link_outcome<H>(program: H, status: Option<bool>, log: Option<String>) -> (r: Result<
    H,
    String,
>)
    ensures
        string_result(r) == build_result(program, status, log_view(log), no_link_log_message()),
{
    proof {
        reveal_strlit("Unknown error creating program object");
    }
    build_outcome(program, status, log, "Unknown error creating program object")
}

} // verus!
