//! Shader program construction outcomes.
//!
//! A program is built once per stage: compile a vertex shader, compile
//! a fragment shader, link the pair. Each device step reports whether
//! the object could be created, whether the step succeeded, and any
//! diagnostic text. Every failure is fatal for the pipeline — there is
//! no retry or fallback program — so the logic here pins down exactly
//! which diagnostic is surfaced for which report, and that a program
//! handle comes back precisely when every step succeeded: a program is
//! either fully linked and usable or construction fails.

use vstd::prelude::*;

verus! {

/// What the device reported for one build step: whether the object
/// could be created at all, whether the compile or link succeeded, and
/// the diagnostic text, if the device had any to give.
#[derive(Clone, Debug)]
pub struct BuildReport {
    pub created: bool,
    pub status: bool,
    pub info_log: Option<String>,
}

impl BuildReport {
    /// A step succeeded when its object was created and its status flag
    /// came back set.
    pub open spec fn ok(&self) -> bool {
        self.created && self.status
    }
}

/// The message surfaced when the device refuses to create the object.
pub open spec fn create_failure_msg() -> Seq<char> {
    "Unable to create shader object"@
}

/// The fallback message for a failed compile without a diagnostic.
pub open spec fn unknown_shader_msg() -> Seq<char> {
    "Unknown error creating shader"@
}

/// The fallback message for a failed link without a diagnostic.
pub open spec fn unknown_program_msg() -> Seq<char> {
    "Unknown error creating program object"@
}

/// The diagnostic text a failed build step surfaces: the fixed creation
/// message when no object was created, else the device's own log when
/// it gave one, else the step's fallback message.
pub open spec fn build_error_text(report: BuildReport, fallback: Seq<char>) -> Seq<char> {
    if !report.created {
        create_failure_msg()
    } else {
        match report.info_log {
            Some(log) => log@,
            None => fallback,
        }
    }
}

/// The outcome of one shader compile attempt: the shader's handle
/// exactly when the device reported success, otherwise the diagnostic
/// text to surface to the operator.
pub fn compile_outcome(shader: u32, report: BuildReport) -> (r: Result<u32, String>)
    ensures
        r is Ok <==> report.ok(),
        r matches Ok(h) ==> h == shader,
        r matches Err(e) ==> e@ == build_error_text(report, unknown_shader_msg()),
{
    if !report.created {
        Err("Unable to create shader object".to_owned())
    } else if report.status {
        Ok(shader)
    } else {
        match report.info_log {
            Some(log) => Err(log),
            None => Err("Unknown error creating shader".to_owned()),
        }
    }
}

/// The outcome of one program link attempt: the program's handle
/// exactly when the device reported success, otherwise the diagnostic
/// text to surface to the operator.
pub fn link_outcome(program: u32, report: BuildReport) -> (r: Result<u32, String>)
    ensures
        r is Ok <==> report.ok(),
        r matches Ok(h) ==> h == program,
        r matches Err(e) ==> e@ == build_error_text(report, unknown_program_msg()),
{
    if !report.created {
        Err("Unable to create shader object".to_owned())
    } else if report.status {
        Ok(program)
    } else {
        match report.info_log {
            Some(log) => Err(log),
            None => Err("Unknown error creating program object".to_owned()),
        }
    }
}

/// The whole program build at stage construction: vertex compile, then
/// fragment compile, then link. The first failing step aborts the build
/// with its own diagnostic; the program handle comes back exactly when
/// all three steps succeeded.
pub fn build_program(
    vert_shader: u32,
    vert_report: BuildReport,
    frag_shader: u32,
    frag_report: BuildReport,
    program: u32,
    link_report: BuildReport,
) -> (r: Result<u32, String>)
    ensures
        r is Ok <==> (vert_report.ok() && frag_report.ok() && link_report.ok()),
        r matches Ok(h) ==> h == program,
        !vert_report.ok() ==> (r matches Err(e)
            && e@ == build_error_text(vert_report, unknown_shader_msg())),
        vert_report.ok() && !frag_report.ok() ==> (r matches Err(e)
            && e@ == build_error_text(frag_report, unknown_shader_msg())),
        vert_report.ok() && frag_report.ok() && !link_report.ok() ==> (r matches Err(e)
            && e@ == build_error_text(link_report, unknown_program_msg())),
{
    let vert = compile_outcome(vert_shader, vert_report);
    match vert {
        Err(e) => Err(e),
        Ok(_) => {
            let frag = compile_outcome(frag_shader, frag_report);
            match frag {
                Err(e) => Err(e),
                Ok(_) => link_outcome(program, link_report),
            }
        },
    }
}

} // verus!
