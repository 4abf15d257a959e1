use vstd::prelude::*;

verus! {

/// The three compute programs compiled from the one shader source.
#[derive(Clone, Copy, Debug, PartialEq, Eq, Structural)]
pub enum Program {
    Init,
    UpdateAgents,
    UpdateTexture,
}

/// The entry point that each program is compiled from.
pub open spec fn entry_point_spec(p: Program) -> Seq<char> {
    match p {
        Program::Init => "init"@,
        Program::UpdateAgents => "update_agents"@,
        Program::UpdateTexture => "update_texture"@,
    }
}

impl Program {
    /// Name of the shader entry point of this program.
    pub fn entry_point(self) -> (r: &'static str)
        ensures
            r@ == entry_point_spec(self),
    {
        match self {
            Program::Init => "init",
            Program::UpdateAgents => "update_agents",
            Program::UpdateTexture => "update_texture",
        }
    }
}

/// Readiness of a queued program in the pipeline cache.
#[derive(Clone, Debug, PartialEq, Eq)]
pub enum Readiness {
    Pending,
    Ready,
    /// Compilation failed, with the compiler's diagnostic.
    Failed(String),
}

/// A program that failed to compile: fatal for the simulation.
#[derive(Clone, Debug)]
pub struct PipelineError {
    pub program: Program,
    pub detail: String,
}

} // verus!
