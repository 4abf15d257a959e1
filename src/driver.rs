use vstd::prelude::*;

use crate::bind_group::{prepare_action, prepare_next, BindGroupAction, BindGroupCache};
use crate::orchestrator::{
    buffer_bytes, config_wf, dispatch_spec, transition, ComputeNode, FramePlan, SimConfig,
};
use crate::pipeline::{PipelineError, Readiness};

verus! {

/// What the render context does on a frame: build the binding set or not,
/// then record the plan's dispatch and copy.
#[derive(Clone, Copy, Debug, PartialEq, Eq, Structural)]
pub struct FrameOutcome {
    pub build_bind_group: bool,
    pub plan: FramePlan,
}

/// The per-frame decisions of the simulation: the binding set cache and the
/// compute node, over a fixed configuration.
#[derive(Clone, Copy, Debug, PartialEq, Eq, Structural)]
pub struct Simulation {
    pub config: SimConfig,
    pub node: ComputeNode,
    pub bind_group: BindGroupCache,
}

impl Simulation {
    pub open spec fn wf(self) -> bool {
        config_wf(self.config)
    }

    /// A simulation that waits for its programs, with no binding set yet.
    /// `None` when the workgroup size is zero.
    pub fn new(config: SimConfig) -> (r: Option<Simulation>)
        ensures
            r is Some <==> config.workgroup_size > 0,
            r is Some ==> (r->Some_0.wf() && r->Some_0.config == config && r->Some_0.node.state
                is Loading && !r->Some_0.bind_group.cached && r->Some_0.bind_group.builds == 0),
    {
        if config.workgroup_size == 0 {
            None
        } else {
            Some(Simulation { config, node: ComputeNode::new(), bind_group: BindGroupCache::new() })
        }
    }

    /// One frame: check the binding set first; with none available the frame
    /// is deferred (no transition, no dispatch); otherwise the node advances
    /// on the programs' readiness and dispatches for its new state. The agent
    /// buffer is copied to staging on every frame that does not halt.
    pub fn frame(
        &mut self,
        texture_resolvable: bool,
        init: &Readiness,
        agents: &Readiness,
        texture: &Readiness,
    ) -> (r: Result<FrameOutcome, PipelineError>)
        requires
            old(self).wf(),
        ensures
            final(self).wf(),
            final(self).config == old(self).config,
            final(self).bind_group == prepare_next(old(self).bind_group, texture_resolvable),
            !final(self).bind_group.cached ==> (r is Ok && final(self).node == old(self).node
                && r->Ok_0.plan.dispatch is None),
            final(self).bind_group.cached ==> match transition(
                old(self).node.state,
                *init,
                *agents,
                *texture,
            ) {
                Ok(s) => r is Ok && final(self).node.state == s && r->Ok_0.plan.dispatch
                    == dispatch_spec(s, old(self).config),
                Err(p) => r is Err && r->Err_0.program == p && final(self).node == old(self).node,
            },
            r is Ok ==> r->Ok_0.build_bind_group == (prepare_action(
                old(self).bind_group,
                texture_resolvable,
            ) is Build) && r->Ok_0.plan.copy_bytes as int == buffer_bytes(old(self).config),
    {
        let action = self.bind_group.prepare(texture_resolvable);
        let build = match action {
            BindGroupAction::Build => true,
            _ => false,
        };
        if !self.bind_group.cached {
            let plan = FramePlan { dispatch: None, copy_bytes: self.config.agent_buffer_bytes() };
            return Ok(FrameOutcome { build_bind_group: build, plan });
        }
        match self.node.update(init, agents, texture) {
            Ok(()) => Ok(FrameOutcome { build_bind_group: build, plan: self.node.run(&self.config) }),
            Err(e) => Err(e),
        }
    }
}

} // verus!
