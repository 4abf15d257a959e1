use vstd::prelude::*;

use crate::pipeline::{Program, Readiness, PipelineError};

verus! {

/// Size in bytes of one packed agent record on the GPU.
pub const AGENT_SIZE: u64 = 16;

/// Stage of the compute node; decided once per frame before dispatch.
#[derive(Clone, Copy, Debug, PartialEq, Eq, Structural)]
pub enum ComputeState {
    Loading,
    Init,
    UpdateAgents,
    UpdateTexture,
}

/// Fixed geometry of a simulation: agent count, canvas size, workgroup size.
#[derive(Clone, Copy, Debug, PartialEq, Eq, Structural)]
pub struct SimConfig {
    pub num_agents: u32,
    pub width: u32,
    pub height: u32,
    pub workgroup_size: u32,
}

/// One compute dispatch: the program and its workgroup grid.
#[derive(Clone, Copy, Debug, PartialEq, Eq, Structural)]
pub struct Dispatch {
    pub program: Program,
    pub x: u32,
    pub y: u32,
    pub z: u32,
}

/// What the node records into the frame's command sequence: an optional
/// dispatch, then a copy of `copy_bytes` bytes of the agent buffer into the
/// staging buffer, which is issued on every frame.
#[derive(Clone, Copy, Debug, PartialEq, Eq, Structural)]
pub struct FramePlan {
    pub dispatch: Option<Dispatch>,
    pub copy_bytes: u64,
}

pub open spec fn is_ready(r: Readiness) -> bool {
    r is Ready
}

pub open spec fn is_failed(r: Readiness) -> bool {
    r is Failed
}

/// The compiler's diagnostic carried by a failed readiness.
pub open spec fn failure_detail(r: Readiness) -> Seq<char> {
    match r {
        Readiness::Failed(d) => d@,
        _ => Seq::empty(),
    }
}

/// The next state, or the program whose failed compilation halts the node.
pub open spec fn transition(
    s: ComputeState,
    init: Readiness,
    agents: Readiness,
    texture: Readiness,
) -> Result<ComputeState, Program> {
    match s {
        ComputeState::Loading => {
            if is_ready(init) {
                Ok(ComputeState::Init)
            } else if is_failed(init) {
                Err(Program::Init)
            } else {
                Ok(ComputeState::Loading)
            }
        },
        ComputeState::Init => {
            if is_failed(agents) {
                Err(Program::UpdateAgents)
            } else if is_failed(texture) {
                Err(Program::UpdateTexture)
            } else if is_ready(agents) && is_ready(texture) {
                Ok(ComputeState::UpdateAgents)
            } else {
                Ok(ComputeState::Init)
            }
        },
        ComputeState::UpdateAgents => Ok(ComputeState::UpdateTexture),
        ComputeState::UpdateTexture => Ok(ComputeState::UpdateAgents),
    }
}

pub open spec fn ceil_div_spec(n: int, d: int) -> int {
    (n + d - 1) / d
}

pub open spec fn config_wf(c: SimConfig) -> bool {
    c.workgroup_size > 0
}

/// The dispatch of each state over configuration `c`.
pub open spec fn dispatch_spec(s: ComputeState, c: SimConfig) -> Option<Dispatch> {
    let wg = c.workgroup_size as int;
    match s {
        ComputeState::Loading => None,
        ComputeState::Init => Some(
            Dispatch {
                program: Program::Init,
                x: ceil_div_spec(c.num_agents as int, wg) as u32,
                y: 1,
                z: 1,
            },
        ),
        ComputeState::UpdateAgents => Some(
            Dispatch {
                program: Program::UpdateAgents,
                x: ceil_div_spec(c.num_agents as int, wg) as u32,
                y: 1,
                z: 1,
            },
        ),
        ComputeState::UpdateTexture => Some(
            Dispatch {
                program: Program::UpdateTexture,
                x: ceil_div_spec(c.width as int, wg) as u32,
                y: ceil_div_spec(c.height as int, wg) as u32,
                z: 1,
            },
        ),
    }
}

/// Byte size of the agent buffer, and of its staging mirror.
pub open spec fn buffer_bytes(c: SimConfig) -> int {
    c.num_agents as int * AGENT_SIZE as int
}

/// Number of workgroups of size `d` that cover `n` invocations.
pub fn ceil_div(n: u32, d: u32) -> (r: u32)
    requires
        d > 0,
    ensures
        r as int == ceil_div_spec(n as int, d as int),
        r <= n,
{
    let q = n / d;
    let m = n % d;
    proof {
        assert(n as int == d as int * q as int + m as int) by (nonlinear_arith)
            requires
                q as int == n as int / d as int,
                m as int == n as int % d as int,
                d > 0,
        ;
        assert(q as int <= n as int) by (nonlinear_arith)
            requires
                q as int == n as int / d as int,
                d > 0,
                n >= 0,
        ;
    }
    if m == 0 {
        proof {
            assert((n as int + d as int - 1) / d as int == q as int) by (nonlinear_arith)
                requires
                    n as int == d as int * q as int,
                    d > 0,
            ;
        }
        q
    } else {
        proof {
            assert((n as int + d as int - 1) / d as int == q as int + 1) by (nonlinear_arith)
                requires
                    n as int == d as int * q as int + m as int,
                    0 < m < d,
            ;
            assert(q as int + 1 <= n as int) by (nonlinear_arith)
                requires
                    n as int == d as int * q as int + m as int,
                    0 < m < d,
                    q >= 0,
            ;
        }
        q + 1
    }
}

impl SimConfig {
    /// The geometry the simulation runs with: 100000 agents on a
    /// 2560 x 1440 canvas, in workgroups of 32.
    pub fn standard() -> (r: SimConfig)
        ensures
            r.num_agents == 100000,
            r.width == 2560,
            r.height == 1440,
            r.workgroup_size == 32,
            config_wf(r),
    {
        SimConfig { num_agents: 100000, width: 2560, height: 1440, workgroup_size: 32 }
    }

    /// Byte size of the agent buffer and of the staging buffer.
    pub fn agent_buffer_bytes(&self) -> (r: u64)
        ensures
            r as int == buffer_bytes(*self),
    {
        self.num_agents as u64 * AGENT_SIZE
    }
}

/// Dispatch of state `s`: none while loading; the init or update-agents
/// program over the agents; the update-texture program over the canvas.
pub fn select_dispatch(s: ComputeState, c: &SimConfig) -> (r: Option<Dispatch>)
    requires
        config_wf(*c),
    ensures
        r == dispatch_spec(s, *c),
{
    match s {
        ComputeState::Loading => None,
        ComputeState::Init => Some(
            Dispatch {
                program: Program::Init,
                x: ceil_div(c.num_agents, c.workgroup_size),
                y: 1,
                z: 1,
            },
        ),
        ComputeState::UpdateAgents => Some(
            Dispatch {
                program: Program::UpdateAgents,
                x: ceil_div(c.num_agents, c.workgroup_size),
                y: 1,
                z: 1,
            },
        ),
        ComputeState::UpdateTexture => Some(
            Dispatch {
                program: Program::UpdateTexture,
                x: ceil_div(c.width, c.workgroup_size),
                y: ceil_div(c.height, c.workgroup_size),
                z: 1,
            },
        ),
    }
}

/// The compute node: its state machine over the three programs' readiness.
#[derive(Clone, Copy, Debug, PartialEq, Eq, Structural)]
pub struct ComputeNode {
    pub state: ComputeState,
}

impl ComputeNode {
    /// A node that waits for the init program.
    pub fn new() -> (r: ComputeNode)
        ensures
            r.state == ComputeState::Loading,
    {
        ComputeNode { state: ComputeState::Loading }
    }

    /// Advances the state once, given the readiness of the three programs.
    /// A failed program met while waiting for it is reported and leaves the
    /// state as it was.
    pub fn update(&mut self, init: &Readiness, agents: &Readiness, texture: &Readiness) -> (r:
        Result<(), PipelineError>)
        ensures
            match transition(old(self).state, *init, *agents, *texture) {
                Ok(s) => r is Ok && final(self).state == s,
                Err(p) => r is Err && final(self).state == old(self).state && r->Err_0.program == p
                    && r->Err_0.detail@ == failure_detail(
                    match p {
                        Program::Init => *init,
                        Program::UpdateAgents => *agents,
                        Program::UpdateTexture => *texture,
                    },
                ),
            },
    {
        match self.state {
            ComputeState::Loading => match init {
                Readiness::Ready => {
                    self.state = ComputeState::Init;
                    Ok(())
                },
                Readiness::Failed(d) => Err(PipelineError { program: Program::Init, detail: d.clone() }),
                Readiness::Pending => Ok(()),
            },
            ComputeState::Init => {
                if let Readiness::Failed(d) = agents {
                    Err(PipelineError { program: Program::UpdateAgents, detail: d.clone() })
                } else if let Readiness::Failed(d) = texture {
                    Err(PipelineError { program: Program::UpdateTexture, detail: d.clone() })
                } else {
                    if let (Readiness::Ready, Readiness::Ready) = (agents, texture) {
                        self.state = ComputeState::UpdateAgents;
                    }
                    Ok(())
                }
            },
            ComputeState::UpdateAgents => {
                self.state = ComputeState::UpdateTexture;
                Ok(())
            },
            ComputeState::UpdateTexture => {
                self.state = ComputeState::UpdateAgents;
                Ok(())
            },
        }
    }

    /// The commands of this frame: the state's dispatch, then the full copy
    /// of the agent buffer into the staging buffer.
    pub fn run(&self, c: &SimConfig) -> (r: FramePlan)
        requires
            config_wf(*c),
        ensures
            r.dispatch == dispatch_spec(self.state, *c),
            r.copy_bytes as int == buffer_bytes(*c),
    {
        FramePlan { dispatch: select_dispatch(self.state, c), copy_bytes: c.agent_buffer_bytes() }
    }
}


/// The state reached from `s` after `k` frames with unchanged readiness.
pub open spec fn state_after(
    s: ComputeState,
    init: Readiness,
    agents: Readiness,
    texture: Readiness,
    k: nat,
) -> ComputeState
    decreases k,
{
    if k == 0 {
        s
    } else {
        match transition(s, init, agents, texture) {
            Ok(n) => state_after(n, init, agents, texture, (k - 1) as nat),
            Err(_) => s,
        }
    }
}

pub open spec fn is_steady(s: ComputeState) -> bool {
    s is UpdateAgents || s is UpdateTexture
}

/// Once past `Init`, the node alternates between the two update states on
/// every frame, whatever the readiness: it never stays and never skips.
pub proof fn lemma_steady_alternation(
    s: ComputeState,
    init: Readiness,
    agents: Readiness,
    texture: Readiness,
)
    requires
        is_steady(s),
    ensures
        transition(s, init, agents, texture) is Ok,
        is_steady(transition(s, init, agents, texture)->Ok_0),
        transition(s, init, agents, texture)->Ok_0 != s,
        s is UpdateAgents ==> transition(s, init, agents, texture)->Ok_0 is UpdateTexture,
        s is UpdateTexture ==> transition(s, init, agents, texture)->Ok_0 is UpdateAgents,
{
}

/// Over any number of frames past `Init`, the state after `k` frames is the
/// starting state when `k` is even and the other update state when it is odd.
pub proof fn lemma_steady_parity(
    s: ComputeState,
    init: Readiness,
    agents: Readiness,
    texture: Readiness,
    k: nat,
)
    requires
        is_steady(s),
    ensures
        is_steady(state_after(s, init, agents, texture, k)),
        (state_after(s, init, agents, texture, k) == s) <==> (k % 2 == 0),
    decreases k,
{
    if k > 0 {
        let n = transition(s, init, agents, texture)->Ok_0;
        lemma_steady_parity(n, init, agents, texture, (k - 1) as nat);
    }
}

/// `Loading` moves to `Init` exactly when the init program is ready, and
/// halts exactly when it failed.
pub proof fn lemma_loading_exit(init: Readiness, agents: Readiness, texture: Readiness)
    ensures
        (transition(ComputeState::Loading, init, agents, texture) == Ok::<ComputeState, Program>(
            ComputeState::Init,
        )) <==> init is Ready,
        (transition(ComputeState::Loading, init, agents, texture) is Err) <==> init is Failed,
{
}

/// While the init program is pending, the node stays in `Loading` over any
/// number of polls.
pub proof fn lemma_loading_while_pending(agents: Readiness, texture: Readiness, k: nat)
    ensures
        state_after(ComputeState::Loading, Readiness::Pending, agents, texture, k)
            == ComputeState::Loading,
    decreases k,
{
    if k > 0 {
        lemma_loading_while_pending(agents, texture, (k - 1) as nat);
    }
}

} // verus!
