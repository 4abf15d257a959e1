use vstd::prelude::*;

verus! {

/// What the builder does with the binding set on a frame.
#[derive(Clone, Copy, Debug, PartialEq, Eq, Structural)]
pub enum BindGroupAction {
    /// Build the binding set now.
    Build,
    /// The trail texture is not resolvable yet: try again next frame.
    Defer,
    /// A valid binding set is cached: nothing to do.
    Keep,
}

/// Whether a binding set is cached, and how many times one was built.
#[derive(Clone, Copy, Debug, PartialEq, Eq, Structural)]
pub struct BindGroupCache {
    pub cached: bool,
    pub builds: u64,
}

pub open spec fn prepare_action(c: BindGroupCache, texture_resolvable: bool) -> BindGroupAction {
    if c.cached {
        BindGroupAction::Keep
    } else if texture_resolvable {
        BindGroupAction::Build
    } else {
        BindGroupAction::Defer
    }
}

pub open spec fn saturating_inc(n: u64) -> u64 {
    if n < u64::MAX {
        (n + 1) as u64
    } else {
        n
    }
}

pub open spec fn prepare_next(c: BindGroupCache, texture_resolvable: bool) -> BindGroupCache {
    if prepare_action(c, texture_resolvable) is Build {
        BindGroupCache { cached: true, builds: saturating_inc(c.builds) }
    } else {
        c
    }
}

impl BindGroupCache {
    /// No binding set yet, none built.
    pub fn new() -> (r: BindGroupCache)
        ensures
            !r.cached,
            r.builds == 0,
    {
        BindGroupCache { cached: false, builds: 0 }
    }

    /// Decides whether to build the binding set this frame: only when none is
    /// cached and the trail texture can be resolved. A build is counted.
    pub fn prepare(&mut self, texture_resolvable: bool) -> (r: BindGroupAction)
        ensures
            r == prepare_action(*old(self), texture_resolvable),
            *final(self) == prepare_next(*old(self), texture_resolvable),
    {
        if self.cached {
            BindGroupAction::Keep
        } else if texture_resolvable {
            self.cached = true;
            self.builds = self.builds.saturating_add(1);
            BindGroupAction::Build
        } else {
            BindGroupAction::Defer
        }
    }

    /// A resource the binding set refers to was reallocated: drop the cached
    /// set so that the next `prepare` rebuilds it.
    pub fn invalidate(&mut self)
        ensures
            !final(self).cached,
            final(self).builds == old(self).builds,
    {
        self.cached = false;
    }
}

/// Preparing twice with no dependency change in between builds at most once:
/// the second call never builds and leaves the cache as the first left it.
pub proof fn lemma_prepare_idempotent(c: BindGroupCache, texture_resolvable: bool)
    ensures
        prepare_action(prepare_next(c, texture_resolvable), texture_resolvable) != BindGroupAction::Build,
        prepare_next(prepare_next(c, texture_resolvable), texture_resolvable) == prepare_next(
            c,
            texture_resolvable,
        ),
{
}

/// From an empty cache with a resolvable texture, two preparations leave the
/// build count at one.
pub proof fn lemma_fresh_cache_builds_once(c: BindGroupCache)
    requires
        !c.cached,
        c.builds == 0,
    ensures
        prepare_next(prepare_next(c, true), true).builds == 1,
        prepare_next(prepare_next(c, true), true).cached,
{
}

} // verus!
