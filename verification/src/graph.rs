//! The render graph: a declarative list of passes, each reading named
//! resources and writing one output attachment, executed in declared order
//! exactly once per frame. The resource registry maps names to backing GPU
//! objects and can be rewritten between frames; each frame sees the most
//! recently written value of every resource.

use vstd::prelude::*;

use crate::model::clone_string;

verus! {

/// What backs a named resource: a 4x4 matrix (entries as IEEE bit
/// patterns), a bindable texture, or a GPU buffer, the latter two named by
/// the handles the embedding application manages.
#[derive(Debug, Clone, Copy, PartialEq)]
pub enum ResourceBacking {
    Matrix4([u32; 16]),
    Texture(u64),
    Buffer(u64),
}

/// One declared render pass: its name, the resources it reads in order, the
/// attachment it writes, and the shader it runs.
pub struct PassConfig {
    pub name: String,
    pub inputs: Vec<String>,
    pub output: String,
    pub shader: String,
}

/// A shader pack: the declarative list of passes a frame executes, in order.
pub struct ShaderPackConfig {
    pub passes: Vec<PassConfig>,
}

/// One draw call of a frame: which pass ran, with which shader, into which
/// attachment, and the resource values bound to each declared input at the
/// moment the frame was rendered (`None` when a name is unregistered).
#[derive(Debug, Clone, PartialEq)]
pub struct DrawCommand {
    pub pass_name: String,
    pub shader: String,
    pub output: String,
    pub bound: Vec<(String, Option<ResourceBacking>)>,
}

/// The most recently written value of a resource, scanning the first `i`
/// registry entries from the newest backwards.
pub open spec fn resource_find_latest(
    resources: Seq<(String, ResourceBacking)>,
    name: Seq<char>,
    i: int,
) -> Option<ResourceBacking>
    decreases i,
{
    if i <= 0 {
        None
    } else if resources[i - 1].0@ == name {
        Some(resources[i - 1].1)
    } else {
        resource_find_latest(resources, name, i - 1)
    }
}

/// Scanning a bounded prefix of the registry sees only the entries below
/// the bound: two registries that agree there scan alike.
proof fn lemma_find_latest_prefix(
    r1: Seq<(String, ResourceBacking)>,
    r2: Seq<(String, ResourceBacking)>,
    name: Seq<char>,
    i: int,
)
    requires
        i <= r1.len(),
        i <= r2.len(),
        forall|j: int| 0 <= j < i ==> r1[j] == r2[j],
    ensures
        resource_find_latest(r1, name, i) == resource_find_latest(r2, name, i),
    decreases i,
{
    if i > 0 {
        lemma_find_latest_prefix(r1, r2, name, i - 1);
    }
}

/// The current value of a named resource: the most recently written one.
pub open spec fn spec_resource(
    resources: Seq<(String, ResourceBacking)>,
    name: Seq<char>,
) -> Option<ResourceBacking> {
    resource_find_latest(resources, name, resources.len() as int)
}

/// A frame's bindings for one pass agree with the registry: input for
/// input, the bound value is the input's most recently written resource.
pub open spec fn bindings_match(
    bound: Seq<(String, Option<ResourceBacking>)>,
    resources: Seq<(String, ResourceBacking)>,
    inputs: Seq<String>,
) -> bool {
    &&& bound.len() == inputs.len()
    &&& forall|t: int|
        0 <= t < inputs.len() ==> (#[trigger] bound[t]).0 == inputs[t] && bound[t].1
            == spec_resource(resources, inputs[t]@)
}

/// A frame agrees with the graph: one draw command per declared pass, in
/// declaration order, each binding the current resource values.
pub open spec fn frame_matches(
    frame: Seq<DrawCommand>,
    passes: Seq<PassConfig>,
    resources: Seq<(String, ResourceBacking)>,
) -> bool {
    &&& frame.len() == passes.len()
    &&& forall|k: int|
        0 <= k < passes.len() ==> {
            let c = #[trigger] frame[k];
            &&& c.pass_name == passes[k].name
            &&& c.shader == passes[k].shader
            &&& c.output == passes[k].output
            &&& bindings_match(c.bound@, resources, passes[k].inputs@)
        }
}

/// The render graph: the declared passes, the resource registry (newest
/// write last), and whether `init` has run.
pub struct RenderGraph {
    pub passes: Vec<PassConfig>,
    pub resources: Vec<(String, ResourceBacking)>,
    pub initialized: bool,
}

impl RenderGraph {
    /// Build the pass list and resource table from a declarative shader-pack
    /// configuration. The graph is not yet initialized.
    pub fn new(shader_pack: ShaderPackConfig, resources: Vec<(String, ResourceBacking)>) -> (g:
        RenderGraph)
        ensures
            g.passes@ == shader_pack.passes@,
            g.resources@ == resources@,
            !g.initialized,
    {
        RenderGraph { passes: shader_pack.passes, resources, initialized: false }
    }

    /// Finalize the graph's GPU pipeline objects. Must be called exactly
    /// once, before the first render.
    pub fn init(&mut self)
        requires
            !old(self).initialized,
        ensures
            final(self).initialized,
            final(self).passes@ == old(self).passes@,
            final(self).resources@ == old(self).resources@,
    {
        self.initialized = true;
    }

    /// Write a resource: later frames see this value for `name`. A write
    /// never disturbs other resources and needs no graph re-initialization.
    pub fn set_resource(&mut self, name: String, value: ResourceBacking)
        ensures
            final(self).resources@ == old(self).resources@.push((name, value)),
            final(self).passes@ == old(self).passes@,
            final(self).initialized == old(self).initialized,
            spec_resource(final(self).resources@, name@) == Some(value),
            forall|other: Seq<char>|
                other != name@ ==> #[trigger] spec_resource(final(self).resources@, other)
                    == spec_resource(old(self).resources@, other),
    {
        self.resources.push((name, value));
        proof {
            assert forall|other: Seq<char>| other != name@ implies #[trigger] spec_resource(
                self.resources@,
                other,
            ) == spec_resource(old(self).resources@, other) by {
                lemma_find_latest_prefix(
                    self.resources@,
                    old(self).resources@,
                    other,
                    old(self).resources@.len() as int,
                );
            }
        }
    }

    /// The current value of a named resource.
    pub fn get_resource(&self, name: &String) -> (r: Option<ResourceBacking>)
        ensures
            r == spec_resource(self.resources@, name@),
    {
        let mut i: usize = self.resources.len();
        while i > 0
            invariant
                i <= self.resources@.len(),
                spec_resource(self.resources@, name@) == resource_find_latest(
                    self.resources@,
                    name@,
                    i as int,
                ),
            decreases i,
        {
            if self.resources[i - 1].0 == *name {
                return Some(self.resources[i - 1].1);
            }
            i = i - 1;
        }
        None
    }

    /// Execute every declared pass exactly once, in declaration order,
    /// producing the frame's draw calls. Each pass binds the current value
    /// of each resource it reads: writes made before this call are visible
    /// to every pass of the frame.
    pub fn render(&self) -> (frame: Vec<DrawCommand>)
        requires
            self.initialized,
        ensures
            frame_matches(frame@, self.passes@, self.resources@),
    {
        let mut frame: Vec<DrawCommand> = Vec::new();
        let mut k: usize = 0;
        while k < self.passes.len()
            invariant
                k <= self.passes@.len(),
                frame@.len() == k,
                forall|j: int|
                    0 <= j < k as int ==> {
                        let c = #[trigger] frame@[j];
                        &&& c.pass_name == self.passes@[j].name
                        &&& c.shader == self.passes@[j].shader
                        &&& c.output == self.passes@[j].output
                        &&& bindings_match(c.bound@, self.resources@, self.passes@[j].inputs@)
                    },
            decreases self.passes@.len() - k,
        {
            let pass = &self.passes[k];
            let mut bound: Vec<(String, Option<ResourceBacking>)> = Vec::new();
            let mut t: usize = 0;
            while t < pass.inputs.len()
                invariant
                    t <= pass.inputs@.len(),
                    bound@.len() == t,
                    forall|u: int|
                        0 <= u < t as int ==> (#[trigger] bound@[u]).0 == pass.inputs@[u]
                            && bound@[u].1 == spec_resource(self.resources@, pass.inputs@[u]@),
                decreases pass.inputs@.len() - t,
            {
                let input_name = clone_string(&pass.inputs[t]);
                let value = self.get_resource(&input_name);
                bound.push((input_name, value));
                t = t + 1;
            }
            frame.push(
                DrawCommand {
                    pass_name: clone_string(&pass.name),
                    shader: clone_string(&pass.shader),
                    output: clone_string(&pass.output),
                    bound,
                },
            );
            k = k + 1;
        }
        frame
    }
}

/// Two frames are identical draw call for draw call: the same passes bind
/// bit-identical resource values.
pub open spec fn frames_identical(f1: Seq<DrawCommand>, f2: Seq<DrawCommand>) -> bool {
    &&& f1.len() == f2.len()
    &&& forall|k: int|
        0 <= k < f1.len() ==> {
            let c1 = #[trigger] f1[k];
            let c2 = f2[k];
            &&& c1.pass_name == c2.pass_name
            &&& c1.shader == c2.shader
            &&& c1.output == c2.output
            &&& c1.bound@ == c2.bound@
        }
}

/// Rendering any number of times with no intervening resource writes
/// produces identical frames: every pair of frames drawn from the same
/// graph state binds bit-identical resource values.
pub proof fn lemma_render_deterministic(
    f1: Seq<DrawCommand>,
    f2: Seq<DrawCommand>,
    passes: Seq<PassConfig>,
    resources: Seq<(String, ResourceBacking)>,
)
    requires
        frame_matches(f1, passes, resources),
        frame_matches(f2, passes, resources),
    ensures
        frames_identical(f1, f2),
{
    assert forall|k: int| 0 <= k < f1.len() implies {
        let c1 = #[trigger] f1[k];
        let c2 = f2[k];
        c1.pass_name == c2.pass_name && c1.shader == c2.shader && c1.output == c2.output
            && c1.bound@ == c2.bound@
    } by {
        assert(bindings_match(f1[k].bound@, resources, passes[k].inputs@));
        assert(bindings_match(f2[k].bound@, resources, passes[k].inputs@));
        assert(f1[k].bound@ =~= f2[k].bound@);
    }
}

} // verus!
