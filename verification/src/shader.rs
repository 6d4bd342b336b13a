//! Shader program builds and activation.
//!
//! Compiling and linking happen in the native API; what this module owns is
//! every decision around those calls: which resource each stage's source
//! comes from, what a failed status turns into, in which order the stages
//! are attached, linked, detached and released, and what activating the
//! finished program does to the pipeline. The application performs the
//! native calls and hands their outcomes — a status flag and an info log —
//! to the functions here.

use vstd::prelude::*;

verus! {

/// The two shader stages the demo builds.
#[derive(Clone, Copy, Debug, PartialEq, Eq, Structural)]
pub enum Stage {
    Vertex,
    Fragment,
}

/// What a shader build fails with: the source asset was missing, one stage
/// did not compile, or the compiled stages did not link. Compile and link
/// failures carry the native info log; a compile failure also names the
/// stage that failed.
#[derive(Debug, PartialEq)]
pub enum ShaderError {
    ResourceLoad { name: String },
    Compile { stage: Stage, log: String },
    Link { log: String },
}

/// The printable name of a stage.
pub open spec fn stage_name_spec(s: Stage) -> Seq<char> {
    if s is Vertex {
        "vertex"@
    } else {
        "fragment"@
    }
}

/// The printable name of a stage.
pub fn stage_name(s: Stage) -> (r: &'static str)
    ensures
        r@ == stage_name_spec(s),
{
    match s {
        Stage::Vertex => "vertex",
        Stage::Fragment => "fragment",
    }
}

/// The file extension a stage's source resource carries.
pub open spec fn stage_ext_spec(s: Stage) -> Seq<char> {
    if s is Vertex {
        ".vert"@
    } else {
        ".frag"@
    }
}

/// The file extension a stage's source resource carries.
pub fn stage_ext(s: Stage) -> (r: &'static str)
    ensures
        r@ == stage_ext_spec(s),
{
    match s {
        Stage::Vertex => ".vert",
        Stage::Fragment => ".frag",
    }
}

/// The resource path of one stage's source: the program's resource name
/// followed by the stage's extension.
pub fn stage_resource_path(name: &str, s: Stage) -> (r: String)
    ensures
        r@ == name@ + stage_ext_spec(s),
{
    let mut path = String::from_str(name);
    path.append(stage_ext(s));
    path
}

/// The message text of a build failure.
pub open spec fn describe_spec(e: ShaderError) -> Seq<char> {
    match e {
        ShaderError::ResourceLoad { name } => "Failed to load resource "@ + name@,
        ShaderError::Compile { stage, log } => "Failed to compile "@ + stage_name_spec(stage)
            + " shader: "@ + log@,
        ShaderError::Link { log } => "Failed to link program: "@ + log@,
    }
}

impl ShaderError {
    /// The message text of this failure.
    pub fn describe(&self) -> (r: String)
        ensures
            r@ == describe_spec(*self),
    {
        match self {
            ShaderError::ResourceLoad { name } => {
                let mut out = String::from_str("Failed to load resource ");
                out.append(name.as_str());
                out
            },
            ShaderError::Compile { stage, log } => {
                let mut out = String::from_str("Failed to compile ");
                out.append(stage_name(*stage));
                out.append(" shader: ");
                out.append(log.as_str());
                out
            },
            ShaderError::Link { log } => {
                let mut out = String::from_str("Failed to link program: ");
                out.append(log.as_str());
                out
            },
        }
    }
}

/// What one native compile or link call reported: its status flag and its
/// info log.
#[derive(Debug)]
pub struct StatusReport {
    pub ok: bool,
    pub log: String,
}

/// Decision after loading one stage's source: text that is there passes
/// through; missing text is the resource-not-found failure carrying the
/// resource's path.
pub fn source_loaded(name: &str, source: Option<String>) -> (r: Result<String, ShaderError>)
    ensures
        source matches Some(s) ==> (r matches Ok(t) && t@ == s@),
        source is None ==> (r matches Err(e) && e matches ShaderError::ResourceLoad { name: n }
            && n@ == name@),
{
    match source {
        Some(s) => Ok(s),
        None => Err(ShaderError::ResourceLoad { name: String::from_str(name) }),
    }
}

/// Decision after compiling one stage: a good status passes the compiled
/// stage's identifier through; a bad one becomes the compile failure that
/// names the stage and carries the compiler's log.
pub fn compile_checked(stage: Stage, shader_id: u32, report: StatusReport) -> (r: Result<
    u32,
    ShaderError,
>)
    ensures
        report.ok ==> (r matches Ok(id) && id == shader_id),
        !report.ok ==> (r matches Err(e) && e matches ShaderError::Compile { stage: s, log }
            && s == stage && log@ == report.log@),
{
    if report.ok {
        Ok(shader_id)
    } else {
        Err(ShaderError::Compile { stage, log: report.log })
    }
}

/// Decision after linking: a good status passes the program's identifier
/// through; a bad one becomes the link failure carrying the linker's log.
pub fn link_checked(program_id: u32, report: StatusReport) -> (r: Result<u32, ShaderError>)
    ensures
        report.ok ==> (r matches Ok(id) && id == program_id),
        !report.ok ==> (r matches Err(e) && e matches ShaderError::Link { log }
            && log@ == report.log@),
{
    if report.ok {
        Ok(program_id)
    } else {
        Err(ShaderError::Link { log: report.log })
    }
}

/// A linked shader program: owns the native program identifier.
pub struct Program {
    id: u32,
}

/// The process-wide pipeline state the demo touches: which program is in
/// use and which vertex array is bound. Zero stands for none.
#[derive(Clone, Copy, Debug, PartialEq, Eq, Structural)]
pub struct PipelineState {
    pub active_program: u32,
    pub bound_vertex_array: u32,
}

/// The pipeline after a program is made active: that program is in use;
/// everything else is untouched.
pub open spec fn activated(s: PipelineState, p: Program) -> PipelineState {
    PipelineState { active_program: p.spec_id(), ..s }
}

impl Program {
    /// The native program identifier.
    pub closed spec fn spec_id(&self) -> u32 {
        self.id
    }

    /// The native program identifier.
    pub fn id(&self) -> (r: u32)
        ensures
            r == self.spec_id(),
    {
        self.id
    }

    /// Gives the program up and hands its native identifier out for the one
    /// release call. The program is taken by value, so it can be released
    /// only once, and nothing can reach the identifier through the wrapper
    /// afterwards.
    pub fn release(self) -> (r: u32)
        ensures
            r == self.spec_id(),
    {
        self.id
    }

    /// Marks this program as the one the pipeline will use for the draw
    /// calls that follow. The effect is process-wide pipeline state, so the
    /// state is taken and returned rather than held in the program.
    pub fn set_used(&self, state: &PipelineState) -> (r: PipelineState)
        ensures
            r == activated(*state, *self),
    {
        PipelineState { active_program: self.id, bound_vertex_array: state.bound_vertex_array }
    }
}

/// Making a program active is idempotent: activating it twice leaves the
/// pipeline exactly as activating it once does.
pub proof fn lemma_activate_idempotent(s: PipelineState, p: Program)
    ensures
        activated(activated(s, p), p) == activated(s, p),
{
}

/// The whole build decision. `vert` and `frag` are what compiling the two
/// stages reported; `link` is what linking reported, present exactly when
/// both stages compiled; `program_id` is the native identifier the program
/// object was created with. A failed vertex compile wins over a failed
/// fragment compile; a build where everything succeeded yields the program.
pub fn build_checked(
    vert: StatusReport,
    frag: StatusReport,
    link: Option<StatusReport>,
    program_id: u32,
) -> (r: Result<Program, ShaderError>)
    requires
        link is Some <==> (vert.ok && frag.ok),
    ensures
        !vert.ok ==> (r matches Err(e) && e matches ShaderError::Compile { stage, log }
            && stage is Vertex && log@ == vert.log@),
        vert.ok && !frag.ok ==> (r matches Err(e) && e matches ShaderError::Compile { stage, log }
            && stage is Fragment && log@ == frag.log@),
        link matches Some(l) ==> (l.ok ==> (r matches Ok(p) && p.spec_id() == program_id)),
        link matches Some(l) ==> (!l.ok ==> (r matches Err(e)
            && e matches ShaderError::Link { log } && log@ == l.log@)),
{
    if !vert.ok {
        Err(ShaderError::Compile { stage: Stage::Vertex, log: vert.log })
    } else if !frag.ok {
        Err(ShaderError::Compile { stage: Stage::Fragment, log: frag.log })
    } else {
        match link {
            Some(l) => {
                if l.ok {
                    Ok(Program { id: program_id })
                } else {
                    Err(ShaderError::Link { log: l.log })
                }
            },
            None => unreached(),
        }
    }
}

/// One native call of the linking sequence.
#[derive(Clone, Copy, Debug, PartialEq, Eq, Structural)]
pub enum LinkStep {
    Attach { program: u32, shader: u32 },
    Link { program: u32 },
    Detach { program: u32, shader: u32 },
    Delete { shader: u32 },
}

/// The calls that turn two compiled stages into one linked program: attach
/// both stages, link, then detach and release each stage, which is not
/// needed once the program exists and must not leak.
pub open spec fn link_plan_spec(program: u32, vert_id: u32, frag_id: u32) -> Seq<LinkStep> {
    seq![
        LinkStep::Attach { program, shader: vert_id },
        LinkStep::Attach { program, shader: frag_id },
        LinkStep::Link { program },
        LinkStep::Detach { program, shader: vert_id },
        LinkStep::Detach { program, shader: frag_id },
        LinkStep::Delete { shader: vert_id },
        LinkStep::Delete { shader: frag_id },
    ]
}

/// The linking sequence as a runtime value, in call order.
pub fn link_plan(program: u32, vert_id: u32, frag_id: u32) -> (r: Vec<LinkStep>)
    ensures
        r@ == link_plan_spec(program, vert_id, frag_id),
{
    let mut v: Vec<LinkStep> = Vec::new();
    v.push(LinkStep::Attach { program, shader: vert_id });
    v.push(LinkStep::Attach { program, shader: frag_id });
    v.push(LinkStep::Link { program });
    v.push(LinkStep::Detach { program, shader: vert_id });
    v.push(LinkStep::Detach { program, shader: frag_id });
    v.push(LinkStep::Delete { shader: vert_id });
    v.push(LinkStep::Delete { shader: frag_id });
    proof {
        assert(v@ =~= link_plan_spec(program, vert_id, frag_id));
    }
    v
}

} // verus!
