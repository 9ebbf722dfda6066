use vstd::prelude::*;
use web_sys::{WebGl2RenderingContext as GL, WebGlProgram, WebGlShader};
use crate::util::log;
use crate::glmodel::{GlCall, ShaderStage, stage_of, source_text, compiled_text, attached, linked,
    current_program, links_sources, lemma_step};

verus! {

#[verifier::external_type_specification]
#[verifier::external_body]
pub struct ExWebGl2RenderingContext(web_sys::WebGl2RenderingContext);

#[verifier::external_type_specification]
#[verifier::external_body]
pub struct ExWebGlProgram(web_sys::WebGlProgram);

#[verifier::external_type_specification]
#[verifier::external_body]
pub struct ExWebGlShader(web_sys::WebGlShader);

/// Why `Shader::compile` gave up: the GL context refused to hand out an
/// object or a compile log. The program is left as it was.
#[derive(Debug, PartialEq, Eq, Structural)]
pub enum ShaderError {
    /// `createShader` gave no shader object.
    ShaderNotCreated,
    /// `getShaderInfoLog` gave no log for a compiled shader.
    InfoLogMissing,
    /// `createProgram` gave no program object.
    ProgramNotCreated,
}

/// `WebGl2RenderingContext::create_shader` with `VERTEX_SHADER` or
/// `FRAGMENT_SHADER`. Nothing is claimed of the result: the context may
/// refuse (it is lost, or out of memory).
#[verifier::external_body]
fn create_shader(gl: &GL, stage: ShaderStage) -> (shader: Option<WebGlShader>) {
    match stage {
        ShaderStage::Vertex => gl.create_shader(GL::VERTEX_SHADER),
        ShaderStage::Fragment => gl.create_shader(GL::FRAGMENT_SHADER),
    }
}

/// `WebGl2RenderingContext::shader_source`: hands `source` to the GPU
/// driver as the text of `shader`. Nothing that this library sees changes.
#[verifier::external_body]
fn shader_source(gl: &GL, shader: &WebGlShader, source: &str) {
    gl.shader_source(shader, source)
}

/// `WebGl2RenderingContext::compile_shader`. Nothing that this library
/// sees changes.
#[verifier::external_body]
fn compile_shader(gl: &GL, shader: &WebGlShader) {
    gl.compile_shader(shader)
}

/// `WebGl2RenderingContext::get_shader_info_log`: the driver's messages on
/// the last compile of `shader`, if it has any. Nothing is claimed of the
/// text: it is the driver's.
#[verifier::external_body]
fn get_shader_info_log(gl: &GL, shader: &WebGlShader) -> (info: Option<String>) {
    gl.get_shader_info_log(shader)
}

/// `WebGl2RenderingContext::create_program`. Nothing is claimed of the
/// result: the context may refuse.
#[verifier::external_body]
fn create_program(gl: &GL) -> (program: Option<WebGlProgram>) {
    gl.create_program()
}

/// `WebGl2RenderingContext::attach_shader`. Nothing that this library sees
/// changes.
#[verifier::external_body]
fn attach_shader(gl: &GL, program: &WebGlProgram, shader: &WebGlShader) {
    gl.attach_shader(program, shader)
}

/// `WebGl2RenderingContext::link_program`. Nothing that this library sees
/// changes.
#[verifier::external_body]
fn link_program(gl: &GL, program: &WebGlProgram) {
    gl.link_program(program)
}

/// `WebGl2RenderingContext::use_program` with `Some(program)`: makes
/// `program` the one that later draw calls run. Nothing that this library
/// sees changes.
#[verifier::external_body]
fn use_program(gl: &GL, program: &WebGlProgram) {
    gl.use_program(Some(program))
}

/// What to do with the compile log that the driver gave for a shader: no log
/// at all is an error, an empty log is not worth logging, and any other log
/// is logged as it is.
pub fn info_log_message(info_log: Option<String>) -> (r: Result<Option<String>, ShaderError>)
    ensures
        info_log is None ==> r == Err::<Option<String>, ShaderError>(ShaderError::InfoLogMissing),
        info_log matches Some(text) ==> (text@.len() == 0 ==> r == Ok::<Option<String>, ShaderError>(None)),
        info_log matches Some(text) ==> (text@.len() > 0 ==> r == Ok::<Option<String>, ShaderError>(Some(text))),
{
    match info_log {
        None => Err(ShaderError::InfoLogMissing),
        Some(text) => {
            if text.as_str().is_empty() {
                Ok(None)
            } else {
                Ok(Some(text))
            }
        },
    }
}

/// A shader object that this library created, with the position of its
/// creation in the record of calls that `Shader::compile` keeps.
struct StageShader {
    handle: WebGlShader,
    index: Ghost<nat>,
}

/// A program object that this library created, with the position of its
/// creation in the record of calls.
struct ProgramObject {
    handle: WebGlProgram,
    index: Ghost<nat>,
}

/// Creates a shader object of `stage` and records the creation.
fn gl_create_shader(gl: &GL, stage: ShaderStage, calls: &mut Ghost<Seq<GlCall>>) -> (r: Option<StageShader>)
    ensures
        r matches Some(s) ==> s.index@ == old(calls)@.len()
            && final(calls)@ == old(calls)@.push(GlCall::CreateShader { stage }),
        r is None ==> final(calls)@ == old(calls)@,
{
    match create_shader(gl, stage) {
        Some(handle) => {
            let ghost at = calls@.len();
            proof {
                calls@ = calls@.push(GlCall::CreateShader { stage });
            }
            Some(StageShader { handle, index: Ghost(at) })
        },
        None => None,
    }
}

/// Gives `shader` the text `source` and records it.
fn gl_shader_source(gl: &GL, shader: &StageShader, source: &str, calls: &mut Ghost<Seq<GlCall>>)
    ensures
        final(calls)@ == old(calls)@.push(GlCall::ShaderSource { shader: shader.index@, text: source@ }),
{
    shader_source(gl, &shader.handle, source);
    proof {
        calls@ = calls@.push(GlCall::ShaderSource { shader: shader.index@, text: source@ });
    }
}

/// Compiles `shader` and records it.
fn gl_compile_shader(gl: &GL, shader: &StageShader, calls: &mut Ghost<Seq<GlCall>>)
    ensures
        final(calls)@ == old(calls)@.push(GlCall::CompileShader { shader: shader.index@ }),
{
    compile_shader(gl, &shader.handle);
    proof {
        calls@ = calls@.push(GlCall::CompileShader { shader: shader.index@ });
    }
}

/// Creates a program object and records the creation.
fn gl_create_program(gl: &GL, calls: &mut Ghost<Seq<GlCall>>) -> (r: Option<ProgramObject>)
    ensures
        r matches Some(p) ==> p.index@ == old(calls)@.len()
            && final(calls)@ == old(calls)@.push(GlCall::CreateProgram),
        r is None ==> final(calls)@ == old(calls)@,
{
    match create_program(gl) {
        Some(handle) => {
            let ghost at = calls@.len();
            proof {
                calls@ = calls@.push(GlCall::CreateProgram);
            }
            Some(ProgramObject { handle, index: Ghost(at) })
        },
        None => None,
    }
}

/// Attaches `shader` to `program` and records it.
fn gl_attach_shader(gl: &GL, program: &ProgramObject, shader: &StageShader, calls: &mut Ghost<Seq<GlCall>>)
    ensures
        final(calls)@ == old(calls)@.push(
            GlCall::AttachShader { program: program.index@, shader: shader.index@ },
        ),
{
    attach_shader(gl, &program.handle, &shader.handle);
    proof {
        calls@ = calls@.push(GlCall::AttachShader { program: program.index@, shader: shader.index@ });
    }
}

/// Links `program` and records it.
fn gl_link_program(gl: &GL, program: &ProgramObject, calls: &mut Ghost<Seq<GlCall>>)
    ensures
        final(calls)@ == old(calls)@.push(GlCall::LinkProgram { program: program.index@ }),
{
    link_program(gl, &program.handle);
    proof {
        calls@ = calls@.push(GlCall::LinkProgram { program: program.index@ });
    }
}

/// Makes `program`, created at position `index`, the one that draw calls
/// run, and gives back the record of that call.
fn gl_use_program(gl: &GL, program: &WebGlProgram, index: Ghost<nat>) -> (call: Ghost<GlCall>)
    ensures
        call@ == (GlCall::UseProgram { program: index@ }),
{
    use_program(gl, program);
    Ghost(GlCall::UseProgram { program: index@ })
}

/// What `Shader::compile` does to a fresh record of calls when every call
/// succeeds: each stage is created, given its text and compiled, then a
/// program is created, both shaders are attached and the program is linked.
closed spec fn compile_record(vs: Seq<char>, fs: Seq<char>) -> Seq<GlCall> {
    Seq::<GlCall>::empty()
        .push(GlCall::CreateShader { stage: ShaderStage::Vertex })
        .push(GlCall::ShaderSource { shader: 0, text: vs })
        .push(GlCall::CompileShader { shader: 0 })
        .push(GlCall::CreateShader { stage: ShaderStage::Fragment })
        .push(GlCall::ShaderSource { shader: 3, text: fs })
        .push(GlCall::CompileShader { shader: 3 })
        .push(GlCall::CreateProgram)
        .push(GlCall::AttachShader { program: 6, shader: 0 })
        .push(GlCall::AttachShader { program: 6, shader: 3 })
        .push(GlCall::LinkProgram { program: 6 })
}

/// The calls that `Shader::compile` makes link program 6 from a vertex
/// shader compiled from `vs` and a fragment shader compiled from `fs`.
proof fn lemma_compile_record_links(vs: Seq<char>, fs: Seq<char>)
    ensures
        links_sources(compile_record(vs, fs), 6, vs, fs),
        compile_record(vs, fs)[6] == GlCall::CreateProgram,
        compile_record(vs, fs).len() == 10,
{
    let t0 = Seq::<GlCall>::empty();
    let t1 = t0.push(GlCall::CreateShader { stage: ShaderStage::Vertex });
    let t2 = t1.push(GlCall::ShaderSource { shader: 0, text: vs });
    let t3 = t2.push(GlCall::CompileShader { shader: 0 });
    let t4 = t3.push(GlCall::CreateShader { stage: ShaderStage::Fragment });
    let t5 = t4.push(GlCall::ShaderSource { shader: 3, text: fs });
    let t6 = t5.push(GlCall::CompileShader { shader: 3 });
    let t7 = t6.push(GlCall::CreateProgram);
    let t8 = t7.push(GlCall::AttachShader { program: 6, shader: 0 });
    let t9 = t8.push(GlCall::AttachShader { program: 6, shader: 3 });
    let t10 = t9.push(GlCall::LinkProgram { program: 6 });
    lemma_step(t0, GlCall::CreateShader { stage: ShaderStage::Vertex });
    lemma_step(t1, GlCall::ShaderSource { shader: 0, text: vs });
    lemma_step(t2, GlCall::CompileShader { shader: 0 });
    lemma_step(t3, GlCall::CreateShader { stage: ShaderStage::Fragment });
    lemma_step(t4, GlCall::ShaderSource { shader: 3, text: fs });
    lemma_step(t5, GlCall::CompileShader { shader: 3 });
    lemma_step(t6, GlCall::CreateProgram);
    lemma_step(t7, GlCall::AttachShader { program: 6, shader: 0 });
    lemma_step(t8, GlCall::AttachShader { program: 6, shader: 3 });
    lemma_step(t9, GlCall::LinkProgram { program: 6 });
    assert(t10 == compile_record(vs, fs));

    assert(source_text(t2, 0) == vs);
    assert(compiled_text(t3, 0) == Some(vs));
    assert(compiled_text(t4, 0) == Some(vs));
    assert(compiled_text(t5, 0) == Some(vs));
    assert(compiled_text(t6, 0) == Some(vs));
    assert(compiled_text(t7, 0) == Some(vs));
    assert(compiled_text(t8, 0) == Some(vs));
    assert(compiled_text(t9, 0) == Some(vs));
    assert(source_text(t5, 3) == fs);
    assert(compiled_text(t6, 3) == Some(fs));
    assert(compiled_text(t7, 3) == Some(fs));
    assert(compiled_text(t8, 3) == Some(fs));
    assert(compiled_text(t9, 3) == Some(fs));

    assert(attached(t0, 6) == Seq::<nat>::empty());
    assert(attached(t1, 6) == Seq::<nat>::empty());
    assert(attached(t2, 6) == Seq::<nat>::empty());
    assert(attached(t3, 6) == Seq::<nat>::empty());
    assert(attached(t4, 6) == Seq::<nat>::empty());
    assert(attached(t5, 6) == Seq::<nat>::empty());
    assert(attached(t6, 6) == Seq::<nat>::empty());
    assert(attached(t7, 6) == Seq::<nat>::empty());
    assert(attached(t8, 6) == seq![0nat]);
    assert(attached(t9, 6) =~= seq![0nat, 3nat]);

    assert(t9[0] == GlCall::CreateShader { stage: ShaderStage::Vertex });
    assert(t9[3] == GlCall::CreateShader { stage: ShaderStage::Fragment });
    assert(stage_of(t9, 0) == Some(ShaderStage::Vertex));
    assert(stage_of(t9, 3) == Some(ShaderStage::Fragment));
    let linked_from = attached(t9, 6).map_values(|s: nat| (stage_of(t9, s), compiled_text(t9, s)));
    assert(linked_from =~= seq![
        (Some(ShaderStage::Vertex), Some(vs)),
        (Some(ShaderStage::Fragment), Some(fs)),
    ]);
    assert(linked(t10, 6) == Some(linked_from));
    assert(t10[6] == GlCall::CreateProgram);
}

/// A GLSL program: its two sources and, once compiled, the linked program
/// together with the context that it belongs to.
#[derive(Clone)]
pub struct Shader {
    id: Option<WebGlProgram>,
    gl: Option<GL>,
    vs_source: String,
    fs_source: String,
    calls: Ghost<Seq<GlCall>>,
    program_index: Ghost<nat>,
}

impl Shader {
    /// The linked program, once `compile` has succeeded.
    pub closed spec fn program(&self) -> Option<WebGlProgram> {
        self.id
    }

    /// The context that the program was compiled in.
    pub closed spec fn context(&self) -> Option<GL> {
        self.gl
    }

    /// The text of the vertex stage.
    pub closed spec fn vertex_source(&self) -> Seq<char> {
        self.vs_source@
    }

    /// The text of the fragment stage.
    pub closed spec fn fragment_source(&self) -> Seq<char> {
        self.fs_source@
    }

    /// The calls into the GL context that built the kept program (empty
    /// before the first successful `compile`).
    pub closed spec fn gl_calls(&self) -> Seq<GlCall> {
        self.calls@
    }

    /// Where, in `gl_calls`, the kept program was created.
    pub closed spec fn program_object(&self) -> nat {
        self.program_index@
    }

    /// A program that is not compiled yet, from the texts of its two stages.
    pub fn new(vs_source: &str, fs_source: &str) -> (shader: Shader)
        ensures
            shader.program() is None,
            shader.context() is None,
            shader.vertex_source() == vs_source@,
            shader.fragment_source() == fs_source@,
    {
        Shader {
            id: None,
            gl: None,
            vs_source: vs_source.to_owned(),
            fs_source: fs_source.to_owned(),
            calls: Ghost(Seq::empty()),
            program_index: Ghost(0),
        }
    }

    /// The text that `stage` is compiled from: the vertex source for the
    /// vertex stage, the fragment source for the fragment stage.
    closed spec fn stage_text(&self, stage: ShaderStage) -> Seq<char> {
        match stage {
            ShaderStage::Vertex => self.vertex_source(),
            ShaderStage::Fragment => self.fragment_source(),
        }
    }

    /// The text that `stage` is compiled from, borrowed from the shader.
    fn stage_source(&self, stage: &ShaderStage) -> (src: &str)
        ensures
            src@ == self.stage_text(*stage),
            *stage is Vertex ==> src@ == self.vertex_source(),
            *stage is Fragment ==> src@ == self.fragment_source(),
    {
        match stage {
            ShaderStage::Vertex => self.vs_source.as_str(),
            ShaderStage::Fragment => self.fs_source.as_str(),
        }
    }

    /// Compiles one stage: creates a shader object of that stage, gives it
    /// `source`, which must be that stage's own text, compiles it, and logs
    /// the driver's messages when there are any (`info_log_message`).
    fn compile_stage(&self, gl: &GL, stage: ShaderStage, source: &str, calls: &mut Ghost<Seq<GlCall>>)
        -> (r: Result<StageShader, ShaderError>)
        requires
            source@ == self.stage_text(stage),
        ensures
            r matches Err(e) ==> e == ShaderError::ShaderNotCreated || e == ShaderError::InfoLogMissing,
            r matches Ok(sh) ==> sh.index@ == old(calls)@.len() && final(calls)@ == old(calls)@
                .push(GlCall::CreateShader { stage })
                .push(GlCall::ShaderSource { shader: sh.index@, text: self.stage_text(stage) })
                .push(GlCall::CompileShader { shader: sh.index@ }),
            r matches Ok(sh) ==> stage_of(final(calls)@, sh.index@) == Some(stage)
                && compiled_text(final(calls)@, sh.index@) == Some(self.stage_text(stage)),
    {
        let shader = match gl_create_shader(gl, stage, calls) {
            Some(s) => s,
            None => return Err(ShaderError::ShaderNotCreated),
        };
        gl_shader_source(gl, &shader, source, calls);
        gl_compile_shader(gl, &shader, calls);
        proof {
            let t1 = old(calls)@.push(GlCall::CreateShader { stage });
            let t2 = t1.push(GlCall::ShaderSource { shader: shader.index@, text: source@ });
            lemma_step(old(calls)@, GlCall::CreateShader { stage });
            lemma_step(t1, GlCall::ShaderSource { shader: shader.index@, text: source@ });
            lemma_step(t2, GlCall::CompileShader { shader: shader.index@ });
            assert(stage_of(t1, shader.index@) == Some(stage));
            assert(stage_of(calls@, shader.index@) == Some(stage));
        }
        match info_log_message(get_shader_info_log(gl, &shader.handle)) {
            Ok(Some(message)) => {
                log(message);
            },
            Ok(None) => {},
            Err(e) => return Err(e),
        }
        Ok(shader)
    }

    /// Logs the vertex source, compiles both stages in `gl_context` and links
    /// them into a program, which the shader keeps with the context. Where the
    /// context refuses an object or a log, the shader is left as it was and
    /// the error says which.
    pub fn compile(&mut self, gl_context: Option<GL>) -> (r: Result<(), ShaderError>)
        requires
            gl_context is Some,
        ensures
            final(self).vertex_source() == old(self).vertex_source(),
            final(self).fragment_source() == old(self).fragment_source(),
            r is Ok ==> final(self).program() is Some && final(self).context() == gl_context,
            r is Ok ==> links_sources(
                final(self).gl_calls(),
                final(self).program_object(),
                old(self).vertex_source(),
                old(self).fragment_source(),
            ),
            r is Ok ==> final(self).program_object() < final(self).gl_calls().len()
                && final(self).gl_calls()[final(self).program_object() as int] == GlCall::CreateProgram,
            r is Err ==> *final(self) == *old(self),
            r matches Err(e) ==> e == ShaderError::ShaderNotCreated || e == ShaderError::InfoLogMissing
                || e == ShaderError::ProgramNotCreated,
    {
        log(self.vs_source.clone());
        let gl = match &gl_context {
            Some(g) => g,
            None => return Err(ShaderError::ShaderNotCreated),
        };
        let mut calls: Ghost<Seq<GlCall>> = Ghost(Seq::empty());
        let vert_stage = ShaderStage::Vertex;
        let vert_source = self.stage_source(&vert_stage);
        let vert_shader = match self.compile_stage(gl, vert_stage, vert_source, &mut calls) {
            Ok(s) => s,
            Err(e) => return Err(e),
        };
        let frag_stage = ShaderStage::Fragment;
        let frag_source = self.stage_source(&frag_stage);
        let frag_shader = match self.compile_stage(gl, frag_stage, frag_source, &mut calls) {
            Ok(s) => s,
            Err(e) => return Err(e),
        };
        let shader_program = match gl_create_program(gl, &mut calls) {
            Some(p) => p,
            None => return Err(ShaderError::ProgramNotCreated),
        };
        gl_attach_shader(gl, &shader_program, &vert_shader, &mut calls);
        gl_attach_shader(gl, &shader_program, &frag_shader, &mut calls);
        gl_link_program(gl, &shader_program, &mut calls);
        proof {
            lemma_compile_record_links(self.vertex_source(), self.fragment_source());
            assert(calls@ =~= compile_record(self.vertex_source(), self.fragment_source()));
        }

        self.gl = gl_context;
        self.calls = calls;
        self.program_index = shader_program.index;
        self.id = Some(shader_program.handle);
        Ok(())
    }

    /// Whether the shader holds both a linked program and its context, so
    /// that `use_shader` may be called.
    pub fn is_ready(&self) -> (ready: bool)
        ensures
            ready == (self.program() is Some && self.context() is Some),
    {
        self.id.is_some() && self.gl.is_some()
    }

    /// Makes the compiled program the one that later draw calls run,
    /// keeping the shader; gives back the record of the call made.
    pub fn bind(&self) -> (used: Ghost<GlCall>)
        requires
            self.context() is Some,
            self.program() is Some,
        ensures
            used@ == (GlCall::UseProgram { program: self.program_object() }),
            current_program(self.gl_calls().push(used@)) == Some(self.program_object()),
    {
        proof {
            lemma_step(self.gl_calls(), GlCall::UseProgram { program: self.program_object() });
        }
        match (&self.gl, &self.id) {
            (Some(gl), Some(id)) => gl_use_program(gl, id, self.program_index),
            _ => vstd::pervasive::unreached(),
        }
    }

    /// Makes the compiled program the one that later draw calls run; gives
    /// back the record of the call made.
    pub fn use_shader(self) -> (used: Ghost<GlCall>)
        requires
            self.context() is Some,
            self.program() is Some,
        ensures
            used@ == (GlCall::UseProgram { program: self.program_object() }),
            current_program(self.gl_calls().push(used@)) == Some(self.program_object()),
    {
        self.bind()
    }

    /// The linked program, if the shader has been compiled, borrowed from
    /// the shader.
    pub fn program_id(&self) -> (id: Option<&WebGlProgram>)
        ensures
            id is None <==> self.program() is None,
            id matches Some(p) ==> self.program() == Some(*p),
    {
        match &self.id {
            Some(p) => Some(p),
            None => None,
        }
    }

    /// The linked program, if the shader has been compiled.
    pub fn shader_id(self) -> (id: Option<WebGlProgram>)
        ensures
            id == self.program(),
    {
        self.id
    }
}

} // verus!
