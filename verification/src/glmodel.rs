use vstd::prelude::*;

verus! {

/// The two programmable stages that a shader program is linked from.
#[derive(Clone, Copy, Debug, PartialEq, Eq, Structural)]
pub enum ShaderStage {
    Vertex,
    Fragment,
}

/// One call into a WebGL2 context, as this library makes it. Shader and
/// program objects are named by the position, in the same record, of the
/// call that created them.
pub ghost enum GlCall {
    /// `createShader` of a stage, which handed back a shader object.
    CreateShader { stage: ShaderStage },
    /// `shaderSource`: the text that the shader will be compiled from.
    ShaderSource { shader: nat, text: Seq<char> },
    /// `compileShader`: compiles the text that the shader holds now.
    CompileShader { shader: nat },
    /// `createProgram`, which handed back a program object.
    CreateProgram,
    /// `attachShader`.
    AttachShader { program: nat, shader: nat },
    /// `linkProgram`: links the shaders attached to the program now, as
    /// they are compiled now.
    LinkProgram { program: nat },
    /// `useProgram`: makes the program the one that draw calls run.
    UseProgram { program: nat },
}

/// The stage of the shader object created at position `sh` of `calls`.
pub open spec fn stage_of(calls: Seq<GlCall>, sh: nat) -> Option<ShaderStage> {
    if sh < calls.len() {
        match calls[sh as int] {
            GlCall::CreateShader { stage } => Some(stage),
            _ => None,
        }
    } else {
        None
    }
}

/// The text that shader `sh` holds after `calls`: what the last
/// `shaderSource` gave it (nothing before the first).
pub open spec fn source_text(calls: Seq<GlCall>, sh: nat) -> Seq<char>
    decreases calls.len(),
{
    if calls.len() == 0 {
        Seq::empty()
    } else {
        match calls.last() {
            GlCall::ShaderSource { shader, text } => if shader == sh {
                text
            } else {
                source_text(calls.drop_last(), sh)
            },
            _ => source_text(calls.drop_last(), sh),
        }
    }
}

/// The text that shader `sh` was last compiled from after `calls`, if it
/// has been compiled at all.
pub open spec fn compiled_text(calls: Seq<GlCall>, sh: nat) -> Option<Seq<char>>
    decreases calls.len(),
{
    if calls.len() == 0 {
        None
    } else {
        match calls.last() {
            GlCall::CompileShader { shader } => if shader == sh {
                Some(source_text(calls.drop_last(), sh))
            } else {
                compiled_text(calls.drop_last(), sh)
            },
            _ => compiled_text(calls.drop_last(), sh),
        }
    }
}

/// The shaders attached to program `p` after `calls`, in the order they
/// were attached.
pub open spec fn attached(calls: Seq<GlCall>, p: nat) -> Seq<nat>
    decreases calls.len(),
{
    if calls.len() == 0 {
        Seq::empty()
    } else {
        match calls.last() {
            GlCall::AttachShader { program, shader } => if program == p {
                attached(calls.drop_last(), p).push(shader)
            } else {
                attached(calls.drop_last(), p)
            },
            _ => attached(calls.drop_last(), p),
        }
    }
}

/// What program `p` was last linked from after `calls`: for each shader
/// attached at that moment, its stage and the text it was compiled from
/// then. `None` if the program was never linked.
pub open spec fn linked(calls: Seq<GlCall>, p: nat) -> Option<Seq<(Option<ShaderStage>, Option<Seq<char>>)>>
    decreases calls.len(),
{
    if calls.len() == 0 {
        None
    } else {
        let before = calls.drop_last();
        match calls.last() {
            GlCall::LinkProgram { program } => if program == p {
                Some(attached(before, p).map_values(|s: nat| (stage_of(before, s), compiled_text(before, s))))
            } else {
                linked(before, p)
            },
            _ => linked(before, p),
        }
    }
}

/// The program that draw calls run after `calls`, if any.
pub open spec fn current_program(calls: Seq<GlCall>) -> Option<nat>
    decreases calls.len(),
{
    if calls.len() == 0 {
        None
    } else {
        match calls.last() {
            GlCall::UseProgram { program } => Some(program),
            _ => current_program(calls.drop_last()),
        }
    }
}

/// Whether `calls` link program `p` from a vertex shader compiled from
/// `vs` followed by a fragment shader compiled from `fs`, and nothing else.
pub open spec fn links_sources(calls: Seq<GlCall>, p: nat, vs: Seq<char>, fs: Seq<char>) -> bool {
    linked(calls, p) == Some(seq![
        (Some(ShaderStage::Vertex), Some(vs)),
        (Some(ShaderStage::Fragment), Some(fs)),
    ])
}

/// How one more call changes the model: each function above looks at the
/// last call and otherwise at the calls before it.
pub proof fn lemma_step(calls: Seq<GlCall>, c: GlCall)
    ensures
        calls.push(c).drop_last() == calls,
        calls.push(c).last() == c,
        forall|sh: nat| #[trigger] source_text(calls.push(c), sh) == match c {
            GlCall::ShaderSource { shader, text } => if shader == sh { text } else { source_text(calls, sh) },
            _ => source_text(calls, sh),
        },
        forall|sh: nat| #[trigger] compiled_text(calls.push(c), sh) == match c {
            GlCall::CompileShader { shader } => if shader == sh {
                Some(source_text(calls, sh))
            } else {
                compiled_text(calls, sh)
            },
            _ => compiled_text(calls, sh),
        },
        forall|p: nat| #[trigger] attached(calls.push(c), p) == match c {
            GlCall::AttachShader { program, shader } => if program == p {
                attached(calls, p).push(shader)
            } else {
                attached(calls, p)
            },
            _ => attached(calls, p),
        },
        forall|p: nat| #[trigger] linked(calls.push(c), p) == match c {
            GlCall::LinkProgram { program } => if program == p {
                Some(attached(calls, p).map_values(|s: nat| (stage_of(calls, s), compiled_text(calls, s))))
            } else {
                linked(calls, p)
            },
            _ => linked(calls, p),
        },
        current_program(calls.push(c)) == match c {
            GlCall::UseProgram { program } => Some(program),
            _ => current_program(calls),
        },
        forall|sh: nat| sh < calls.len() ==> #[trigger] stage_of(calls.push(c), sh) == stage_of(calls, sh),
{
    assert(calls.push(c).drop_last() =~= calls);
    assert forall|sh: nat| sh < calls.len() implies #[trigger] stage_of(calls.push(c), sh) == stage_of(calls, sh) by {
        assert(calls.push(c)[sh as int] == calls[sh as int]);
    }
}

/// Linking a program before any shader is attached to it links nothing,
/// whatever is attached afterwards.
pub proof fn lemma_link_before_attach_links_nothing(p: nat, s1: nat, s2: nat)
    ensures
        linked(
            seq![
                GlCall::CreateProgram,
                GlCall::LinkProgram { program: p },
                GlCall::AttachShader { program: p, shader: s1 },
                GlCall::AttachShader { program: p, shader: s2 },
            ],
            p,
        ) == Some(Seq::<(Option<ShaderStage>, Option<Seq<char>>)>::empty()),
{
    let t0 = Seq::<GlCall>::empty();
    let t1 = t0.push(GlCall::CreateProgram);
    let t2 = t1.push(GlCall::LinkProgram { program: p });
    let t3 = t2.push(GlCall::AttachShader { program: p, shader: s1 });
    let t4 = t3.push(GlCall::AttachShader { program: p, shader: s2 });
    lemma_step(t0, GlCall::CreateProgram);
    lemma_step(t1, GlCall::LinkProgram { program: p });
    lemma_step(t2, GlCall::AttachShader { program: p, shader: s1 });
    lemma_step(t3, GlCall::AttachShader { program: p, shader: s2 });
    assert(attached(t0, p) == Seq::<nat>::empty());
    assert(attached(t1, p) == Seq::<nat>::empty());
    assert(linked(t2, p) =~= Some(Seq::<(Option<ShaderStage>, Option<Seq<char>>)>::empty()));
    assert(linked(t4, p) == linked(t2, p));
    assert(t4 =~= seq![
        GlCall::CreateProgram,
        GlCall::LinkProgram { program: p },
        GlCall::AttachShader { program: p, shader: s1 },
        GlCall::AttachShader { program: p, shader: s2 },
    ]);
}

/// A shader compiled before it is given its text is compiled from the text
/// that it held then (none), not from what it is given afterwards.
pub proof fn lemma_compile_before_source(sh: nat, text: Seq<char>)
    ensures
        compiled_text(
            seq![GlCall::CompileShader { shader: sh }, GlCall::ShaderSource { shader: sh, text: text }],
            sh,
        ) == Some(Seq::<char>::empty()),
{
    let t0 = Seq::<GlCall>::empty();
    let t1 = t0.push(GlCall::CompileShader { shader: sh });
    let t2 = t1.push(GlCall::ShaderSource { shader: sh, text: text });
    lemma_step(t0, GlCall::CompileShader { shader: sh });
    lemma_step(t1, GlCall::ShaderSource { shader: sh, text: text });
    assert(source_text(t0, sh) == Seq::<char>::empty());
    assert(compiled_text(t2, sh) == compiled_text(t1, sh));
    assert(t2 =~= seq![GlCall::CompileShader { shader: sh }, GlCall::ShaderSource { shader: sh, text: text }]);
}

/// After `useProgram` of a program, draw calls run that program.
pub proof fn lemma_use_program_makes_current(calls: Seq<GlCall>, p: nat)
    ensures
        current_program(calls.push(GlCall::UseProgram { program: p })) == Some(p),
{
    lemma_step(calls, GlCall::UseProgram { program: p });
}

} // verus!
