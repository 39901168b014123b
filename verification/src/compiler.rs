//! What is handed to the shader compiler, and what is made of its answer.
//!
//! The compiler itself is run by the host. Every compilation is a fresh one
//! for the fragment stage, with `main` as its entry point.

use vstd::prelude::*;
use vstd::string::*;

verus! {

/// The shader stage that a source is compiled for.
#[derive(Clone, Copy, Debug, PartialEq, Eq, Structural)]
pub enum ShaderStage {
    Vertex,
    Fragment,
}

/// The name of the entry point of every shader that is compiled.
pub open spec fn entry_point_name() -> Seq<char> {
    seq!['m', 'a', 'i', 'n']
}

/// One call of the compiler.
#[derive(Debug)]
pub struct CompileRequest {
    /// The shader's source.
    pub source_text: String,
    /// The name under which the compiler reports on the source.
    pub label: String,
    /// The stage that the source is compiled for.
    pub stage: ShaderStage,
    /// The function at which the shader is entered.
    pub entry_point: String,
}

impl CompileRequest {
    /// The request to compile `source_text`, which was read from the file
    /// that `label` names: for the fragment stage, entered at `main`.
    pub fn fragment(source_text: String, label: String) -> (request: CompileRequest)
        ensures
            request.source_text@ == source_text@,
            request.label@ == label@,
            request.stage == ShaderStage::Fragment,
            request.entry_point@ == entry_point_name(),
    {
        proof {
            reveal_strlit("main");
            assert("main"@ =~= entry_point_name());
        }
        CompileRequest {
            source_text,
            label,
            stage: ShaderStage::Fragment,
            entry_point: String::from_str("main"),
        }
    }
}

/// A shader in binary form, with the path of the source it was made from.
#[derive(Debug)]
pub struct CompiledShader {
    pub binary: Vec<u8>,
    pub source_path: String,
}

/// A failed compilation: the compiler's words, as it gave them.
#[derive(Debug)]
pub struct CompileError {
    pub diagnostic: String,
}

/// The model of what a compilation came to: the binary and the source path,
/// or the diagnostic.
pub open spec fn compilation_view(
    c: Result<CompiledShader, CompileError>,
) -> Result<(Seq<u8>, Seq<char>), Seq<char>> {
    match c {
        Ok(shader) => Ok((shader.binary@, shader.source_path@)),
        Err(e) => Err(e.diagnostic@),
    }
}

/// What `compiled` makes of the compiler's answer for the source at `path`.
pub open spec fn compilation_of(
    answer: Result<Seq<u8>, Seq<char>>,
    path: Seq<char>,
) -> Result<(Seq<u8>, Seq<char>), Seq<char>> {
    match answer {
        Ok(binary) => Ok((binary, path)),
        Err(words) => Err(words),
    }
}

/// The model of a compiler's answer.
pub open spec fn answer_view(answer: Result<Vec<u8>, String>) -> Result<Seq<u8>, Seq<char>> {
    match answer {
        Ok(binary) => Ok(binary@),
        Err(words) => Err(words@),
    }
}

/// Takes the compiler's answer for the source at `source_path`: the binary
/// becomes a compiled shader that remembers where it came from, and an
/// error keeps the compiler's words unchanged.
pub fn compiled(answer: Result<Vec<u8>, String>, source_path: String) -> (c: Result<
    CompiledShader,
    CompileError,
>)
    ensures
        compilation_view(c) == compilation_of(answer_view(answer), source_path@),
{
    match answer {
        Ok(binary) => Ok(CompiledShader { binary, source_path }),
        Err(diagnostic) => Err(CompileError { diagnostic }),
    }
}

} // verus!
