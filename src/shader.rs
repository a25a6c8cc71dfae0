use vstd::prelude::*;
use vstd::string::StringSliceAdditionalSpecFns;
use vstd::utf8::{decode_utf8, valid_utf8};

verus! {

/// The status value (the graphics API's boolean true) reported for a
/// successful compile or link.
pub const STATUS_SUCCESS: i32 = 1;

/// The pipeline stage a shader is compiled for.
#[derive(Clone, Copy, Debug, PartialEq, Eq, Structural)]
pub enum ShaderStage {
    Vertex,
    Fragment,
}

/// A shader object whose compilation succeeded.
#[derive(Clone, Copy, Debug, PartialEq, Eq, Structural)]
pub struct Shader {
    pub handle: u32,
    pub stage: ShaderStage,
}

/// A program object whose link succeeded.
#[derive(Clone, Copy, Debug, PartialEq, Eq, Structural)]
pub struct Program {
    pub handle: u32,
}

/// Why a shader or a program could not be built.
#[derive(Clone, Debug, PartialEq, Eq)]
pub enum BuildError {
    /// The source text holds a NUL byte at `position`, so it cannot be handed
    /// to the compiler as a C string.
    SourceHasNul { position: usize },
    /// The compiler rejected the source; `log` is its diagnostic text.
    CompileFailed { stage: ShaderStage, log: String },
    /// The two shaders handed to the linker are not a vertex shader followed by
    /// a fragment shader.
    StageMismatch { vertex: ShaderStage, fragment: ShaderStage },
    /// The linker rejected the pair; `log` is its diagnostic text.
    LinkFailed { log: String },
    /// The diagnostic log is not valid UTF-8.
    LogNotUtf8,
}

/// Index of the first NUL byte of `bytes`, if there is one.
pub open spec fn first_nul(bytes: Seq<u8>) -> Option<int> {
    if exists|i: int| 0 <= i < bytes.len() && bytes[i] == 0 {
        Some(choose|i: int| 0 <= i < bytes.len() && bytes[i] == 0 && forall|j: int| 0 <= j < i ==> bytes[j] != 0)
    } else {
        None
    }
}

/// Number of bytes of a diagnostic log whose reported length, which counts
/// the terminating NUL, is `reported`.
pub open spec fn log_text_len(reported: int) -> int {
    if reported >= 1 {
        reported - 1
    } else {
        0
    }
}

/// The bytes of a retrieved log that hold its text: the reported length less
/// the terminator, and no more than was retrieved.
pub open spec fn log_text_bytes(raw: Seq<u8>, reported: int) -> Seq<u8> {
    if log_text_len(reported) <= raw.len() {
        raw.take(log_text_len(reported))
    } else {
        raw
    }
}

/// The log's text, or `None` when its bytes are not valid UTF-8.
pub open spec fn log_text(raw: Seq<u8>, reported: int) -> Option<Seq<char>> {
    if valid_utf8(log_text_bytes(raw, reported)) {
        Some(decode_utf8(log_text_bytes(raw, reported)))
    } else {
        None
    }
}

/// Relies on `String::from_utf8`: it succeeds exactly on valid UTF-8 and then
/// holds the decoded characters.
#[verifier::external_body]
fn utf8_to_string(bytes: Vec<u8>) -> (r: Option<String>)
    ensures
        r is Some <==> valid_utf8(bytes@),
        r matches Some(s) ==> s@ == decode_utf8(bytes@),
{
    String::from_utf8(bytes).ok()
}

/// Whether a compile or link status reports success.
pub fn status_succeeded(status: i32) -> (r: bool)
    ensures
        r == (status == STATUS_SUCCESS),
{
    status == STATUS_SUCCESS
}

/// Checks that a shader source can be handed to the compiler as a C string:
/// it must hold no NUL byte.
pub fn check_source(source: &str) -> (r: Result<(), BuildError>)
    ensures
        first_nul(source.spec_bytes()) is None ==> r is Ok,
        first_nul(source.spec_bytes()) matches Some(i) ==> r == Err::<(), BuildError>(
            BuildError::SourceHasNul { position: i as usize },
        ),
{
    let bytes = source.as_bytes();
    let mut i: usize = 0;
    while i < bytes.len()
        invariant
            bytes@ == source.spec_bytes(),
            i <= bytes@.len(),
            forall|j: int| 0 <= j < i ==> bytes@[j] != 0,
        decreases bytes@.len() - i,
    {
        if bytes[i] == 0 {
            proof {
                let b = bytes@;
                assert(b[i as int] == 0);
                let k = choose|k: int| 0 <= k < b.len() && b[k] == 0 && forall|j: int| 0 <= j < k ==> b[j] != 0;
                assert(k == i) by {
                    if k < i {
                        assert(b[k] != 0);
                    }
                    if k > i {
                        assert(b[i as int] != 0);
                    }
                }
            }
            return Err(BuildError::SourceHasNul { position: i });
        }
        i = i + 1;
    }
    Ok(())
}

/// Number of bytes of a diagnostic log whose reported length, terminator
/// included, is `reported`.
pub fn log_len_without_terminator(reported: i32) -> (r: usize)
    ensures
        r == log_text_len(reported as int),
{
    if reported >= 1 {
        (reported - 1) as usize
    } else {
        0
    }
}

/// The text of a retrieved diagnostic log. `raw` holds the bytes the API
/// wrote, `reported` the length it reported, terminator included.
pub fn decode_log(raw: &Vec<u8>, reported: i32) -> (r: Result<String, BuildError>)
    ensures
        log_text(raw@, reported as int) matches Some(t) ==> r matches Ok(s) && s@ == t,
        log_text(raw@, reported as int) is None ==> r == Err::<String, BuildError>(BuildError::LogNotUtf8),
{
    let n = log_len_without_terminator(reported);
    let mut bytes: Vec<u8> = Vec::new();
    let mut i: usize = 0;
    while i < n && i < raw.len()
        invariant
            i <= raw.len(),
            i <= n,
            bytes@ == raw@.take(i as int),
        decreases raw.len() - i,
    {
        bytes.push(raw[i]);
        i = i + 1;
    }
    assert(bytes@ == log_text_bytes(raw@, reported as int));
    match utf8_to_string(bytes) {
        Some(s) => Ok(s),
        None => Err(BuildError::LogNotUtf8),
    }
}

/// Whether `vertex` and `fragment` are a pair the linker can take: a vertex
/// shader and a fragment shader, in that order.
pub open spec fn stages_match(vertex: Shader, fragment: Shader) -> bool {
    vertex.stage == ShaderStage::Vertex && fragment.stage == ShaderStage::Fragment
}

/// The outcome of compiling a shader for `stage` into the shader object
/// `handle`, given the compile status and, on failure, the retrieved log.
/// On success the log is not read.
pub fn compile_outcome(stage: ShaderStage, handle: u32, status: i32, raw_log: &Vec<u8>, reported_len: i32) -> (r:
    Result<Shader, BuildError>)
    ensures
        status == STATUS_SUCCESS ==> r == Ok::<Shader, BuildError>((Shader { handle, stage })),
        status != STATUS_SUCCESS ==> match log_text(raw_log@, reported_len as int) {
            Some(t) => r matches Err(BuildError::CompileFailed { stage: st, log }) && st == stage && log@ == t,
            None => r == Err::<Shader, BuildError>(BuildError::LogNotUtf8),
        },
{
    if status_succeeded(status) {
        Ok(Shader { handle, stage })
    } else {
        match decode_log(raw_log, reported_len) {
            Ok(log) => Err(BuildError::CompileFailed { stage, log }),
            Err(e) => Err(e),
        }
    }
}

/// Checks, before linking, that the pair is a vertex shader and a fragment shader.
pub fn check_link_inputs(vertex: &Shader, fragment: &Shader) -> (r: Result<(), BuildError>)
    ensures
        stages_match(*vertex, *fragment) ==> r is Ok,
        !stages_match(*vertex, *fragment) ==> r == Err::<(), BuildError>(
            BuildError::StageMismatch { vertex: vertex.stage, fragment: fragment.stage },
        ),
{
    match (vertex.stage, fragment.stage) {
        (ShaderStage::Vertex, ShaderStage::Fragment) => Ok(()),
        _ => Err(BuildError::StageMismatch { vertex: vertex.stage, fragment: fragment.stage }),
    }
}

/// The outcome of linking `vertex` and `fragment` into the program object
/// `program`, given the link status and, on failure, the retrieved log.
/// A mismatched pair fails whatever the status.
pub fn link_outcome(
    vertex: &Shader,
    fragment: &Shader,
    program: u32,
    status: i32,
    raw_log: &Vec<u8>,
    reported_len: i32,
) -> (r: Result<Program, BuildError>)
    ensures
        !stages_match(*vertex, *fragment) ==> r == Err::<Program, BuildError>(
            BuildError::StageMismatch { vertex: vertex.stage, fragment: fragment.stage },
        ),
        stages_match(*vertex, *fragment) && status == STATUS_SUCCESS ==> r == Ok::<Program, BuildError>(
            (Program { handle: program }),
        ),
        stages_match(*vertex, *fragment) && status != STATUS_SUCCESS ==> match log_text(
            raw_log@,
            reported_len as int,
        ) {
            Some(t) => r matches Err(BuildError::LinkFailed { log }) && log@ == t,
            None => r == Err::<Program, BuildError>(BuildError::LogNotUtf8),
        },
{
    match check_link_inputs(vertex, fragment) {
        Err(e) => Err(e),
        Ok(()) => {
            if status_succeeded(status) {
                Ok(Program { handle: program })
            } else {
                match decode_log(raw_log, reported_len) {
                    Ok(log) => Err(BuildError::LinkFailed { log }),
                    Err(e) => Err(e),
                }
            }
        },
    }
}

} // verus!
