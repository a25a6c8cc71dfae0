use rust_3d::shader::{
    check_link_inputs, check_source, compile_outcome, decode_log, link_outcome, log_len_without_terminator,
    status_succeeded, BuildError, Program, Shader, ShaderStage, STATUS_SUCCESS,
};

fn log_with_terminator(text: &str) -> (Vec<u8>, i32) {
    let mut raw = text.as_bytes().to_vec();
    raw.push(0);
    let len = raw.len() as i32;
    (raw, len)
}

#[test]
fn compile_success_gives_the_shader() {
    let r = compile_outcome(ShaderStage::Vertex, 7, STATUS_SUCCESS, &Vec::new(), 0);
    assert_eq!(r, Ok(Shader { handle: 7, stage: ShaderStage::Vertex }));
}

#[test]
fn compile_failure_carries_the_log() {
    let (raw, len) = log_with_terminator("0:1(1): error: syntax error");
    let r = compile_outcome(ShaderStage::Fragment, 3, 0, &raw, len);
    assert_eq!(
        r,
        Err(BuildError::CompileFailed { stage: ShaderStage::Fragment, log: "0:1(1): error: syntax error".to_string() })
    );
}

#[test]
fn compile_failure_with_invalid_utf8_log() {
    let raw = vec![0xffu8, 0xfe, 0x41, 0];
    let r = compile_outcome(ShaderStage::Vertex, 3, 0, &raw, 4);
    assert_eq!(r, Err(BuildError::LogNotUtf8));
}

#[test]
fn link_success_gives_the_program() {
    let vs = Shader { handle: 1, stage: ShaderStage::Vertex };
    let fs = Shader { handle: 2, stage: ShaderStage::Fragment };
    assert_eq!(check_link_inputs(&vs, &fs), Ok(()));
    assert_eq!(link_outcome(&vs, &fs, 9, STATUS_SUCCESS, &Vec::new(), 0), Ok(Program { handle: 9 }));
}

#[test]
fn link_failure_carries_the_log() {
    let vs = Shader { handle: 1, stage: ShaderStage::Vertex };
    let fs = Shader { handle: 2, stage: ShaderStage::Fragment };
    let (raw, len) = log_with_terminator("error: out_color not written");
    assert_eq!(
        link_outcome(&vs, &fs, 9, 0, &raw, len),
        Err(BuildError::LinkFailed { log: "error: out_color not written".to_string() })
    );
}

#[test]
fn mismatched_pair_fails_to_link() {
    let a = Shader { handle: 1, stage: ShaderStage::Fragment };
    let b = Shader { handle: 2, stage: ShaderStage::Vertex };
    let expected = Err(BuildError::StageMismatch { vertex: ShaderStage::Fragment, fragment: ShaderStage::Vertex });
    assert_eq!(check_link_inputs(&a, &b), expected);
    assert_eq!(link_outcome(&a, &b, 9, STATUS_SUCCESS, &Vec::new(), 0), Err(
        BuildError::StageMismatch { vertex: ShaderStage::Fragment, fragment: ShaderStage::Vertex }
    ));
    let v = Shader { handle: 3, stage: ShaderStage::Vertex };
    assert!(check_link_inputs(&v, &v).is_err());
}

#[test]
fn status_success_is_true() {
    assert!(status_succeeded(1));
    assert!(!status_succeeded(0));
    assert!(!status_succeeded(2));
}

#[test]
fn source_with_nul_is_rejected() {
    assert_eq!(check_source("void main() {}"), Ok(()));
    assert_eq!(check_source(""), Ok(()));
    assert_eq!(check_source("ab\0c\0"), Err(BuildError::SourceHasNul { position: 2 }));
}

#[test]
fn log_length_drops_the_terminator() {
    assert_eq!(log_len_without_terminator(10), 9);
    assert_eq!(log_len_without_terminator(1), 0);
    assert_eq!(log_len_without_terminator(0), 0);
    assert_eq!(log_len_without_terminator(-5), 0);
}

#[test]
fn decode_log_keeps_only_the_text() {
    let raw = b"hello\0garbage".to_vec();
    assert_eq!(decode_log(&raw, 6), Ok("hello".to_string()));
    assert_eq!(decode_log(&b"ab".to_vec(), 10), Ok("ab".to_string()));
    assert_eq!(decode_log(&Vec::new(), 0), Ok(String::new()));
    assert_eq!(decode_log(&vec![0xc3u8, 0xa9, 0], 3), Ok("\u{e9}".to_string()));
    assert_eq!(decode_log(&vec![0xc3u8, 0], 2), Err(BuildError::LogNotUtf8));
}
