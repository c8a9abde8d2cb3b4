use meridian::ollama::{model_available, pull_done, take_line, trim};
use meridian::settings::ModelInfo;

fn m(name: &str) -> ModelInfo {
    ModelInfo { name: name.to_string(), size: 1, digest: "d".to_string() }
}

#[test]
fn model_available_by_prefix() {
    let models = vec![m("llama3:8b"), m("phi3:mini-4k")];
    assert!(model_available(&models, "phi3:mini"));
    assert!(!model_available(&models, "phi3:medium"));
    assert!(!model_available(&[], "phi3:mini"));
}

#[test]
fn trim_unicode_whitespace() {
    assert_eq!(trim("  a b \t\n"), "a b");
    assert_eq!(trim("\u{3000}x\u{a0}"), "x");
    assert_eq!(trim("   "), "");
}

#[test]
fn take_lines_from_stream_buffer() {
    let (line, rest) = take_line("  {\"status\":\"pulling\"}  \n{\"status\"").unwrap();
    assert_eq!(line, "{\"status\":\"pulling\"}");
    assert_eq!(rest, "{\"status\"");
    assert!(take_line("no newline yet").is_none());
    let (empty, rest2) = take_line("\nabc\n").unwrap();
    assert_eq!(empty, "");
    assert_eq!(rest2, "abc\n");
}

#[test]
fn pull_done_on_success() {
    assert!(pull_done("success"));
    assert!(!pull_done("pulling manifest"));
}
