use clang_format::{clang_format, ClangFormatError, ClangFormatStyle, FormatCommand, PipeOutcome};

#[test]
fn style_presets_render_to_fixed_strings() {
    assert_eq!(ClangFormatStyle::Chromium.as_str(), "Chromium");
    assert_eq!(ClangFormatStyle::Default.as_str(), "{}");
    assert_eq!(ClangFormatStyle::File.as_str(), "file");
    assert_eq!(ClangFormatStyle::GNU.as_str(), "GNU");
    assert_eq!(ClangFormatStyle::Google.as_str(), "Google");
    assert_eq!(ClangFormatStyle::Llvm.as_str(), "LLVM");
    assert_eq!(ClangFormatStyle::Microsoft.as_str(), "Microsoft");
    assert_eq!(ClangFormatStyle::Mozilla.as_str(), "Mozilla");
    assert_eq!(ClangFormatStyle::WebKit.as_str(), "WebKit");
}

#[test]
fn style_rendering_is_deterministic() {
    let style = ClangFormatStyle::Mozilla;
    let first = style.as_str().to_string();
    let second = style.as_str().to_string();
    assert_eq!(first, second);
    assert_eq!(first, "Mozilla");
}

#[test]
fn custom_style_passes_through_verbatim() {
    let text = "{BasedOnStyle: 'Mozilla',\n                    IndentWidth: 8}";
    let style = ClangFormatStyle::Custom(text.to_string());
    assert_eq!(style.as_str(), text);

    let quoted = "{ BasedOnStyle: \"Mozilla\", IndentWidth: 4 }";
    let style = ClangFormatStyle::Custom(quoted.to_string());
    assert_eq!(style.as_str(), quoted);

    let empty = ClangFormatStyle::Custom(String::new());
    assert_eq!(empty.as_str(), "");
}

#[test]
fn command_uses_default_binary_without_override() {
    let command = FormatCommand::new(&ClangFormatStyle::Default, None);
    assert_eq!(command.binary, "clang-format");
    assert_eq!(command.style_arg, "--style={}");
}

#[test]
fn command_uses_configured_binary_override() {
    let command = FormatCommand::new(
        &ClangFormatStyle::Mozilla,
        Some("clang-format-16".to_string()),
    );
    assert_eq!(command.binary, "clang-format-16");
    assert_eq!(command.style_arg, "--style=Mozilla");
}

#[test]
fn command_renders_custom_style_argument() {
    let style = ClangFormatStyle::Custom("{ IndentWidth: 2 }".to_string());
    let command = FormatCommand::new(&style, None);
    assert_eq!(command.style_arg, "--style={ IndentWidth: 2 }");
}

#[test]
fn spawn_failure_is_classified() {
    let result = clang_format(PipeOutcome::SpawnFailed);
    assert!(matches!(result, Err(ClangFormatError::SpawnFailure)));
}

#[test]
fn missing_stdin_is_classified() {
    let result = clang_format(PipeOutcome::StdInMissing);
    assert!(matches!(result, Err(ClangFormatError::StdInFailure)));
}

#[test]
fn write_failure_is_classified() {
    let result = clang_format(PipeOutcome::WriteFailed);
    assert!(matches!(result, Err(ClangFormatError::StdInWriteFailure)));
}

#[test]
fn wait_failure_is_classified() {
    let result = clang_format(PipeOutcome::WaitFailed);
    assert!(matches!(result, Err(ClangFormatError::WaitFailure)));
}

#[test]
fn collected_output_is_returned_exactly() {
    let stdout = "\nstruct Test {};\n";
    let result = clang_format(PipeOutcome::Collected(stdout.as_bytes().to_vec()));
    assert_eq!(result.unwrap(), stdout);
}

#[test]
fn collected_output_is_decoded_not_copied() {
    // Two bytes of multi-byte UTF-8 decode to one character.
    let bytes = vec![0xc3u8, 0xa9u8];
    let result = clang_format(PipeOutcome::Collected(bytes));
    let text = result.unwrap();
    assert_eq!(text, "\u{e9}");
    assert_eq!(text.chars().count(), 1);
}

#[test]
fn invalid_utf8_output_is_an_error() {
    let bytes = vec![0xffu8, 0xfeu8];
    let result = clang_format(PipeOutcome::Collected(bytes));
    assert!(matches!(result, Err(ClangFormatError::Utf8FormatError)));
}

#[test]
fn empty_output_is_empty_text_not_an_error() {
    let result = clang_format(PipeOutcome::Collected(Vec::new()));
    assert_eq!(result.unwrap(), "");
}
