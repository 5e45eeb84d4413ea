//! A verified configuration layer for the `clang-format` command-line tool.
//!
//! The library plans an invocation of the external formatter and classifies
//! what the invocation reported back.  Everything that can be decided from
//! plain values is decided here, under contract: rendering a style selector
//! to the tool's `--style` argument, resolving the binary name, and turning
//! the raw result of the piped run into formatted text or a typed error.
//! Launching the process and moving bytes through its pipes is operating
//! system work; the embedding application performs it and reports back a
//! [`PipeOutcome`].

use vstd::prelude::*;

verus! {

use vstd::string::StringExecFns;
use vstd::utf8::{valid_utf8, decode_utf8};

/// Describes the style to pass to `clang-format`.
///
/// Each named preset renders to the fixed argument string the tool expects
/// for its `--style` flag; `Custom` carries caller-supplied override text
/// that is passed through verbatim.
#[derive(Debug, PartialEq)]
#[non_exhaustive]
pub enum ClangFormatStyle {
    /// A style complying with Chromium's style guide.
    Chromium,
    /// Use the default `clang-format` style.
    Default,
    /// Let `clang-format` search parent directories for a `.clang-format` file.
    File,
    /// A style complying with the GNU coding standards.
    GNU,
    /// A style complying with Google's C++ style guide.
    Google,
    /// A style complying with the LLVM coding standards.
    Llvm,
    /// A style complying with Microsoft's style guide.
    Microsoft,
    /// A style complying with Mozilla's style guide.
    Mozilla,
    /// A style complying with WebKit's style guide.
    WebKit,
    /// A custom input for the `--style` argument of `clang-format`.
    ///
    /// The text is handed to the tool unmodified; no validation is performed
    /// on it, so malformed override syntax is rejected only by the tool
    /// itself at invocation time.
    Custom(String),
}

impl ClangFormatStyle {
    /// The exact text this selector renders to for the tool's `--style` flag.
    pub open spec fn arg_spec(self) -> Seq<char> {
        match self {
            ClangFormatStyle::Chromium => "Chromium"@,
            // An empty options object makes the tool use its default options.
            ClangFormatStyle::Default => "{}"@,
            // Makes the tool look in parent directories for a .clang-format file.
            ClangFormatStyle::File => "file"@,
            ClangFormatStyle::GNU => "GNU"@,
            ClangFormatStyle::Google => "Google"@,
            ClangFormatStyle::Llvm => "LLVM"@,
            ClangFormatStyle::Microsoft => "Microsoft"@,
            ClangFormatStyle::Mozilla => "Mozilla"@,
            ClangFormatStyle::WebKit => "WebKit"@,
            // Custom style arguments pass through verbatim.
            ClangFormatStyle::Custom(custom) => custom@,
        }
    }

    /// Converts the enum ClangFormatStyle to the string that `clang-format`
    /// expects after `--style=`.
    ///
    /// The result is a function of `self` alone: rendering is pure and
    /// deterministic, and `Custom` text comes back unchanged.
    pub fn as_str(&self) -> (r: &str)
        ensures
            r@ == self.arg_spec(),
    {
        match self {
            ClangFormatStyle::Chromium => "Chromium",
            ClangFormatStyle::Default => "{}",
            ClangFormatStyle::File => "file",
            ClangFormatStyle::GNU => "GNU",
            ClangFormatStyle::Google => "Google",
            ClangFormatStyle::Llvm => "LLVM",
            ClangFormatStyle::Microsoft => "Microsoft",
            ClangFormatStyle::Mozilla => "Mozilla",
            ClangFormatStyle::WebKit => "WebKit",
            ClangFormatStyle::Custom(custom) => custom.as_str(),
        }
    }
}

/// A custom style is handed to the tool verbatim: the rendered argument of
/// `Custom(text)` is exactly `text`, whatever it contains.
pub proof fn lemma_custom_style_verbatim(text: String)
    ensures
        ClangFormatStyle::Custom(text).arg_spec() == text@,
{
}

/// Describes which error an invocation of `clang-format` failed with.
///
/// Every failure is surfaced to the caller as a value; nothing is retried
/// or swallowed.
#[derive(Debug)]
pub enum ClangFormatError {
    /// Failed to spawn the `clang-format` process.
    SpawnFailure,
    /// Failed to retrieve the stdin handle of the spawned process.
    StdInFailure,
    /// Failed to write the input to the stdin handle.
    StdInWriteFailure,
    /// Failed to convert the `clang-format` stdout bytes to UTF-8.
    Utf8FormatError,
    /// Failed to wait for the process to end with output.
    WaitFailure,
}

/// What one attempted run of the external binary reported back: the first
/// step of the pipe protocol that failed, or the bytes collected from the
/// process's stdout after it exited.
///
/// The protocol's steps come in a fixed order — spawn the process, take its
/// stdin handle, write the whole input and close the handle, then wait for
/// exit while collecting stdout — so a single variant names the outcome of a
/// whole run.
#[derive(Debug)]
pub enum PipeOutcome {
    /// The binary could not be launched.
    SpawnFailed,
    /// The stdin handle of the child could not be obtained.
    StdInMissing,
    /// Writing the input text to the child's stdin failed.
    WriteFailed,
    /// Waiting for the child to terminate failed.
    WaitFailed,
    /// The child terminated; these are the bytes it wrote to stdout.
    Collected(Vec<u8>),
}

/// The command line for one invocation of the external formatter: the
/// binary to launch and the single `--style=...` argument to pass it.
#[derive(Debug)]
pub struct FormatCommand {
    /// The name of the binary to launch.
    pub binary: String,
    /// The one argument to pass, of the shape `--style=<rendered style>`.
    pub style_arg: String,
}

impl FormatCommand {
    /// Plan the command line for one invocation: the binary is the caller's
    /// override where one is configured and `clang-format` otherwise, and
    /// the single argument is `--style=` followed by the rendered selector.
    pub fn new(style: &ClangFormatStyle, binary_override: Option<String>) -> (c: FormatCommand)
        ensures
            c.style_arg@ == "--style="@ + style.arg_spec(),
            binary_override matches Some(name) ==> c.binary@ == name@,
            binary_override is None ==> c.binary@ == "clang-format"@,
    {
        let binary: String = match binary_override {
            Some(name) => name,
            None => String::from_str("clang-format"),
        };
        let style_arg: String = String::from_str("--style=").concat(style.as_str());
        FormatCommand { binary, style_arg }
    }
}

/// The result a run must map to, given what the pipe run reported: each
/// failed step becomes its error, and collected bytes become the decoded
/// text when they are valid UTF-8 and `Utf8FormatError` otherwise.
pub open spec fn outcome_result(outcome: PipeOutcome) -> Result<Seq<char>, ClangFormatError> {
    match outcome {
        PipeOutcome::SpawnFailed => Err(ClangFormatError::SpawnFailure),
        PipeOutcome::StdInMissing => Err(ClangFormatError::StdInFailure),
        PipeOutcome::WriteFailed => Err(ClangFormatError::StdInWriteFailure),
        PipeOutcome::WaitFailed => Err(ClangFormatError::WaitFailure),
        PipeOutcome::Collected(bytes) => if valid_utf8(bytes@) {
            Ok(decode_utf8(bytes@))
        } else {
            Err(ClangFormatError::Utf8FormatError)
        },
    }
}

/// Relies on `String::from_utf8`: it succeeds exactly on byte sequences that
/// are valid UTF-8, and then returns the text those bytes encode.
#[verifier::external_body]
fn utf8_to_string(bytes: Vec<u8>) -> (r: Option<String>)
    ensures
        r is Some <==> valid_utf8(bytes@),
        r matches Some(s) ==> s@ == decode_utf8(bytes@),
{
    String::from_utf8(bytes).ok()
}

/// Complete a run of the external formatter: map what the piped invocation
/// reported into the text the tool wrote, or the error classifying the step
/// that failed.
///
/// On success the returned text is exactly the decoded bytes the process
/// wrote to its stdout before exit — no trimming or normalization — so an
/// empty stdout yields the empty string, not an error.  The process itself
/// is launched by the embedding application, which builds the command line
/// with [`FormatCommand::new`], runs the pipe protocol, and hands back what
/// it observed.
pub fn clang_format(outcome: PipeOutcome) -> (r: Result<String, ClangFormatError>)
    ensures
        (match r {
            Ok(s) => outcome_result(outcome) matches Ok(t) && s@ == t,
            Err(e) => outcome_result(outcome) matches Err(f) && e == f,
        }),
        (outcome matches PipeOutcome::Collected(bytes) && bytes@.len() == 0) ==> (r
            matches Ok(s) && s@.len() == 0),
{
    match outcome {
        PipeOutcome::SpawnFailed => Err(ClangFormatError::SpawnFailure),
        PipeOutcome::StdInMissing => Err(ClangFormatError::StdInFailure),
        PipeOutcome::WriteFailed => Err(ClangFormatError::StdInWriteFailure),
        PipeOutcome::WaitFailed => Err(ClangFormatError::WaitFailure),
        PipeOutcome::Collected(bytes) => {
            proof {
                if bytes@.len() == 0 {
                    assert(bytes@ =~= Seq::<u8>::empty());
                    assert(valid_utf8(bytes@));
                    assert(decode_utf8(bytes@) =~= Seq::<char>::empty());
                }
            }
            match utf8_to_string(bytes) {
                Some(stdout) => Ok(stdout),
                None => Err(ClangFormatError::Utf8FormatError),
            }
        },
    }
}

} // verus!
