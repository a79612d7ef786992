//! A request to upscale an image, and the command line that carries it to the
//! helper script.

use crate::decimal::{decimal, decimal_string, lemma_decimal_is_injective};
use crate::script::{script_path, script_path_of};
use vstd::prelude::*;
use vstd::string::StringExecFns;

verus! {

/// What the caller asks for. Nothing in it is validated here: the path need
/// not exist and the two numbers may be any integers.
#[derive(Debug, Clone, PartialEq, Eq)]
pub struct UpscaleRequest {
    pub image_path: String,
    pub scale_factor: i32,
    pub creativity: i32,
}

/// A request as plain values.
pub struct UpscaleRequestView {
    pub image_path: Seq<char>,
    pub scale_factor: int,
    pub creativity: int,
}

impl View for UpscaleRequest {
    type V = UpscaleRequestView;

    open spec fn view(&self) -> UpscaleRequestView {
        UpscaleRequestView {
            image_path: self.image_path@,
            scale_factor: self.scale_factor as int,
            creativity: self.creativity as int,
        }
    }
}

/// A program and the arguments it is started with.
#[derive(Debug, Clone, PartialEq, Eq)]
pub struct CommandLine {
    pub program: String,
    pub args: Vec<String>,
}

/// A command line as plain values.
pub struct CommandLineView {
    pub program: Seq<char>,
    pub args: Seq<Seq<char>>,
}

impl View for CommandLine {
    type V = CommandLineView;

    open spec fn view(&self) -> CommandLineView {
        CommandLineView { program: self.program@, args: self.args.deep_view() }
    }
}

/// The interpreter that runs the helper script.
pub open spec fn interpreter() -> Seq<char> {
    "python3"@
}

/// The arguments of the interpreter, in their fixed order: the script, the
/// image, the scale factor, the creativity level.
pub open spec fn arguments_of(manifest_dir: Seq<char>, request: UpscaleRequestView) -> Seq<
    Seq<char>,
> {
    seq![
        script_path_of(manifest_dir),
        request.image_path,
        decimal(request.scale_factor),
        decimal(request.creativity),
    ]
}

/// The command line that serves `request`.
pub open spec fn command_line_of(
    manifest_dir: Seq<char>,
    request: UpscaleRequestView,
) -> CommandLineView {
    CommandLineView { program: interpreter(), args: arguments_of(manifest_dir, request) }
}

/// The arguments say which request they serve: two requests with the same
/// arguments are the same request.
pub proof fn lemma_arguments_identify_request(
    manifest_dir: Seq<char>,
    first: UpscaleRequestView,
    second: UpscaleRequestView,
)
    requires
        arguments_of(manifest_dir, first) == arguments_of(manifest_dir, second),
    ensures
        first == second,
{
    let a = arguments_of(manifest_dir, first);
    let b = arguments_of(manifest_dir, second);
    assert(a[1] == b[1]);
    assert(a[2] == b[2]);
    assert(a[3] == b[3]);
    lemma_decimal_is_injective(first.scale_factor, second.scale_factor);
    lemma_decimal_is_injective(first.creativity, second.creativity);
}

impl UpscaleRequest {
    /// The command line that serves this request, for an application built
    /// in `manifest_dir`.
    pub fn command_line(&self, manifest_dir: &str) -> (line: CommandLine)
        ensures
            line@ == command_line_of(manifest_dir@, self@),
    {
        let mut args: Vec<String> = Vec::new();
        args.push(script_path(manifest_dir));
        args.push(String::from_str(self.image_path.as_str()));
        args.push(decimal_string(self.scale_factor));
        args.push(decimal_string(self.creativity));
        let line = CommandLine { program: String::from_str("python3"), args };
        assert(line.args.deep_view() =~= arguments_of(manifest_dir@, self@));
        line
    }
}

} // verus!
