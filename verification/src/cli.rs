//! The rules of the build tool: the command lines it runs, how it reads
//! their exit status, and when a file change starts a rebuild.

use vstd::prelude::*;
use vstd::string::{StrSliceExecFns, StringExecFns};

verus! {

/// Shortest time between two rebuilds, in milliseconds.
pub const DEBOUNCE_MS: u64 = 100;

/// Shortest time between two rebuilds, in nanoseconds.
pub const DEBOUNCE_NANOS: u128 = 100_000_000;

/// The exit code by which the compiler reports warnings.
pub const WARNING_EXIT_CODE: i32 = 2;

/// A program and its arguments.
#[derive(Clone, Debug, PartialEq, Eq)]
pub struct CommandLine {
    pub program: String,
    pub args: Vec<String>,
}

impl CommandLine {
    /// The arguments as a mathematical value.
    pub open spec fn args_view(self) -> Seq<Seq<char>> {
        Seq::new(self.args@.len(), |i: int| self.args@[i]@)
    }
}

/// How a compiler run ended.
#[derive(Clone, Copy, Debug, PartialEq, Eq, Structural)]
pub enum BuildOutcome {
    /// The build succeeded.
    Succeeded,
    /// The build was completed with warnings; the steps after it are skipped.
    CompletedWithWarnings,
    /// The build failed.
    Failed,
}

/// How a compiler run ended, by its exit status: success is success, the
/// warning exit code is a build with warnings, anything else a failure.
pub open spec fn spec_build_outcome(success: bool, code: Option<i32>) -> BuildOutcome {
    if success {
        BuildOutcome::Succeeded
    } else if code == Some(WARNING_EXIT_CODE) {
        BuildOutcome::CompletedWithWarnings
    } else {
        BuildOutcome::Failed
    }
}

/// Reads the exit status of the backend build.
pub fn build_backend(success: bool, code: Option<i32>) -> (r: BuildOutcome)
    ensures
        r == spec_build_outcome(success, code),
{
    if !success {
        // Exit code 2 is treated as a warning
        match code {
            Some(c) => {
                if c == WARNING_EXIT_CODE {
                    return BuildOutcome::CompletedWithWarnings;
                } else {
                    return BuildOutcome::Failed;
                }
            },
            None => {
                return BuildOutcome::Failed;
            },
        }
    }
    BuildOutcome::Succeeded
}

/// What follows a step of the WASM build.
#[derive(Clone, Copy, Debug, PartialEq, Eq, Structural)]
pub enum WasmStep {
    /// Link the object file.
    Link,
    /// Generate the bindings.
    Bindgen,
    /// The build is over, without linking.
    Done,
    /// The build has failed.
    Fail,
}

/// What follows the compilation of the WASM object: linking after a
/// success, nothing more after warnings, failure otherwise.
pub fn after_wasm_compile(success: bool, code: Option<i32>) -> (r: WasmStep)
    ensures
        r == match spec_build_outcome(success, code) {
            BuildOutcome::Succeeded => WasmStep::Link,
            BuildOutcome::CompletedWithWarnings => WasmStep::Done,
            BuildOutcome::Failed => WasmStep::Fail,
        },
{
    match build_backend(success, code) {
        BuildOutcome::Succeeded => WasmStep::Link,
        BuildOutcome::CompletedWithWarnings => WasmStep::Done,
        BuildOutcome::Failed => WasmStep::Fail,
    }
}

/// What follows the linking of the WASM module: the bindings after exit
/// code zero, failure after any other code or none.
pub fn after_wasm_link(code: Option<i32>) -> (r: WasmStep)
    ensures
        r == if code == Some(0i32) {
            WasmStep::Bindgen
        } else {
            WasmStep::Fail
        },
{
    match code {
        Some(0) => WasmStep::Bindgen,
        _ => WasmStep::Fail,
    }
}

/// Whether a file change starts a rebuild: only when more than the debounce
/// time has passed since the last one.
pub fn should_rebuild(nanos_since_last_rebuild: u128) -> (r: bool)
    ensures
        r == (nanos_since_last_rebuild > DEBOUNCE_NANOS),
{
    nanos_since_last_rebuild > DEBOUNCE_NANOS
}

/// What the watcher's channel yields.
#[derive(Clone, Copy, Debug, PartialEq, Eq, Structural)]
pub enum WatchEvent {
    /// A file has changed, this long after the last rebuild.
    Changed { nanos_since_last_rebuild: u128 },
    /// The watcher reports an error.
    WatchFailed,
    /// The channel has closed.
    ChannelClosed,
}

/// What the watch loop does next.
#[derive(Clone, Copy, Debug, PartialEq, Eq, Structural)]
pub enum WatchAction {
    /// Stop the backend, build, and run the backend again if the build
    /// succeeded.
    Rebuild,
    /// Go on waiting.
    Wait,
    /// Log the error and go on waiting.
    LogError,
    /// Log the error and leave the loop.
    Stop,
}

/// What the watch loop does after an event.
pub fn watch_files(event: WatchEvent) -> (r: WatchAction)
    ensures
        r == match event {
            WatchEvent::Changed { nanos_since_last_rebuild } => if nanos_since_last_rebuild
                > DEBOUNCE_NANOS {
                WatchAction::Rebuild
            } else {
                WatchAction::Wait
            },
            WatchEvent::WatchFailed => WatchAction::LogError,
            WatchEvent::ChannelClosed => WatchAction::Stop,
        },
{
    match event {
        WatchEvent::Changed { nanos_since_last_rebuild } => {
            if should_rebuild(nanos_since_last_rebuild) {
                WatchAction::Rebuild
            } else {
                WatchAction::Wait
            }
        },
        WatchEvent::WatchFailed => WatchAction::LogError,
        WatchEvent::ChannelClosed => WatchAction::Stop,
    }
}

/// The command that builds the backend binary.
pub fn build_backend_cmd(roc_bin_path: &str, source_file: &str, output_binary: &str) -> (r:
    CommandLine)
    ensures
        r.program@ == roc_bin_path@,
        r.args_view() == seq![
            "build"@,
            "--emit-llvm-ir"@,
            source_file@,
            "--output"@,
            output_binary@,
        ],
{
    let mut args: Vec<String> = Vec::new();
    args.push("build".to_owned());
    args.push("--emit-llvm-ir".to_owned());
    args.push(source_file.to_owned());
    args.push("--output".to_owned());
    args.push(output_binary.to_owned());
    let r = CommandLine { program: roc_bin_path.to_owned(), args };
    assert(r.args_view() =~= seq![
        "build"@,
        "--emit-llvm-ir"@,
        source_file@,
        "--output"@,
        output_binary@,
    ]);
    r
}

/// The command that compiles the WASM object file. Linking is left to
/// [`link_wasm_cmd`].
pub fn build_wasm_obj_cmd(roc_bin_path: &str, output_path: &str, source_file: &str) -> (r:
    CommandLine)
    ensures
        r.program@ == roc_bin_path@,
        r.args_view() == seq![
            "build"@,
            "--target"@,
            "wasm32"@,
            "--no-link"@,
            "--output"@,
            output_path@,
            source_file@,
        ],
{
    let mut args: Vec<String> = Vec::new();
    args.push("build".to_owned());
    args.push("--target".to_owned());
    args.push("wasm32".to_owned());
    args.push("--no-link".to_owned());
    args.push("--output".to_owned());
    args.push(output_path.to_owned());
    args.push(source_file.to_owned());
    let r = CommandLine { program: roc_bin_path.to_owned(), args };
    assert(r.args_view() =~= seq![
        "build"@,
        "--target"@,
        "wasm32"@,
        "--no-link"@,
        "--output"@,
        output_path@,
        source_file@,
    ]);
    r
}

/// The export flags of a list of symbols: `--export=` and the symbol, for
/// each, in order.
pub open spec fn spec_export_flags(exports: Seq<String>) -> Seq<Seq<char>> {
    Seq::new(exports.len(), |i: int| "--export="@ + exports[i]@)
}

/// The command that links the WASM module: an export flag for every symbol,
/// then no entry point, the host archive, the object file and the output.
pub fn link_wasm_cmd(
    exports: &Vec<String>,
    lib_frontend_path: &str,
    wasm_obj_path: &str,
    output_path: &str,
) -> (r: CommandLine)
    ensures
        r.program@ == "wasm-ld"@,
        r.args_view() == spec_export_flags(exports@) + seq![
            "--no-entry"@,
            lib_frontend_path@,
            wasm_obj_path@,
            "-o"@,
            output_path@,
        ],
{
    let mut args: Vec<String> = Vec::new();
    let mut i: usize = 0;
    while i < exports.len()
        invariant
            i <= exports@.len(),
            args@.len() == i,
            forall|k: int| 0 <= k < i ==> (#[trigger] args@[k])@ == "--export="@ + exports@[k]@,
        decreases exports@.len() - i,
    {
        args.push("--export=".to_owned().concat(exports[i].as_str()));
        i = i + 1;
    }
    args.push("--no-entry".to_owned());
    args.push(lib_frontend_path.to_owned());
    args.push(wasm_obj_path.to_owned());
    args.push("-o".to_owned());
    args.push(output_path.to_owned());
    let r = CommandLine { program: "wasm-ld".to_owned(), args };
    assert(r.args_view() =~= spec_export_flags(exports@) + seq![
        "--no-entry"@,
        lib_frontend_path@,
        wasm_obj_path@,
        "-o"@,
        output_path@,
    ]);
    r
}

/// The command that generates the bindings for the browser.
pub fn wasm_bindgen_cmd(build_dir: &str, input: &str) -> (r: CommandLine)
    ensures
        r.program@ == "wasm-bindgen"@,
        r.args_view() == seq!["--target"@, "web"@, "--out-dir"@, build_dir@, input@],
{
    let mut args: Vec<String> = Vec::new();
    args.push("--target".to_owned());
    args.push("web".to_owned());
    args.push("--out-dir".to_owned());
    args.push(build_dir.to_owned());
    args.push(input.to_owned());
    let r = CommandLine { program: "wasm-bindgen".to_owned(), args };
    assert(r.args_view() =~= seq!["--target"@, "web"@, "--out-dir"@, build_dir@, input@]);
    r
}

/// The lines of a text: what stands between its line feeds, in order. A
/// text without line feeds is one line, and so is the empty text.
pub open spec fn spec_lines(text: Seq<char>) -> Seq<Seq<char>>
    decreases text.len(),
{
    if text.len() == 0 {
        seq![Seq::<char>::empty()]
    } else {
        let before = spec_lines(text.drop_last());
        if text.last() == '\n' {
            before.push(Seq::<char>::empty())
        } else {
            before.drop_last().push(before.last().push(text.last()))
        }
    }
}

/// The symbols an export list names: its lines that are not empty.
pub open spec fn spec_exports(text: Seq<char>) -> Seq<Seq<char>> {
    spec_lines(text).filter(|line: Seq<char>| line.len() > 0)
}

/// A text has at least one line, and its last line is what follows its last
/// line feed.
proof fn lemma_lines_nonempty(text: Seq<char>)
    ensures
        spec_lines(text).len() >= 1,
    decreases text.len(),
{
    if text.len() > 0 {
        lemma_lines_nonempty(text.drop_last());
    }
}

/// The symbols that an export list names, one to a line; empty lines are
/// passed over.
pub fn parse_exports(text: &str) -> (r: Vec<String>)
    ensures
        Seq::new(r@.len(), |i: int| r@[i]@) == spec_exports(text@),
{
    let n: usize = text.unicode_len();
    let mut out: Vec<String> = Vec::new();
    let mut start: usize = 0;
    let mut i: usize = 0;
    let ghost nonempty = |line: Seq<char>| line.len() > 0;
    proof {
        reveal_with_fuel(Seq::filter, 2);
        assert(text@.subrange(0, 0) =~= Seq::<char>::empty());
        assert(spec_lines(text@.subrange(0, 0)).drop_last() =~= Seq::<Seq<char>>::empty());
        assert(text@.subrange(0, 0) =~= spec_lines(text@.subrange(0, 0)).last());
    }
    while i < n
        invariant
            n == text@.len(),
            start <= i <= n,
            nonempty == |line: Seq<char>| line.len() > 0,
            spec_lines(text@.subrange(0, i as int)).len() >= 1,
            spec_lines(text@.subrange(0, i as int)).last() == text@.subrange(start as int, i as int),
            Seq::new(out@.len(), |k: int| out@[k]@) == spec_lines(
                text@.subrange(0, i as int),
            ).drop_last().filter(nonempty),
        decreases n - i,
    {
        let c = text.get_char(i);
        let ghost prefix = text@.subrange(0, i as int);
        let ghost next = text@.subrange(0, i + 1);
        let ghost lines = spec_lines(prefix);
        let ghost shown = Seq::new(out@.len(), |k: int| out@[k]@);
        proof {
            assert(next.drop_last() =~= prefix);
            assert(next.last() == c);
            lemma_lines_nonempty(next);
        }
        if c == '\n' {
            if start < i {
                out.push(text.substring_char(start, i).to_owned());
            }
            proof {
                assert(spec_lines(next) == lines.push(Seq::<char>::empty()));
                assert(spec_lines(next).drop_last() =~= lines);
                assert(lines =~= lines.drop_last().push(lines.last()));
                reveal(Seq::filter);
                assert(lines.filter(nonempty) == if lines.last().len() > 0 {
                    lines.drop_last().filter(nonempty).push(lines.last())
                } else {
                    lines.drop_last().filter(nonempty)
                });
                assert(Seq::new(out@.len(), |k: int| out@[k]@) =~= lines.filter(nonempty));
                assert(text@.subrange(i + 1, i + 1) =~= Seq::<char>::empty());
            }
            start = i + 1;
        } else {
            proof {
                assert(spec_lines(next) == lines.drop_last().push(lines.last().push(c)));
                assert(spec_lines(next).drop_last() =~= lines.drop_last());
                assert(text@.subrange(start as int, i + 1) =~= lines.last().push(c));
            }
        }
        i = i + 1;
    }
    let ghost lines = spec_lines(text@);
    proof {
        assert(text@.subrange(0, n as int) =~= text@);
        assert(lines =~= lines.drop_last().push(lines.last()));
        reveal(Seq::filter);
        assert(lines.filter(nonempty) == if lines.last().len() > 0 {
            lines.drop_last().filter(nonempty).push(lines.last())
        } else {
            lines.drop_last().filter(nonempty)
        });
    }
    if start < n {
        out.push(text.substring_char(start, n).to_owned());
    }
    assert(Seq::new(out@.len(), |k: int| out@[k]@) =~= spec_exports(text@));
    out
}

/// The name of the file that the binding generator writes the module of an
/// input to.
pub fn bundle_file_name(input_stem: &str) -> (r: String)
    ensures
        r@ == input_stem@ + "_bg.wasm"@,
{
    input_stem.to_owned().concat("_bg.wasm")
}

} // verus!
