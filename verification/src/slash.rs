//! Slash commands of the Zed assistant panel: dispatch by name, the Markdown
//! each one answers with, and the completions offered for its argument.
use vstd::prelude::*;
use crate::common::{
    commands, memory_diagnostics, notifications, profiler_diagnostics, profiler_formats,
    profiler_presets, slash_commands,
};
use crate::text::str_equal;

verus! {

/// Every slash command the extension exposes.
#[derive(Clone, Copy, Debug, PartialEq, Eq)]
pub enum SlashCommand {
    Profile,
    ProfStop,
    ProfSnapshot,
    MemLeak,
    MemStop,
    MemRefs,
    Modules,
    Symbols,
    Health,
    Basilisk,
    Tests,
    RunTests,
    TestFile,
}

/// Every slash command, in palette order.
pub open spec fn all_slash_commands() -> Seq<SlashCommand> {
    seq![
        SlashCommand::Profile,
        SlashCommand::ProfStop,
        SlashCommand::ProfSnapshot,
        SlashCommand::MemLeak,
        SlashCommand::MemStop,
        SlashCommand::MemRefs,
        SlashCommand::Modules,
        SlashCommand::Symbols,
        SlashCommand::Health,
        SlashCommand::Basilisk,
        SlashCommand::Tests,
        SlashCommand::RunTests,
        SlashCommand::TestFile,
    ]
}

/// The first argument of an invocation, if there is one; the others are ignored.
pub open spec fn first_arg(args: Seq<String>) -> Option<Seq<char>> {
    if args.len() > 0 {
        Some(args[0]@)
    } else {
        None
    }
}

/// A completion suggestion as `(label, new_text, run_command)`, by its characters.
pub open spec fn completion_view(c: (String, String, bool)) -> (Seq<char>, Seq<char>, bool) {
    (c.0@, c.1@, c.2)
}

/// The command a name selects, if any.
pub open spec fn spec_find_slash_command(name: Seq<char>) -> Option<SlashCommand> {
    if name == slash_commands::PROFILE@ {
        Some(SlashCommand::Profile)
    } else if name == slash_commands::PROFSTOP@ {
        Some(SlashCommand::ProfStop)
    } else if name == slash_commands::PROFSNAPSHOT@ {
        Some(SlashCommand::ProfSnapshot)
    } else if name == slash_commands::MEMLEAK@ {
        Some(SlashCommand::MemLeak)
    } else if name == slash_commands::MEMSTOP@ {
        Some(SlashCommand::MemStop)
    } else if name == slash_commands::MEMREFS@ {
        Some(SlashCommand::MemRefs)
    } else if name == slash_commands::MODULES@ {
        Some(SlashCommand::Modules)
    } else if name == slash_commands::SYMBOLS@ {
        Some(SlashCommand::Symbols)
    } else if name == slash_commands::HEALTH@ {
        Some(SlashCommand::Health)
    } else if name == slash_commands::BASILISK@ {
        Some(SlashCommand::Basilisk)
    } else if name == slash_commands::TESTS@ {
        Some(SlashCommand::Tests)
    } else if name == slash_commands::RUNTESTS@ {
        Some(SlashCommand::RunTests)
    } else if name == slash_commands::TESTFILE@ {
        Some(SlashCommand::TestFile)
    } else {
        None
    }
}

/// What `slash_command_output` answers: the `(title, body)` of the command a
/// name selects, or an error naming the unknown command.
pub open spec fn spec_slash_command_output(command: Seq<char>, args: Seq<String>) -> Result<
    (Seq<char>, Seq<char>),
    Seq<char>,
> {
    match spec_find_slash_command(command) {
        Some(cmd) => Ok((cmd.spec_label(), cmd.spec_text(first_arg(args)))),
        None => Err("Unknown slash command: "@ + command),
    }
}

/// The completions offered for a name: those of the command it selects, none otherwise.
pub open spec fn spec_slash_completions(command: Seq<char>) -> Seq<(Seq<char>, Seq<char>, bool)> {
    match spec_find_slash_command(command) {
        Some(cmd) => cmd.spec_completions(),
        None => Seq::empty(),
    }
}

impl SlashCommand {
    /// The name that selects this command.
    pub open spec fn spec_name(self) -> Seq<char> {
        match self {
            SlashCommand::Profile => slash_commands::PROFILE@,
            SlashCommand::ProfStop => slash_commands::PROFSTOP@,
            SlashCommand::ProfSnapshot => slash_commands::PROFSNAPSHOT@,
            SlashCommand::MemLeak => slash_commands::MEMLEAK@,
            SlashCommand::MemStop => slash_commands::MEMSTOP@,
            SlashCommand::MemRefs => slash_commands::MEMREFS@,
            SlashCommand::Modules => slash_commands::MODULES@,
            SlashCommand::Symbols => slash_commands::SYMBOLS@,
            SlashCommand::Health => slash_commands::HEALTH@,
            SlashCommand::Basilisk => slash_commands::BASILISK@,
            SlashCommand::Tests => slash_commands::TESTS@,
            SlashCommand::RunTests => slash_commands::RUNTESTS@,
            SlashCommand::TestFile => slash_commands::TESTFILE@,
        }
    }

    /// The title of the panel section this command produces.
    pub open spec fn spec_label(self) -> Seq<char> {
        match self {
            SlashCommand::Profile => "CPU Profiling"@,
            SlashCommand::ProfStop => "Stop Profiling"@,
            SlashCommand::ProfSnapshot => "Profile Snapshot"@,
            SlashCommand::MemLeak => "Memory Tracking"@,
            SlashCommand::MemStop => "Memory Report"@,
            SlashCommand::MemRefs => "Reference Graph"@,
            SlashCommand::Modules => "Workspace Modules"@,
            SlashCommand::Symbols => "Module Symbols"@,
            SlashCommand::Health => "Type Health"@,
            SlashCommand::Basilisk => "Basilisk Info"@,
            SlashCommand::Tests => "Test Discovery"@,
            SlashCommand::RunTests => "Running Tests"@,
            SlashCommand::TestFile => "File Tests"@,
        }
    }

    /// The Markdown body this command produces for its first argument.
    pub open spec fn spec_text(self, arg: Option<Seq<char>>) -> Seq<char> {
        match self {
            SlashCommand::Profile => profile_text(profile_target(arg)),
            SlashCommand::ProfStop => profstop_text(),
            SlashCommand::ProfSnapshot => profsnapshot_text(),
            SlashCommand::MemLeak => memleak_text(),
            SlashCommand::MemStop => memstop_text(),
            SlashCommand::MemRefs => memrefs_text(memrefs_target_type(arg)),
            SlashCommand::Modules => modules_text(modules_scope(arg)),
            SlashCommand::Symbols => symbols_text(symbols_module(arg)),
            SlashCommand::Health => health_text(),
            SlashCommand::Basilisk => basilisk_text(),
            SlashCommand::Tests => tests_text(tests_scope(arg)),
            SlashCommand::RunTests => runtests_text(runtests_target(arg)),
            SlashCommand::TestFile => testfile_text(testfile_file(arg)),
        }
    }

    /// The completion suggestions offered for this command's argument.
    pub open spec fn spec_completions(self) -> Seq<(Seq<char>, Seq<char>, bool)> {
        match self {
            SlashCommand::Profile => seq![("<pid>"@, ""@, false)],
            SlashCommand::MemRefs => seq![
                ("DataFrame"@, "DataFrame"@, true),
                ("dict"@, "dict"@, true),
                ("list"@, "list"@, true),
                ("set"@, "set"@, true),
                ("ndarray"@, "ndarray"@, true),
                ("Tensor"@, "Tensor"@, true),
            ],
            SlashCommand::Modules => seq![("<module_prefix>"@, ""@, false)],
            SlashCommand::Symbols => seq![("<module_name>"@, ""@, false)],
            SlashCommand::RunTests => seq![("<test_id>"@, ""@, false)],
            SlashCommand::TestFile => seq![("<file.py>"@, ""@, false)],
            _ => Seq::empty(),
        }
    }

    /// The name that selects this command.
    pub fn name(self) -> (r: &'static str)
        ensures
            r@ == self.spec_name(),
    {
        match self {
            SlashCommand::Profile => slash_commands::PROFILE,
            SlashCommand::ProfStop => slash_commands::PROFSTOP,
            SlashCommand::ProfSnapshot => slash_commands::PROFSNAPSHOT,
            SlashCommand::MemLeak => slash_commands::MEMLEAK,
            SlashCommand::MemStop => slash_commands::MEMSTOP,
            SlashCommand::MemRefs => slash_commands::MEMREFS,
            SlashCommand::Modules => slash_commands::MODULES,
            SlashCommand::Symbols => slash_commands::SYMBOLS,
            SlashCommand::Health => slash_commands::HEALTH,
            SlashCommand::Basilisk => slash_commands::BASILISK,
            SlashCommand::Tests => slash_commands::TESTS,
            SlashCommand::RunTests => slash_commands::RUNTESTS,
            SlashCommand::TestFile => slash_commands::TESTFILE,
        }
    }

    /// Builds the `(panel title, Markdown body)` pair from the command's arguments.
    pub fn body(self, args: &[String]) -> (r: (String, String))
        ensures
            r.0@ == self.spec_label(),
            r.1@ == self.spec_text(first_arg(args@)),
    {
        match self {
            SlashCommand::Profile => slash_profile(args),
            SlashCommand::ProfStop => slash_profstop(args),
            SlashCommand::ProfSnapshot => slash_profsnapshot(args),
            SlashCommand::MemLeak => slash_memleak(args),
            SlashCommand::MemStop => slash_memstop(args),
            SlashCommand::MemRefs => slash_memrefs(args),
            SlashCommand::Modules => slash_modules(args),
            SlashCommand::Symbols => slash_symbols(args),
            SlashCommand::Health => slash_health(args),
            SlashCommand::Basilisk => slash_basilisk(args),
            SlashCommand::Tests => slash_tests(args),
            SlashCommand::RunTests => slash_runtests(args),
            SlashCommand::TestFile => slash_testfile(args),
        }
    }

    /// The completion suggestions for this command's argument, as
    /// `(label, new_text, run_command)`.
    pub fn completions(self) -> (r: Vec<(String, String, bool)>)
        ensures
            r@.map_values(|c: (String, String, bool)| completion_view(c)) == self.spec_completions(),
    {
        let mut out: Vec<(String, String, bool)> = Vec::new();
        match self {
            SlashCommand::Profile => {
                push_completion(&mut out, "<pid>", "", false);
            },
            SlashCommand::MemRefs => {
                push_completion(&mut out, "DataFrame", "DataFrame", true);
                push_completion(&mut out, "dict", "dict", true);
                push_completion(&mut out, "list", "list", true);
                push_completion(&mut out, "set", "set", true);
                push_completion(&mut out, "ndarray", "ndarray", true);
                push_completion(&mut out, "Tensor", "Tensor", true);
            },
            SlashCommand::Modules => {
                push_completion(&mut out, "<module_prefix>", "", false);
            },
            SlashCommand::Symbols => {
                push_completion(&mut out, "<module_name>", "", false);
            },
            SlashCommand::RunTests => {
                push_completion(&mut out, "<test_id>", "", false);
            },
            SlashCommand::TestFile => {
                push_completion(&mut out, "<file.py>", "", false);
            },
            _ => {},
        }
        assert(out@.map_values(|c: (String, String, bool)| completion_view(c))
            =~= self.spec_completions());
        out
    }
}

/// Appends one completion suggestion.
fn push_completion(out: &mut Vec<(String, String, bool)>, label: &str, new_text: &str, run: bool)
    ensures
        final(out)@.map_values(|c: (String, String, bool)| completion_view(c)) == old(
            out,
        )@.map_values(|c: (String, String, bool)| completion_view(c)).push((label@, new_text@, run)),
{
    out.push((String::from_str(label), String::from_str(new_text), run));
    assert(out@.map_values(|c: (String, String, bool)| completion_view(c)) =~= old(
        out,
    )@.map_values(|c: (String, String, bool)| completion_view(c)).push((label@, new_text@, run)));
}

/// Look up a slash command by name.
pub fn find_slash_command(command: &str) -> (r: Option<SlashCommand>)
    ensures
        r == spec_find_slash_command(command@),
{
    if str_equal(command, slash_commands::PROFILE) {
        Some(SlashCommand::Profile)
    } else if str_equal(command, slash_commands::PROFSTOP) {
        Some(SlashCommand::ProfStop)
    } else if str_equal(command, slash_commands::PROFSNAPSHOT) {
        Some(SlashCommand::ProfSnapshot)
    } else if str_equal(command, slash_commands::MEMLEAK) {
        Some(SlashCommand::MemLeak)
    } else if str_equal(command, slash_commands::MEMSTOP) {
        Some(SlashCommand::MemStop)
    } else if str_equal(command, slash_commands::MEMREFS) {
        Some(SlashCommand::MemRefs)
    } else if str_equal(command, slash_commands::MODULES) {
        Some(SlashCommand::Modules)
    } else if str_equal(command, slash_commands::SYMBOLS) {
        Some(SlashCommand::Symbols)
    } else if str_equal(command, slash_commands::HEALTH) {
        Some(SlashCommand::Health)
    } else if str_equal(command, slash_commands::BASILISK) {
        Some(SlashCommand::Basilisk)
    } else if str_equal(command, slash_commands::TESTS) {
        Some(SlashCommand::Tests)
    } else if str_equal(command, slash_commands::RUNTESTS) {
        Some(SlashCommand::RunTests)
    } else if str_equal(command, slash_commands::TESTFILE) {
        Some(SlashCommand::TestFile)
    } else {
        None
    }
}

/// Produce the `(label, text)` pair for a slash command invocation, formatted
/// as Markdown for the assistant panel; `Err` for unknown command names.
pub fn slash_command_output(command: &str, args: &[String]) -> (r: Result<(String, String), String>)
    ensures
        match r {
            Ok((label, text)) => spec_slash_command_output(command@, args@) == Ok::<
                (Seq<char>, Seq<char>),
                Seq<char>,
            >((label@, text@)),
            Err(e) => spec_slash_command_output(command@, args@) == Err::<
                (Seq<char>, Seq<char>),
                Seq<char>,
            >(e@),
        },
{
    match find_slash_command(command) {
        Some(cmd) => Ok(cmd.body(args)),
        None => {
            let mut e = String::from_str("Unknown slash command: ");
            e.append(command);
            Err(e)
        },
    }
}

/// Return completion suggestions for a slash command as `(label, new_text, run_command)`.
pub fn slash_completions(command: &str) -> (r: Vec<(String, String, bool)>)
    ensures
        r@.map_values(|c: (String, String, bool)| completion_view(c)) == spec_slash_completions(
            command@,
        ),
{
    match find_slash_command(command) {
        Some(cmd) => cmd.completions(),
        None => {
            let out: Vec<(String, String, bool)> = Vec::new();
            assert(out@.map_values(|c: (String, String, bool)| completion_view(c)) =~= Seq::<
                (Seq<char>, Seq<char>, bool),
            >::empty());
            out
        },
    }
}

/// The Markdown body of `/profile`.
pub open spec fn profile_text(target: Seq<char>) -> Seq<char> {
    "## CPU Profiling\n\n"@
        + "**Target:** "@
        + target
        + "\n\n\
        Basilisk profiles Python processes via `py-spy` (zero overhead, no instrumentation).\n\
        Diagnostics appear inline as `"@
        + profiler_diagnostics::LINE@
        + "` / `"@
        + profiler_diagnostics::FUNC@
        + "` hints on hot lines and functions.\n\
        Live progress is delivered via `"@
        + notifications::PROFILER_PROGRESS@
        + "` notifications.\n\n\
        ### How to start\n\
        Open the command palette and run **`"@
        + commands::PROFILER_START@
        + "`** with:\n\
        ```json\n\
        {\"pid\": <PID>, \"sampleRate\": 100, \"includeNative\": false}\n\
        ```\n\
        If a debug session is active, the PID is auto-detected — omit the `pid` field.\n\n\
        ### Presets\n\
        | Preset | Sample Rate | Duration | Best for |\n\
        |--------|-------------|----------|----------|\n\
        | `"@
        + profiler_presets::QUICK@
        + "` | 100 Hz | 10 s | Quick hotspot checks |\n\
        | `"@
        + profiler_presets::DETAILED@
        + "` | 200 Hz | 60 s | Thorough, higher-fidelity analysis |\n\
        | `"@
        + profiler_presets::LONG_RUNNING@
        + "` | 50 Hz | Unlimited | Servers and batch jobs, minimal overhead |\n\n\
        ### Results\n\
        - **Inline diagnostics** — `"@
        + profiler_diagnostics::LINE@
        + "` / `"@
        + profiler_diagnostics::FUNC@
        + "` hints on hot lines (≥1% / ≥2% threshold)\n\
        - **Speedscope JSON** — written to `/tmp/`, open at speedscope.app for interactive flamegraph\n\
        - **Flamegraph SVG** — request `\"format\": \"flamegraph\"` on stop (inferno rendering)\n\n\
        ### Commands\n\
        | Command | Description |\n\
        |---------|-------------|\n\
        | `"@
        + commands::PROFILER_START@
        + "` | Begin sampling (PID optional if debug session active) |\n\
        | `"@
        + commands::PROFILER_STOP@
        + "` | Stop and export results (speedscope / flamegraph / summary) |\n\
        | `"@
        + commands::PROFILER_SNAPSHOT@
        + "` | Snapshot without stopping — diagnostics updated immediately |\n\
        | `"@
        + commands::PROFILER_LIST@
        + "` | List active profiling sessions with sample counts |"@
}

/// What `/profile` is about: the given argument, or a default.
pub open spec fn profile_target(arg: Option<Seq<char>>) -> Seq<char> {
    match arg {
        Some(a) => "PID `"@ + a + "`"@,
        None => "active Python process"@,
    }
}

/// The `(title, body)` pair of `/profile`.
fn slash_profile(args: &[String]) -> (r: (String, String))
    ensures
        r.0@ == SlashCommand::Profile.spec_label(),
        r.1@ == SlashCommand::Profile.spec_text(first_arg(args@)),
{
    let target = if args.len() > 0 {
        let mut s = String::from_str("PID `");
        s.append(args[0].as_str());
        s.append("`");
        s
    } else {
        String::from_str("active Python process")
    };
    assert(target@ =~= profile_target(first_arg(args@)));
    let mut text = String::from_str("## CPU Profiling\n\n");
    text.append("**Target:** ");
    text.append(target.as_str());
    text.append("\n\n\
        Basilisk profiles Python processes via `py-spy` (zero overhead, no instrumentation).\n\
        Diagnostics appear inline as `");
    text.append(profiler_diagnostics::LINE);
    text.append("` / `");
    text.append(profiler_diagnostics::FUNC);
    text.append("` hints on hot lines and functions.\n\
        Live progress is delivered via `");
    text.append(notifications::PROFILER_PROGRESS);
    text.append("` notifications.\n\n\
        ### How to start\n\
        Open the command palette and run **`");
    text.append(commands::PROFILER_START);
    text.append("`** with:\n\
        ```json\n\
        {\"pid\": <PID>, \"sampleRate\": 100, \"includeNative\": false}\n\
        ```\n\
        If a debug session is active, the PID is auto-detected — omit the `pid` field.\n\n\
        ### Presets\n\
        | Preset | Sample Rate | Duration | Best for |\n\
        |--------|-------------|----------|----------|\n\
        | `");
    text.append(profiler_presets::QUICK);
    text.append("` | 100 Hz | 10 s | Quick hotspot checks |\n\
        | `");
    text.append(profiler_presets::DETAILED);
    text.append("` | 200 Hz | 60 s | Thorough, higher-fidelity analysis |\n\
        | `");
    text.append(profiler_presets::LONG_RUNNING);
    text.append("` | 50 Hz | Unlimited | Servers and batch jobs, minimal overhead |\n\n\
        ### Results\n\
        - **Inline diagnostics** — `");
    text.append(profiler_diagnostics::LINE);
    text.append("` / `");
    text.append(profiler_diagnostics::FUNC);
    text.append("` hints on hot lines (≥1% / ≥2% threshold)\n\
        - **Speedscope JSON** — written to `/tmp/`, open at speedscope.app for interactive flamegraph\n\
        - **Flamegraph SVG** — request `\"format\": \"flamegraph\"` on stop (inferno rendering)\n\n\
        ### Commands\n\
        | Command | Description |\n\
        |---------|-------------|\n\
        | `");
    text.append(commands::PROFILER_START);
    text.append("` | Begin sampling (PID optional if debug session active) |\n\
        | `");
    text.append(commands::PROFILER_STOP);
    text.append("` | Stop and export results (speedscope / flamegraph / summary) |\n\
        | `");
    text.append(commands::PROFILER_SNAPSHOT);
    text.append("` | Snapshot without stopping — diagnostics updated immediately |\n\
        | `");
    text.append(commands::PROFILER_LIST);
    text.append("` | List active profiling sessions with sample counts |");
    assert(text@ =~= profile_text(target@));
    (String::from_str("CPU Profiling"), text)
}

/// The Markdown body of `/profstop`.
pub open spec fn profstop_text() -> Seq<char> {
    "## Stop Profiling\n\n"@
        + "Run **`"@
        + commands::PROFILER_STOP@
        + "`** from the command palette with:\n\
        ```json\n\
        {\"sessionId\": \"<session-id>\", \"format\": \""@
        + profiler_formats::SPEEDSCOPE@
        + "\"}\n\
        ```\n\n\
        ### Output formats\n\
        | Format | Description |\n\
        |--------|-------------|\n\
        | `"@
        + profiler_formats::SPEEDSCOPE@
        + "` | JSON for speedscope.app (default) |\n\
        | `"@
        + profiler_formats::FLAMEGRAPH@
        + "` | SVG flamegraph via inferno |\n\
        | `"@
        + profiler_formats::SUMMARY@
        + "` | Text-only, no file export |\n\n\
        ### What happens on stop\n\
        1. Sampling thread stops, remaining samples drained\n\
        2. Hot lines/functions computed (above 1%/2% threshold)\n\
        3. `publishDiagnostics` sent for each profiled file — hints appear inline\n\
        4. Export file written to temp directory\n\n\
        > Open the speedscope JSON at speedscope.app for an interactive flamegraph."@
}

/// The `(title, body)` pair of `/profstop`.
fn slash_profstop(args: &[String]) -> (r: (String, String))
    ensures
        r.0@ == SlashCommand::ProfStop.spec_label(),
        r.1@ == SlashCommand::ProfStop.spec_text(first_arg(args@)),
{
    let mut text = String::from_str("## Stop Profiling\n\n");
    text.append("Run **`");
    text.append(commands::PROFILER_STOP);
    text.append("`** from the command palette with:\n\
        ```json\n\
        {\"sessionId\": \"<session-id>\", \"format\": \"");
    text.append(profiler_formats::SPEEDSCOPE);
    text.append("\"}\n\
        ```\n\n\
        ### Output formats\n\
        | Format | Description |\n\
        |--------|-------------|\n\
        | `");
    text.append(profiler_formats::SPEEDSCOPE);
    text.append("` | JSON for speedscope.app (default) |\n\
        | `");
    text.append(profiler_formats::FLAMEGRAPH);
    text.append("` | SVG flamegraph via inferno |\n\
        | `");
    text.append(profiler_formats::SUMMARY);
    text.append("` | Text-only, no file export |\n\n\
        ### What happens on stop\n\
        1. Sampling thread stops, remaining samples drained\n\
        2. Hot lines/functions computed (above 1%/2% threshold)\n\
        3. `publishDiagnostics` sent for each profiled file — hints appear inline\n\
        4. Export file written to temp directory\n\n\
        > Open the speedscope JSON at speedscope.app for an interactive flamegraph.");
    assert(text@ =~= profstop_text());
    (String::from_str("Stop Profiling"), text)
}

/// The Markdown body of `/profsnapshot`.
pub open spec fn profsnapshot_text() -> Seq<char> {
    "## Profile Snapshot\n\n"@
        + "Run **`"@
        + commands::PROFILER_SNAPSHOT@
        + "`** from the command palette.\n\
        Takes a point-in-time snapshot without stopping the session.\n\n\
        Diagnostics are published immediately for the snapshot data.\n\
        Profiling continues — use `/profstop` to end the session.\n\n\
        > Useful for checking hotspots during a long-running profiling session."@
}

/// The `(title, body)` pair of `/profsnapshot`.
fn slash_profsnapshot(args: &[String]) -> (r: (String, String))
    ensures
        r.0@ == SlashCommand::ProfSnapshot.spec_label(),
        r.1@ == SlashCommand::ProfSnapshot.spec_text(first_arg(args@)),
{
    let mut text = String::from_str("## Profile Snapshot\n\n");
    text.append("Run **`");
    text.append(commands::PROFILER_SNAPSHOT);
    text.append("`** from the command palette.\n\
        Takes a point-in-time snapshot without stopping the session.\n\n\
        Diagnostics are published immediately for the snapshot data.\n\
        Profiling continues — use `/profstop` to end the session.\n\n\
        > Useful for checking hotspots during a long-running profiling session.");
    assert(text@ =~= profsnapshot_text());
    (String::from_str("Profile Snapshot"), text)
}

/// The Markdown body of `/memleak`.
pub open spec fn memleak_text() -> Seq<char> {
    "## Memory Leak Tracking\n\n"@
        + "Tracks object allocations via `tracemalloc` injection into an active debug session.\n\
        Memory timeline data is delivered via `"@
        + notifications::MEMORY_TIMELINE@
        + "` notifications.\n\n\
        ### How to start\n\
        Run **`"@
        + commands::MEMORY_START@
        + "`** from the command palette.\n\
        Requires an active debug session (debugpy) — the LSP injects Python code via DAP evaluate.\n\n\
        ### Commands\n\
        | Command | Description |\n\
        |---------|-------------|\n\
        | `"@
        + commands::MEMORY_START@
        + "` | Begin tracking allocations |\n\
        | `"@
        + commands::MEMORY_SNAPSHOT@
        + "` | Capture allocation snapshot |\n\
        | `"@
        + commands::MEMORY_DIFF@
        + "` | Compare two snapshots for growth |\n\
        | `"@
        + commands::MEMORY_REFERENCES@
        + "` | Walk object reference graph |\n\
        | `"@
        + commands::MEMORY_GC_COLLECT@
        + "` | Force GC and report uncollectable |\n\n\
        ### Diagnostics\n\
        - `"@
        + memory_diagnostics::ALLOC@
        + "` — top allocation sites (Hint)\n\
        - `"@
        + memory_diagnostics::GROWTH@
        + "` — memory growth detected (Warning)\n\
        - `"@
        + memory_diagnostics::LEAK@
        + "` — suspected leak (Warning)\n\
        - `"@
        + memory_diagnostics::CYCLE@
        + "` — reference cycle with `__del__` (Error)"@
}

/// The `(title, body)` pair of `/memleak`.
fn slash_memleak(args: &[String]) -> (r: (String, String))
    ensures
        r.0@ == SlashCommand::MemLeak.spec_label(),
        r.1@ == SlashCommand::MemLeak.spec_text(first_arg(args@)),
{
    let mut text = String::from_str("## Memory Leak Tracking\n\n");
    text.append("Tracks object allocations via `tracemalloc` injection into an active debug session.\n\
        Memory timeline data is delivered via `");
    text.append(notifications::MEMORY_TIMELINE);
    text.append("` notifications.\n\n\
        ### How to start\n\
        Run **`");
    text.append(commands::MEMORY_START);
    text.append("`** from the command palette.\n\
        Requires an active debug session (debugpy) — the LSP injects Python code via DAP evaluate.\n\n\
        ### Commands\n\
        | Command | Description |\n\
        |---------|-------------|\n\
        | `");
    text.append(commands::MEMORY_START);
    text.append("` | Begin tracking allocations |\n\
        | `");
    text.append(commands::MEMORY_SNAPSHOT);
    text.append("` | Capture allocation snapshot |\n\
        | `");
    text.append(commands::MEMORY_DIFF);
    text.append("` | Compare two snapshots for growth |\n\
        | `");
    text.append(commands::MEMORY_REFERENCES);
    text.append("` | Walk object reference graph |\n\
        | `");
    text.append(commands::MEMORY_GC_COLLECT);
    text.append("` | Force GC and report uncollectable |\n\n\
        ### Diagnostics\n\
        - `");
    text.append(memory_diagnostics::ALLOC);
    text.append("` — top allocation sites (Hint)\n\
        - `");
    text.append(memory_diagnostics::GROWTH);
    text.append("` — memory growth detected (Warning)\n\
        - `");
    text.append(memory_diagnostics::LEAK);
    text.append("` — suspected leak (Warning)\n\
        - `");
    text.append(memory_diagnostics::CYCLE);
    text.append("` — reference cycle with `__del__` (Error)");
    assert(text@ =~= memleak_text());
    (String::from_str("Memory Tracking"), text)
}

/// The Markdown body of `/memstop`.
pub open spec fn memstop_text() -> Seq<char> {
    "## Stop Memory Tracking\n\n"@
        + "Stops `tracemalloc` injection and generates the final leak report.\n\n\
        Diagnostics published for each file with significant allocations.\n\
        Leak confidence: **Definite** > **High** > **Medium** > **Low**.\n\n\
        - `"@
        + memory_diagnostics::LEAK@
        + "` — suspected leak with confidence score (Warning)\n\
        - `"@
        + memory_diagnostics::CYCLE@
        + "` — reference cycle involving `__del__` finalizers (Error)\n\n\
        > Use `/memrefs <TypeName>` to inspect retention paths for leaked types."@
}

/// The `(title, body)` pair of `/memstop`.
fn slash_memstop(args: &[String]) -> (r: (String, String))
    ensures
        r.0@ == SlashCommand::MemStop.spec_label(),
        r.1@ == SlashCommand::MemStop.spec_text(first_arg(args@)),
{
    let mut text = String::from_str("## Stop Memory Tracking\n\n");
    text.append("Stops `tracemalloc` injection and generates the final leak report.\n\n\
        Diagnostics published for each file with significant allocations.\n\
        Leak confidence: **Definite** > **High** > **Medium** > **Low**.\n\n\
        - `");
    text.append(memory_diagnostics::LEAK);
    text.append("` — suspected leak with confidence score (Warning)\n\
        - `");
    text.append(memory_diagnostics::CYCLE);
    text.append("` — reference cycle involving `__del__` finalizers (Error)\n\n\
        > Use `/memrefs <TypeName>` to inspect retention paths for leaked types.");
    assert(text@ =~= memstop_text());
    (String::from_str("Memory Report"), text)
}

/// The Markdown body of `/memrefs`.
pub open spec fn memrefs_text(target_type: Seq<char>) -> Seq<char> {
    "## Reference Graph: `"@
        + target_type
        + "`\n\n\
        Run **`"@
        + commands::MEMORY_REFERENCES@
        + "`** from the command palette with:\n\
        ```json\n\
        {\"targetType\": \""@
        + target_type
        + "\", \"maxDepth\": 5, \"maxNodes\": 200}\n\
        ```\n\n\
        Walks `gc.get_referrers()` from GC roots to all live instances of `"@
        + target_type
        + "`.\n\n\
        ### Output\n\
        - **Nodes** — objects with type, size, repr\n\
        - **Edges** — reference relationships with labels (`.attr`, `[key]`)\n\
        - **Cycles** — detected via DFS, flagged as `"@
        + memory_diagnostics::CYCLE@
        + "`\n\
        - **Retention path** — human-readable chain from GC root to target"@
}

/// What `/memrefs` is about: the given argument, or a default.
pub open spec fn memrefs_target_type(arg: Option<Seq<char>>) -> Seq<char> {
    match arg {
        Some(a) => a,
        None => "(unknown)"@,
    }
}

/// The `(title, body)` pair of `/memrefs`.
fn slash_memrefs(args: &[String]) -> (r: (String, String))
    ensures
        r.0@ == SlashCommand::MemRefs.spec_label(),
        r.1@ == SlashCommand::MemRefs.spec_text(first_arg(args@)),
{
    let target_type = if args.len() > 0 {
        String::from_str(args[0].as_str())
    } else {
        String::from_str("(unknown)")
    };
    assert(target_type@ =~= memrefs_target_type(first_arg(args@)));
    let mut text = String::from_str("## Reference Graph: `");
    text.append(target_type.as_str());
    text.append("`\n\n\
        Run **`");
    text.append(commands::MEMORY_REFERENCES);
    text.append("`** from the command palette with:\n\
        ```json\n\
        {\"targetType\": \"");
    text.append(target_type.as_str());
    text.append("\", \"maxDepth\": 5, \"maxNodes\": 200}\n\
        ```\n\n\
        Walks `gc.get_referrers()` from GC roots to all live instances of `");
    text.append(target_type.as_str());
    text.append("`.\n\n\
        ### Output\n\
        - **Nodes** — objects with type, size, repr\n\
        - **Edges** — reference relationships with labels (`.attr`, `[key]`)\n\
        - **Cycles** — detected via DFS, flagged as `");
    text.append(memory_diagnostics::CYCLE);
    text.append("`\n\
        - **Retention path** — human-readable chain from GC root to target");
    assert(text@ =~= memrefs_text(target_type@));
    (String::from_str("Reference Graph"), text)
}

/// The Markdown body of `/modules`.
pub open spec fn modules_text(scope: Seq<char>) -> Seq<char> {
    "## Workspace Modules\n\n"@
        + "**Scope:** "@
        + scope
        + "\n\n\
        Fetching module tree via `basilisk.workspaceModules`.\n\n\
        The module tree shows:\n\
        - **Packages** — directories with `__init__.py`\n\
        - **Modules** — individual `.py` files\n\
        - **Symbols** — classes, functions, variables, constants\n\n\
        Each symbol includes:\n\
        - Type annotation status (annotated/unannotated)\n\
        - Export status (`__all__`)\n\
        - Line number for navigation\n\n\
        > Use `/symbols <module>` to drill into a specific module."@
}

/// What `/modules` is about: the given argument, or a default.
pub open spec fn modules_scope(arg: Option<Seq<char>>) -> Seq<char> {
    match arg {
        Some(a) => "prefix `"@ + a + "`"@,
        None => "entire workspace"@,
    }
}

/// The `(title, body)` pair of `/modules`.
fn slash_modules(args: &[String]) -> (r: (String, String))
    ensures
        r.0@ == SlashCommand::Modules.spec_label(),
        r.1@ == SlashCommand::Modules.spec_text(first_arg(args@)),
{
    let scope = if args.len() > 0 {
        let mut s = String::from_str("prefix `");
        s.append(args[0].as_str());
        s.append("`");
        s
    } else {
        String::from_str("entire workspace")
    };
    assert(scope@ =~= modules_scope(first_arg(args@)));
    let mut text = String::from_str("## Workspace Modules\n\n");
    text.append("**Scope:** ");
    text.append(scope.as_str());
    text.append("\n\n\
        Fetching module tree via `basilisk.workspaceModules`.\n\n\
        The module tree shows:\n\
        - **Packages** — directories with `__init__.py`\n\
        - **Modules** — individual `.py` files\n\
        - **Symbols** — classes, functions, variables, constants\n\n\
        Each symbol includes:\n\
        - Type annotation status (annotated/unannotated)\n\
        - Export status (`__all__`)\n\
        - Line number for navigation\n\n\
        > Use `/symbols <module>` to drill into a specific module.");
    assert(text@ =~= modules_text(scope@));
    (String::from_str("Workspace Modules"), text)
}

/// The Markdown body of `/symbols`.
pub open spec fn symbols_text(module: Seq<char>) -> Seq<char> {
    "## Module Symbols: `"@
        + module
        + "`\n\n\
        Fetching symbols via `basilisk.workspaceModules` with scope `"@
        + module
        + "`.\n\n\
        | Symbol | Kind | Annotated | Line |\n\
        |--------|------|-----------|------|\n\
        | *(loading...)* | | | |\n\n\
        > Symbols are extracted from the resolved AST, not from imports."@
}

/// What `/symbols` is about: the given argument, or a default.
pub open spec fn symbols_module(arg: Option<Seq<char>>) -> Seq<char> {
    match arg {
        Some(a) => a,
        None => "(all modules)"@,
    }
}

/// The `(title, body)` pair of `/symbols`.
fn slash_symbols(args: &[String]) -> (r: (String, String))
    ensures
        r.0@ == SlashCommand::Symbols.spec_label(),
        r.1@ == SlashCommand::Symbols.spec_text(first_arg(args@)),
{
    let module = if args.len() > 0 {
        String::from_str(args[0].as_str())
    } else {
        String::from_str("(all modules)")
    };
    assert(module@ =~= symbols_module(first_arg(args@)));
    let mut text = String::from_str("## Module Symbols: `");
    text.append(module.as_str());
    text.append("`\n\n\
        Fetching symbols via `basilisk.workspaceModules` with scope `");
    text.append(module.as_str());
    text.append("`.\n\n\
        | Symbol | Kind | Annotated | Line |\n\
        |--------|------|-----------|------|\n\
        | *(loading...)* | | | |\n\n\
        > Symbols are extracted from the resolved AST, not from imports.");
    assert(text@ =~= symbols_text(module@));
    (String::from_str("Module Symbols"), text)
}

/// The Markdown body of `/health`.
pub open spec fn health_text() -> Seq<char> {
    "## Type Health\n\n"@
        + "Fetching workspace health via `basilisk.typeHealth`.\n\n\
        | Metric | Value |\n\
        |--------|-------|\n\
        | Coverage | *(loading...)* |\n\
        | Errors | *(loading...)* |\n\
        | Warnings | *(loading...)* |\n\
        | Adopted Files | *(loading...)* |\n\n\
        Per-module breakdown sorted by coverage (worst first):\n\n\
        | Module | Coverage | Errors | Warnings | Status |\n\
        |--------|----------|--------|----------|--------|\n\
        | *(loading...)* | | | | |\n\n\
        > Unannotated symbols are listed per module. Use `/symbols <module>` to see details."@
}

/// The `(title, body)` pair of `/health`.
fn slash_health(args: &[String]) -> (r: (String, String))
    ensures
        r.0@ == SlashCommand::Health.spec_label(),
        r.1@ == SlashCommand::Health.spec_text(first_arg(args@)),
{
    let mut text = String::from_str("## Type Health\n\n");
    text.append("Fetching workspace health via `basilisk.typeHealth`.\n\n\
        | Metric | Value |\n\
        |--------|-------|\n\
        | Coverage | *(loading...)* |\n\
        | Errors | *(loading...)* |\n\
        | Warnings | *(loading...)* |\n\
        | Adopted Files | *(loading...)* |\n\n\
        Per-module breakdown sorted by coverage (worst first):\n\n\
        | Module | Coverage | Errors | Warnings | Status |\n\
        |--------|----------|--------|----------|--------|\n\
        | *(loading...)* | | | | |\n\n\
        > Unannotated symbols are listed per module. Use `/symbols <module>` to see details.");
    assert(text@ =~= health_text());
    (String::from_str("Type Health"), text)
}

/// The Markdown body of `/basilisk`.
pub open spec fn basilisk_text() -> Seq<char> {
    "## Basilisk Server Info\n\n"@
        + "**Basilisk** — strict-by-default Python type checker and LSP built in Rust.\n\n\
        ### Features\n\
        - Type checking (strict-by-default, gradual adoption)\n\
        - Inlay hints (parameter names, variable types)\n\
        - Ruff integration (formatting, import organization)\n\
        - Test explorer (pytest + unittest)\n\
        - Debugger (debugpy integration)\n\
        - uv package manager integration\n\
        - Profiling and memory analysis\n\n\
        ### Quick Commands\n\
        | Command | Description |\n\
        |---------|-------------|\n\
        | `/modules` | Show workspace module tree |\n\
        | `/symbols <mod>` | Show symbols in a module |\n\
        | `/health` | Type health statistics |\n\
        | `/tests` | Discover tests |\n\
        | `/runtests` | Execute tests |\n\
        | `/profile` | Start CPU profiling |\n\
        | `/memleak` | Start memory tracking |\n\n\
        > Visit [basilisk-python.dev](https://www.basilisk-python.dev) for documentation."@
}

/// The `(title, body)` pair of `/basilisk`.
fn slash_basilisk(args: &[String]) -> (r: (String, String))
    ensures
        r.0@ == SlashCommand::Basilisk.spec_label(),
        r.1@ == SlashCommand::Basilisk.spec_text(first_arg(args@)),
{
    let mut text = String::from_str("## Basilisk Server Info\n\n");
    text.append("**Basilisk** — strict-by-default Python type checker and LSP built in Rust.\n\n\
        ### Features\n\
        - Type checking (strict-by-default, gradual adoption)\n\
        - Inlay hints (parameter names, variable types)\n\
        - Ruff integration (formatting, import organization)\n\
        - Test explorer (pytest + unittest)\n\
        - Debugger (debugpy integration)\n\
        - uv package manager integration\n\
        - Profiling and memory analysis\n\n\
        ### Quick Commands\n\
        | Command | Description |\n\
        |---------|-------------|\n\
        | `/modules` | Show workspace module tree |\n\
        | `/symbols <mod>` | Show symbols in a module |\n\
        | `/health` | Type health statistics |\n\
        | `/tests` | Discover tests |\n\
        | `/runtests` | Execute tests |\n\
        | `/profile` | Start CPU profiling |\n\
        | `/memleak` | Start memory tracking |\n\n\
        > Visit [basilisk-python.dev](https://www.basilisk-python.dev) for documentation.");
    assert(text@ =~= basilisk_text());
    (String::from_str("Basilisk Info"), text)
}

/// The Markdown body of `/tests`.
pub open spec fn tests_text(scope: Seq<char>) -> Seq<char> {
    "## Test Discovery\n\n"@
        + "**Scope:** "@
        + scope
        + "\n\n\
        Discovering pytest and unittest tests from AST (no import needed).\n\n\
        Tests are sent to the LSP server via `basilisk.discoverTests` and appear as inline run buttons via tree-sitter runnables.\n\n\
        **Detected patterns:**\n\
        - `def test_*()` — pytest test functions\n\
        - `class Test*` — pytest test classes\n\
        - `unittest.TestCase` subclasses and `def test_*` methods\n\n\
        > Use `/runtests` to execute tests, or click the inline run button."@
}

/// What `/tests` is about: the given argument, or a default.
pub open spec fn tests_scope(arg: Option<Seq<char>>) -> Seq<char> {
    match arg {
        Some(a) => "file `"@ + a + "`"@,
        None => "workspace"@,
    }
}

/// The `(title, body)` pair of `/tests`.
fn slash_tests(args: &[String]) -> (r: (String, String))
    ensures
        r.0@ == SlashCommand::Tests.spec_label(),
        r.1@ == SlashCommand::Tests.spec_text(first_arg(args@)),
{
    let scope = if args.len() > 0 {
        let mut s = String::from_str("file `");
        s.append(args[0].as_str());
        s.append("`");
        s
    } else {
        String::from_str("workspace")
    };
    assert(scope@ =~= tests_scope(first_arg(args@)));
    let mut text = String::from_str("## Test Discovery\n\n");
    text.append("**Scope:** ");
    text.append(scope.as_str());
    text.append("\n\n\
        Discovering pytest and unittest tests from AST (no import needed).\n\n\
        Tests are sent to the LSP server via `basilisk.discoverTests` and appear as inline run buttons via tree-sitter runnables.\n\n\
        **Detected patterns:**\n\
        - `def test_*()` — pytest test functions\n\
        - `class Test*` — pytest test classes\n\
        - `unittest.TestCase` subclasses and `def test_*` methods\n\n\
        > Use `/runtests` to execute tests, or click the inline run button.");
    assert(text@ =~= tests_text(scope@));
    (String::from_str("Test Discovery"), text)
}

/// The Markdown body of `/runtests`.
pub open spec fn runtests_text(target: Seq<char>) -> Seq<char> {
    "## Running Tests\n\n"@
        + "**Target:** "@
        + target
        + "\n\n\
        Executing via `pytest` subprocess (or `uv run pytest` in uv projects).\n\n\
        | Setting | Value |\n\
        |---------|-------|\n\
        | Runner | pytest |\n\
        | Output | `--tb=short -q` |\n\
        | uv-aware | auto-detected |\n\n\
        Results:\n\
        - **Per-test status** — pass/fail/skip/error for each test\n\
        - **Inline failures** — assertion errors and tracebacks\n\
        - **Exit code** — overall pass/fail\n\n\
        > Use `/testfile` to run tests in the current file only."@
}

/// What `/runtests` is about: the given argument, or a default.
pub open spec fn runtests_target(arg: Option<Seq<char>>) -> Seq<char> {
    match arg {
        Some(a) => "test `"@ + a + "`"@,
        None => "all tests"@,
    }
}

/// The `(title, body)` pair of `/runtests`.
fn slash_runtests(args: &[String]) -> (r: (String, String))
    ensures
        r.0@ == SlashCommand::RunTests.spec_label(),
        r.1@ == SlashCommand::RunTests.spec_text(first_arg(args@)),
{
    let target = if args.len() > 0 {
        let mut s = String::from_str("test `");
        s.append(args[0].as_str());
        s.append("`");
        s
    } else {
        String::from_str("all tests")
    };
    assert(target@ =~= runtests_target(first_arg(args@)));
    let mut text = String::from_str("## Running Tests\n\n");
    text.append("**Target:** ");
    text.append(target.as_str());
    text.append("\n\n\
        Executing via `pytest` subprocess (or `uv run pytest` in uv projects).\n\n\
        | Setting | Value |\n\
        |---------|-------|\n\
        | Runner | pytest |\n\
        | Output | `--tb=short -q` |\n\
        | uv-aware | auto-detected |\n\n\
        Results:\n\
        - **Per-test status** — pass/fail/skip/error for each test\n\
        - **Inline failures** — assertion errors and tracebacks\n\
        - **Exit code** — overall pass/fail\n\n\
        > Use `/testfile` to run tests in the current file only.");
    assert(text@ =~= runtests_text(target@));
    (String::from_str("Running Tests"), text)
}

/// The Markdown body of `/testfile`.
pub open spec fn testfile_text(file: Seq<char>) -> Seq<char> {
    "## Running File Tests\n\n"@
        + "**File:** `"@
        + file
        + "`\n\n\
        Running all tests in this file via `basilisk.runTestFile`.\n\n\
        Uses `uv run pytest` when a uv project is detected, otherwise bare `pytest` with `VIRTUAL_ENV` set from the workspace venv."@
}

/// What `/testfile` is about: the given argument, or a default.
pub open spec fn testfile_file(arg: Option<Seq<char>>) -> Seq<char> {
    match arg {
        Some(a) => a,
        None => "(current file)"@,
    }
}

/// The `(title, body)` pair of `/testfile`.
fn slash_testfile(args: &[String]) -> (r: (String, String))
    ensures
        r.0@ == SlashCommand::TestFile.spec_label(),
        r.1@ == SlashCommand::TestFile.spec_text(first_arg(args@)),
{
    let file = if args.len() > 0 {
        String::from_str(args[0].as_str())
    } else {
        String::from_str("(current file)")
    };
    assert(file@ =~= testfile_file(first_arg(args@)));
    let mut text = String::from_str("## Running File Tests\n\n");
    text.append("**File:** `");
    text.append(file.as_str());
    text.append("`\n\n\
        Running all tests in this file via `basilisk.runTestFile`.\n\n\
        Uses `uv run pytest` when a uv project is detected, otherwise bare `pytest` with `VIRTUAL_ENV` set from the workspace venv.");
    assert(text@ =~= testfile_text(file@));
    (String::from_str("File Tests"), text)
}

/// Whether `needle` occurs somewhere in `hay`.
pub open spec fn contains_seq(hay: Seq<char>, needle: Seq<char>) -> bool {
    exists|i: int| 0 <= i && i + needle.len() <= hay.len() && #[trigger] hay.subrange(i, i + needle.len()) == needle
}

impl SlashCommand {
    /// Whether the command's body mentions its first argument.
    pub open spec fn uses_argument(self) -> bool {
        match self {
            SlashCommand::Profile | SlashCommand::MemRefs | SlashCommand::Modules
            | SlashCommand::Symbols | SlashCommand::Tests | SlashCommand::RunTests
            | SlashCommand::TestFile => true,
            _ => false,
        }
    }
}

/// The characters that tell the slash command names apart.
proof fn lemma_slash_name_chars()
    ensures
        slash_commands::PROFILE@.len() == 7,
        slash_commands::PROFILE@[0] == 'p' && slash_commands::PROFILE@[1] == 'r' && slash_commands::PROFILE@[3] == 'f',
        slash_commands::PROFSTOP@.len() == 8,
        slash_commands::PROFSTOP@[0] == 'p' && slash_commands::PROFSTOP@[1] == 'r' && slash_commands::PROFSTOP@[3] == 'f',
        slash_commands::PROFSNAPSHOT@.len() == 12,
        slash_commands::PROFSNAPSHOT@[0] == 'p' && slash_commands::PROFSNAPSHOT@[1] == 'r' && slash_commands::PROFSNAPSHOT@[3] == 'f',
        slash_commands::MEMLEAK@.len() == 7,
        slash_commands::MEMLEAK@[0] == 'm' && slash_commands::MEMLEAK@[1] == 'e' && slash_commands::MEMLEAK@[3] == 'l',
        slash_commands::MEMSTOP@.len() == 7,
        slash_commands::MEMSTOP@[0] == 'm' && slash_commands::MEMSTOP@[1] == 'e' && slash_commands::MEMSTOP@[3] == 's',
        slash_commands::MEMREFS@.len() == 7,
        slash_commands::MEMREFS@[0] == 'm' && slash_commands::MEMREFS@[1] == 'e' && slash_commands::MEMREFS@[3] == 'r',
        slash_commands::MODULES@.len() == 7,
        slash_commands::MODULES@[0] == 'm' && slash_commands::MODULES@[1] == 'o' && slash_commands::MODULES@[3] == 'u',
        slash_commands::SYMBOLS@.len() == 7,
        slash_commands::SYMBOLS@[0] == 's' && slash_commands::SYMBOLS@[1] == 'y' && slash_commands::SYMBOLS@[3] == 'b',
        slash_commands::HEALTH@.len() == 6,
        slash_commands::HEALTH@[0] == 'h' && slash_commands::HEALTH@[1] == 'e' && slash_commands::HEALTH@[3] == 'l',
        slash_commands::BASILISK@.len() == 8,
        slash_commands::BASILISK@[0] == 'b' && slash_commands::BASILISK@[1] == 'a' && slash_commands::BASILISK@[3] == 'i',
        slash_commands::TESTS@.len() == 5,
        slash_commands::TESTS@[0] == 't' && slash_commands::TESTS@[1] == 'e' && slash_commands::TESTS@[3] == 't',
        slash_commands::RUNTESTS@.len() == 8,
        slash_commands::RUNTESTS@[0] == 'r' && slash_commands::RUNTESTS@[1] == 'u' && slash_commands::RUNTESTS@[3] == 't',
        slash_commands::TESTFILE@.len() == 8,
        slash_commands::TESTFILE@[0] == 't' && slash_commands::TESTFILE@[1] == 'e' && slash_commands::TESTFILE@[3] == 't',
{
    reveal_strlit("profile");
    reveal_strlit("profstop");
    reveal_strlit("profsnapshot");
    reveal_strlit("memleak");
    reveal_strlit("memstop");
    reveal_strlit("memrefs");
    reveal_strlit("modules");
    reveal_strlit("symbols");
    reveal_strlit("health");
    reveal_strlit("basilisk");
    reveal_strlit("tests");
    reveal_strlit("runtests");
    reveal_strlit("testfile");
}

/// The names of the slash commands are pairwise distinct, so the name of each
/// command selects that very command.
pub proof fn lemma_name_selects_command(cmd: SlashCommand)
    ensures
        spec_find_slash_command(cmd.spec_name()) == Some(cmd),
{
    lemma_slash_name_chars();
}

/// A name selects a command exactly when it is the name of one of the listed commands.
pub proof fn lemma_find_iff_listed(name: Seq<char>)
    ensures
        spec_find_slash_command(name) is Some <==> exists|i: int|
            0 <= i < all_slash_commands().len() && #[trigger] all_slash_commands()[i].spec_name()
                == name,
        match spec_find_slash_command(name) {
            Some(cmd) => cmd.spec_name() == name,
            None => true,
        },
{
    let all = all_slash_commands();
    if spec_find_slash_command(name) is Some {
        let cmd = spec_find_slash_command(name)->0;
        let i: int = match cmd {
            SlashCommand::Profile => 0,
            SlashCommand::ProfStop => 1,
            SlashCommand::ProfSnapshot => 2,
            SlashCommand::MemLeak => 3,
            SlashCommand::MemStop => 4,
            SlashCommand::MemRefs => 5,
            SlashCommand::Modules => 6,
            SlashCommand::Symbols => 7,
            SlashCommand::Health => 8,
            SlashCommand::Basilisk => 9,
            SlashCommand::Tests => 10,
            SlashCommand::RunTests => 11,
            SlashCommand::TestFile => 12,
        };
        assert(all[i].spec_name() == name);
    } else {
        assert forall|i: int| 0 <= i < all.len() implies #[trigger] all[i].spec_name() != name by {
            assert(0 <= i < 13);
        }
    }
}

/// Every listed command answers with a non-empty title and a Markdown body
/// that opens with a `## ` header, whatever its arguments.
pub proof fn lemma_known_command_answers_markdown(cmd: SlashCommand, args: Seq<String>)
    ensures
        spec_slash_command_output(cmd.spec_name(), args) matches Ok((label, text)) && label.len()
            > 0 && text.len() >= 3 && text[0] == '#' && text[1] == '#' && text[2] == ' ',
{
    lemma_name_selects_command(cmd);
    reveal_strlit("CPU Profiling");
    reveal_strlit("Stop Profiling");
    reveal_strlit("Profile Snapshot");
    reveal_strlit("Memory Tracking");
    reveal_strlit("Memory Report");
    reveal_strlit("Reference Graph");
    reveal_strlit("Workspace Modules");
    reveal_strlit("Module Symbols");
    reveal_strlit("Type Health");
    reveal_strlit("Basilisk Info");
    reveal_strlit("Test Discovery");
    reveal_strlit("Running Tests");
    reveal_strlit("File Tests");
    reveal_strlit("## CPU Profiling\n\n");
    reveal_strlit("## Stop Profiling\n\n");
    reveal_strlit("## Profile Snapshot\n\n");
    reveal_strlit("## Memory Leak Tracking\n\n");
    reveal_strlit("## Stop Memory Tracking\n\n");
    reveal_strlit("## Reference Graph: `");
    reveal_strlit("## Workspace Modules\n\n");
    reveal_strlit("## Module Symbols: `");
    reveal_strlit("## Type Health\n\n");
    reveal_strlit("## Basilisk Server Info\n\n");
    reveal_strlit("## Test Discovery\n\n");
    reveal_strlit("## Running Tests\n\n");
    reveal_strlit("## Running File Tests\n\n");
}

/// A command that mentions its argument shows the first argument verbatim.
pub proof fn lemma_argument_appears(cmd: SlashCommand, args: Seq<String>)
    requires
        cmd.uses_argument(),
        args.len() > 0,
    ensures
        contains_seq(cmd.spec_text(first_arg(args)), args[0]@),
{
    let a = args[0]@;
    let text = cmd.spec_text(first_arg(args));
    // The argument follows the heading and the lead-in of the line that shows it.
    let pos: int = match cmd {
        SlashCommand::Profile => "## CPU Profiling\n\n"@.len() as int + "**Target:** "@.len() as int + "PID `"@.len() as int,
        SlashCommand::MemRefs => "## Reference Graph: `"@.len() as int,
        SlashCommand::Modules => "## Workspace Modules\n\n"@.len() as int + "**Scope:** "@.len() as int + "prefix `"@.len() as int,
        SlashCommand::Symbols => "## Module Symbols: `"@.len() as int,
        SlashCommand::Tests => "## Test Discovery\n\n"@.len() as int + "**Scope:** "@.len() as int + "file `"@.len() as int,
        SlashCommand::RunTests => "## Running Tests\n\n"@.len() as int + "**Target:** "@.len() as int + "test `"@.len() as int,
        SlashCommand::TestFile => "## Running File Tests\n\n"@.len() as int + "**File:** `"@.len() as int,
        _ => 0,
    };
    assert(text.subrange(pos, pos + a.len()) =~= a);
}

/// Completions are offered only for commands that run: a name with any
/// completion also produces output, for any arguments.
pub proof fn lemma_completions_only_for_known_commands(name: Seq<char>, args: Seq<String>)
    requires
        spec_slash_completions(name).len() > 0,
    ensures
        spec_slash_command_output(name, args) is Ok,
{
}

/// A text contains a piece that stands at a known position in it.
proof fn lemma_contains_at(hay: Seq<char>, needle: Seq<char>, pos: int)
    requires
        0 <= pos,
        pos + needle.len() <= hay.len(),
        hay.subrange(pos, pos + needle.len()) == needle,
    ensures
        contains_seq(hay, needle),
{
}

/// `/profile` names its target on the target line: `PID `pid``, the first
/// argument, or the active Python process without one.
pub proof fn lemma_profile_shows_target(args: Seq<String>)
    ensures
        ({
            let shown = if args.len() > 0 {
                "PID `"@ + args[0]@ + "`"@
            } else {
                "active Python process"@
            };
            &&& spec_slash_command_output(slash_commands::PROFILE@, args) matches Ok((label, text))
            &&& contains_seq(text, "**Target:** "@ + shown + "\n"@)
        }),
{
    lemma_name_selects_command(SlashCommand::Profile);
    reveal_strlit("## CPU Profiling\n\n");
    reveal_strlit("**Target:** ");
    reveal_strlit("\n\nBasilisk profiles Python processes via `py-spy` (zero overhead, no instrumentation).\nDiagnostics appear inline as `");
    reveal_strlit("PID `");
    reveal_strlit("active Python process");
    reveal_strlit("`");
    reveal_strlit("\n");
    let shown = if args.len() > 0 {
        "PID `"@ + args[0]@ + "`"@
    } else {
        "active Python process"@
    };
    let text = SlashCommand::Profile.spec_text(first_arg(args));
    let needle = "**Target:** "@ + shown + "\n"@;
    let pos = "## CPU Profiling\n\n"@.len() as int;
    assert(text.subrange(pos, pos + needle.len()) =~= needle);
    lemma_contains_at(text, needle, pos);
}

/// `/modules` names its scope on the scope line: the module prefix given as the
/// first argument, or the entire workspace without one.
pub proof fn lemma_modules_shows_scope(args: Seq<String>)
    ensures
        ({
            let shown = if args.len() > 0 {
                "prefix `"@ + args[0]@ + "`"@
            } else {
                "entire workspace"@
            };
            &&& spec_slash_command_output(slash_commands::MODULES@, args) matches Ok((label, text))
            &&& contains_seq(text, "**Scope:** "@ + shown + "\n"@)
        }),
{
    lemma_name_selects_command(SlashCommand::Modules);
    reveal_strlit("## Workspace Modules\n\n");
    reveal_strlit("**Scope:** ");
    reveal_strlit("\n\nFetching module tree via `basilisk.workspaceModules`.\n\nThe module tree shows:\n- **Packages** — directories with `__init__.py`\n- **Modules** — individual `.py` files\n- **Symbols** — classes, functions, variables, constants\n\nEach symbol includes:\n- Type annotation status (annotated/unannotated)\n- Export status (`__all__`)\n- Line number for navigation\n\n> Use `/symbols <module>` to drill into a specific module.");
    reveal_strlit("prefix `");
    reveal_strlit("entire workspace");
    reveal_strlit("`");
    reveal_strlit("\n");
    let shown = if args.len() > 0 {
        "prefix `"@ + args[0]@ + "`"@
    } else {
        "entire workspace"@
    };
    let text = SlashCommand::Modules.spec_text(first_arg(args));
    let needle = "**Scope:** "@ + shown + "\n"@;
    let pos = "## Workspace Modules\n\n"@.len() as int;
    assert(text.subrange(pos, pos + needle.len()) =~= needle);
    lemma_contains_at(text, needle, pos);
}

/// `/tests` names its scope on the scope line: the file given as the first
/// argument, or the workspace without one.
pub proof fn lemma_tests_shows_scope(args: Seq<String>)
    ensures
        ({
            let shown = if args.len() > 0 {
                "file `"@ + args[0]@ + "`"@
            } else {
                "workspace"@
            };
            &&& spec_slash_command_output(slash_commands::TESTS@, args) matches Ok((label, text))
            &&& contains_seq(text, "**Scope:** "@ + shown + "\n"@)
        }),
{
    lemma_name_selects_command(SlashCommand::Tests);
    reveal_strlit("## Test Discovery\n\n");
    reveal_strlit("**Scope:** ");
    reveal_strlit("\n\nDiscovering pytest and unittest tests from AST (no import needed).\n\nTests are sent to the LSP server via `basilisk.discoverTests` and appear as inline run buttons via tree-sitter runnables.\n\n**Detected patterns:**\n- `def test_*()` — pytest test functions\n- `class Test*` — pytest test classes\n- `unittest.TestCase` subclasses and `def test_*` methods\n\n> Use `/runtests` to execute tests, or click the inline run button.");
    reveal_strlit("file `");
    reveal_strlit("workspace");
    reveal_strlit("`");
    reveal_strlit("\n");
    let shown = if args.len() > 0 {
        "file `"@ + args[0]@ + "`"@
    } else {
        "workspace"@
    };
    let text = SlashCommand::Tests.spec_text(first_arg(args));
    let needle = "**Scope:** "@ + shown + "\n"@;
    let pos = "## Test Discovery\n\n"@.len() as int;
    assert(text.subrange(pos, pos + needle.len()) =~= needle);
    lemma_contains_at(text, needle, pos);
}

/// `/runtests` names its target on the target line: the test given as the
/// first argument, or all tests without one.
pub proof fn lemma_runtests_shows_target(args: Seq<String>)
    ensures
        ({
            let shown = if args.len() > 0 {
                "test `"@ + args[0]@ + "`"@
            } else {
                "all tests"@
            };
            &&& spec_slash_command_output(slash_commands::RUNTESTS@, args) matches Ok((label, text))
            &&& contains_seq(text, "**Target:** "@ + shown + "\n"@)
        }),
{
    lemma_name_selects_command(SlashCommand::RunTests);
    reveal_strlit("## Running Tests\n\n");
    reveal_strlit("**Target:** ");
    reveal_strlit("\n\nExecuting via `pytest` subprocess (or `uv run pytest` in uv projects).\n\n| Setting | Value |\n|---------|-------|\n| Runner | pytest |\n| Output | `--tb=short -q` |\n| uv-aware | auto-detected |\n\nResults:\n- **Per-test status** — pass/fail/skip/error for each test\n- **Inline failures** — assertion errors and tracebacks\n- **Exit code** — overall pass/fail\n\n> Use `/testfile` to run tests in the current file only.");
    reveal_strlit("test `");
    reveal_strlit("all tests");
    reveal_strlit("`");
    reveal_strlit("\n");
    let shown = if args.len() > 0 {
        "test `"@ + args[0]@ + "`"@
    } else {
        "all tests"@
    };
    let text = SlashCommand::RunTests.spec_text(first_arg(args));
    let needle = "**Target:** "@ + shown + "\n"@;
    let pos = "## Running Tests\n\n"@.len() as int;
    assert(text.subrange(pos, pos + needle.len()) =~= needle);
    lemma_contains_at(text, needle, pos);
}

/// `/memrefs` shows its type name (the first argument, `(unknown)` without
/// one) everywhere it names the type: in the heading, as the target of the
/// JSON request to run, and as the type whose live instances are walked.
pub proof fn lemma_memrefs_shows_type(args: Seq<String>)
    ensures
        ({
            let a = if args.len() > 0 {
                args[0]@
            } else {
                "(unknown)"@
            };
            &&& spec_slash_command_output(slash_commands::MEMREFS@, args) matches Ok((label, text))
            &&& contains_seq(text, "## Reference Graph: `"@ + a + "`"@)
            &&& contains_seq(
                text,
                "{\"targetType\": \""@ + a + "\", \"maxDepth\": 5, \"maxNodes\": 200}"@,
            )
            &&& contains_seq(text, "all live instances of `"@ + a + "`"@)
        }),
{
    lemma_name_selects_command(SlashCommand::MemRefs);
    reveal_strlit("## Reference Graph: `");
    reveal_strlit("`\n\nRun **`");
    reveal_strlit("`** from the command palette with:\n```json\n{\"targetType\": \"");
    reveal_strlit("\", \"maxDepth\": 5, \"maxNodes\": 200}\n```\n\nWalks `gc.get_referrers()` from GC roots to all live instances of `");
    reveal_strlit("`.\n\n### Output\n- **Nodes** — objects with type, size, repr\n- **Edges** — reference relationships with labels (`.attr`, `[key]`)\n- **Cycles** — detected via DFS, flagged as `");
    reveal_strlit("`");
    reveal_strlit("(unknown)");
    reveal_strlit("{\"targetType\": \"");
    reveal_strlit("\", \"maxDepth\": 5, \"maxNodes\": 200}");
    reveal_strlit("all live instances of `");
    let a = if args.len() > 0 {
        args[0]@
    } else {
        "(unknown)"@
    };
    let text = SlashCommand::MemRefs.spec_text(first_arg(args));
    assert(text == memrefs_text(a));
    let n1 = "## Reference Graph: `"@ + a + "`"@;
    assert(text.subrange(0, n1.len() as int) =~= n1);
    lemma_contains_at(text, n1, 0);
    let pre = "{\"targetType\": \""@;
    let n2 = pre + a + "\", \"maxDepth\": 5, \"maxNodes\": 200}"@;
    let pos2 = "## Reference Graph: `"@.len() + a.len() + "`\n\nRun **`"@.len() + commands::MEMORY_REFERENCES@.len()
        + "`** from the command palette with:\n```json\n{\"targetType\": \""@.len() - pre.len();
    assert(text.subrange(pos2, pos2 + n2.len()) =~= n2);
    lemma_contains_at(text, n2, pos2);
    let pre3 = "all live instances of `"@;
    let n3 = pre3 + a + "`"@;
    let pos3 = pos2 + n2.len()
        - "\", \"maxDepth\": 5, \"maxNodes\": 200}"@.len()
        + "\", \"maxDepth\": 5, \"maxNodes\": 200}\n```\n\nWalks `gc.get_referrers()` from GC roots to all live instances of `"@.len()
        - pre3.len();
    assert(text.subrange(pos3, pos3 + n3.len()) =~= n3);
    lemma_contains_at(text, n3, pos3);
}

/// `/symbols` shows its module (the first argument, `(all modules)` without
/// one) in its heading and as the scope of the request it describes.
pub proof fn lemma_symbols_shows_module(args: Seq<String>)
    ensures
        ({
            let m = if args.len() > 0 {
                args[0]@
            } else {
                "(all modules)"@
            };
            &&& spec_slash_command_output(slash_commands::SYMBOLS@, args) matches Ok((label, text))
            &&& contains_seq(text, "## Module Symbols: `"@ + m + "`"@)
            &&& contains_seq(text, "with scope `"@ + m + "`"@)
        }),
{
    lemma_name_selects_command(SlashCommand::Symbols);
    reveal_strlit("## Module Symbols: `");
    reveal_strlit("`\n\nFetching symbols via `basilisk.workspaceModules` with scope `");
    reveal_strlit("`.\n\n| Symbol | Kind | Annotated | Line |\n|--------|------|-----------|------|\n| *(loading...)* | | | |\n\n> Symbols are extracted from the resolved AST, not from imports.");
    reveal_strlit("`");
    reveal_strlit("(all modules)");
    reveal_strlit("with scope `");
    let m = if args.len() > 0 {
        args[0]@
    } else {
        "(all modules)"@
    };
    let text = SlashCommand::Symbols.spec_text(first_arg(args));
    assert(text == symbols_text(m));
    let n1 = "## Module Symbols: `"@ + m + "`"@;
    assert(text.subrange(0, n1.len() as int) =~= n1);
    lemma_contains_at(text, n1, 0);
    let pre = "with scope `"@;
    let n2 = pre + m + "`"@;
    let pos2 = "## Module Symbols: `"@.len() + m.len() + "`\n\nFetching symbols via `basilisk.workspaceModules` with scope `"@.len() - pre.len();
    assert(text.subrange(pos2, pos2 + n2.len()) =~= n2);
    lemma_contains_at(text, n2, pos2);
}

/// `/testfile` names its file on the file line: the first argument, or the
/// current file without one.
pub proof fn lemma_testfile_shows_file(args: Seq<String>)
    ensures
        ({
            let f = if args.len() > 0 {
                args[0]@
            } else {
                "(current file)"@
            };
            &&& spec_slash_command_output(slash_commands::TESTFILE@, args) matches Ok((label, text))
            &&& contains_seq(text, "**File:** `"@ + f + "`\n"@)
        }),
{
    lemma_name_selects_command(SlashCommand::TestFile);
    reveal_strlit("## Running File Tests\n\n");
    reveal_strlit("**File:** `");
    reveal_strlit("`\n\nRunning all tests in this file via `basilisk.runTestFile`.\n\nUses `uv run pytest` when a uv project is detected, otherwise bare `pytest` with `VIRTUAL_ENV` set from the workspace venv.");
    reveal_strlit("(current file)");
    reveal_strlit("`\n");
    let f = if args.len() > 0 {
        args[0]@
    } else {
        "(current file)"@
    };
    let text = SlashCommand::TestFile.spec_text(first_arg(args));
    assert(text == testfile_text(f));
    let n = "**File:** `"@ + f + "`\n"@;
    let pos = "## Running File Tests\n\n"@.len() as int;
    assert(text.subrange(pos, pos + n.len()) =~= n);
    lemma_contains_at(text, n, pos);
}

} // verus!
