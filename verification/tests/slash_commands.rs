use basilisk_zed::common::profiler_presets;
use basilisk_zed::common::{commands, memory_diagnostics, notifications, profiler_formats, slash_commands};
use basilisk_zed::{slash_command_output, slash_completions};

/// Run `slash_command_output(cmd, args)`, assert it succeeds with `label`, and
/// return the text.
fn run_slash(cmd: &str, args: &[String], expected_label: &str) -> String {
    let (label, text) = slash_command_output(cmd, args).expect("should succeed");
    assert_eq!(label, expected_label);
    text
}

/// Run a slash command and return only the body text.
fn slash_text(cmd: &str, args: &[String]) -> String {
    slash_command_output(cmd, args).expect("should succeed").1
}

/// Every slash command, in palette order.
const ALL_SLASH_COMMANDS: [&str; 13] = [
    slash_commands::PROFILE,
    slash_commands::PROFSTOP,
    slash_commands::PROFSNAPSHOT,
    slash_commands::MEMLEAK,
    slash_commands::MEMSTOP,
    slash_commands::MEMREFS,
    slash_commands::MODULES,
    slash_commands::SYMBOLS,
    slash_commands::HEALTH,
    slash_commands::BASILISK,
    slash_commands::TESTS,
    slash_commands::RUNTESTS,
    slash_commands::TESTFILE,
];

#[test]
fn profile_without_pid() {
    let text = run_slash("profile", &[], "CPU Profiling");
    assert!(text.contains("active Python process"));
    assert!(text.contains("py-spy"));
    assert!(text.contains("basilisk.profiler.start"));
}

#[test]
fn profile_with_pid() {
    let text = run_slash("profile", &["1234".to_string()], "CPU Profiling");
    assert!(text.contains("PID `1234`"));
    assert!(text.contains("Speedscope"));
}

#[test]
fn profstop_output() {
    let text = run_slash("profstop", &[], "Stop Profiling");
    assert!(text.contains("basilisk.profiler.stop"));
    assert!(text.contains("flamegraph"));
}

#[test]
fn profsnapshot_output() {
    let text = run_slash("profsnapshot", &[], "Profile Snapshot");
    assert!(text.contains("basilisk.profiler.snapshot"));
    assert!(text.contains("continues"));
}

#[test]
fn memleak_output() {
    let text = run_slash("memleak", &[], "Memory Tracking");
    assert!(text.contains("tracemalloc"));
    assert!(text.contains("basilisk.memory.start"));
}

#[test]
fn memstop_output() {
    let text = run_slash("memstop", &[], "Memory Report");
    assert!(text.contains("Stops"));
    assert!(text.contains("/memrefs"));
}

#[test]
fn memrefs_with_type() {
    let text = run_slash("memrefs", &["DataFrame".to_string()], "Reference Graph");
    assert!(text.contains("DataFrame"));
    assert!(text.contains("gc.get_referrers"));
}

#[test]
fn memrefs_without_type() {
    let text = slash_text("memrefs", &[]);
    assert!(text.contains("(unknown)"));
}

#[test]
fn unknown_command_errors() {
    let result = slash_command_output("nonexistent", &[]);
    assert!(result.is_err());
    let err = result.expect_err("should be error");
    assert!(err.contains("nonexistent"));
}

#[test]
fn all_slash_commands_produce_output() {
    for cmd in ALL_SLASH_COMMANDS {
        let (label, text) = slash_command_output(cmd, &[]).expect(cmd);
        assert!(!label.is_empty(), "empty label for {cmd}");
        assert!(!text.is_empty(), "empty text for {cmd}");
    }
}

#[test]
fn slash_output_is_markdown() {
    for cmd in ALL_SLASH_COMMANDS {
        let (_, text) = slash_command_output(cmd, &[]).expect(cmd);
        assert!(
            text.contains("##"),
            "slash command {cmd} should produce markdown with headers"
        );
    }
}

#[test]
fn profile_completions() {
    let completions = slash_completions("profile");
    assert_eq!(completions.len(), 1);
    assert_eq!(completions[0].0, "<pid>");
    assert!(!completions[0].2, "run_command should be false");
}

#[test]
fn memrefs_completions() {
    let completions = slash_completions("memrefs");
    assert_eq!(completions.len(), 6);
    let labels: Vec<&str> = completions.iter().map(|(l, _, _)| l.as_str()).collect();
    assert!(labels.contains(&"DataFrame"));
    assert!(labels.contains(&"dict"));
    assert!(labels.contains(&"Tensor"));
    for (_, _, run) in &completions {
        assert!(run, "memrefs completions should have run_command = true");
    }
}

#[test]
fn unknown_command_has_no_completions() {
    assert!(slash_completions("unknown").is_empty());
}

#[test]
fn profile_output_documents_all_four_commands() {
    let text = slash_text("profile", &[]);
    assert!(text.contains("basilisk.profiler.start"), "must document start command");
    assert!(text.contains("basilisk.profiler.stop"), "must document stop command");
    assert!(text.contains("basilisk.profiler.snapshot"), "must document snapshot command");
    assert!(text.contains("basilisk.profiler.list"), "must document list command");
}

#[test]
fn profile_output_documents_output_formats() {
    let text = slash_text("profile", &[]);
    assert!(text.contains("Speedscope"), "must mention speedscope format");
    assert!(
        text.contains("Flamegraph") || text.contains("flamegraph"),
        "must mention flamegraph"
    );
    assert!(
        text.contains("BSK-PROF") || text.contains("diagnostics"),
        "must mention diagnostics output"
    );
}

#[test]
fn profstop_output_documents_output_format_options() {
    let text = slash_text("profstop", &[]);
    assert!(text.contains("speedscope"), "must mention speedscope format option");
    assert!(text.contains("flamegraph"), "must mention flamegraph format option");
    assert!(text.contains("summary"), "must mention summary format option");
}

#[test]
fn profstop_output_documents_diagnostic_delivery() {
    let text = slash_text("profstop", &[]);
    assert!(
        text.contains("publishDiagnostics") || text.contains("diagnostics") || text.contains("hints"),
        "must explain how diagnostics are delivered"
    );
    assert!(
        text.contains("threshold") || text.contains("1%") || text.contains("2%"),
        "should mention threshold behavior"
    );
}

#[test]
fn memleak_output_documents_tracemalloc_and_commands() {
    let text = slash_text("memleak", &[]);
    assert!(text.contains("tracemalloc"), "must mention tracemalloc engine");
    assert!(text.contains("basilisk.memory.start"), "must document start command");
    assert!(
        text.contains("debug session") || text.contains("debugpy"),
        "must mention debug session requirement"
    );
}

#[test]
fn memleak_output_documents_diagnostic_codes() {
    let text = slash_text("memleak", &[]);
    assert!(
        text.contains("BSK-MEM") || text.contains("memory diagnostics"),
        "must mention memory diagnostic codes or diagnostics"
    );
}

#[test]
fn memstop_output_documents_leak_detection() {
    let text = slash_text("memstop", &[]);
    assert!(text.contains("leak") || text.contains("Leak"), "must mention leak detection");
    assert!(
        text.contains("confidence") || text.contains("snapshot"),
        "should mention confidence scoring or snapshots"
    );
}

#[test]
fn memrefs_output_documents_reference_graph() {
    let args = vec!["DataFrame".to_string()];
    let text = slash_text("memrefs", &args);
    assert!(text.contains("DataFrame"), "must include the target type");
    assert!(
        text.contains("gc.get_referrers") || text.contains("reference") || text.contains("retention"),
        "must explain reference graph walking"
    );
    assert!(
        text.contains("Cycle")
            || text.contains("cycle")
            || text.contains("Retention")
            || text.contains("retention"),
        "should explain what the graph reveals"
    );
}

#[test]
fn profile_with_pid_includes_pid_in_output() {
    for pid in ["1234", "99999", "1"] {
        let args = vec![pid.to_string()];
        let text = slash_text("profile", &args);
        assert!(text.contains(pid), "output must include PID {pid} when provided");
    }
}

#[test]
fn all_profiler_commands_have_markdown_tables_or_lists() {
    let profiler_cmds = [slash_commands::PROFILE, slash_commands::PROFSTOP, slash_commands::MEMLEAK];
    for cmd in profiler_cmds {
        let (_, text) = slash_command_output(cmd, &[]).expect(cmd);
        let has_table = text.contains('|');
        let has_list = text.contains("- ") || text.contains("1.");
        assert!(
            has_table || has_list,
            "slash command {cmd} should have structured content (table or list)"
        );
    }
}

#[test]
fn profiler_slash_commands_dont_contain_raw_code_paths() {
    let cmds = [
        slash_commands::PROFILE,
        slash_commands::PROFSTOP,
        slash_commands::PROFSNAPSHOT,
        slash_commands::MEMLEAK,
        slash_commands::MEMSTOP,
        slash_commands::MEMREFS,
    ];
    for cmd in cmds {
        let (_, text) = slash_command_output(cmd, &[]).expect(cmd);
        assert!(!text.contains("crates/"), "slash command {cmd} should not expose internal code paths");
        assert!(!text.contains(".rs"), "slash command {cmd} should not reference Rust source files");
    }
}

#[test]
fn tests_discovery_workspace() {
    let text = run_slash("tests", &[], "Test Discovery");
    assert!(text.contains("workspace"));
    assert!(text.contains("pytest"));
    assert!(text.contains("unittest"));
    assert!(text.contains("def test_*"));
}

#[test]
fn tests_discovery_file() {
    let text = run_slash("tests", &["test_api.py".to_string()], "Test Discovery");
    assert!(text.contains("test_api.py"));
}

#[test]
fn runtests_all() {
    let text = run_slash("runtests", &[], "Running Tests");
    assert!(text.contains("all tests"));
    assert!(text.contains("pytest"));
    assert!(text.contains("uv run pytest"));
}

#[test]
fn runtests_specific() {
    let text = run_slash("runtests", &["tests/test_api.py::test_login".to_string()], "Running Tests");
    assert!(text.contains("test_login"));
}

#[test]
fn testfile_default() {
    let text = run_slash("testfile", &[], "File Tests");
    assert!(text.contains("current file"));
    assert!(text.contains("uv run pytest"));
}

#[test]
fn testfile_specific() {
    let text = run_slash("testfile", &["test_models.py".to_string()], "File Tests");
    assert!(text.contains("test_models.py"));
}

#[test]
fn runtests_completions() {
    let completions = slash_completions("runtests");
    assert_eq!(completions.len(), 1);
    assert_eq!(completions[0].0, "<test_id>");
    assert!(!completions[0].2, "run_command should be false");
}

#[test]
fn testfile_completions() {
    let completions = slash_completions("testfile");
    assert_eq!(completions.len(), 1);
    assert_eq!(completions[0].0, "<file.py>");
}

#[test]
fn tests_no_completions() {
    let completions = slash_completions("tests");
    assert!(completions.is_empty());
}

#[test]
fn modules_workspace_scope() {
    let text = run_slash(slash_commands::MODULES, &[], "Workspace Modules");
    assert!(text.contains("entire workspace"));
    assert!(text.contains("basilisk.workspaceModules"));
}

#[test]
fn modules_prefix_scope() {
    let text = run_slash(slash_commands::MODULES, &["myapp.api".to_string()], "Workspace Modules");
    assert!(text.contains("prefix `myapp.api`"));
}

#[test]
fn symbols_output() {
    let text = run_slash(slash_commands::SYMBOLS, &["myapp.models".to_string()], "Module Symbols");
    assert!(text.contains("myapp.models"));
    assert!(text.contains("basilisk.workspaceModules"));
}

#[test]
fn symbols_default() {
    let text = run_slash(slash_commands::SYMBOLS, &[], "Module Symbols");
    assert!(text.contains("all modules"));
}

#[test]
fn health_output() {
    let text = run_slash(slash_commands::HEALTH, &[], "Type Health");
    assert!(text.contains("basilisk.typeHealth"));
    assert!(text.contains("Coverage"));
    assert!(text.contains("Module"));
}

#[test]
fn basilisk_info_output() {
    let text = run_slash(slash_commands::BASILISK, &[], "Basilisk Info");
    assert!(text.contains("strict-by-default"));
    assert!(text.contains("/modules"));
    assert!(text.contains("/health"));
    assert!(text.contains("basilisk-python.dev"));
}

#[test]
fn modules_completions() {
    let completions = slash_completions(slash_commands::MODULES);
    assert_eq!(completions.len(), 1);
    assert_eq!(completions[0].0, "<module_prefix>");
}

#[test]
fn symbols_completions() {
    let completions = slash_completions(slash_commands::SYMBOLS);
    assert_eq!(completions.len(), 1);
    assert_eq!(completions[0].0, "<module_name>");
}

#[test]
fn health_no_completions() {
    let completions = slash_completions(slash_commands::HEALTH);
    assert!(completions.is_empty());
}

#[test]
fn basilisk_no_completions() {
    let completions = slash_completions(slash_commands::BASILISK);
    assert!(completions.is_empty());
}

#[test]
fn profstop_output_uses_canonical_format_names() {
    let text = slash_text("profstop", &[]);
    assert!(text.contains(profiler_formats::SPEEDSCOPE), "must use canonical speedscope format name");
    assert!(text.contains(profiler_formats::FLAMEGRAPH), "must use canonical flamegraph format name");
    assert!(text.contains(profiler_formats::SUMMARY), "must use canonical summary format name");
}

#[test]
fn profile_output_documents_presets() {
    let text = slash_text("profile", &[]);
    for preset in profiler_presets::ALL {
        assert!(text.contains(preset), "must document the {preset} preset");
    }
    assert!(
        !text.contains("lightweight") && !text.contains("`memory`"),
        "must not document presets the server does not parse"
    );
}

#[test]
fn memleak_output_uses_canonical_command_names() {
    let text = slash_text("memleak", &[]);
    assert!(text.contains(commands::MEMORY_START), "must use canonical memory start command");
    assert!(text.contains(commands::MEMORY_SNAPSHOT), "must use canonical memory snapshot command");
    assert!(text.contains(commands::MEMORY_DIFF), "must use canonical memory diff command");
    assert!(
        text.contains(commands::MEMORY_REFERENCES),
        "must use canonical memory references command"
    );
    assert!(text.contains(commands::MEMORY_GC_COLLECT), "must use canonical gc collect command");
}

#[test]
fn memleak_output_uses_canonical_diagnostic_codes() {
    let text = slash_text("memleak", &[]);
    assert!(text.contains(memory_diagnostics::ALLOC), "must use canonical BSK-MEM-ALLOC code");
    assert!(text.contains(memory_diagnostics::GROWTH), "must use canonical BSK-MEM-GROWTH code");
    assert!(text.contains(memory_diagnostics::LEAK), "must use canonical BSK-MEM-LEAK code");
    assert!(text.contains(memory_diagnostics::CYCLE), "must use canonical BSK-MEM-CYCLE code");
}

#[test]
fn profile_output_uses_canonical_notification_name() {
    let text = slash_text("profile", &[]);
    assert!(
        text.contains(notifications::PROFILER_PROGRESS),
        "must reference canonical profiler progress notification"
    );
}

#[test]
fn memleak_output_uses_canonical_timeline_notification() {
    let text = slash_text("memleak", &[]);
    assert!(
        text.contains(notifications::MEMORY_TIMELINE),
        "must reference canonical memory timeline notification"
    );
}

#[test]
fn memrefs_output_uses_canonical_command_and_diagnostic() {
    let args = vec!["MyModel".to_string()];
    let text = slash_text("memrefs", &args);
    assert!(
        text.contains(commands::MEMORY_REFERENCES),
        "must use canonical memory references command"
    );
    assert!(
        text.contains(memory_diagnostics::CYCLE),
        "must use canonical BSK-MEM-CYCLE diagnostic code"
    );
}

// ── Further cases ────────────────────────────────────────────────────

#[test]
fn unknown_command_error_message_is_exact() {
    let err = slash_command_output("nonexistent", &[]).expect_err("unknown command");
    assert_eq!(err, "Unknown slash command: nonexistent");
}

#[test]
fn command_names_are_case_sensitive() {
    assert!(slash_command_output("Profile", &[]).is_err());
    assert!(slash_completions("PROFILE").is_empty());
}

#[test]
fn every_command_body_starts_with_a_heading() {
    for cmd in ALL_SLASH_COMMANDS {
        let text = slash_text(cmd, &["argument".to_string()]);
        assert!(text.starts_with("## "), "{cmd} must open with a level-two heading");
    }
}

#[test]
fn only_the_first_argument_is_used() {
    let one = slash_text("profile", &["42".to_string()]);
    let two = slash_text("profile", &["42".to_string(), "77".to_string()]);
    assert_eq!(one, two);
    assert!(!two.contains("77"));
}

#[test]
fn commands_with_an_argument_show_it() {
    for cmd in [
        slash_commands::PROFILE,
        slash_commands::MEMREFS,
        slash_commands::MODULES,
        slash_commands::SYMBOLS,
        slash_commands::TESTS,
        slash_commands::RUNTESTS,
        slash_commands::TESTFILE,
    ] {
        let text = slash_text(cmd, &["zz_marker_zz".to_string()]);
        assert!(text.contains("zz_marker_zz"), "{cmd} must show its argument");
    }
}

#[test]
fn memrefs_completion_texts_equal_labels() {
    let completions = slash_completions("memrefs");
    let expected = ["DataFrame", "dict", "list", "set", "ndarray", "Tensor"];
    for (i, (label, new_text, run)) in completions.iter().enumerate() {
        assert_eq!(label, expected[i]);
        assert_eq!(new_text, expected[i]);
        assert!(*run);
    }
}

#[test]
fn placeholder_completions_insert_nothing() {
    for cmd in ["profile", "modules", "symbols", "runtests", "testfile"] {
        let completions = slash_completions(cmd);
        assert_eq!(completions.len(), 1);
        assert_eq!(completions[0].1, "");
        assert!(!completions[0].2);
    }
}

#[test]
fn commands_without_completions() {
    for cmd in ["profstop", "profsnapshot", "memleak", "memstop", "health", "basilisk", "tests"] {
        assert!(slash_completions(cmd).is_empty(), "{cmd} offers no completions");
    }
}
