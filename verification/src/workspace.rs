//! The workspace configuration and initialization options sent to the
//! language server.
use vstd::prelude::*;
use crate::common::config_keys as k;
use crate::json::{
    entries_lookup, items_wf, lemma_array_view, lemma_entries_wf, lemma_object_view, push_entry,
    Json, JsonV,
};

verus! {

/// An object with the given entries.
pub open spec fn obj(entries: Seq<(Seq<char>, JsonV)>) -> JsonV {
    JsonV::Object(entries)
}

/// A number with the given literal text.
pub open spec fn num(text: Seq<char>) -> JsonV {
    JsonV::Number(text)
}

/// The configuration sent when the user has no explicit `basilisk` settings.
pub open spec fn spec_default_workspace_config() -> JsonV {
    obj(
        seq![
            (
                k::INLAY_HINTS@,
                obj(
                    seq![
                        (k::PARAM_NAMES@, JsonV::Bool(true)),
                        (k::VAR_TYPES@, JsonV::Bool(true)),
                    ],
                ),
            ),
            (k::RUFF@, obj(seq![(k::RUFF_ENABLED@, JsonV::Bool(true))])),
            (
                k::UV@,
                obj(
                    seq![
                        (k::UV_ENABLED@, JsonV::Bool(true)),
                        (k::UV_EXECUTABLE_PATH@, JsonV::Str(""@)),
                        (k::UV_AUTO_SYNC@, JsonV::Bool(false)),
                    ],
                ),
            ),
            (
                k::TEST_EXPLORER@,
                obj(
                    seq![
                        (k::TEST_EXPLORER_ENABLED@, JsonV::Bool(true)),
                        (k::TEST_EXPLORER_FRAMEWORK@, JsonV::Str("auto"@)),
                        (k::TEST_EXPLORER_PYTEST_PATH@, JsonV::Str("pytest"@)),
                        (k::TEST_EXPLORER_ARGS@, JsonV::Array(Seq::empty())),
                        (k::TEST_EXPLORER_AUTO_DISCOVER_ON_SAVE@, JsonV::Bool(true)),
                        (k::TEST_EXPLORER_USE_UV_RUN@, JsonV::Bool(true)),
                    ],
                ),
            ),
            (
                k::PROFILER@,
                obj(
                    seq![
                        (k::PROFILER_ENABLED@, JsonV::Bool(true)),
                        (k::PROFILER_SAMPLE_RATE@, num("100"@)),
                        (k::PROFILER_INCLUDE_NATIVE@, JsonV::Bool(false)),
                        (k::PROFILER_LINE_THRESHOLD@, num("0.01"@)),
                        (k::PROFILER_FUNC_THRESHOLD@, num("0.02"@)),
                        (k::PROFILER_MAX_DIAGNOSTICS@, num("20"@)),
                        (k::PROFILER_AUTO_ON_LAUNCH@, JsonV::Bool(false)),
                        (k::PROFILER_DEFAULT_FORMAT@, JsonV::Str("speedscope"@)),
                    ],
                ),
            ),
            (
                k::MEMORY@,
                obj(
                    seq![
                        (k::MEMORY_TRACEBACK_DEPTH@, num("25"@)),
                        (k::MEMORY_AUTO_SNAPSHOT_INTERVAL@, num("0"@)),
                        (k::MEMORY_MAX_DIAGNOSTICS@, num("10"@)),
                    ],
                ),
            ),
        ],
    )
}

/// `config` placed under the `basilisk` root key.
pub open spec fn spec_wrap_config(config: JsonV) -> JsonV {
    obj(seq![(k::ROOT@, config)])
}

/// The workspace configuration for the server: the user's settings, or the
/// defaults when there are none, under the `basilisk` root key.
pub open spec fn spec_workspace_configuration(user_settings: Option<JsonV>) -> JsonV {
    spec_wrap_config(
        match user_settings {
            Some(s) => s,
            None => spec_default_workspace_config(),
        },
    )
}

/// The initialization options: the workspace root.
pub open spec fn spec_initialization_options(workspace_root: Seq<char>) -> JsonV {
    obj(seq![("workspaceRoot"@, JsonV::Str(workspace_root))])
}

/// An object built from entries in order.
fn object_of(entries: Vec<(String, Json)>) -> (r: Json)
    ensures
        r@ == JsonV::Object(entries@.map_values(|e: (String, Json)| crate::json::entry_view(e))),
{
    proof {
        lemma_object_view(entries);
    }
    Json::Object(entries)
}

/// A number with the given literal text.
fn number(text: &str) -> (r: Json)
    ensures
        r@ == JsonV::Number(text@),
{
    Json::Number(String::from_str(text))
}

/// Build the default workspace configuration sent when the user has no
/// explicit `basilisk` settings in Zed.
pub fn default_workspace_config() -> (r: Json)
    ensures
        r@ == spec_default_workspace_config(),
{
    let mut inlay: Vec<(String, Json)> = Vec::new();
    push_entry(&mut inlay, k::PARAM_NAMES, Json::Bool(true));
    push_entry(&mut inlay, k::VAR_TYPES, Json::Bool(true));
    let inlay = object_of(inlay);
    let ghost inlay_v = spec_default_workspace_config()->Object_0[0].1;
    assert(inlay@->Object_0 =~= inlay_v->Object_0);

    let mut ruff: Vec<(String, Json)> = Vec::new();
    push_entry(&mut ruff, k::RUFF_ENABLED, Json::Bool(true));
    let ruff = object_of(ruff);
    let ghost ruff_v = spec_default_workspace_config()->Object_0[1].1;
    assert(ruff@->Object_0 =~= ruff_v->Object_0);

    let mut uv: Vec<(String, Json)> = Vec::new();
    push_entry(&mut uv, k::UV_ENABLED, Json::Bool(true));
    push_entry(&mut uv, k::UV_EXECUTABLE_PATH, Json::from_str(""));
    push_entry(&mut uv, k::UV_AUTO_SYNC, Json::Bool(false));
    let uv = object_of(uv);
    let ghost uv_v = spec_default_workspace_config()->Object_0[2].1;
    assert(uv@->Object_0 =~= uv_v->Object_0);

    let no_args: Vec<Json> = Vec::new();
    proof {
        lemma_array_view(no_args);
    }
    let no_args = Json::Array(no_args);
    assert(no_args@->Array_0 =~= Seq::<JsonV>::empty());
    let mut tests: Vec<(String, Json)> = Vec::new();
    push_entry(&mut tests, k::TEST_EXPLORER_ENABLED, Json::Bool(true));
    push_entry(&mut tests, k::TEST_EXPLORER_FRAMEWORK, Json::from_str("auto"));
    push_entry(&mut tests, k::TEST_EXPLORER_PYTEST_PATH, Json::from_str("pytest"));
    push_entry(&mut tests, k::TEST_EXPLORER_ARGS, no_args);
    push_entry(&mut tests, k::TEST_EXPLORER_AUTO_DISCOVER_ON_SAVE, Json::Bool(true));
    push_entry(&mut tests, k::TEST_EXPLORER_USE_UV_RUN, Json::Bool(true));
    let tests = object_of(tests);
    let ghost tests_v = spec_default_workspace_config()->Object_0[3].1;
    assert(tests@->Object_0 =~= tests_v->Object_0);

    let mut profiler: Vec<(String, Json)> = Vec::new();
    push_entry(&mut profiler, k::PROFILER_ENABLED, Json::Bool(true));
    push_entry(&mut profiler, k::PROFILER_SAMPLE_RATE, number("100"));
    push_entry(&mut profiler, k::PROFILER_INCLUDE_NATIVE, Json::Bool(false));
    push_entry(&mut profiler, k::PROFILER_LINE_THRESHOLD, number("0.01"));
    push_entry(&mut profiler, k::PROFILER_FUNC_THRESHOLD, number("0.02"));
    push_entry(&mut profiler, k::PROFILER_MAX_DIAGNOSTICS, number("20"));
    push_entry(&mut profiler, k::PROFILER_AUTO_ON_LAUNCH, Json::Bool(false));
    push_entry(&mut profiler, k::PROFILER_DEFAULT_FORMAT, Json::from_str("speedscope"));
    let profiler = object_of(profiler);
    let ghost profiler_v = spec_default_workspace_config()->Object_0[4].1;
    assert(profiler@->Object_0 =~= profiler_v->Object_0);

    let mut memory: Vec<(String, Json)> = Vec::new();
    push_entry(&mut memory, k::MEMORY_TRACEBACK_DEPTH, number("25"));
    push_entry(&mut memory, k::MEMORY_AUTO_SNAPSHOT_INTERVAL, number("0"));
    push_entry(&mut memory, k::MEMORY_MAX_DIAGNOSTICS, number("10"));
    let memory = object_of(memory);
    let ghost memory_v = spec_default_workspace_config()->Object_0[5].1;
    assert(memory@->Object_0 =~= memory_v->Object_0);

    let mut root: Vec<(String, Json)> = Vec::new();
    push_entry(&mut root, k::INLAY_HINTS, inlay);
    push_entry(&mut root, k::RUFF, ruff);
    push_entry(&mut root, k::UV, uv);
    push_entry(&mut root, k::TEST_EXPLORER, tests);
    push_entry(&mut root, k::PROFILER, profiler);
    push_entry(&mut root, k::MEMORY, memory);
    let r = object_of(root);
    assert(r@->Object_0 =~= spec_default_workspace_config()->Object_0);
    r
}

/// Wrap a configuration value under the `basilisk` root key.
pub fn wrap_config(config: &Json) -> (r: Json)
    ensures
        r@ == spec_wrap_config(config@),
{
    let mut root: Vec<(String, Json)> = Vec::new();
    push_entry(&mut root, k::ROOT, config.deep_clone());
    let r = object_of(root);
    assert(r@->Object_0 =~= spec_wrap_config(config@)->Object_0);
    r
}

/// The workspace configuration sent to the server: the user's `basilisk`
/// settings when Zed has them, the defaults otherwise, wrapped under the root key.
pub fn workspace_configuration(user_settings: Option<&Json>) -> (r: Json)
    ensures
        r@ == spec_workspace_configuration(
            match user_settings {
                Some(s) => Some(s@),
                None => None,
            },
        ),
{
    match user_settings {
        Some(s) => wrap_config(s),
        None => wrap_config(&default_workspace_config()),
    }
}

/// The initialization options sent to the server: the workspace root.
pub fn initialization_options(workspace_root: &str) -> (r: Json)
    ensures
        r@ == spec_initialization_options(workspace_root@),
{
    let mut root: Vec<(String, Json)> = Vec::new();
    push_entry(&mut root, "workspaceRoot", Json::from_str(workspace_root));
    let r = object_of(root);
    assert(r@->Object_0 =~= spec_initialization_options(workspace_root@)->Object_0);
    r
}

/// Reading the root key back out of a wrapped configuration gives the
/// configuration itself, and wrapping keeps a well-formed value well-formed.
pub proof fn lemma_wrap_config_reads_back(config: JsonV)
    ensures
        spec_wrap_config(config).get(k::ROOT@) == Some(config),
        config.wf() ==> spec_wrap_config(config).wf(),
{
    let es = spec_wrap_config(config)->Object_0;
    assert(entries_lookup(es, k::ROOT@) == Some(config));
    lemma_entries_wf(es);
}

/// The server reads the user's settings when Zed has them, and the defaults
/// otherwise, under the root key.
pub proof fn lemma_workspace_configuration_source(user_settings: Option<JsonV>)
    ensures
        spec_workspace_configuration(user_settings).get(k::ROOT@) == Some(
            match user_settings {
                Some(s) => s,
                None => spec_default_workspace_config(),
            },
        ),
{
    lemma_wrap_config_reads_back(
        match user_settings {
            Some(s) => s,
            None => spec_default_workspace_config(),
        },
    );
}

/// The characters of every configuration key, which tell the keys of one
/// section apart.
proof fn lemma_config_key_chars()
    ensures
        k::ROOT@ == "basilisk"@,
        k::INLAY_HINTS@.len() == 10,
        k::RUFF@.len() == 4,
        k::UV@.len() == 2,
        k::TEST_EXPLORER@.len() == 12,
        k::PROFILER@.len() == 8,
        k::MEMORY@.len() == 6,
        k::PARAM_NAMES@.len() == 14,
        k::VAR_TYPES@.len() == 13,
        k::UV_ENABLED@.len() == 7,
        k::UV_EXECUTABLE_PATH@.len() == 14,
        k::UV_AUTO_SYNC@.len() == 8,
        k::TEST_EXPLORER_ENABLED@.len() == 7,
        k::TEST_EXPLORER_FRAMEWORK@.len() == 9,
        k::TEST_EXPLORER_PYTEST_PATH@.len() == 10,
        k::TEST_EXPLORER_ARGS@.len() == 4,
        k::TEST_EXPLORER_AUTO_DISCOVER_ON_SAVE@.len() == 18,
        k::TEST_EXPLORER_USE_UV_RUN@.len() == 8,
        k::PROFILER_ENABLED@.len() == 7,
        k::PROFILER_SAMPLE_RATE@.len() == 10,
        k::PROFILER_INCLUDE_NATIVE@.len() == 13,
        k::PROFILER_INCLUDE_NATIVE@[0] == 'i',
        k::PROFILER_LINE_THRESHOLD@.len() == 13,
        k::PROFILER_LINE_THRESHOLD@[0] == 'l',
        k::PROFILER_FUNC_THRESHOLD@.len() == 13,
        k::PROFILER_FUNC_THRESHOLD@[0] == 'f',
        k::PROFILER_MAX_DIAGNOSTICS@.len() == 14,
        k::PROFILER_AUTO_ON_LAUNCH@.len() == 12,
        k::PROFILER_DEFAULT_FORMAT@.len() == 13,
        k::PROFILER_DEFAULT_FORMAT@[0] == 'd',
        k::MEMORY_TRACEBACK_DEPTH@.len() == 14,
        k::MEMORY_TRACEBACK_DEPTH@[0] == 't',
        k::MEMORY_AUTO_SNAPSHOT_INTERVAL@.len() == 20,
        k::MEMORY_MAX_DIAGNOSTICS@.len() == 14,
        k::MEMORY_MAX_DIAGNOSTICS@[0] == 'm',
{
    reveal_strlit("basilisk");
    reveal_strlit("inlayHints");
    reveal_strlit("ruff");
    reveal_strlit("uv");
    reveal_strlit("testExplorer");
    reveal_strlit("profiler");
    reveal_strlit("memory");
    reveal_strlit("parameterNames");
    reveal_strlit("variableTypes");
    reveal_strlit("enabled");
    reveal_strlit("executablePath");
    reveal_strlit("autoSync");
    reveal_strlit("framework");
    reveal_strlit("pytestPath");
    reveal_strlit("args");
    reveal_strlit("autoDiscoverOnSave");
    reveal_strlit("useUvRun");
    reveal_strlit("sampleRate");
    reveal_strlit("includeNative");
    reveal_strlit("lineThreshold");
    reveal_strlit("funcThreshold");
    reveal_strlit("maxDiagnostics");
    reveal_strlit("autoOnLaunch");
    reveal_strlit("defaultFormat");
    reveal_strlit("tracebackDepth");
    reveal_strlit("autoSnapshotInterval");
}

/// A section of the defaults: its keys are distinct and its values are scalars
/// or empty arrays, so it is well-formed.
proof fn lemma_section_wf(section: JsonV)
    requires
        section is Object,
        crate::json::keys_distinct(section->Object_0),
        forall|i: int|
            0 <= i < section->Object_0.len() ==> match #[trigger] section->Object_0[i].1 {
                JsonV::Array(items) => items.len() == 0,
                JsonV::Object(_) => false,
                _ => true,
            },
    ensures
        section.wf(),
{
    let es = section->Object_0;
    assert forall|i: int| 0 <= i < es.len() implies #[trigger] es[i].1.wf() by {
        if let JsonV::Array(items) = es[i].1 {
            assert(items_wf(items));
        }
    }
    lemma_entries_wf(es);
}

/// The default configuration is well-formed: no section holds a key twice.
pub proof fn lemma_default_config_wf()
    ensures
        spec_default_workspace_config().wf(),
{
    lemma_config_key_chars();
    let es = spec_default_workspace_config()->Object_0;
    assert forall|i: int| 0 <= i < es.len() implies #[trigger] es[i].1.wf() by {
        lemma_section_wf(es[i].1);
    }
    lemma_entries_wf(es);
}

} // verus!
