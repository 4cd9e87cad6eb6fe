//! Debug Adapter Protocol configuration for the `basilisk-debug` adapter:
//! normalising launch/attach configurations, telling the request kinds apart,
//! and building scenarios from the editor's high-level debug requests.
use vstd::prelude::*;
use crate::json::{
    json_text, lemma_array_view, lemma_entries_depth, lemma_get_depth, lemma_get_wf,
    lemma_items_depth, lemma_object_view, parse_json, push_entry, spec_json_text, spec_parse_json,
    Json, JsonV,
};
use crate::text::{decimal, lemma_decimal_reads_back, u32_to_decimal};
use crate::version::{all_digits, digits_value};

verus! {

/// The array of the given strings.
pub open spec fn strings_array(items: Seq<Seq<char>>) -> JsonV {
    JsonV::Array(items.map_values(|s: Seq<char>| JsonV::Str(s)))
}

/// The complete configuration handed to the debug adapter: every key present,
/// missing or mistyped ones replaced by their defaults, `args` passed through.
pub open spec fn spec_build_dap_config(c: JsonV) -> JsonV {
    JsonV::Object(
        seq![
            ("program"@, JsonV::Str(c.str_or("program"@, ""@))),
            (
                "args"@,
                match c.get("args"@) {
                    Some(v) => v,
                    None => JsonV::Array(Seq::empty()),
                },
            ),
            ("cwd"@, JsonV::Str(c.str_or("cwd"@, ""@))),
            ("python"@, JsonV::Str(c.str_or("python"@, "python3"@))),
            ("justMyCode"@, JsonV::Bool(c.bool_or("justMyCode"@, true))),
            ("stopOnEntry"@, JsonV::Bool(c.bool_or("stopOnEntry"@, false))),
            ("console"@, JsonV::Str(c.str_or("console"@, "integratedTerminal"@))),
        ],
    )
}

/// Whether a configuration asks to attach (`Ok(true)`) or launch
/// (`Ok(false)`): a `processId` key means attach, whatever else it holds;
/// otherwise the `request` string decides, and an absent or non-string
/// `request` means launch. Any other request string is an error.
pub open spec fn spec_is_attach_request(c: JsonV) -> Result<bool, Seq<char>> {
    if c.get("processId"@) is Some {
        Ok(true)
    } else {
        match c.get("request"@) {
            Some(JsonV::Str(kind)) => if kind == "attach"@ {
                Ok(true)
            } else if kind == "launch"@ {
                Ok(false)
            } else {
                Err("Unknown request kind: "@ + kind)
            },
            _ => Ok(false),
        }
    }
}

/// A launch-mode scenario configuration.
pub open spec fn spec_build_launch_scenario(
    program: Seq<char>,
    args: Seq<Seq<char>>,
    cwd: Option<Seq<char>>,
    stop_on_entry: bool,
) -> JsonV {
    JsonV::Object(
        seq![
            ("program"@, JsonV::Str(program)),
            ("args"@, strings_array(args)),
            (
                "cwd"@,
                match cwd {
                    Some(d) => JsonV::Str(d),
                    None => JsonV::Null,
                },
            ),
            ("stopOnEntry"@, JsonV::Bool(stop_on_entry)),
            ("justMyCode"@, JsonV::Bool(true)),
            ("console"@, JsonV::Str("integratedTerminal"@)),
        ],
    )
}

/// An attach-mode scenario configuration.
pub open spec fn spec_build_attach_scenario(process_id: Option<u32>) -> JsonV {
    JsonV::Object(
        seq![
            (
                "processId"@,
                match process_id {
                    Some(pid) => JsonV::Number(decimal(pid as nat)),
                    None => JsonV::Null,
                },
            ),
            ("request"@, JsonV::Str("attach"@)),
        ],
    )
}

/// Build the DAP configuration from an adapter configuration, normalising
/// missing keys to defaults so the debug adapter always receives a complete
/// configuration.
pub fn build_dap_config(adapter_config: &Json) -> (r: Json)
    ensures
        r@ == spec_build_dap_config(adapter_config@),
{
    let mut entries: Vec<(String, Json)> = Vec::new();
    push_entry(&mut entries, "program", Json::Str(adapter_config.str_or("program", "")));
    let args = match adapter_config.get("args") {
        Some(v) => v.deep_clone(),
        None => {
            let empty = Json::Array(Vec::new());
            assert(empty@->Array_0 =~= Seq::<JsonV>::empty());
            empty
        },
    };
    push_entry(&mut entries, "args", args);
    push_entry(&mut entries, "cwd", Json::Str(adapter_config.str_or("cwd", "")));
    push_entry(&mut entries, "python", Json::Str(adapter_config.str_or("python", "python3")));
    push_entry(
        &mut entries,
        "justMyCode",
        Json::Bool(adapter_config.bool_or("justMyCode", true)),
    );
    push_entry(
        &mut entries,
        "stopOnEntry",
        Json::Bool(adapter_config.bool_or("stopOnEntry", false)),
    );
    push_entry(
        &mut entries,
        "console",
        Json::Str(adapter_config.str_or("console", "integratedTerminal")),
    );
    proof {
        lemma_object_view(entries);
    }
    let r = Json::Object(entries);
    assert(r@->Object_0 =~= spec_build_dap_config(adapter_config@)->Object_0);
    r
}

/// Determine whether a DAP configuration represents an attach request:
/// `true` when `processId` is present or `request` is `"attach"`, `false`
/// for launch (including when `request` is absent), `Err` for any other
/// request kind.
pub fn is_attach_request(config: &Json) -> (r: Result<bool, String>)
    ensures
        match r {
            Ok(b) => spec_is_attach_request(config@) == Ok::<bool, Seq<char>>(b),
            Err(e) => spec_is_attach_request(config@) == Err::<bool, Seq<char>>(e@),
        },
{
    if config.get("processId").is_some() {
        return Ok(true);
    }
    match config.get("request") {
        Some(v) => match v.as_str() {
            Some(kind) => {
                if crate::text::str_equal(kind, "attach") {
                    Ok(true)
                } else if crate::text::str_equal(kind, "launch") {
                    Ok(false)
                } else {
                    let mut e = String::from_str("Unknown request kind: ");
                    e.append(kind);
                    Err(e)
                }
            },
            None => Ok(false),
        },
        None => Ok(false),
    }
}

/// Build a launch-mode scenario configuration from high-level parameters.
pub fn build_launch_scenario(program: &str, args: &[String], cwd: Option<&str>, stop_on_entry: bool) -> (r: Json)
    ensures
        r@ == spec_build_launch_scenario(
            program@,
            args@.map_values(|a: String| a@),
            match cwd {
                Some(d) => Some(d@),
                None => None,
            },
            stop_on_entry,
        ),
{
    let mut items: Vec<Json> = Vec::new();
    let mut i: usize = 0;
    while i < args.len()
        invariant
            i <= args.len(),
            items.len() == i,
            forall|j: int| 0 <= j < i ==> #[trigger] items@[j]@ == JsonV::Str(args@[j]@),
        decreases args.len() - i,
    {
        items.push(Json::from_str(args[i].as_str()));
        i = i + 1;
    }
    proof {
        lemma_array_view(items);
    }
    let args_json = Json::Array(items);
    assert(args_json@->Array_0 =~= strings_array(args@.map_values(|a: String| a@))->Array_0);
    let cwd_json = match cwd {
        Some(d) => Json::from_str(d),
        None => Json::Null,
    };
    let mut entries: Vec<(String, Json)> = Vec::new();
    push_entry(&mut entries, "program", Json::from_str(program));
    push_entry(&mut entries, "args", args_json);
    push_entry(&mut entries, "cwd", cwd_json);
    push_entry(&mut entries, "stopOnEntry", Json::Bool(stop_on_entry));
    push_entry(&mut entries, "justMyCode", Json::Bool(true));
    push_entry(&mut entries, "console", Json::from_str("integratedTerminal"));
    proof {
        lemma_object_view(entries);
    }
    let r = Json::Object(entries);
    assert(r@->Object_0 =~= spec_build_launch_scenario(
        program@,
        args@.map_values(|a: String| a@),
        match cwd {
            Some(d) => Some(d@),
            None => None,
        },
        stop_on_entry,
    )->Object_0);
    r
}

/// Build an attach-mode scenario configuration.
pub fn build_attach_scenario(process_id: Option<u32>) -> (r: Json)
    ensures
        r@ == spec_build_attach_scenario(process_id),
{
    let pid = match process_id {
        Some(p) => Json::Number(u32_to_decimal(p)),
        None => Json::Null,
    };
    let mut entries: Vec<(String, Json)> = Vec::new();
    push_entry(&mut entries, "processId", pid);
    push_entry(&mut entries, "request", Json::from_str("attach"));
    proof {
        lemma_object_view(entries);
    }
    let r = Json::Object(entries);
    assert(r@->Object_0 =~= spec_build_attach_scenario(process_id)->Object_0);
    r
}

/// The debug adapter the extension registers.
pub const DEBUG_ADAPTER_NAME: &'static str = "basilisk-debug";

/// The subcommand of the Basilisk binary that speaks DAP.
pub const DEBUG_ADAPTER_SUBCOMMAND: &'static str = "debug-adapter";

/// How to start the debug adapter for one configuration.
pub struct DebugAdapterLaunch {
    /// The normalised configuration handed to the adapter.
    pub configuration: Json,
    /// The normalised configuration as the JSON text handed to the adapter.
    pub configuration_text: String,
    /// Whether the session attaches to a running process (else it launches one).
    pub attach: bool,
    /// The working directory, when the configuration names one as a string.
    pub cwd: Option<String>,
}

/// A high-level debug request from the editor's new-session UI.
pub enum DebugRequest {
    Launch { program: String, args: Vec<String>, cwd: Option<String> },
    Attach { process_id: Option<u32> },
}

/// The view of an optional string.
pub open spec fn opt_view(s: Option<String>) -> Option<Seq<char>> {
    match s {
        Some(t) => Some(t@),
        None => None,
    }
}

/// The scenario configuration a debug request turns into.
pub open spec fn spec_debug_scenario_config(request: DebugRequest, stop_on_entry: Option<bool>) -> JsonV {
    match request {
        DebugRequest::Launch { program, args, cwd } => spec_build_launch_scenario(
            program@,
            args@.map_values(|a: String| a@),
            opt_view(cwd),
            match stop_on_entry {
                Some(b) => b,
                None => false,
            },
        ),
        DebugRequest::Attach { process_id } => spec_build_attach_scenario(process_id),
    }
}

/// The normalised configuration of a configuration nests no deeper than the
/// configuration itself, and never less than two levels.
proof fn lemma_dap_config_depth(c: JsonV)
    ensures
        spec_build_dap_config(c).depth() <= if c.depth() >= 2 {
            c.depth()
        } else {
            2
        },
{
    lemma_get_depth(c, "args"@);
    let es = spec_build_dap_config(c)->Object_0;
    let b: nat = if c.depth() >= 2 {
        (c.depth() - 1) as nat
    } else {
        1
    };
    assert forall|i: int| 0 <= i < es.len() implies #[trigger] es[i].1.depth() <= b by {
        if i == 1 {
            if c.get("args"@) is None {
                crate::json::lemma_items_depth(Seq::<JsonV>::empty(), 0);
            }
        }
    }
    lemma_entries_depth(es, b);
}

/// Decide how to start the debug adapter for an adapter configuration: the
/// normalised configuration and its JSON text, the request kind, and the
/// working directory. Fails exactly when the request kind is unknown.
pub fn debug_adapter_launch(adapter_config: &Json) -> (r: Result<DebugAdapterLaunch, String>)
    requires
        adapter_config@.depth() <= 128,
    ensures
        match r {
            Ok(l) => {
                &&& spec_is_attach_request(adapter_config@) == Ok::<bool, Seq<char>>(l.attach)
                &&& l.configuration@ == spec_build_dap_config(adapter_config@)
                &&& l.configuration_text@ == spec_json_text(spec_build_dap_config(adapter_config@))
                &&& opt_view(l.cwd) == match adapter_config@.get("cwd"@) {
                    Some(JsonV::Str(d)) => Some(d),
                    _ => None,
                }
            },
            Err(e) => spec_is_attach_request(adapter_config@) == Err::<bool, Seq<char>>(e@),
        },
{
    let configuration = build_dap_config(adapter_config);
    let attach = match is_attach_request(adapter_config) {
        Ok(b) => b,
        Err(e) => return Err(e),
    };
    let cwd = match adapter_config.get("cwd") {
        Some(v) => match v.as_str() {
            Some(d) => Some(String::from_str(d)),
            None => None,
        },
        None => None,
    };
    proof {
        lemma_dap_config_depth(adapter_config@);
    }
    let configuration_text = json_text(&configuration);
    Ok(DebugAdapterLaunch { configuration, configuration_text, attach, cwd })
}

/// The configuration a debug task's JSON text denotes: the value it parses
/// to, or `null` when it is not JSON.
pub open spec fn spec_config_of_text(text: Seq<char>) -> JsonV {
    match spec_parse_json(text) {
        Some(v) => v,
        None => JsonV::Null,
    }
}

/// Decide how to start the debug adapter for a debug task's configuration
/// text: the text is parsed as JSON (text that is not JSON counts as `null`,
/// which launches with every default), then treated as by
/// [`debug_adapter_launch`].
pub fn debug_adapter_launch_from_text(config_text: &str) -> (r: Result<DebugAdapterLaunch, String>)
    ensures
        ({
            let c = spec_config_of_text(config_text@);
            match r {
                Ok(l) => {
                    &&& spec_is_attach_request(c) == Ok::<bool, Seq<char>>(l.attach)
                    &&& l.configuration@ == spec_build_dap_config(c)
                    &&& l.configuration_text@ == spec_json_text(spec_build_dap_config(c))
                    &&& opt_view(l.cwd) == match c.get("cwd"@) {
                        Some(JsonV::Str(d)) => Some(d),
                        _ => None,
                    }
                },
                Err(e) => spec_is_attach_request(c) == Err::<bool, Seq<char>>(e@),
            }
        }),
{
    let config = match parse_json(config_text) {
        Some(j) => j,
        None => Json::Null,
    };
    debug_adapter_launch(&config)
}

/// The scenario configuration for a high-level debug request: a launch
/// scenario (stopping on entry only when asked) or an attach scenario.
pub fn debug_scenario_config(request: &DebugRequest, stop_on_entry: Option<bool>) -> (r: Json)
    ensures
        r@ == spec_debug_scenario_config(*request, stop_on_entry),
{
    match request {
        DebugRequest::Launch { program, args, cwd } => {
            let stop = match stop_on_entry {
                Some(b) => b,
                None => false,
            };
            let cwd_str: Option<&str> = match cwd {
                Some(d) => Some(d.as_str()),
                None => None,
            };
            build_launch_scenario(program.as_str(), args.as_slice(), cwd_str, stop)
        },
        DebugRequest::Attach { process_id } => build_attach_scenario(*process_id),
    }
}

/// The scenario configurations nest three levels deep at most.
proof fn lemma_scenario_depth(request: DebugRequest, stop_on_entry: Option<bool>)
    ensures
        spec_debug_scenario_config(request, stop_on_entry).depth() <= 3,
{
    match request {
        DebugRequest::Launch { program, args, cwd } => {
            let a = args@.map_values(|x: String| x@);
            let items = strings_array(a)->Array_0;
            assert forall|i: int| 0 <= i < items.len() implies #[trigger] items[i].depth() <= 1 by {
                assert(items[i] == JsonV::Str(a[i]));
            }
            lemma_items_depth(items, 1);
            let es = spec_debug_scenario_config(request, stop_on_entry)->Object_0;
            assert forall|i: int| 0 <= i < es.len() implies #[trigger] es[i].1.depth() <= 2 by {}
            lemma_entries_depth(es, 2);
        },
        DebugRequest::Attach { process_id } => {
            let es = spec_debug_scenario_config(request, stop_on_entry)->Object_0;
            lemma_entries_depth(es, 1);
        },
    }
}

/// The scenario configuration for a high-level debug request, as the JSON
/// text handed to the editor.
pub fn debug_scenario_text(request: &DebugRequest, stop_on_entry: Option<bool>) -> (r: String)
    ensures
        r@ == spec_json_text(spec_debug_scenario_config(*request, stop_on_entry)),
{
    let config = debug_scenario_config(request, stop_on_entry);
    proof {
        lemma_scenario_depth(*request, stop_on_entry);
    }
    json_text(&config)
}

/// The lengths and first characters that tell the configuration keys apart.
proof fn lemma_key_chars()
    ensures
        "program"@.len() == 7,
        "program"@[0] == 'p',
        "args"@.len() == 4,
        "args"@[0] == 'a',
        "cwd"@.len() == 3,
        "cwd"@[0] == 'c',
        "python"@.len() == 6,
        "python"@[0] == 'p',
        "justMyCode"@.len() == 10,
        "justMyCode"@[0] == 'j',
        "stopOnEntry"@.len() == 11,
        "stopOnEntry"@[0] == 's',
        "console"@.len() == 7,
        "console"@[0] == 'c',
        "processId"@.len() == 9,
        "processId"@[0] == 'p',
        "request"@.len() == 7,
        "request"@[0] == 'r',
{
    reveal_strlit("program");
    reveal_strlit("args");
    reveal_strlit("cwd");
    reveal_strlit("python");
    reveal_strlit("justMyCode");
    reveal_strlit("stopOnEntry");
    reveal_strlit("console");
    reveal_strlit("processId");
    reveal_strlit("request");
}

/// The normalised configuration is complete: every key is present, with a
/// string or boolean of the expected kind where a default applies.
pub proof fn lemma_dap_config_complete(c: JsonV)
    ensures
        ({
            let d = spec_build_dap_config(c);
            &&& d.get("program"@) == Some(JsonV::Str(c.str_or("program"@, ""@)))
            &&& d.get("args"@) is Some
            &&& d.get("cwd"@) == Some(JsonV::Str(c.str_or("cwd"@, ""@)))
            &&& d.get("python"@) == Some(JsonV::Str(c.str_or("python"@, "python3"@)))
            &&& d.get("justMyCode"@) == Some(JsonV::Bool(c.bool_or("justMyCode"@, true)))
            &&& d.get("stopOnEntry"@) == Some(JsonV::Bool(c.bool_or("stopOnEntry"@, false)))
            &&& d.get("console"@) == Some(
                JsonV::Str(c.str_or("console"@, "integratedTerminal"@)),
            )
        }),
{
    lemma_key_chars();
    reveal_with_fuel(crate::json::entries_lookup, 8);
}

/// Normalising a configuration that is already normal changes nothing.
pub proof fn lemma_dap_config_idempotent(c: JsonV)
    ensures
        spec_build_dap_config(spec_build_dap_config(c)) == spec_build_dap_config(c),
{
    lemma_key_chars();
    reveal_with_fuel(crate::json::entries_lookup, 8);
    let d = spec_build_dap_config(c);
    assert(spec_build_dap_config(d)->Object_0 =~= d->Object_0);
}

/// A launch scenario is read back as a launch request.
pub proof fn lemma_launch_scenario_is_launch(
    program: Seq<char>,
    args: Seq<Seq<char>>,
    cwd: Option<Seq<char>>,
    stop_on_entry: bool,
)
    ensures
        spec_is_attach_request(spec_build_launch_scenario(program, args, cwd, stop_on_entry))
            == Ok::<bool, Seq<char>>(false),
{
    lemma_key_chars();
    reveal_with_fuel(crate::json::entries_lookup, 7);
}

/// An attach scenario is read back as an attach request, with or without a process id.
pub proof fn lemma_attach_scenario_is_attach(process_id: Option<u32>)
    ensures
        spec_is_attach_request(spec_build_attach_scenario(process_id)) == Ok::<bool, Seq<char>>(
            true,
        ),
{
    lemma_key_chars();
    reveal_with_fuel(crate::json::entries_lookup, 3);
}

/// Normalising a launch scenario keeps its program, arguments, working
/// directory (an absent one becomes empty) and stop-on-entry flag, and fills
/// in the default interpreter.
pub proof fn lemma_launch_scenario_normalised(
    program: Seq<char>,
    args: Seq<Seq<char>>,
    cwd: Option<Seq<char>>,
    stop_on_entry: bool,
)
    ensures
        spec_build_dap_config(spec_build_launch_scenario(program, args, cwd, stop_on_entry))
            == JsonV::Object(
            seq![
                ("program"@, JsonV::Str(program)),
                ("args"@, strings_array(args)),
                (
                    "cwd"@,
                    JsonV::Str(
                        match cwd {
                            Some(d) => d,
                            None => ""@,
                        },
                    ),
                ),
                ("python"@, JsonV::Str("python3"@)),
                ("justMyCode"@, JsonV::Bool(true)),
                ("stopOnEntry"@, JsonV::Bool(stop_on_entry)),
                ("console"@, JsonV::Str("integratedTerminal"@)),
            ],
        ),
{
    lemma_key_chars();
    reveal_with_fuel(crate::json::entries_lookup, 7);
    let d = spec_build_dap_config(spec_build_launch_scenario(program, args, cwd, stop_on_entry));
    assert(d->Object_0 =~= seq![
        ("program"@, JsonV::Str(program)),
        ("args"@, strings_array(args)),
        (
            "cwd"@,
            JsonV::Str(
                match cwd {
                    Some(d) => d,
                    None => ""@,
                },
            ),
        ),
        ("python"@, JsonV::Str("python3"@)),
        ("justMyCode"@, JsonV::Bool(true)),
        ("stopOnEntry"@, JsonV::Bool(stop_on_entry)),
        ("console"@, JsonV::Str("integratedTerminal"@)),
    ]);
}

/// Normalising a well-formed configuration gives a well-formed configuration.
pub proof fn lemma_dap_config_wf(c: JsonV)
    requires
        c.wf(),
    ensures
        spec_build_dap_config(c).wf(),
{
    lemma_key_chars();
    lemma_get_wf(c, "args"@);
    let es = spec_build_dap_config(c)->Object_0;
    assert(es.len() == 7);
    assert forall|i: int| 0 <= i < es.len() implies #[trigger] es[i].1.wf() by {
        if i == 1 {
            if let Some(v) = c.get("args"@) {
                assert(es[1].1 == v);
            } else {
                assert(es[1].1 == JsonV::Array(Seq::empty()));
                assert(crate::json::items_wf(Seq::<JsonV>::empty()));
            }
        }
    }
    crate::json::lemma_entries_wf(es);
}

/// The scenario builders produce well-formed values.
pub proof fn lemma_scenarios_wf(
    program: Seq<char>,
    args: Seq<Seq<char>>,
    cwd: Option<Seq<char>>,
    stop_on_entry: bool,
    process_id: Option<u32>,
)
    ensures
        spec_build_launch_scenario(program, args, cwd, stop_on_entry).wf(),
        spec_build_attach_scenario(process_id).wf(),
{
    lemma_key_chars();
    let es = spec_build_launch_scenario(program, args, cwd, stop_on_entry)->Object_0;
    assert forall|i: int| 0 <= i < es.len() implies #[trigger] es[i].1.wf() by {
        if i == 1 {
            let items = strings_array(args)->Array_0;
            assert forall|j: int| 0 <= j < items.len() implies #[trigger] items[j].wf() by {
                assert(items[j] == JsonV::Str(args[j]));
            }
            crate::json::lemma_items_wf(items);
        }
    }
    crate::json::lemma_entries_wf(es);
    let ats = spec_build_attach_scenario(process_id)->Object_0;
    crate::json::lemma_entries_wf(ats);
}

/// An attach scenario asks to attach and carries the process id it was built
/// from: its decimal digits, which read back as that id; without an id it
/// carries `null`.
pub proof fn lemma_attach_process_id_reads_back(process_id: Option<u32>)
    ensures
        spec_build_attach_scenario(process_id).get("request"@) == Some(JsonV::Str("attach"@)),
        match process_id {
            Some(pid) => spec_build_attach_scenario(process_id).get("processId"@) matches Some(
                JsonV::Number(t),
            ) && t.len() >= 1 && all_digits(t) && digits_value(t) == pid && (pid >= 10 ==> t[0]
                != '0'),
            None => spec_build_attach_scenario(process_id).get("processId"@) == Some(JsonV::Null),
        },
{
    lemma_key_chars();
    reveal_with_fuel(crate::json::entries_lookup, 3);
    if let Some(pid) = process_id {
        lemma_decimal_reads_back(pid as nat);
    }
}

/// A configuration with a `processId` key attaches, whatever its `request`.
/// Otherwise `request: "attach"` attaches, `request: "launch"`, no `request`
/// or a `request` that is not a string launches, and any other request string
/// is refused with an error that names it.
pub proof fn lemma_request_kind(c: JsonV)
    ensures
        c.get("processId"@) is Some ==> spec_is_attach_request(c) == Ok::<bool, Seq<char>>(true),
        c.get("processId"@) is None ==> match c.get("request"@) {
            Some(JsonV::Str(kind)) => if kind == "attach"@ {
                spec_is_attach_request(c) == Ok::<bool, Seq<char>>(true)
            } else if kind == "launch"@ {
                spec_is_attach_request(c) == Ok::<bool, Seq<char>>(false)
            } else {
                spec_is_attach_request(c) matches Err(e) && e.len() >= kind.len() && e.subrange(
                    e.len() - kind.len(),
                    e.len() as int,
                ) == kind
            },
            _ => spec_is_attach_request(c) == Ok::<bool, Seq<char>>(false),
        },
{
    if c.get("processId"@) is None {
        if let Some(JsonV::Str(kind)) = c.get("request"@) {
            if kind != "attach"@ && kind != "launch"@ {
                let e = "Unknown request kind: "@ + kind;
                assert(e.subrange(e.len() - kind.len(), e.len() as int) =~= kind);
            }
        }
    }
}

} // verus!
