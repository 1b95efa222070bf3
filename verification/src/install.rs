//! The decisions of the OpenCode plugin installer: which command and target
//! a command line asks for, whether `tui.json` may be edited and how, and
//! what `status` reports. Writing the files happens in the program.

use vstd::prelude::*;
use vstd::string::*;

use crate::cli::{arg_views, result_view};
use crate::text::trim;
use serde_json::Value;

verus! {

/// The plugin's directory name under `plugins/`.
pub const PLUGIN_DIRNAME: &'static str = "opencode-sessionbar";

/// The spec registered in `tui.json`: a relative local-dir reference, which
/// is how opencode resolves directory plugins.
pub const PLUGIN_SPEC: &'static str = "./plugins/opencode-sessionbar";

/// The version stamp file written beside the plugin files.
pub const STAMP_FILE: &'static str = ".open-sessionbar-version";

/// The version of this program, stamped beside the installed plugin.
pub const VERSION: &'static str = "0.0.1";

/// One element of `tui.json`'s `plugin` array, as far as the installer
/// reads it.
pub enum PluginEntry {
    /// A string element.
    Name(String),
    /// An array element (`[spec, options]`), with its first element when
    /// that is a string.
    Tuple(Option<String>),
    /// Any other JSON value.
    Other,
}

/// A name under which the plugin can be registered.
pub open spec fn names_plugin(s: Seq<char>) -> bool {
    s == PLUGIN_SPEC@ || s == PLUGIN_DIRNAME@
}

/// The entry registers this plugin, as a string or as `[spec, options]`.
pub open spec fn spec_is_ours(e: PluginEntry) -> bool {
    match e {
        PluginEntry::Name(s) => names_plugin(s@),
        PluginEntry::Tuple(Some(s)) => names_plugin(s@),
        _ => false,
    }
}

/// Some entry registers this plugin.
pub open spec fn spec_plugin_present(entries: Seq<PluginEntry>) -> bool {
    exists|i: int| 0 <= i < entries.len() && spec_is_ours(#[trigger] entries[i])
}

fn names_plugin_exec(s: &str) -> (r: bool)
    ensures
        r == names_plugin(s@),
{
    crate::text::str_eq(s, PLUGIN_SPEC) || crate::text::str_eq(s, PLUGIN_DIRNAME)
}

/// Whether one `plugin` entry registers this plugin; `uninstall` keeps
/// exactly the entries for which this is false.
pub fn is_sessionbar_entry(e: &PluginEntry) -> (r: bool)
    ensures
        r == spec_is_ours(*e),
{
    match e {
        PluginEntry::Name(s) => names_plugin_exec(s.as_str()),
        PluginEntry::Tuple(Some(s)) => names_plugin_exec(s.as_str()),
        _ => false,
    }
}

/// True if the spec is already present, in either string or [spec, opts]
/// form.
pub fn plugin_present(arr: &Vec<PluginEntry>) -> (r: bool)
    ensures
        r == spec_plugin_present(arr@),
{
    let n = arr.len();
    let mut i: usize = 0;
    while i < n
        invariant
            n == arr@.len(),
            i <= n,
            forall|j: int| 0 <= j < i ==> !spec_is_ours(#[trigger] arr@[j]),
        decreases n - i,
    {
        if is_sessionbar_entry(&arr[i]) {
            return true;
        }
        i = i + 1;
    }
    false
}

/// One step of the scanner over a byte: the state is (inside a string
/// literal, after a backslash inside one).
pub open spec fn lex_step(st: (bool, bool), c: u8) -> (bool, bool) {
    if st.0 {
        if st.1 {
            (true, false)
        } else if c == 0x5c {
            (true, true)
        } else if c == 0x22 {
            (false, false)
        } else {
            (true, false)
        }
    } else if c == 0x22 {
        (true, false)
    } else {
        st
    }
}

/// Scanner state before byte `n`.
pub open spec fn lex_state(b: Seq<u8>, n: int) -> (bool, bool)
    decreases n,
{
    if n <= 0 {
        (false, false)
    } else {
        lex_step(lex_state(b, n - 1), b[n - 1])
    }
}

/// A comment opener (`//` or `/*`) starts at byte `i`, outside any string
/// literal.
pub open spec fn comment_at(b: Seq<u8>, i: int) -> bool {
    &&& 0 <= i
    &&& i + 1 < b.len()
    &&& !lex_state(b, i).0
    &&& b[i] == 0x2f
    &&& (b[i + 1] == 0x2f || b[i + 1] == 0x2a)
}

/// The text holds a `//` or `/*` outside of a JSON string literal.
pub open spec fn spec_looks_like_jsonc(b: Seq<u8>) -> bool {
    exists|i: int| comment_at(b, i)
}

/// Cheap heuristic: a `//` or `/*` outside of a string strongly suggests
/// JSONC. Only used to avoid clobbering a commented config, so a false
/// positive just means "edit manually".
pub fn looks_like_jsonc(s: &str) -> (r: bool)
    ensures
        r == spec_looks_like_jsonc(s.spec_bytes()),
{
    let bytes = s.as_bytes();
    let ghost b = bytes@;
    let n = bytes.len();
    let mut in_str = false;
    let mut escaped = false;
    let mut i: usize = 0;
    while i < n
        invariant
            n == b.len(),
            b == bytes@,
            b == s.spec_bytes(),
            i <= n,
            (in_str, escaped) == lex_state(b, i as int),
            !in_str ==> !escaped,
            forall|j: int| 0 <= j < i ==> !comment_at(b, j),
        decreases n - i,
    {
        let c = bytes[i];
        assert(b[i as int] == c);
        if in_str {
            if escaped {
                escaped = false;
            } else if c == 0x5c {
                escaped = true;
            } else if c == 0x22 {
                in_str = false;
            }
        } else if c == 0x22 {
            in_str = true;
        } else if c == 0x2f && i + 1 < n && (bytes[i + 1] == 0x2f || bytes[i + 1] == 0x2a) {
            assert(comment_at(b, i as int));
            return true;
        }
        assert(lex_state(b, i + 1) == lex_step(lex_state(b, i as int), c));
        i = i + 1;
    }
    assert forall|j: int| !comment_at(b, j) by {
        if 0 <= j < n {
        }
    }
    false
}

/// The `plugin` member of a `tui.json` object.
pub enum PluginList {
    /// No `plugin` member.
    Absent,
    /// A `plugin` member that is not an array.
    NotArray,
    /// The elements of the `plugin` array.
    Entries(Vec<PluginEntry>),
}

/// What parsing `tui.json` as strict JSON gave.
pub enum TuiConfig {
    /// Not JSON at all, with serde_json's message.
    Unparsable(String),
    /// JSON, but not an object.
    NotObject,
    /// A JSON object, with its `plugin` member.
    Object(PluginList),
}

/// What serde_json's strict parse of a `tui.json` text gives, read as far
/// as the installer needs it.
pub uninterp spec fn tui_config_of(raw: Seq<char>) -> TuiConfig;

/// `serde_json::from_str::<serde_json::Value>` on the text, with the
/// value's shape read into a `TuiConfig`: the error's message, a
/// non-object, or the object's `plugin` member with each element as a
/// string, an array (with its first element when that is a string) or
/// anything else. The contract only names the result; it is a function of
/// the text alone.
#[verifier::external_body]
fn parse_tui_config(raw: &str) -> (r: TuiConfig)
    ensures
        r == tui_config_of(raw@),
{
    match serde_json::from_str::<Value>(raw) {
        Err(e) => TuiConfig::Unparsable(e.to_string()),
        Ok(Value::Object(o)) => TuiConfig::Object(match o.get("plugin") {
            None => PluginList::Absent,
            Some(Value::Array(a)) => PluginList::Entries(a.iter().map(|v| match v {
                Value::String(s) => PluginEntry::Name(s.clone()),
                Value::Array(t) => PluginEntry::Tuple(t.first().and_then(Value::as_str).map(String::from)),
                _ => PluginEntry::Other,
            }).collect()),
            Some(_) => PluginList::NotArray,
        }),
        Ok(_) => TuiConfig::NotObject,
    }
}

/// What registering the plugin in `tui.json` comes to.
pub enum RegisterOutcome {
    /// The file seems to hold comments: refuse to edit it.
    Commented,
    /// The file is not JSON (serde_json's message).
    Unparsable(String),
    /// The file's JSON is not an object.
    NotObject,
    /// `plugin` is not an array.
    NotArray,
    /// The plugin is already registered: leave the file alone.
    AlreadyRegistered,
    /// Append the plugin spec to `plugin` (creating the array if needed);
    /// a blank file counts as `{}`.
    Append,
}

/// Registering: refuse a commented file; a blank file counts as `{}`;
/// otherwise the parsed JSON decides.
pub open spec fn spec_register_outcome(raw: &str, config: TuiConfig) -> RegisterOutcome {
    if spec_looks_like_jsonc(raw.spec_bytes()) {
        RegisterOutcome::Commented
    } else if trim(raw@).len() == 0 {
        RegisterOutcome::Append
    } else {
        match config {
            TuiConfig::Unparsable(m) => RegisterOutcome::Unparsable(m),
            TuiConfig::NotObject => RegisterOutcome::NotObject,
            TuiConfig::Object(PluginList::Absent) => RegisterOutcome::Append,
            TuiConfig::Object(PluginList::NotArray) => RegisterOutcome::NotArray,
            TuiConfig::Object(PluginList::Entries(e)) => if spec_plugin_present(e@) {
                RegisterOutcome::AlreadyRegistered
            } else {
                RegisterOutcome::Append
            },
        }
    }
}

/// Decides how to add the plugin spec to a `tui.json` with text `raw` (for
/// a missing file, `{}` and a line break).
pub fn register_plan(raw: &str) -> (r: RegisterOutcome)
    ensures
        r == spec_register_outcome(raw, tui_config_of(raw@)),
{
    if looks_like_jsonc(raw) {
        return RegisterOutcome::Commented;
    }
    let t = crate::text::trimmed(raw);
    if t.as_str().unicode_len() == 0 {
        return RegisterOutcome::Append;
    }
    match parse_tui_config(raw) {
        TuiConfig::Unparsable(m) => RegisterOutcome::Unparsable(m),
        TuiConfig::NotObject => RegisterOutcome::NotObject,
        TuiConfig::Object(PluginList::Absent) => RegisterOutcome::Append,
        TuiConfig::Object(PluginList::NotArray) => RegisterOutcome::NotArray,
        TuiConfig::Object(PluginList::Entries(e)) => {
            if plugin_present(&e) {
                RegisterOutcome::AlreadyRegistered
            } else {
                RegisterOutcome::Append
            }
        },
    }
}

/// What removing the plugin from an existing `tui.json` comes to.
pub enum UnregisterOutcome {
    /// The file seems to hold comments: refuse to edit it.
    Commented,
    /// The file is not JSON (serde_json's message).
    Unparsable(String),
    /// Nothing registers the plugin: leave the file alone.
    Unchanged,
    /// Rewrite `plugin` keeping the entries whose flag is true: one flag per
    /// entry, false exactly for those that register this plugin.
    Remove(Vec<bool>),
}

/// The keep flags of `uninstall`: one per entry, false exactly for the
/// entries that register this plugin.
pub open spec fn keep_flags(entries: Seq<PluginEntry>) -> Seq<bool> {
    entries.map_values(|e: PluginEntry| !spec_is_ours(e))
}

/// Unregistering: refuse a commented file or one that is not JSON; remove
/// when the object's `plugin` array holds an entry of this plugin, keeping
/// every other entry; leave anything else alone.
pub open spec fn spec_unregister_outcome(raw: &str, config: TuiConfig, r: UnregisterOutcome) -> bool {
    if spec_looks_like_jsonc(raw.spec_bytes()) {
        r is Commented
    } else {
        match config {
            TuiConfig::Unparsable(m) => r == UnregisterOutcome::Unparsable(m),
            TuiConfig::Object(PluginList::Entries(e)) => if spec_plugin_present(e@) {
                r matches UnregisterOutcome::Remove(k) && k@ == keep_flags(e@)
            } else {
                r is Unchanged
            },
            _ => r is Unchanged,
        }
    }
}

/// The keep flag of each entry.
pub fn keep_entries(entries: &Vec<PluginEntry>) -> (r: Vec<bool>)
    ensures
        r@ == keep_flags(entries@),
{
    let n = entries.len();
    let mut keep: Vec<bool> = Vec::new();
    let mut i: usize = 0;
    while i < n
        invariant
            n == entries@.len(),
            i <= n,
            keep@ == keep_flags(entries@.take(i as int)),
        decreases n - i,
    {
        keep.push(!is_sessionbar_entry(&entries[i]));
        assert(keep_flags(entries@.take(i + 1)) =~= keep_flags(entries@.take(i as int)).push(
            !spec_is_ours(entries@[i as int]),
        ));
        i = i + 1;
    }
    assert(entries@.take(n as int) =~= entries@);
    keep
}

/// Decides how to remove the plugin spec from an existing `tui.json` with
/// text `raw`.
pub fn unregister_plan(raw: &str) -> (r: UnregisterOutcome)
    ensures
        spec_unregister_outcome(raw, tui_config_of(raw@), r),
{
    if looks_like_jsonc(raw) {
        return UnregisterOutcome::Commented;
    }
    match parse_tui_config(raw) {
        TuiConfig::Unparsable(m) => UnregisterOutcome::Unparsable(m),
        TuiConfig::Object(PluginList::Entries(e)) => {
            if plugin_present(&e) {
                UnregisterOutcome::Remove(keep_entries(&e))
            } else {
                UnregisterOutcome::Unchanged
            }
        },
        _ => UnregisterOutcome::Unchanged,
    }
}

/// `status`'s "registered": the text parses to an object whose `plugin`
/// array registers this plugin (comments are not checked here).
pub open spec fn spec_registered(config: TuiConfig) -> bool {
    match config {
        TuiConfig::Object(PluginList::Entries(e)) => spec_plugin_present(e@),
        _ => false,
    }
}

/// Whether a `tui.json` with text `raw` registers the plugin.
pub fn registered(raw: &str) -> (r: bool)
    ensures
        r == spec_registered(tui_config_of(raw@)),
{
    match parse_tui_config(raw) {
        TuiConfig::Object(PluginList::Entries(e)) => plugin_present(&e),
        _ => false,
    }
}

/// The `plugin` subcommands.
#[derive(Debug, Clone, Copy, PartialEq, Eq, Structural)]
pub enum PluginAction {
    Install,
    Update,
    Uninstall,
    Status,
}

/// Where the plugin is installed: the user's opencode config directory, or
/// `<DIR>/.opencode` of a project.
pub enum InstallTarget {
    Global,
    Project(String),
}

/// A `plugin` command: what to do, and where.
pub struct PluginRequest {
    pub action: PluginAction,
    pub target: InstallTarget,
}

/// The view of an install target: `None` for global, the project
/// directory otherwise.
pub open spec fn target_view(t: InstallTarget) -> Option<Seq<char>> {
    match t {
        InstallTarget::Global => None,
        InstallTarget::Project(d) => Some(d@),
    }
}

/// The position of the first target flag (`--global`, `-g`, `--project`)
/// at or after `i`, or the number of arguments.
pub open spec fn first_target_flag(args: Seq<Seq<char>>, i: int) -> int
    decreases args.len() - i,
{
    if i < 0 || i >= args.len() {
        args.len() as int
    } else if args[i] == "--global"@ || args[i] == "-g"@ || args[i] == "--project"@ {
        i
    } else {
        first_target_flag(args, i + 1)
    }
}

/// The target chosen by the first target flag: global when there is none
/// or it is `--global`/`-g`; the directory after `--project`, which must be
/// there.
pub open spec fn spec_resolve_target(args: Seq<Seq<char>>) -> Result<Option<Seq<char>>, Seq<char>> {
    let k = first_target_flag(args, 0);
    if k >= args.len() || args[k] != "--project"@ {
        Ok(None)
    } else if k + 1 < args.len() {
        Ok(Some(args[k + 1]))
    } else {
        Err("--project requires a directory"@)
    }
}

/// The action a subcommand name selects.
pub open spec fn spec_plugin_action(sub: Seq<char>) -> Option<PluginAction> {
    if sub == "install"@ {
        Some(PluginAction::Install)
    } else if sub == "update"@ {
        Some(PluginAction::Update)
    } else if sub == "uninstall"@ || sub == "remove"@ {
        Some(PluginAction::Uninstall)
    } else if sub == "status"@ {
        Some(PluginAction::Status)
    } else {
        None
    }
}

/// The message for an unknown subcommand.
pub open spec fn unknown_plugin_command(sub: Seq<char>) -> Seq<char> {
    "unknown: plugin "@ + sub
        + "\nUSAGE: opensessions plugin <install|update|uninstall|status> [--global|--project DIR]"@
}

/// The view of a parsed `plugin` command line.
pub open spec fn request_view(r: Result<PluginRequest, String>) -> Result<(PluginAction, Option<Seq<char>>), Seq<char>> {
    match r {
        Ok(q) => Ok((q.action, target_view(q.target))),
        Err(e) => Err(e@),
    }
}

/// A `plugin` command line: the subcommand (`status` when absent), then the
/// target from the remaining arguments.
pub open spec fn spec_cmd(args: Seq<Seq<char>>) -> Result<(PluginAction, Option<Seq<char>>), Seq<char>> {
    let sub = if args.len() == 0 { "status"@ } else { args[0] };
    let rest = if args.len() == 0 { args } else { args.skip(1) };
    match spec_plugin_action(sub) {
        None => Err(unknown_plugin_command(sub)),
        Some(a) => match spec_resolve_target(rest) {
            Ok(t) => Ok((a, t)),
            Err(e) => Err(e),
        },
    }
}

/// Reads `opensessions plugin <install|update|uninstall|status>
/// [--global|--project DIR]` (the arguments after `plugin`).
pub fn cmd(args: &Vec<String>) -> (r: Result<PluginRequest, String>)
    ensures
        request_view(r) == spec_cmd(arg_views(args@)),
{
    let ghost views = arg_views(args@);
    let n = args.len();
    let action = if n == 0 {
        proof {
            reveal_strlit("status");
            reveal_strlit("install");
            reveal_strlit("update");
            reveal_strlit("uninstall");
            reveal_strlit("remove");
        }
        PluginAction::Status
    } else {
        let sub = args[0].as_str();
        if crate::text::str_eq(sub, "install") {
            PluginAction::Install
        } else if crate::text::str_eq(sub, "update") {
            PluginAction::Update
        } else if crate::text::str_eq(sub, "uninstall") || crate::text::str_eq(sub, "remove") {
            PluginAction::Uninstall
        } else if crate::text::str_eq(sub, "status") {
            PluginAction::Status
        } else {
            let mut msg = String::from_str("unknown: plugin ");
            msg.append(sub);
            msg.append(
                "\nUSAGE: opensessions plugin <install|update|uninstall|status> [--global|--project DIR]",
            );
            return Err(msg);
        }
    };
    let ghost rest = if n == 0 { views } else { views.skip(1) };
    proof {
        if n > 0 {
            assert(views[0] == args@[0]@);
        }
        reveal_strlit("--global");
        reveal_strlit("-g");
        reveal_strlit("--project");
        assert("--global"@[2] != "--project"@[2]);
        assert("-g"@.len() != "--project"@.len());
        if n == 0 {
            assert("status"@[0] != "update"@[0]);
            assert("status"@[0] != "remove"@[0]);
            assert("status"@ != "install"@);
            assert("status"@ != "uninstall"@);
            assert(spec_plugin_action("status"@) == Some(action));
        } else {
            assert(spec_plugin_action(views[0]) == Some(action));
        }
    }
    let mut i: usize = if n == 0 { 0 } else { 1 };
    while i < n
        invariant
            n == args@.len(),
            views == arg_views(args@),
            rest == (if n == 0 { views } else { views.skip(1) }),
            spec_plugin_action(if n == 0 { "status"@ } else { views[0] }) == Some(action),
            "--global"@ != "--project"@,
            "-g"@ != "--project"@,
            n == 0 ==> i == 0,
            n > 0 ==> 1 <= i,
            i <= n,
            first_target_flag(rest, 0) == first_target_flag(rest, if n == 0 { 0 } else { i - 1 }),
        decreases n - i,
    {
        let a = args[i].as_str();
        assert(rest[i - 1] == a@);
        if crate::text::str_eq(a, "--global") || crate::text::str_eq(a, "-g") {
            return Ok(PluginRequest { action, target: InstallTarget::Global });
        }
        if crate::text::str_eq(a, "--project") {
            if i + 1 < n {
                assert(rest[i as int] == args@[i + 1]@);
                return Ok(
                    PluginRequest { action, target: InstallTarget::Project(args[i + 1].clone()) },
                );
            } else {
                return Err(String::from_str("--project requires a directory"));
            }
        }
        i = i + 1;
    }
    Ok(PluginRequest { action, target: InstallTarget::Global })
}

/// The `installed` line of `plugin status`: yes or no, and for an installed
/// plugin with a version stamp, whether the stamp (trimmed) matches this
/// program's version.
pub open spec fn spec_installed_line(installed: bool, stamp: Option<Seq<char>>) -> Seq<char> {
    "installed  : "@ + (if installed { "yes"@ } else { "no"@ }) + match stamp {
        Some(v) => if installed {
            if trim(v) == VERSION@ {
                " (v"@ + trim(v) + ", up to date)"@
            } else {
                " (v"@ + trim(v) + ", binary is v"@ + VERSION@ + " — run `plugin update`)"@
            }
        } else {
            Seq::empty()
        },
        None => Seq::empty(),
    }
}

/// The `installed` line of `plugin status`.
pub fn installed_line(installed: bool, stamp: Option<&str>) -> (r: String)
    ensures
        r@ == spec_installed_line(installed, crate::format::opt_str_view(stamp)),
{
    let mut out = String::from_str("installed  : ");
    out.append(if installed { "yes" } else { "no" });
    match stamp {
        Some(v) => {
            if installed {
                let t = crate::text::trimmed(v);
                out.append(" (v");
                out.append(t.as_str());
                if crate::text::str_eq(t.as_str(), VERSION) {
                    out.append(", up to date)");
                } else {
                    out.append(", binary is v");
                    out.append(VERSION);
                    out.append(" — run `plugin update`)");
                }
            }
        },
        None => {},
    }
    out
}


/// The entries that `uninstall` keeps: every one that does not register
/// this plugin, in their order.
pub open spec fn spec_without_plugin(entries: Seq<PluginEntry>) -> Seq<PluginEntry> {
    entries.filter(|e: PluginEntry| !spec_is_ours(e))
}

/// After `install` appends the plugin spec to `plugin`, the plugin is
/// registered, and `install` on that array finds it already there.
pub proof fn lemma_append_registers(entries: Seq<PluginEntry>, spec: String)
    requires
        spec@ == PLUGIN_SPEC@,
    ensures
        spec_plugin_present(entries.push(PluginEntry::Name(spec))),
{
    let e = entries.push(PluginEntry::Name(spec));
    assert(spec_is_ours(e[entries.len() as int]));
}

/// After `uninstall` no entry registers the plugin, every other entry is
/// kept, and removing the plugin undoes appending it.
pub proof fn lemma_uninstall_removes(entries: Seq<PluginEntry>, spec: String)
    requires
        spec@ == PLUGIN_SPEC@,
    ensures
        !spec_plugin_present(spec_without_plugin(entries)),
        forall|i: int|
            0 <= i < entries.len() && !spec_is_ours(entries[i]) ==> #[trigger] spec_without_plugin(
                entries,
            ).contains(entries[i]),
        spec_without_plugin(entries.push(PluginEntry::Name(spec))) == spec_without_plugin(entries),
{
    broadcast use vstd::seq_lib::group_filter_ensures;

    let pred = |e: PluginEntry| !spec_is_ours(e);
    let w = spec_without_plugin(entries);
    assert forall|i: int| 0 <= i < w.len() implies !spec_is_ours(#[trigger] w[i]) by {
        entries.lemma_filter_pred(pred, i);
    }
    assert forall|i: int|
        0 <= i < entries.len() && !spec_is_ours(entries[i]) implies #[trigger] w.contains(
        entries[i],
    ) by {
        entries.lemma_filter_contains(pred, i);
    }
    entries.lemma_filter_push(PluginEntry::Name(spec), pred);
}

/// A text without any `/` byte is never judged to hold comments.
pub proof fn lemma_no_slash_not_commented(b: Seq<u8>)
    requires
        forall|i: int| 0 <= i < b.len() ==> #[trigger] b[i] != 0x2f,
    ensures
        !spec_looks_like_jsonc(b),
{
    assert forall|i: int| !comment_at(b, i) by {
        if 0 <= i < b.len() {
            assert(b[i] != 0x2f);
        }
    }
}


/// Registering twice changes nothing: once the text's `plugin` array holds
/// the entries that `install` appended to, the plan for it is
/// `AlreadyRegistered`.
pub proof fn lemma_register_idempotent(raw: &str, entries: Seq<PluginEntry>, spec: String, now: Vec<PluginEntry>)
    requires
        spec@ == PLUGIN_SPEC@,
        now@ == entries.push(PluginEntry::Name(spec)),
        tui_config_of(raw@) == TuiConfig::Object(PluginList::Entries(now)),
        !spec_looks_like_jsonc(raw.spec_bytes()),
        trim(raw@).len() > 0,
    ensures
        spec_register_outcome(raw, tui_config_of(raw@)) == RegisterOutcome::AlreadyRegistered,
{
    lemma_append_registers(entries, spec);
}


/// The items whose flag is true, in their order.
pub open spec fn flagged<T>(items: Seq<T>, keep: Seq<bool>) -> Seq<T>
    decreases items.len(),
{
    if items.len() == 0 {
        Seq::empty()
    } else {
        flagged(items.drop_last(), keep.drop_last()) + if keep.last() {
            seq![items.last()]
        } else {
            Seq::empty()
        }
    }
}

/// Keeps the items whose flag is true (one flag per item), in their order;
/// `uninstall` applies it to the `plugin` array with the flags of
/// `unregister_plan`.
pub fn retain_flagged<T>(items: Vec<T>, keep: &Vec<bool>) -> (r: Vec<T>)
    requires
        keep@.len() == items@.len(),
    ensures
        r@ == flagged(items@, keep@),
{
    let ghost orig = items@;
    let n = keep.len();
    let mut rest = items;
    let mut out: Vec<T> = Vec::new();
    let mut i: usize = 0;
    while i < n
        invariant
            n == keep@.len(),
            n == orig.len(),
            i <= n,
            rest@ == orig.skip(i as int),
            out@ == flagged(orig.take(i as int), keep@.take(i as int)),
        decreases n - i,
    {
        assert(rest@.len() > 0);
        let x = rest.remove(0);
        assert(x == orig[i as int]);
        if keep[i] {
            out.push(x);
        }
        assert(orig.take(i + 1).drop_last() =~= orig.take(i as int));
        assert(keep@.take(i + 1).drop_last() =~= keep@.take(i as int));
        assert(rest@ =~= orig.skip(i + 1));
        i = i + 1;
    }
    assert(orig.take(n as int) =~= orig);
    assert(keep@.take(n as int) =~= keep@);
    out
}

/// Applying `uninstall`'s keep flags keeps exactly the entries that do not
/// register this plugin: the list that `lemma_uninstall_removes` speaks of.
pub proof fn lemma_keep_flags_remove_plugin(entries: Seq<PluginEntry>)
    ensures
        flagged(entries, keep_flags(entries)) == spec_without_plugin(entries),
    decreases entries.len(),
{
    let pred = |e: PluginEntry| !spec_is_ours(e);
    if entries.len() > 0 {
        let p = entries.drop_last();
        lemma_keep_flags_remove_plugin(p);
        assert(keep_flags(entries).drop_last() =~= keep_flags(p));
        assert(entries =~= p.push(entries.last()));
        p.lemma_filter_push(entries.last(), pred);
        assert(spec_without_plugin(entries) == spec_without_plugin(p.push(entries.last())));
        if pred(entries.last()) {
            assert(flagged(entries, keep_flags(entries)) =~= flagged(p, keep_flags(p)).push(entries.last()));
        } else {
            assert(flagged(entries, keep_flags(entries)) =~= flagged(p, keep_flags(p)));
        }
    } else {
        reveal(Seq::filter);
    }
}


/// The `plugin` command line: no subcommand means `status` for the global
/// config; `remove` is `uninstall`; `--project DIR` targets that
/// directory, `--global`/`-g` the global config; `--project` without a
/// directory and an unknown subcommand are errors.
pub proof fn lemma_plugin_command_line(dir: Seq<char>, sub: Seq<char>, rest: Seq<Seq<char>>)
    ensures
        spec_cmd(Seq::empty()) == Ok::<(PluginAction, Option<Seq<char>>), Seq<char>>(
            (PluginAction::Status, None),
        ),
        spec_cmd(seq!["install"@, "--project"@, dir]) == Ok::<
            (PluginAction, Option<Seq<char>>),
            Seq<char>,
        >((PluginAction::Install, Some(dir))),
        spec_cmd(seq!["update"@, "-g"@]) == Ok::<(PluginAction, Option<Seq<char>>), Seq<char>>(
            (PluginAction::Update, None),
        ),
        spec_cmd(seq!["remove"@] + rest) == spec_cmd(seq!["uninstall"@] + rest),
        spec_cmd(seq!["uninstall"@] + rest) is Ok ==> spec_cmd(seq!["uninstall"@] + rest)->Ok_0.0
            == PluginAction::Uninstall,
        spec_cmd(seq!["install"@, "--project"@]) == Err::<(PluginAction, Option<Seq<char>>), Seq<char>>(
            "--project requires a directory"@,
        ),
        (sub != "install"@ && sub != "update"@ && sub != "uninstall"@ && sub != "remove"@ && sub
            != "status"@) ==> spec_cmd(seq![sub] + rest) == Err::<
            (PluginAction, Option<Seq<char>>),
            Seq<char>,
        >(
            "unknown: plugin "@ + sub
                + "\nUSAGE: opensessions plugin <install|update|uninstall|status> [--global|--project DIR]"@,
        ),
{
    reveal_strlit("install");
    reveal_strlit("update");
    reveal_strlit("uninstall");
    reveal_strlit("remove");
    reveal_strlit("status");
    reveal_strlit("--project");
    reveal_strlit("--global");
    reveal_strlit("-g");
    assert("remove"@[0] != "install"@[0] && "remove"@[0] != "update"@[0]);
    assert("uninstall"@[0] != "install"@[0] && "update"@[0] != "install"@[0]);
    assert("uninstall"@.len() != "update"@.len());
    assert("--project"@.len() != "--global"@.len() && "--project"@.len() != "-g"@.len());
    assert("-g"@.len() != "--global"@.len());
    assert((seq!["remove"@] + rest)[0] == "remove"@);
    assert((seq!["uninstall"@] + rest)[0] == "uninstall"@);
    assert((seq!["remove"@] + rest).skip(1) =~= rest);
    assert((seq!["uninstall"@] + rest).skip(1) =~= rest);
    assert((seq![sub] + rest)[0] == sub);
    let a = seq!["install"@, "--project"@, dir];
    assert(a.skip(1) =~= seq!["--project"@, dir]);
    let b = seq!["update"@, "-g"@];
    assert(b.skip(1) =~= seq!["-g"@]);
    let c = seq!["install"@, "--project"@];
    assert(c.skip(1) =~= seq!["--project"@]);
}

/// The `installed` line: `no` for a plugin that is not installed, whatever
/// its stamp; for an installed one `yes`, then, when it carries a stamp,
/// the trimmed stamp and whether it is this program's version.
pub proof fn lemma_installed_line(installed: bool, stamp: Option<Seq<char>>, v: Seq<char>)
    ensures
        !installed ==> spec_installed_line(installed, stamp) == "installed  : no"@,
        spec_installed_line(true, None) == "installed  : yes"@,
        trim(v) == "0.0.1"@ ==> spec_installed_line(true, Some(v))
            == "installed  : yes (v0.0.1, up to date)"@,
        trim(v) != "0.0.1"@ ==> spec_installed_line(true, Some(v)) == "installed  : yes (v"@ + trim(v)
            + ", binary is v0.0.1 — run `plugin update`)"@,
{
    reveal_strlit("installed  : ");
    reveal_strlit("installed  : no");
    reveal_strlit("installed  : yes");
    reveal_strlit("no");
    reveal_strlit("yes");
    reveal_strlit(" (v");
    reveal_strlit("0.0.1");
    reveal_strlit(", up to date)");
    reveal_strlit("installed  : yes (v0.0.1, up to date)");
    reveal_strlit("installed  : yes (v");
    reveal_strlit(", binary is v");
    reveal_strlit(" — run `plugin update`)");
    reveal_strlit(", binary is v0.0.1 — run `plugin update`)");
    assert("installed  : "@ + "no"@ + Seq::<char>::empty() =~= "installed  : no"@);
    assert("installed  : "@ + "yes"@ + Seq::<char>::empty() =~= "installed  : yes"@);
    assert("installed  : "@ + "yes"@ + (" (v"@ + "0.0.1"@ + ", up to date)"@)
        =~= "installed  : yes (v0.0.1, up to date)"@);
    assert("installed  : "@ + "yes"@ + (" (v"@ + trim(v) + ", binary is v"@ + "0.0.1"@
        + " — run `plugin update`)"@) =~= "installed  : yes (v"@ + trim(v)
        + ", binary is v0.0.1 — run `plugin update`)"@);
}

} // verus!
