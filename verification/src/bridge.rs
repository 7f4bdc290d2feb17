//! The Soliloquy bridge: per-webview snapshots of live DOM fields, the
//! targets scripts may read and write, the structured commands, and the
//! result envelopes handed back to scripts.
use crate::text::same_text;
use crate::urls::{url_error_text, url_join_outcome, url_parse_error, url_serialization, ParsedUrl, UrlError};
use std::collections::HashMap;
use vstd::prelude::*;

verus! {

broadcast use vstd::std_specs::hash::group_hash_axioms;

// ---------------------------------------------------------------------------
// Values handed back to scripts
// ---------------------------------------------------------------------------

/// A JavaScript value as the bridge produces it.  Objects list their
/// properties in order, each name once.
#[derive(Debug, PartialEq)]
pub enum JSValue {
    Undefined,
    Null,
    Boolean(bool),
    /// The bridge only produces integral numbers.
    Number(i64),
    String(String),
    Object(Vec<(String, JSValue)>),
}

/// The mathematical form of a `JSValue`.
pub enum Json {
    Undefined,
    Null,
    Boolean(bool),
    Number(int),
    Str(Seq<char>),
    Object(Seq<(Seq<char>, Json)>),
}

/// The mathematical form of a value.
pub open spec fn json_of(v: JSValue) -> Json
    decreases v,
{
    match v {
        JSValue::Undefined => Json::Undefined,
        JSValue::Null => Json::Null,
        JSValue::Boolean(b) => Json::Boolean(b),
        JSValue::Number(n) => Json::Number(n as int),
        JSValue::String(s) => Json::Str(s@),
        JSValue::Object(entries) => Json::Object(
            Seq::new(
                entries@.len(),
                |i: int|
                    if 0 <= i < entries@.len() {
                        (entries@[i].0@, json_of(entries@[i].1))
                    } else {
                        (Seq::empty(), Json::Null)
                    },
            ),
        ),
    }
}

/// The mathematical form of a list of properties.
pub open spec fn json_entries(entries: Seq<(String, JSValue)>) -> Seq<(Seq<char>, Json)> {
    Seq::new(
        entries.len(),
        |i: int|
            if 0 <= i < entries.len() {
                (entries[i].0@, json_of(entries[i].1))
            } else {
                (Seq::empty(), Json::Null)
            },
    )
}

proof fn lemma_json_object(entries: Vec<(String, JSValue)>)
    ensures
        json_of(JSValue::Object(entries)) == Json::Object(json_entries(entries@)),
{
    assert(json_entries(entries@) =~= json_of(JSValue::Object(entries))->Object_0);
}

/// Appends property `key` with `value` to `entries`.
pub(crate) fn push_entry(entries: &mut Vec<(String, JSValue)>, key: &str, value: JSValue)
    ensures
        json_entries(final(entries)@) == json_entries(old(entries)@).push((key@, json_of(value))),
{
    let ghost v = value;
    entries.push((key.to_owned(), value));
    assert(json_entries(entries@) =~= json_entries(old(entries)@).push((key@, json_of(v))));
}

pub(crate) fn object(entries: Vec<(String, JSValue)>) -> (r: JSValue)
    ensures
        json_of(r) == Json::Object(json_entries(entries@)),
{
    proof {
        lemma_json_object(entries);
    }
    JSValue::Object(entries)
}

pub(crate) fn string_value(s: &str) -> (r: JSValue)
    ensures
        json_of(r) == Json::Str(s@),
{
    JSValue::String(s.to_owned())
}

/// The value of the first property named `key` in `entries`.
pub open spec fn entries_lookup(entries: Seq<(String, JSValue)>, key: Seq<char>) -> Option<JSValue>
    decreases entries.len(),
{
    if entries.len() == 0 {
        None
    } else if entries[0].0@ == key {
        Some(entries[0].1)
    } else {
        entries_lookup(entries.drop_first(), key)
    }
}

/// The value of property `key` of `v`, when `v` is an object that has one.
pub open spec fn property_lookup(v: JSValue, key: Seq<char>) -> Option<JSValue> {
    match v {
        JSValue::Object(entries) => entries_lookup(entries@, key),
        _ => None,
    }
}

impl JSValue {
    /// The value of property `key` of an object; `None` for anything else or
    /// a missing property.
    pub fn get(&self, key: &str) -> (r: Option<&JSValue>)
        ensures
            match r {
                Some(v) => property_lookup(*self, key@) == Some(*v),
                None => property_lookup(*self, key@) is None,
            },
    {
        match self {
            JSValue::Object(entries) => {
                let mut i: usize = 0;
                assert(entries@.subrange(0, entries@.len() as int) =~= entries@);
                while i < entries.len()
                    invariant
                        i <= entries@.len(),
                        property_lookup(*self, key@) == entries_lookup(entries@, key@),
                        entries_lookup(entries@, key@) == entries_lookup(
                            entries@.subrange(i as int, entries@.len() as int),
                            key@,
                        ),
                    decreases entries@.len() - i,
                {
                    let ghost rest = entries@.subrange(i as int, entries@.len() as int);
                    assert(rest.drop_first() =~= entries@.subrange(i + 1, entries@.len() as int));
                    if same_text(entries[i].0.as_str(), key) {
                        assert(rest[0] == entries@[i as int]);
                        assert(entries_lookup(rest, key@) == Some(entries@[i as int].1));
                        return Some(&entries[i].1);
                    }
                    i = i + 1;
                }
                None
            },
            _ => None,
        }
    }
}

/// The envelope a bridge result is handed back in.
pub open spec fn envelope(status: Seq<char>, value: Json, detail: Json) -> Json {
    Json::Object(
        seq![
            ("ok"@, Json::Boolean(status == "ok"@)),
            ("status"@, Json::Str(status)),
            ("value"@, value),
            ("detail"@, detail),
        ],
    )
}

/// Wraps `value` and `detail` in an envelope with `status`; `ok` is true
/// exactly for the status `ok`.
pub fn bridge_result_object(status: &str, value: JSValue, detail: JSValue) -> (r: JSValue)
    ensures
        json_of(r) == envelope(status@, json_of(value), json_of(detail)),
{
    let ghost (jv, jd) = (json_of(value), json_of(detail));
    let ok = same_text(status, "ok");
    let mut entries: Vec<(String, JSValue)> = Vec::new();
    push_entry(&mut entries, "ok", JSValue::Boolean(ok));
    push_entry(&mut entries, "status", string_value(status));
    push_entry(&mut entries, "value", value);
    push_entry(&mut entries, "detail", detail);
    let r = object(entries);
    assert(json_entries(entries@) =~= envelope(status@, jv, jd)->Object_0);
    r
}

// ---------------------------------------------------------------------------
// Targets, writes and commands
// ---------------------------------------------------------------------------

/// A live DOM field scripts may read.
#[derive(Clone, Copy, PartialEq, Eq, Structural, Debug)]
pub enum SoliloquyBridgeReadTarget {
    DocumentTitle,
    LocationHref,
    DocumentReadyState,
}

/// The read target a script names, if any.
pub open spec fn read_target_of(s: Seq<char>) -> Option<SoliloquyBridgeReadTarget> {
    if s == "document.title"@ {
        Some(SoliloquyBridgeReadTarget::DocumentTitle)
    } else if s == "location.href"@ || s == "window.location.href"@ {
        Some(SoliloquyBridgeReadTarget::LocationHref)
    } else if s == "document.readyState"@ {
        Some(SoliloquyBridgeReadTarget::DocumentReadyState)
    } else {
        None
    }
}

/// The canonical name of a read target.
pub open spec fn target_label(t: SoliloquyBridgeReadTarget) -> Seq<char> {
    match t {
        SoliloquyBridgeReadTarget::DocumentTitle => "document.title"@,
        SoliloquyBridgeReadTarget::LocationHref => "location.href"@,
        SoliloquyBridgeReadTarget::DocumentReadyState => "document.readyState"@,
    }
}

impl SoliloquyBridgeReadTarget {
    /// The target named by `value`.
    pub fn parse(value: &str) -> (r: Option<SoliloquyBridgeReadTarget>)
        ensures
            r == read_target_of(value@),
    {
        if same_text(value, "document.title") {
            Some(SoliloquyBridgeReadTarget::DocumentTitle)
        } else if same_text(value, "location.href") || same_text(value, "window.location.href") {
            Some(SoliloquyBridgeReadTarget::LocationHref)
        } else if same_text(value, "document.readyState") {
            Some(SoliloquyBridgeReadTarget::DocumentReadyState)
        } else {
            None
        }
    }

    /// Every target holds a string.
    pub fn kind(self) -> (s: &'static str)
        ensures
            s@ == "string"@,
    {
        "string"
    }

    /// The title and the location can be written; the ready state cannot.
    pub fn writable(self) -> (b: bool)
        ensures
            b == (self != SoliloquyBridgeReadTarget::DocumentReadyState),
    {
        match self {
            SoliloquyBridgeReadTarget::DocumentTitle => true,
            SoliloquyBridgeReadTarget::LocationHref => true,
            SoliloquyBridgeReadTarget::DocumentReadyState => false,
        }
    }

    /// The canonical name of this target.
    pub fn label(self) -> (s: &'static str)
        ensures
            s@ == target_label(self),
    {
        match self {
            SoliloquyBridgeReadTarget::DocumentTitle => "document.title",
            SoliloquyBridgeReadTarget::LocationHref => "location.href",
            SoliloquyBridgeReadTarget::DocumentReadyState => "document.readyState",
        }
    }
}

/// A write a script asks for.
#[derive(Clone, Debug, PartialEq, Eq)]
pub enum SoliloquyBridgeWrite {
    SetDocumentTitle(String),
    SetLocationHref(String),
}

/// Whether `w` is the write of `value` to the target named `target`.
pub open spec fn write_matches(w: SoliloquyBridgeWrite, target: Seq<char>, value: Seq<char>) -> bool {
    match w {
        SoliloquyBridgeWrite::SetDocumentTitle(v) => target == "document.title"@ && v@ == value,
        SoliloquyBridgeWrite::SetLocationHref(v) => (target == "location.href"@ || target
            == "window.location.href"@) && v@ == value,
    }
}

/// Whether `target` names a writable target.
pub open spec fn is_write_target(target: Seq<char>) -> bool {
    target == "document.title"@ || target == "location.href"@ || target == "window.location.href"@
}

impl SoliloquyBridgeWrite {
    /// The write of `value` to the target named `target`, if it is writable.
    pub fn parse(target: &str, value: &str) -> (r: Option<SoliloquyBridgeWrite>)
        ensures
            match r {
                Some(w) => write_matches(w, target@, value@),
                None => !is_write_target(target@),
            },
    {
        if same_text(target, "document.title") {
            Some(SoliloquyBridgeWrite::SetDocumentTitle(value.to_owned()))
        } else if same_text(target, "location.href") || same_text(target, "window.location.href") {
            Some(SoliloquyBridgeWrite::SetLocationHref(value.to_owned()))
        } else {
            None
        }
    }
}

/// A structured command sent through `__soliloquyEval`.
#[derive(Clone, Debug, PartialEq, Eq)]
pub enum SoliloquyBridgeCommand {
    EngineBackend,
    EngineStatus,
    WebViewId,
    WebViewDescribe,
    DomCapabilities,
    DomInspect(SoliloquyBridgeReadTarget),
    DomSet(SoliloquyBridgeWrite),
    Unsupported(String),
}

/// Whether `c` is `Unsupported` carrying `name`.
pub open spec fn is_unsupported(c: SoliloquyBridgeCommand, name: Seq<char>) -> bool {
    c matches SoliloquyBridgeCommand::Unsupported(n) && n@ == name
}

/// Whether `c` is the command that `name` with `args` parses to.
pub open spec fn command_matches(c: SoliloquyBridgeCommand, name: Seq<char>, args: Seq<Seq<char>>) -> bool {
    if name == "engine.backend"@ && args.len() == 0 {
        c == SoliloquyBridgeCommand::EngineBackend
    } else if name == "engine.status"@ && args.len() == 0 {
        c == SoliloquyBridgeCommand::EngineStatus
    } else if name == "webview.id"@ && args.len() == 0 {
        c == SoliloquyBridgeCommand::WebViewId
    } else if name == "webview.describe"@ && args.len() == 0 {
        c == SoliloquyBridgeCommand::WebViewDescribe
    } else if name == "dom.capabilities"@ && args.len() == 0 {
        c == SoliloquyBridgeCommand::DomCapabilities
    } else if name == "dom.inspect"@ {
        if args.len() == 1 && read_target_of(args[0]) is Some {
            c == SoliloquyBridgeCommand::DomInspect(read_target_of(args[0]).unwrap())
        } else {
            is_unsupported(c, name)
        }
    } else if name == "dom.set"@ {
        if args.len() == 2 && is_write_target(args[0]) {
            c matches SoliloquyBridgeCommand::DomSet(w) && write_matches(w, args[0], args[1])
        } else {
            is_unsupported(c, name)
        }
    } else {
        is_unsupported(c, name)
    }
}

/// The texts of a list of strings.
pub open spec fn texts(args: Seq<String>) -> Seq<Seq<char>> {
    args.map_values(|s: String| s@)
}

/// The target of `dom.inspect`: its single argument, when that names one.
pub fn parse_dom_inspect(args: &[String]) -> (r: Option<SoliloquyBridgeReadTarget>)
    ensures
        r == if args@.len() == 1 {
            read_target_of(args@[0]@)
        } else {
            None
        },
{
    if args.len() != 1 {
        return None;
    }
    SoliloquyBridgeReadTarget::parse(args[0].as_str())
}

/// The write of `dom.set`: its two arguments, target and value.
pub fn parse_dom_set(args: &[String]) -> (r: Option<SoliloquyBridgeWrite>)
    ensures
        args@.len() == 2 && is_write_target(args@[0]@) ==> (r matches Some(w) && write_matches(
            w,
            args@[0]@,
            args@[1]@,
        )),
        !(args@.len() == 2 && is_write_target(args@[0]@)) ==> r is None,
{
    if args.len() != 2 {
        return None;
    }
    SoliloquyBridgeWrite::parse(args[0].as_str(), args[1].as_str())
}

impl SoliloquyBridgeCommand {
    /// The command `name` with `args`: the argument-free commands need no
    /// arguments, `dom.inspect` a readable target and `dom.set` a writable
    /// target and a value; anything else is unsupported under its name.
    pub fn parse(name: &str, args: &[String]) -> (c: SoliloquyBridgeCommand)
        ensures
            command_matches(c, name@, texts(args@)),
    {
        let ghost a = texts(args@);
        assert(args@.len() == 1 ==> a[0] == args@[0]@);
        assert(args@.len() == 2 ==> a[0] == args@[0]@ && a[1] == args@[1]@);
        let no_args = args.len() == 0;
        if same_text(name, "engine.backend") && no_args {
            SoliloquyBridgeCommand::EngineBackend
        } else if same_text(name, "engine.status") && no_args {
            SoliloquyBridgeCommand::EngineStatus
        } else if same_text(name, "webview.id") && no_args {
            SoliloquyBridgeCommand::WebViewId
        } else if same_text(name, "webview.describe") && no_args {
            SoliloquyBridgeCommand::WebViewDescribe
        } else if same_text(name, "dom.capabilities") && no_args {
            SoliloquyBridgeCommand::DomCapabilities
        } else if same_text(name, "dom.inspect") {
            match parse_dom_inspect(args) {
                Some(t) => SoliloquyBridgeCommand::DomInspect(t),
                None => SoliloquyBridgeCommand::Unsupported(name.to_owned()),
            }
        } else if same_text(name, "dom.set") {
            match parse_dom_set(args) {
                Some(w) => SoliloquyBridgeCommand::DomSet(w),
                None => SoliloquyBridgeCommand::Unsupported(name.to_owned()),
            }
        } else {
            SoliloquyBridgeCommand::Unsupported(name.to_owned())
        }
    }
}

// ---------------------------------------------------------------------------
// Results and mutations
// ---------------------------------------------------------------------------

/// A change to the webview that a write asks for.
#[derive(Clone, Debug, PartialEq, Eq)]
pub enum SoliloquyBridgeMutation {
    Navigate { url: String },
}

/// The value a write produces and the change it asks for.
#[derive(Debug, PartialEq)]
pub struct SoliloquyBridgeWriteOutcome {
    pub value: JSValue,
    pub mutation: Option<SoliloquyBridgeMutation>,
}

impl SoliloquyBridgeWriteOutcome {
    /// An outcome with no change.
    pub fn value(value: JSValue) -> (o: SoliloquyBridgeWriteOutcome)
        ensures
            o.value == value,
            o.mutation is None,
    {
        SoliloquyBridgeWriteOutcome { value, mutation: None }
    }

    /// An outcome that asks for `mutation`.
    pub fn with_mutation(value: JSValue, mutation: SoliloquyBridgeMutation) -> (o: SoliloquyBridgeWriteOutcome)
        ensures
            o.value == value,
            o.mutation == Some(mutation),
    {
        SoliloquyBridgeWriteOutcome { value, mutation: Some(mutation) }
    }

    /// The value and the change, apart.
    pub fn into_parts(self) -> (r: (JSValue, Option<SoliloquyBridgeMutation>))
        ensures
            r.0 == self.value,
            r.1 == self.mutation,
    {
        (self.value, self.mutation)
    }
}

/// The answer to a bridge request.
#[derive(Debug, PartialEq)]
pub enum SoliloquyBridgeResult {
    Value(JSValue),
    Unsupported { operation: String },
    Error { message: String },
}

/// The envelope a result is handed back in.
pub open spec fn result_json(r: SoliloquyBridgeResult) -> Json {
    match r {
        SoliloquyBridgeResult::Value(v) => envelope("ok"@, json_of(v), Json::Null),
        SoliloquyBridgeResult::Unsupported { operation } => envelope(
            "unsupported"@,
            Json::Null,
            Json::Str(operation@),
        ),
        SoliloquyBridgeResult::Error { message } => envelope(
            "error"@,
            Json::Null,
            Json::Str(message@),
        ),
    }
}

/// Whether `r` is an error carrying `message`.
pub open spec fn is_error_with(r: SoliloquyBridgeResult, message: Seq<char>) -> bool {
    r matches SoliloquyBridgeResult::Error { message: m } && m@ == message
}

impl SoliloquyBridgeResult {
    pub fn value(value: JSValue) -> (r: SoliloquyBridgeResult)
        ensures
            r == SoliloquyBridgeResult::Value(value),
    {
        SoliloquyBridgeResult::Value(value)
    }

    pub fn unsupported(operation: String) -> (r: SoliloquyBridgeResult)
        ensures
            r == (SoliloquyBridgeResult::Unsupported { operation }),
    {
        SoliloquyBridgeResult::Unsupported { operation }
    }

    pub fn error(message: String) -> (r: SoliloquyBridgeResult)
        ensures
            r == (SoliloquyBridgeResult::Error { message }),
    {
        SoliloquyBridgeResult::Error { message }
    }

    /// The envelope of this result: `ok` with the value, or `unsupported` /
    /// `error` with the operation or message as detail.
    pub fn into_js_value(self) -> (v: JSValue)
        ensures
            json_of(v) == result_json(self),
    {
        match self {
            SoliloquyBridgeResult::Value(value) => bridge_result_object("ok", value, JSValue::Null),
            SoliloquyBridgeResult::Unsupported { operation } => bridge_result_object(
                "unsupported",
                JSValue::Null,
                JSValue::String(operation),
            ),
            SoliloquyBridgeResult::Error { message } => bridge_result_object(
                "error",
                JSValue::Null,
                JSValue::String(message),
            ),
        }
    }
}

// ---------------------------------------------------------------------------
// Webview snapshots
// ---------------------------------------------------------------------------

/// Identifies a webview by the namespace and index of its browsing context.
#[derive(Clone, Copy, PartialEq, Eq, Structural, Debug, Hash)]
pub struct WebViewId {
    pub namespace_id: u32,
    pub index: u32,
}

/// The key a webview's snapshot is stored under.
pub open spec fn webview_key(id: WebViewId) -> u64 {
    (id.namespace_id as int * 0x1_0000_0000 + id.index as int) as u64
}

pub(crate) fn webview_key_exec(id: WebViewId) -> (k: u64)
    ensures
        k == webview_key(id),
{
    (id.namespace_id as u64) * 0x1_0000_0000 + (id.index as u64)
}

/// Different webviews are stored under different keys.
pub proof fn lemma_webview_key_injective(a: WebViewId, b: WebViewId)
    ensures
        webview_key(a) == webview_key(b) <==> a == b,
{
}

/// How far a page has loaded.
#[derive(Clone, Copy, PartialEq, Eq, Structural, Debug)]
pub enum LoadStatus {
    Started,
    HeadParsed,
    Complete,
}

/// The `document.readyState` text of a load status.
pub open spec fn ready_state_text(s: LoadStatus) -> Seq<char> {
    match s {
        LoadStatus::Started => "loading"@,
        LoadStatus::HeadParsed => "interactive"@,
        LoadStatus::Complete => "complete"@,
    }
}

/// The live DOM fields last reported for a webview.
#[derive(Clone, Debug)]
pub struct SoliloquyWebViewSnapshot {
    pub page_title: Option<String>,
    pub current_url: Option<String>,
    pub ready_state: Option<String>,
}

/// The text an optional string holds.
pub open spec fn opt_text(s: Option<String>) -> Option<Seq<char>> {
    match s {
        Some(t) => Some(t@),
        None => None,
    }
}

/// A snapshot's fields as texts.
pub struct SnapshotView {
    pub title: Option<Seq<char>>,
    pub url: Option<Seq<char>>,
    pub ready: Option<Seq<char>>,
}

/// The snapshot with nothing recorded.
pub open spec fn empty_snapshot() -> SnapshotView {
    SnapshotView { title: None, url: None, ready: None }
}

impl View for SoliloquyWebViewSnapshot {
    type V = SnapshotView;

    open spec fn view(&self) -> SnapshotView {
        SnapshotView {
            title: opt_text(self.page_title),
            url: opt_text(self.current_url),
            ready: opt_text(self.ready_state),
        }
    }
}

fn clone_opt(s: &Option<String>) -> (r: Option<String>)
    ensures
        opt_text(r) == opt_text(*s),
{
    match s {
        Some(t) => Some(t.clone()),
        None => None,
    }
}

fn clone_snapshot(s: &SoliloquyWebViewSnapshot) -> (r: SoliloquyWebViewSnapshot)
    ensures
        r@ == s@,
{
    SoliloquyWebViewSnapshot {
        page_title: clone_opt(&s.page_title),
        current_url: clone_opt(&s.current_url),
        ready_state: clone_opt(&s.ready_state),
    }
}

/// The snapshots of all webviews.
pub struct BridgeState {
    snapshots: HashMap<u64, SoliloquyWebViewSnapshot>,
}

impl View for BridgeState {
    type V = Map<u64, SnapshotView>;

    closed spec fn view(&self) -> Map<u64, SnapshotView> {
        Map::new(|k: u64| self.snapshots@.contains_key(k), |k: u64| self.snapshots@[k]@)
    }
}

/// The snapshot of `id`, if anything was recorded for it.
pub open spec fn snapshot_of(m: Map<u64, SnapshotView>, id: WebViewId) -> Option<SnapshotView> {
    if m.contains_key(webview_key(id)) {
        Some(m[webview_key(id)])
    } else {
        None
    }
}

/// The snapshot of `id`, or the empty snapshot.
pub open spec fn snapshot_or_empty(m: Map<u64, SnapshotView>, id: WebViewId) -> SnapshotView {
    match snapshot_of(m, id) {
        Some(s) => s,
        None => empty_snapshot(),
    }
}

impl BridgeState {
    /// No snapshots.
    pub fn new() -> (s: BridgeState)
        ensures
            s@ == Map::<u64, SnapshotView>::empty(),
    {
        let s = BridgeState { snapshots: HashMap::new() };
        assert(s@ =~= Map::<u64, SnapshotView>::empty());
        s
    }

    fn take_snapshot(&mut self, id: WebViewId) -> (s: SoliloquyWebViewSnapshot)
        ensures
            s@ == snapshot_or_empty(old(self)@, id),
            final(self)@ == old(self)@.remove(webview_key(id)),
    {
        let key = webview_key_exec(id);
        let s = match self.snapshots.remove(&key) {
            Some(s) => s,
            None => SoliloquyWebViewSnapshot::default(),
        };
        assert(self@ =~= old(self)@.remove(webview_key(id)));
        s
    }

    fn put_snapshot(&mut self, id: WebViewId, s: SoliloquyWebViewSnapshot)
        ensures
            final(self)@ == old(self)@.insert(webview_key(id), s@),
    {
        let ghost sv = s@;
        let key = webview_key_exec(id);
        self.snapshots.insert(key, s);
        assert(self@ =~= old(self)@.insert(webview_key(id), sv));
    }

    fn snapshot(&self, id: WebViewId) -> (r: Option<SoliloquyWebViewSnapshot>)
        ensures
            match r {
                Some(s) => snapshot_of(self@, id) == Some(s@),
                None => snapshot_of(self@, id) is None,
            },
    {
        let key = webview_key_exec(id);
        match self.snapshots.get(&key) {
            Some(s) => Some(clone_snapshot(s)),
            None => None,
        }
    }
}

impl Default for SoliloquyWebViewSnapshot {
    fn default() -> (s: SoliloquyWebViewSnapshot)
        ensures
            s@ == empty_snapshot(),
    {
        SoliloquyWebViewSnapshot { page_title: None, current_url: None, ready_state: None }
    }
}

/// Records the page title of `id`.
pub fn record_webview_page_title(state: &mut BridgeState, id: WebViewId, title: Option<String>)
    ensures
        final(state)@ == old(state)@.insert(
            webview_key(id),
            SnapshotView { title: opt_text(title), ..snapshot_or_empty(old(state)@, id) },
        ),
{
    let ghost t = opt_text(title);
    let mut s = state.take_snapshot(id);
    s.page_title = title;
    state.put_snapshot(id, s);
    assert(state@ =~= old(state)@.insert(
        webview_key(id),
        SnapshotView { title: t, ..snapshot_or_empty(old(state)@, id) },
    ));
}

/// Records that `id` was asked to navigate to `url`.
pub fn record_webview_navigation_request(state: &mut BridgeState, id: WebViewId, url: String)
    ensures
        final(state)@ == old(state)@.insert(
            webview_key(id),
            SnapshotView { url: Some(url@), ..snapshot_or_empty(old(state)@, id) },
        ),
{
    let ghost u = url@;
    let mut s = state.take_snapshot(id);
    s.current_url = Some(url);
    state.put_snapshot(id, s);
    assert(state@ =~= old(state)@.insert(
        webview_key(id),
        SnapshotView { url: Some(u), ..snapshot_or_empty(old(state)@, id) },
    ));
}

/// Records the current URL of `id` after a history change.
pub fn record_webview_history_change(state: &mut BridgeState, id: WebViewId, current_url: Option<String>)
    ensures
        final(state)@ == old(state)@.insert(
            webview_key(id),
            SnapshotView { url: opt_text(current_url), ..snapshot_or_empty(old(state)@, id) },
        ),
{
    let ghost u = opt_text(current_url);
    let mut s = state.take_snapshot(id);
    s.current_url = current_url;
    state.put_snapshot(id, s);
    assert(state@ =~= old(state)@.insert(
        webview_key(id),
        SnapshotView { url: u, ..snapshot_or_empty(old(state)@, id) },
    ));
}

fn ready_state_string(status: LoadStatus) -> (s: String)
    ensures
        s@ == ready_state_text(status),
{
    match status {
        LoadStatus::Started => "loading".to_owned(),
        LoadStatus::HeadParsed => "interactive".to_owned(),
        LoadStatus::Complete => "complete".to_owned(),
    }
}

/// Records the load status of `id` as its `document.readyState`.
pub fn record_webview_load_status(state: &mut BridgeState, id: WebViewId, load_status: LoadStatus)
    ensures
        final(state)@ == old(state)@.insert(
            webview_key(id),
            SnapshotView {
                ready: Some(ready_state_text(load_status)),
                ..snapshot_or_empty(old(state)@, id)
            },
        ),
{
    let mut s = state.take_snapshot(id);
    s.ready_state = Some(ready_state_string(load_status));
    state.put_snapshot(id, s);
    assert(state@ =~= old(state)@.insert(
        webview_key(id),
        SnapshotView {
            ready: Some(ready_state_text(load_status)),
            ..snapshot_or_empty(old(state)@, id)
        },
    ));
}

/// Forgets everything recorded for `id`.
pub fn clear_webview_snapshot(state: &mut BridgeState, id: WebViewId)
    ensures
        final(state)@ == old(state)@.remove(webview_key(id)),
{
    let key = webview_key_exec(id);
    state.snapshots.remove(&key);
    assert(state@ =~= old(state)@.remove(webview_key(id)));
}

/// Forgets every snapshot.
pub fn reset_webview_snapshots(state: &mut BridgeState)
    ensures
        final(state)@ == Map::<u64, SnapshotView>::empty(),
{
    state.snapshots.clear();
    assert(state@ =~= Map::<u64, SnapshotView>::empty());
}

/// The value of an optional text: the string, or `null`.
pub open spec fn text_or_null(t: Option<Seq<char>>) -> Json {
    match t {
        Some(s) => Json::Str(s),
        None => Json::Null,
    }
}

fn string_or_null(s: Option<String>) -> (v: JSValue)
    ensures
        json_of(v) == text_or_null(opt_text(s)),
{
    match s {
        Some(t) => JSValue::String(t),
        None => JSValue::Null,
    }
}

/// The field of a snapshot a target reads.
pub open spec fn target_field(s: SnapshotView, t: SoliloquyBridgeReadTarget) -> Option<Seq<char>> {
    match t {
        SoliloquyBridgeReadTarget::DocumentTitle => s.title,
        SoliloquyBridgeReadTarget::LocationHref => s.url,
        SoliloquyBridgeReadTarget::DocumentReadyState => s.ready,
    }
}

/// The value of `target` for `id`: `None` when nothing was recorded for the
/// webview, else the recorded text or `null`.
pub open spec fn read_spec(m: Map<u64, SnapshotView>, id: WebViewId, t: SoliloquyBridgeReadTarget) -> Option<Json> {
    match snapshot_of(m, id) {
        Some(s) => Some(text_or_null(target_field(s, t))),
        None => None,
    }
}

/// Reads `target` from the snapshot of `id`.
pub fn read_property(state: &BridgeState, id: WebViewId, target: SoliloquyBridgeReadTarget) -> (r: Option<JSValue>)
    ensures
        match r {
            Some(v) => read_spec(state@, id, target) == Some(json_of(v)),
            None => read_spec(state@, id, target) is None,
        },
{
    let snapshot = match state.snapshot(id) {
        Some(s) => s,
        None => {
            return None;
        },
    };
    Some(
        match target {
            SoliloquyBridgeReadTarget::DocumentTitle => string_or_null(snapshot.page_title),
            SoliloquyBridgeReadTarget::LocationHref => string_or_null(snapshot.current_url),
            SoliloquyBridgeReadTarget::DocumentReadyState => string_or_null(snapshot.ready_state),
        },
    )
}

/// The snapshot after a write.
pub open spec fn snapshot_after_write(s: SnapshotView, w: SoliloquyBridgeWrite) -> SnapshotView {
    match w {
        SoliloquyBridgeWrite::SetDocumentTitle(t) => SnapshotView { title: Some(t@), ..s },
        SoliloquyBridgeWrite::SetLocationHref(u) => SnapshotView {
            url: Some(u@),
            ready: Some("loading"@),
            ..s
        },
    }
}

/// Performs `write` on the snapshot of `id`: a title is recorded; a
/// location is recorded with the page loading again, and asks for
/// navigation.  The written text is the value.
pub fn write_property(state: &mut BridgeState, id: WebViewId, write: SoliloquyBridgeWrite) -> (o: SoliloquyBridgeWriteOutcome)
    ensures
        final(state)@ == old(state)@.insert(
            webview_key(id),
            snapshot_after_write(snapshot_or_empty(old(state)@, id), write),
        ),
        match write {
            SoliloquyBridgeWrite::SetDocumentTitle(t) => json_of(o.value) == Json::Str(t@)
                && o.mutation is None,
            SoliloquyBridgeWrite::SetLocationHref(u) => json_of(o.value) == Json::Str(u@) && (
            o.mutation matches Some(SoliloquyBridgeMutation::Navigate { url }) && url@ == u@),
        },
{
    let ghost w = write;
    let mut s = state.take_snapshot(id);
    let ghost before = s@;
    let outcome = match write {
        SoliloquyBridgeWrite::SetDocumentTitle(title) => {
            s.page_title = Some(title.clone());
            SoliloquyBridgeWriteOutcome::value(JSValue::String(title))
        },
        SoliloquyBridgeWrite::SetLocationHref(url) => {
            s.current_url = Some(url.clone());
            s.ready_state = Some("loading".to_owned());
            SoliloquyBridgeWriteOutcome::with_mutation(
                JSValue::String(url.clone()),
                SoliloquyBridgeMutation::Navigate { url },
            )
        },
    };
    assert(s@ == snapshot_after_write(before, w));
    state.put_snapshot(id, s);
    outcome
}

/// The description of a read target for `dom.inspect`.
pub open spec fn inspect_json(t: SoliloquyBridgeReadTarget, value: Json) -> Json {
    let available = value != Json::Null;
    Json::Object(
        seq![
            ("target"@, Json::Str(target_label(t))),
            ("kind"@, Json::Str("string"@)),
            ("writable"@, Json::Boolean(t != SoliloquyBridgeReadTarget::DocumentReadyState)),
            ("status"@, Json::Str(if available { "live-snapshot"@ } else { "fallback-required"@ })),
            ("fallbackEngine"@, Json::Str("mozjs"@)),
            ("valueAvailable"@, Json::Boolean(available)),
            ("value"@, value),
        ],
    )
}

/// The value `read_property` gives, with `null` for an unknown webview.
pub open spec fn read_or_null(m: Map<u64, SnapshotView>, id: WebViewId, t: SoliloquyBridgeReadTarget) -> Json {
    match read_spec(m, id, t) {
        Some(v) => v,
        None => Json::Null,
    }
}

/// Describes `target` for `id`: its name, kind and writability, whether a
/// live value is available (a value other than `null`), and the value.
pub fn inspect_property(state: &BridgeState, id: WebViewId, target: SoliloquyBridgeReadTarget) -> (v: JSValue)
    ensures
        json_of(v) == inspect_json(target, read_or_null(state@, id, target)),
{
    let value = match read_property(state, id, target) {
        Some(v) => v,
        None => JSValue::Null,
    };
    let ghost jv = json_of(value);
    let available = match value {
        JSValue::Null => false,
        _ => true,
    };
    assert(available == (jv != Json::Null));
    let mut entries: Vec<(String, JSValue)> = Vec::new();
    push_entry(&mut entries, "target", string_value(target.label()));
    push_entry(&mut entries, "kind", string_value(target.kind()));
    push_entry(&mut entries, "writable", JSValue::Boolean(target.writable()));
    let status = if available {
        "live-snapshot"
    } else {
        "fallback-required"
    };
    push_entry(&mut entries, "status", string_value(status));
    push_entry(&mut entries, "fallbackEngine", string_value("mozjs"));
    push_entry(&mut entries, "valueAvailable", JSValue::Boolean(available));
    push_entry(&mut entries, "value", value);
    let r = object(entries);
    assert(json_entries(entries@) =~= inspect_json(target, jv)->Object_0);
    r
}

/// Whether at least one live DOM field was recorded for `id`.
pub open spec fn bridge_ready(m: Map<u64, SnapshotView>, id: WebViewId) -> bool {
    match snapshot_of(m, id) {
        Some(s) => s.title is Some || s.url is Some || s.ready is Some,
        None => false,
    }
}

/// Whether at least one live DOM field was recorded for `id`.
pub fn webview_bridge_ready(state: &BridgeState, id: WebViewId) -> (b: bool)
    ensures
        b == bridge_ready(state@, id),
{
    match state.snapshot(id) {
        Some(s) => s.page_title.is_some() || s.current_url.is_some() || s.ready_state.is_some(),
        None => false,
    }
}

/// The number scripts see as the id of `id`: its browsing context index.
pub fn webview_bridge_id(id: WebViewId) -> (n: i64)
    ensures
        n == id.index,
{
    id.index as i64
}

/// The description of a webview for `webview.describe`.
pub open spec fn describe_json(m: Map<u64, SnapshotView>, id: WebViewId, backend: Seq<char>) -> Json {
    let s = snapshot_or_empty(m, id);
    Json::Object(
        seq![
            ("id"@, Json::Number(id.index as int)),
            ("backend"@, Json::Str(backend)),
            ("url"@, text_or_null(s.url)),
            ("title"@, text_or_null(s.title)),
            ("readyState"@, text_or_null(s.ready)),
            ("controlsDom"@, Json::Boolean(snapshot_of(m, id) is Some)),
        ],
    )
}

/// Describes webview `id`: its id, the engine backend, the recorded URL,
/// title and ready state (or `null`), and whether anything was recorded.
pub fn describe_webview(state: &BridgeState, id: WebViewId, backend: &str) -> (v: JSValue)
    ensures
        json_of(v) == describe_json(state@, id, backend@),
{
    let snapshot = state.snapshot(id);
    let controls = snapshot.is_some();
    let s = match snapshot {
        Some(s) => s,
        None => SoliloquyWebViewSnapshot::default(),
    };
    let ghost sv = s@;
    let mut entries: Vec<(String, JSValue)> = Vec::new();
    push_entry(&mut entries, "id", JSValue::Number(webview_bridge_id(id)));
    push_entry(&mut entries, "backend", string_value(backend));
    push_entry(&mut entries, "url", string_or_null(s.current_url));
    push_entry(&mut entries, "title", string_or_null(s.page_title));
    push_entry(&mut entries, "readyState", string_or_null(s.ready_state));
    push_entry(&mut entries, "controlsDom", JSValue::Boolean(controls));
    let r = object(entries);
    assert(json_entries(entries@) =~= describe_json(state@, id, backend@)->Object_0);
    r
}

/// The version of the bridge schema.
pub const SOLILOQUY_BRIDGE_SCHEMA_VERSION: &'static str = "rv8-bridge-v1";

/// The bridge schema: the commands with their arguments and the read and
/// write targets.
pub const SOLILOQUY_BRIDGE_SCHEMA: &'static str = "{\"version\":\"rv8-bridge-v1\",\"commands\":[{\"name\":\"engine.backend\",\"args\":[]},{\"name\":\"engine.status\",\"args\":[]},{\"name\":\"webview.id\",\"args\":[]},{\"name\":\"webview.describe\",\"args\":[]},{\"name\":\"dom.capabilities\",\"args\":[]},{\"name\":\"dom.inspect\",\"args\":[\"target\"]},{\"name\":\"dom.set\",\"args\":[\"target\",\"value\"]}],\"targets\":{\"read\":[\"document.title\",\"location.href\",\"window.location.href\",\"document.readyState\"],\"write\":[\"document.title\",\"location.href\",\"window.location.href\"]}}";

/// What the bridge can do, for `dom.capabilities`.
pub open spec fn capabilities_json() -> Json {
    Json::Object(
        seq![
            ("simpleEval"@, Json::Boolean(true)),
            ("structuredCommands"@, Json::Boolean(true)),
            ("liveDomProperties"@, Json::Boolean(true)),
            ("liveDomWrites"@, Json::Boolean(true)),
            ("navigationWrites"@, Json::Boolean(true)),
            ("controlsDom"@, Json::Boolean(true)),
            ("fallbackEngine"@, Json::Str("mozjs"@)),
            ("schemaVersion"@, Json::Str(SOLILOQUY_BRIDGE_SCHEMA_VERSION@)),
            ("schema"@, Json::Str(SOLILOQUY_BRIDGE_SCHEMA@)),
        ],
    )
}

/// What the bridge can do.
pub fn capabilities() -> (v: JSValue)
    ensures
        json_of(v) == capabilities_json(),
{
    let mut entries: Vec<(String, JSValue)> = Vec::new();
    push_entry(&mut entries, "simpleEval", JSValue::Boolean(true));
    push_entry(&mut entries, "structuredCommands", JSValue::Boolean(true));
    push_entry(&mut entries, "liveDomProperties", JSValue::Boolean(true));
    push_entry(&mut entries, "liveDomWrites", JSValue::Boolean(true));
    push_entry(&mut entries, "navigationWrites", JSValue::Boolean(true));
    push_entry(&mut entries, "controlsDom", JSValue::Boolean(true));
    push_entry(&mut entries, "fallbackEngine", string_value("mozjs"));
    push_entry(&mut entries, "schemaVersion", string_value(SOLILOQUY_BRIDGE_SCHEMA_VERSION));
    push_entry(&mut entries, "schema", string_value(SOLILOQUY_BRIDGE_SCHEMA));
    let r = object(entries);
    assert(json_entries(entries@) =~= capabilities_json()->Object_0);
    r
}

// ---------------------------------------------------------------------------
// Resolving writes
// ---------------------------------------------------------------------------

/// The message of an invalid-location error for `e`.
pub open spec fn invalid_href_message(e: UrlError) -> Seq<char> {
    "invalid location.href: "@ + url_error_text(e)
}

/// How `resolve_location_href` answers for `href` on `id`: the empty
/// string is refused; an absolute URL gives its serialization; a relative
/// one is resolved against the webview's recorded URL when there is one;
/// anything else gives an error naming the parse error.
pub open spec fn resolve_href_spec(m: Map<u64, SnapshotView>, id: WebViewId, href: Seq<char>) -> Result<Seq<char>, Seq<char>> {
    if href.len() == 0 {
        Err("location.href cannot be empty"@)
    } else {
        match url_parse_error(href) {
            None => Ok(url_serialization(href)),
            Some(UrlError::RelativeUrlWithoutBase) => match snapshot_or_empty(m, id).url {
                None => Err("invalid location.href: relative URL without a base"@),
                Some(base) => match url_parse_error(base) {
                    Some(e) => Err("invalid base location.href: "@ + url_error_text(e)),
                    None => match url_join_outcome(base, href) {
                        Ok(u) => Ok(u),
                        Err(e) => Err(invalid_href_message(e)),
                    },
                },
            },
            Some(e) => Err(invalid_href_message(e)),
        }
    }
}

fn concat(a: &str, b: String) -> (r: String)
    ensures
        r@ == a@ + b@,
{
    let mut r = a.to_owned();
    let cs = crate::text::chars_of(b.as_str());
    let mut i: usize = 0;
    while i < cs.len()
        invariant
            cs@ == b@,
            i <= cs@.len(),
            r@ == a@ + cs@.subrange(0, i as int),
        decreases cs@.len() - i,
    {
        crate::text::push_char(&mut r, cs[i]);
        assert(cs@.subrange(0, i + 1) =~= cs@.subrange(0, i as int).push(cs@[i as int]));
        assert(r@ =~= a@ + cs@.subrange(0, i + 1));
        i = i + 1;
    }
    assert(cs@.subrange(0, cs@.len() as int) =~= cs@);
    r
}

/// Resolves the location `href` for `id` (see `resolve_href_spec`); the
/// error is an error result carrying the message.
pub fn resolve_location_href(state: &BridgeState, id: WebViewId, href: &str) -> (r: Result<String, SoliloquyBridgeResult>)
    ensures
        match r {
            Ok(u) => resolve_href_spec(state@, id, href@) == Ok::<Seq<char>, Seq<char>>(u@),
            Err(e) => resolve_href_spec(state@, id, href@) matches Err(msg) && is_error_with(e, msg),
        },
{
    if href.is_empty() {
        return Err(SoliloquyBridgeResult::error("location.href cannot be empty".to_owned()));
    }
    match ParsedUrl::parse(href) {
        Ok(url) => Ok(url.as_str()),
        Err(UrlError::RelativeUrlWithoutBase) => {
            let base_url = match state.snapshot(id) {
                Some(s) => s.current_url,
                None => None,
            };
            let base_url = match base_url {
                Some(b) => b,
                None => {
                    return Err(
                        SoliloquyBridgeResult::error(
                            "invalid location.href: relative URL without a base".to_owned(),
                        ),
                    );
                },
            };
            let base = match ParsedUrl::parse(base_url.as_str()) {
                Ok(b) => b,
                Err(e) => {
                    return Err(
                        SoliloquyBridgeResult::error(concat("invalid base location.href: ", e.message())),
                    );
                },
            };
            match base.join(href) {
                Ok(u) => Ok(u),
                Err(e) => Err(
                    SoliloquyBridgeResult::error(concat("invalid location.href: ", e.message())),
                ),
            }
        },
        Err(e) => Err(SoliloquyBridgeResult::error(concat("invalid location.href: ", e.message()))),
    }
}

/// The write after resolving its location: a title is kept as it is, a
/// location is resolved, and a resolution error is returned.
pub fn resolve_write(state: &BridgeState, id: WebViewId, write: SoliloquyBridgeWrite) -> (r: Result<SoliloquyBridgeWrite, SoliloquyBridgeResult>)
    ensures
        match write {
            SoliloquyBridgeWrite::SetDocumentTitle(t) => r matches Ok(
                SoliloquyBridgeWrite::SetDocumentTitle(t2),
            ) && t2@ == t@,
            SoliloquyBridgeWrite::SetLocationHref(u) => match resolve_href_spec(state@, id, u@) {
                Ok(v) => r matches Ok(SoliloquyBridgeWrite::SetLocationHref(v2)) && v2@ == v,
                Err(msg) => r matches Err(e) && is_error_with(e, msg),
            },
        },
{
    match write {
        SoliloquyBridgeWrite::SetDocumentTitle(title) => Ok(SoliloquyBridgeWrite::SetDocumentTitle(title)),
        SoliloquyBridgeWrite::SetLocationHref(url) => match resolve_location_href(state, id, url.as_str()) {
            Ok(u) => Ok(SoliloquyBridgeWrite::SetLocationHref(u)),
            Err(e) => Err(e),
        },
    }
}

// ---------------------------------------------------------------------------
// Laws
// ---------------------------------------------------------------------------

/// A written title reads back as written.
pub proof fn law_title_reads_back(m: Map<u64, SnapshotView>, id: WebViewId, t: Seq<char>)
    ensures
        ({
            let m2 = m.insert(webview_key(id), SnapshotView { title: Some(t), ..snapshot_or_empty(m, id) });
            read_spec(m2, id, SoliloquyBridgeReadTarget::DocumentTitle) == Some(Json::Str(t))
        }),
{
}

/// A written location reads back as written, and the page reads as
/// loading again.
pub proof fn law_location_reads_back(m: Map<u64, SnapshotView>, id: WebViewId, u: Seq<char>)
    ensures
        ({
            let m2 = m.insert(
                webview_key(id),
                SnapshotView { url: Some(u), ready: Some("loading"@), ..snapshot_or_empty(m, id) },
            );
            &&& read_spec(m2, id, SoliloquyBridgeReadTarget::LocationHref) == Some(Json::Str(u))
            &&& read_spec(m2, id, SoliloquyBridgeReadTarget::DocumentReadyState) == Some(
                Json::Str("loading"@),
            )
        }),
{
}

/// Recording anything for one webview leaves every other webview's
/// snapshot as it was.
pub proof fn law_webviews_are_independent(m: Map<u64, SnapshotView>, id: WebViewId, s: SnapshotView, other: WebViewId)
    requires
        other != id,
    ensures
        snapshot_of(m.insert(webview_key(id), s), other) == snapshot_of(m, other),
{
    lemma_webview_key_injective(id, other);
}

/// A webview whose snapshot was cleared reads as unknown: every target is
/// unavailable and it is not ready.
pub proof fn law_cleared_webview_is_unknown(m: Map<u64, SnapshotView>, id: WebViewId, t: SoliloquyBridgeReadTarget)
    ensures
        read_spec(m.remove(webview_key(id)), id, t) is None,
        !bridge_ready(m.remove(webview_key(id)), id),
{
}

/// The envelope of a result says `ok` exactly for a value.
pub proof fn law_envelope_ok_only_for_values(r: SoliloquyBridgeResult)
    ensures
        (result_json(r)->Object_0)[0] == ("ok"@, Json::Boolean(r is Value)),
{
    reveal_strlit("ok");
    reveal_strlit("unsupported");
    reveal_strlit("error");
}


/// `dom.inspect` calls a target writable exactly when `dom.set` accepts a
/// write to it under its own name: the title and the location are
/// writable, the ready state is not.
pub proof fn law_inspection_writability_matches_write_targets(t: SoliloquyBridgeReadTarget, v: Json)
    ensures
        inspect_json(t, v) matches Json::Object(es) && es.len() == 7
            && es[2] == ("writable"@, Json::Boolean(is_write_target(target_label(t)))),
        (t == SoliloquyBridgeReadTarget::DocumentTitle || t == SoliloquyBridgeReadTarget::LocationHref)
            ==> inspect_json(t, v)->Object_0[2].1 == Json::Boolean(true),
        t == SoliloquyBridgeReadTarget::DocumentReadyState ==> inspect_json(t, v)->Object_0[2].1
            == Json::Boolean(false),
{
    if t == SoliloquyBridgeReadTarget::DocumentReadyState {
        reveal_strlit("document.title");
        reveal_strlit("location.href");
        reveal_strlit("window.location.href");
        reveal_strlit("document.readyState");
        assert("document.readyState"@.len() == 19);
        assert("document.title"@.len() == 14);
        assert("location.href"@.len() == 13);
        assert("window.location.href"@.len() == 20);
        assert(target_label(t) != "document.title"@);
        assert(target_label(t) != "location.href"@);
        assert(target_label(t) != "window.location.href"@);
    }
}

/// `webview.describe` agrees with the reads of the same webview: its id is
/// the webview's index, and its URL, title and ready state are what reading
/// `location.href`, `document.title` and `document.readyState` gives (null
/// for a webview with nothing recorded).
pub proof fn law_describe_agrees_with_reads(m: Map<u64, SnapshotView>, id: WebViewId, backend: Seq<char>)
    ensures
        describe_json(m, id, backend) matches Json::Object(es) && es.len() == 6
            && es[0] == ("id"@, Json::Number(id.index as int))
            && es[1] == ("backend"@, Json::Str(backend))
            && es[2] == ("url"@, read_or_null(m, id, SoliloquyBridgeReadTarget::LocationHref))
            && es[3] == ("title"@, read_or_null(m, id, SoliloquyBridgeReadTarget::DocumentTitle))
            && es[4] == ("readyState"@, read_or_null(m, id, SoliloquyBridgeReadTarget::DocumentReadyState))
            && es[5] == ("controlsDom"@, Json::Boolean(read_spec(m, id, SoliloquyBridgeReadTarget::DocumentTitle) is Some)),
{
}

/// After a load status is recorded for a webview, `webview.describe`
/// reports the ready state that status stands for (`complete` once the
/// load completed), as a read of `document.readyState` does.
pub proof fn law_describe_reports_recorded_ready_state(m: Map<u64, SnapshotView>, id: WebViewId, status: LoadStatus, backend: Seq<char>)
    ensures
        ({
            let m2 = m.insert(
                webview_key(id),
                SnapshotView { ready: Some(ready_state_text(status)), ..snapshot_or_empty(m, id) },
            );
            &&& describe_json(m2, id, backend)->Object_0[4] == ("readyState"@, Json::Str(ready_state_text(status)))
            &&& read_spec(m2, id, SoliloquyBridgeReadTarget::DocumentReadyState) == Some(Json::Str(ready_state_text(status)))
            &&& (status == LoadStatus::Complete ==> describe_json(m2, id, backend)->Object_0[4].1 == Json::Str("complete"@))
        }),
{
}

} // verus!
