//! The Soliloquy script dispatcher: it answers the simple scripts it
//! recognises (live DOM reads and writes, structured bridge commands,
//! literals and engine probes) without an engine.
use crate::bridge::{
    bridge_ready, capabilities, capabilities_json, command_matches, describe_json,
    describe_webview, envelope, inspect_json, inspect_property, is_error_with, is_write_target,
    json_of, read_or_null, read_property, read_spec, read_target_of, resolve_href_spec,
    resolve_write, result_json, snapshot_or_empty, texts, webview_bridge_id, webview_key,
    write_matches, write_property, BridgeState, JSValue, Json, SnapshotView,
    SoliloquyBridgeCommand, SoliloquyBridgeMutation, SoliloquyBridgeReadTarget,
    SoliloquyBridgeResult, SoliloquyBridgeWrite, WebViewId,
};
use crate::text::{
    ascii_lowercase_spec, chars_equal_str, chars_of, same_text, skip_white, string_of,
    to_ascii_lowercase, trim, trim_range, trim_spec, trim_start_spec,
};
use vstd::prelude::*;
use vstd::string::StringExecFns;
use vstd::slice::slice_subrange;

verus! {

// ---------------------------------------------------------------------------
// Scanning script text
// ---------------------------------------------------------------------------

/// Whether `c` opens a string literal.
pub open spec fn is_quote(c: char) -> bool {
    c == '\'' || c == '"'
}

/// The text of a string literal: quoted by the same quote at both ends,
/// with no such quote inside.
pub open spec fn string_literal_spec(s: Seq<char>) -> Option<Seq<char>> {
    if s.len() >= 2 && is_quote(s[0]) && s.last() == s[0] && !s.subrange(1, s.len() - 1).contains(
        s[0],
    ) {
        Some(s.subrange(1, s.len() - 1))
    } else {
        None
    }
}

/// The string literal `script` spells, if it is one.
pub fn parse_string_literal(script: &str) -> (r: Option<String>)
    ensures
        match r {
            Some(t) => string_literal_spec(script@) == Some(t@),
            None => string_literal_spec(script@) is None,
        },
{
    let cs = chars_of(script);
    if cs.len() < 2 {
        return None;
    }
    let quote = cs[0];
    if (quote != '\'' && quote != '"') || cs[cs.len() - 1] != quote {
        return None;
    }
    let mut i: usize = 1;
    while i < cs.len() - 1
        invariant
            cs@ == script@,
            cs@.len() >= 2,
            quote == cs@[0],
            is_quote(quote),
            cs@.last() == quote,
            1 <= i <= cs@.len() - 1,
            forall|j: int| 1 <= j < i ==> cs@[j] != quote,
        decreases cs@.len() - i,
    {
        if cs[i] == quote {
            proof {
                let inner = cs@.subrange(1, cs@.len() - 1);
                assert(inner[i - 1] == quote);
                assert(inner.contains(quote));
            }
            return None;
        }
        i = i + 1;
    }
    proof {
        let inner = cs@.subrange(1, cs@.len() - 1);
        assert forall|j: int| 0 <= j < inner.len() implies inner[j] != quote by {
            assert(inner[j] == cs@[j + 1]);
        }
        assert(!inner.contains(quote));
        assert(cs@.last() == quote);
    }
    Some(string_of(cs.as_slice(), 1, cs.len() - 1))
}

/// The first split of `s` at a `sep` outside quotes, scanning from `i` in
/// quote state `q`, whose trimmed sides are both non-empty.
pub open spec fn split_scan(s: Seq<char>, sep: char, i: int, q: Option<char>) -> Option<(Seq<char>, Seq<char>)>
    decreases s.len() - i,
{
    if i < 0 || i >= s.len() {
        None
    } else {
        let c = s[i];
        match q {
            Some(quote) => split_scan(s, sep, i + 1, if c == quote { None } else { q }),
            None => if is_quote(c) {
                split_scan(s, sep, i + 1, Some(c))
            } else if c == sep && trim_spec(s.subrange(0, i)).len() > 0 && trim_spec(
                s.subrange(i + 1, s.len() as int),
            ).len() > 0 {
                Some((trim_spec(s.subrange(0, i)), trim_spec(s.subrange(i + 1, s.len() as int))))
            } else {
                split_scan(s, sep, i + 1, None)
            },
        }
    }
}

/// The two sides of the first top-level `sep` in `s` that has non-empty
/// trimmed text on both sides.
pub open spec fn split_spec(s: Seq<char>, sep: char) -> Option<(Seq<char>, Seq<char>)> {
    split_scan(s, sep, 0, None)
}

fn trimmed(cs: &[char], from: usize, to: usize) -> (r: Vec<char>)
    requires
        from <= to <= cs@.len(),
    ensures
        r@ == trim_spec(cs@.subrange(from as int, to as int)),
{
    let mut part: Vec<char> = Vec::new();
    let mut k = from;
    while k < to
        invariant
            from <= k <= to <= cs@.len(),
            part@ == cs@.subrange(from as int, k as int),
        decreases to - k,
    {
        part.push(cs[k]);
        assert(part@ =~= cs@.subrange(from as int, k + 1));
        k = k + 1;
    }
    let (a, b) = trim_range(part.as_slice());
    let mut r: Vec<char> = Vec::new();
    let mut k = a;
    while k < b
        invariant
            a <= k <= b <= part@.len(),
            r@ == part@.subrange(a as int, k as int),
        decreases b - k,
    {
        r.push(part[k]);
        assert(r@ =~= part@.subrange(a as int, k + 1));
        k = k + 1;
    }
    r
}

fn split_top_level(cs: &[char], sep: char) -> (r: Option<(Vec<char>, Vec<char>)>)
    requires
        !is_quote(sep),
    ensures
        match r {
            Some((a, b)) => split_spec(cs@, sep) == Some((a@, b@)),
            None => split_spec(cs@, sep) is None,
        },
{
    let mut in_quote: Option<char> = None;
    let mut i: usize = 0;
    while i < cs.len()
        invariant
            i <= cs@.len(),
            split_spec(cs@, sep) == split_scan(cs@, sep, i as int, in_quote),
        decreases cs@.len() - i,
    {
        let c = cs[i];
        match in_quote {
            Some(q) => {
                if c == q {
                    in_quote = None;
                }
            },
            None => {
                if c == '\'' || c == '"' {
                    in_quote = Some(c);
                } else if c == sep {
                    let lhs = trimmed(cs, 0, i);
                    let rhs = trimmed(cs, i + 1, cs.len());
                    if lhs.len() > 0 && rhs.len() > 0 {
                        return Some((lhs, rhs));
                    }
                }
            },
        }
        i = i + 1;
    }
    None
}

/// The two sides of the first top-level `+` with text on both sides.
pub fn split_binary_plus(script: &str) -> (r: Option<(String, String)>)
    ensures
        match r {
            Some((a, b)) => split_spec(script@, '+') == Some((a@, b@)),
            None => split_spec(script@, '+') is None,
        },
{
    let cs = chars_of(script);
    match split_top_level(cs.as_slice(), '+') {
        Some((a, b)) => Some((string_of(a.as_slice(), 0, a.len()), string_of(b.as_slice(), 0, b.len()))),
        None => None,
    }
}

/// What `+` makes of two string literals: their texts joined.  `None`
/// unless `script` splits at a top-level `+` into two string literals.
pub open spec fn string_plus_spec(script: Seq<char>) -> Option<Seq<char>> {
    match split_spec(script, '+') {
        Some((a, b)) => match (string_literal_spec(a), string_literal_spec(b)) {
            (Some(x), Some(y)) => Some(x + y),
            _ => None,
        },
        None => None,
    }
}

/// Joins two string literals added with `+` (`'ab' + "cd"` gives `abcd`).
pub fn concat_string_literals(script: &str) -> (r: Option<String>)
    ensures
        match r {
            Some(t) => string_plus_spec(script@) == Some(t@),
            None => string_plus_spec(script@) is None,
        },
{
    let (lhs, rhs) = match split_binary_plus(script) {
        Some(sides) => sides,
        None => {
            return None;
        },
    };
    match (parse_string_literal(lhs.as_str()), parse_string_literal(rhs.as_str())) {
        (Some(mut x), Some(y)) => {
            x.append(y.as_str());
            Some(x)
        },
        _ => None,
    }
}

/// The two sides of the first top-level `=` with text on both sides.
pub fn split_assignment(script: &str) -> (r: Option<(String, String)>)
    ensures
        match r {
            Some((a, b)) => split_spec(script@, '=') == Some((a@, b@)),
            None => split_spec(script@, '=') is None,
        },
{
    let cs = chars_of(script);
    match split_top_level(cs.as_slice(), '=') {
        Some((a, b)) => Some((string_of(a.as_slice(), 0, a.len()), string_of(b.as_slice(), 0, b.len()))),
        None => None,
    }
}

// ---------------------------------------------------------------------------
// Quoted arguments and commands
// ---------------------------------------------------------------------------

/// The position of the first `c` in `s`.
pub open spec fn first_index(s: Seq<char>, c: char) -> Option<int>
    decreases s.len(),
{
    if s.len() == 0 {
        None
    } else if s[0] == c {
        Some(0)
    } else {
        match first_index(s.drop_first(), c) {
            Some(i) => Some(i + 1),
            None => None,
        }
    }
}

pub proof fn lemma_first_index_bounds(s: Seq<char>, c: char)
    ensures
        first_index(s, c) matches Some(e) ==> 0 <= e < s.len() && s[e] == c,
    decreases s.len(),
{
    if s.len() > 0 && s[0] != c {
        lemma_first_index_bounds(s.drop_first(), c);
    }
}

proof fn lemma_first_index(s: Seq<char>, c: char, e: int)
    requires
        0 <= e <= s.len(),
        forall|m: int| 0 <= m < e ==> s[m] != c,
        e < s.len() ==> s[e] == c,
    ensures
        first_index(s, c) == if e < s.len() {
            Some(e)
        } else {
            None::<int>
        },
    decreases e,
{
    if e > 0 {
        lemma_first_index(s.drop_first(), c, e - 1);
    }
}

/// The quoted values listed in `cursor`: each value in matching quotes,
/// separated by commas with optional white space after the quotes and
/// commas.
pub open spec fn args_scan(cursor: Seq<char>) -> Option<Seq<Seq<char>>>
    decreases cursor.len(),
{
    if cursor.len() == 0 {
        Some(Seq::empty())
    } else if !is_quote(cursor[0]) {
        None
    } else {
        let rest = cursor.drop_first();
        match first_index(rest, cursor[0]) {
            None => None,
            Some(e) => {
                let value = rest.subrange(0, e);
                let after = trim_start_spec(rest.subrange(e + 1, rest.len() as int));
                if after.len() == 0 {
                    Some(seq![value])
                } else if after[0] != ',' {
                    None
                } else {
                    proof {
                        lemma_first_index_bounds(rest, cursor[0]);
                        crate::text::lemma_leading_white_le(rest.subrange(e + 1, rest.len() as int));
                        crate::text::lemma_leading_white_le(after.drop_first());
                    }
                    match args_scan(trim_start_spec(after.drop_first())) {
                        Some(vs) => Some(seq![value] + vs),
                        None => None,
                    }
                }
            },
        }
    }
}

/// The quoted arguments of a command payload: at least one value.
pub open spec fn quoted_args_spec(payload: Seq<char>) -> Option<Seq<Seq<char>>> {
    match args_scan(trim_spec(payload)) {
        Some(vs) => if vs.len() > 0 {
            Some(vs)
        } else {
            None
        },
        None => None,
    }
}

/// Adds `value` in front of the values of a scan.
pub open spec fn prepend_values(done: Seq<Seq<char>>, r: Option<Seq<Seq<char>>>) -> Option<Seq<Seq<char>>> {
    match r {
        Some(vs) => Some(done + vs),
        None => None,
    }
}

fn slice_chars(cs: &[char], from: usize, to: usize) -> (r: Vec<char>)
    requires
        from <= to <= cs@.len(),
    ensures
        r@ == cs@.subrange(from as int, to as int),
{
    let mut r: Vec<char> = Vec::new();
    let mut k = from;
    while k < to
        invariant
            from <= k <= to <= cs@.len(),
            r@ == cs@.subrange(from as int, k as int),
        decreases to - k,
    {
        r.push(cs[k]);
        assert(r@ =~= cs@.subrange(from as int, k + 1));
        k = k + 1;
    }
    r
}

/// The values of a command payload: quoted strings separated by commas;
/// `None` when the payload is malformed or holds no value.
pub fn parse_quoted_arguments(payload: &str) -> (r: Option<Vec<String>>)
    ensures
        match r {
            Some(v) => quoted_args_spec(payload@) == Some(texts(v@)),
            None => quoted_args_spec(payload@) is None,
        },
{
    let cs = chars_of(payload);
    let (a, b) = trim_range(cs.as_slice());
    let t = slice_chars(cs.as_slice(), a, b);
    let ghost whole = t@;
    let mut values: Vec<String> = Vec::new();
    let mut i: usize = 0;
    assert(t@.subrange(0, t@.len() as int) =~= t@);
    assert(texts(values@) + Seq::<Seq<char>>::empty() =~= Seq::<Seq<char>>::empty());
    loop
        invariant_except_break
            i <= t@.len(),
            args_scan(whole) == prepend_values(
                texts(values@),
                args_scan(t@.subrange(i as int, t@.len() as int)),
            ),
        invariant
            t@ == whole,
            whole == trim_spec(payload@),
        ensures
            args_scan(whole) == Some(texts(values@)),
        decreases t@.len() - i,
    {
        let ghost cursor = t@.subrange(i as int, t@.len() as int);
        let ghost before = texts(values@);
        if i == t.len() {
            assert(cursor.len() == 0);
            assert(before + Seq::<Seq<char>>::empty() =~= before);
            break;
        }
        let quote = t[i];
        if quote != '\'' && quote != '"' {
            return None;
        }
        let ghost rest = cursor.drop_first();
        let mut j = i + 1;
        while j < t.len() && t[j] != quote
            invariant
                i < j <= t@.len(),
                quote == t@[i as int],
                forall|m: int| i < m < j ==> t@[m] != quote,
            decreases t@.len() - j,
        {
            j = j + 1;
        }
        proof {
            assert(rest =~= t@.subrange(i + 1, t@.len() as int));
            lemma_first_index(rest, quote, j - i - 1);
        }
        if j == t.len() {
            return None;
        }
        let value = string_of(t.as_slice(), i + 1, j);
        let k = skip_white(t.as_slice(), j + 1);
        proof {
            assert(value@ =~= rest.subrange(0, j - i - 1));
            assert(rest.subrange(j - i, rest.len() as int) =~= t@.subrange(j + 1, t@.len() as int));
        }
        let ghost v = value@;
        if k == t.len() {
            values.push(value);
            proof {
                assert(texts(values@) =~= before.push(v));
                assert(before + seq![v] =~= before.push(v));
            }
            break;
        }
        if t[k] != ',' {
            return None;
        }
        let next = skip_white(t.as_slice(), k + 1);
        proof {
            let after = t@.subrange(k as int, t@.len() as int);
            assert(after.drop_first() =~= t@.subrange(k + 1, t@.len() as int));
        }
        values.push(value);
        proof {
            assert(texts(values@) =~= before.push(v));
            match args_scan(t@.subrange(next as int, t@.len() as int)) {
                Some(vs) => {
                    assert(before + (seq![v] + vs) =~= before.push(v) + vs);
                },
                None => {},
            }
        }
        i = next;
    }
    if values.len() == 0 {
        None
    } else {
        Some(values)
    }
}

/// Whether `s` begins with `p`.
pub open spec fn starts_with(s: Seq<char>, p: Seq<char>) -> bool {
    p.len() <= s.len() && s.subrange(0, p.len() as int) == p
}

fn starts_with_exec(cs: &[char], p: &str) -> (b: bool)
    ensures
        b == starts_with(cs@, p@),
{
    let pc = chars_of(p);
    if pc.len() > cs.len() {
        return false;
    }
    let head = slice_chars(cs, 0, pc.len());
    chars_equal_str(head.as_slice(), p)
}

/// The name and arguments of a `__soliloquyEval(...)` call: the call on
/// `window` or `globalThis`, closed by `)`, with at least one quoted value.
pub open spec fn command_spec(s: Seq<char>) -> Option<(Seq<char>, Seq<Seq<char>>)> {
    let p1 = "window.__soliloquyEval("@;
    let p2 = "globalThis.__soliloquyEval("@;
    let rest = if starts_with(s, p1) {
        Some(s.subrange(p1.len() as int, s.len() as int))
    } else if starts_with(s, p2) {
        Some(s.subrange(p2.len() as int, s.len() as int))
    } else {
        None
    };
    match rest {
        Some(r) => if r.len() > 0 && r.last() == ')' {
            match quoted_args_spec(trim_spec(r.drop_last())) {
                Some(vs) => Some((vs[0], vs.drop_first())),
                None => None,
            }
        } else {
            None
        },
        None => None,
    }
}

/// The structured command a script sends, if it is a `__soliloquyEval`
/// call.
pub fn parse_soliloquy_command(script: &str) -> (r: Option<SoliloquyBridgeCommand>)
    ensures
        match r {
            Some(c) => command_spec(script@) matches Some((n, a)) && command_matches(c, n, a),
            None => command_spec(script@) is None,
        },
{
    let cs = chars_of(script);
    let start = if starts_with_exec(cs.as_slice(), "window.__soliloquyEval(") {
        chars_of("window.__soliloquyEval(").len()
    } else if starts_with_exec(cs.as_slice(), "globalThis.__soliloquyEval(") {
        chars_of("globalThis.__soliloquyEval(").len()
    } else {
        return None;
    };
    let ghost r = cs@.subrange(start as int, cs@.len() as int);
    if start >= cs.len() || cs[cs.len() - 1] != ')' {
        return None;
    }
    let inner = string_of(cs.as_slice(), start, cs.len() - 1);
    assert(inner@ =~= r.drop_last());
    let payload = trim(inner.as_str());
    let tokens = match parse_quoted_arguments(payload.as_str()) {
        Some(t) => t,
        None => {
            return None;
        },
    };
    let ghost vs = texts(tokens@);
    assert(tokens@.len() > 0);
    let name = tokens[0].as_str();
    let args = slice_subrange(tokens.as_slice(), 1, tokens.len());
    assert(texts(args@) =~= vs.drop_first());
    Some(SoliloquyBridgeCommand::parse(name, args))
}

// ---------------------------------------------------------------------------
// Engine backend and isolate owner
// ---------------------------------------------------------------------------

/// The script engine selected for a webview.
#[derive(Clone, Copy, PartialEq, Eq, Structural, Debug)]
pub enum SoliloquyJavascriptBackend {
    Mozjs,
    V8Experimental,
}

/// The backend a setting of the engine selection variable asks for: `v8`,
/// `v8-experimental` or `v8_experimental` (ignoring surrounding white space
/// and ASCII case) select the experimental dispatcher; anything else, or no
/// setting, the default engine.
pub open spec fn backend_of(setting: Option<Seq<char>>) -> SoliloquyJavascriptBackend {
    match setting {
        Some(v) => {
            let n = ascii_lowercase_spec(trim_spec(v));
            if n == "v8"@ || n == "v8-experimental"@ || n == "v8_experimental"@ {
                SoliloquyJavascriptBackend::V8Experimental
            } else {
                SoliloquyJavascriptBackend::Mozjs
            }
        },
        None => SoliloquyJavascriptBackend::Mozjs,
    }
}

/// The name of a backend.
pub open spec fn backend_name(b: SoliloquyJavascriptBackend) -> Seq<char> {
    match b {
        SoliloquyJavascriptBackend::Mozjs => "mozjs"@,
        SoliloquyJavascriptBackend::V8Experimental => "v8-experimental"@,
    }
}

/// The name of the variable that selects the engine.
pub const SOLILOQUY_JS_ENGINE_ENV: &'static str = "SOLILOQUY_JS_ENGINE";

impl SoliloquyJavascriptBackend {
    /// The backend a setting of `SOLILOQUY_JS_ENGINE` selects (`None` when
    /// the variable is unset or not Unicode).
    pub fn from_setting(setting: Option<&str>) -> (b: SoliloquyJavascriptBackend)
        ensures
            b == backend_of(
                match setting {
                    Some(s) => Some(s@),
                    None => None,
                },
            ),
    {
        match setting {
            Some(value) => {
                let t = trim(value);
                let n = to_ascii_lowercase(t.as_str());
                if same_text(n.as_str(), "v8") || same_text(n.as_str(), "v8-experimental")
                    || same_text(n.as_str(), "v8_experimental") {
                    SoliloquyJavascriptBackend::V8Experimental
                } else {
                    SoliloquyJavascriptBackend::Mozjs
                }
            },
            None => SoliloquyJavascriptBackend::Mozjs,
        }
    }

    /// The name of this backend.
    pub fn as_str(self) -> (s: &'static str)
        ensures
            s@ == backend_name(self),
    {
        match self {
            SoliloquyJavascriptBackend::Mozjs => "mozjs",
            SoliloquyJavascriptBackend::V8Experimental => "v8-experimental",
        }
    }
}

/// Whether a real engine isolate backs the dispatcher.  This build has no
/// engine: the dispatcher works alone.
#[derive(Clone, Copy, PartialEq, Eq, Structural, Debug)]
pub enum SoliloquyV8IsolateState {
    DispatchOnly,
}

impl SoliloquyV8IsolateState {
    pub fn as_str(self) -> (s: &'static str)
        ensures
            s@ == "dispatch-only"@,
    {
        "dispatch-only"
    }
}

/// How long the isolate lives: with no isolate, not at all.
#[derive(Clone, Copy, PartialEq, Eq, Structural, Debug)]
pub enum SoliloquyV8OwnerLifetime {
    NoIsolate,
}

impl SoliloquyV8OwnerLifetime {
    pub fn as_str(self) -> (s: &'static str)
        ensures
            s@ == "none"@,
    {
        "none"
    }
}

/// What backs the dispatcher.
#[derive(Clone, Copy, PartialEq, Eq, Structural, Debug)]
pub struct SoliloquyV8IsolateOwner {
    pub state: SoliloquyV8IsolateState,
    pub lifetime: SoliloquyV8OwnerLifetime,
}

impl SoliloquyV8IsolateOwner {
    /// The owner for this build: dispatch only.
    pub fn new() -> (o: SoliloquyV8IsolateOwner)
        ensures
            o.state == SoliloquyV8IsolateState::DispatchOnly,
            o.lifetime == SoliloquyV8OwnerLifetime::NoIsolate,
    {
        Self::dispatch_only()
    }

    /// An owner with no isolate.
    pub fn dispatch_only() -> (o: SoliloquyV8IsolateOwner)
        ensures
            o.state == SoliloquyV8IsolateState::DispatchOnly,
            o.lifetime == SoliloquyV8OwnerLifetime::NoIsolate,
    {
        SoliloquyV8IsolateOwner {
            state: SoliloquyV8IsolateState::DispatchOnly,
            lifetime: SoliloquyV8OwnerLifetime::NoIsolate,
        }
    }

    pub fn state_label(&self) -> (s: &'static str)
        ensures
            s@ == "dispatch-only"@,
    {
        self.state.as_str()
    }

    pub fn lifetime_label(&self) -> (s: &'static str)
        ensures
            s@ == "none"@,
    {
        self.lifetime.as_str()
    }

    /// Whether a real isolate is ready: never in this build.
    pub fn real_isolate_ready(&self) -> (b: bool)
        ensures
            !b,
    {
        false
    }
}

// ---------------------------------------------------------------------------
// Evaluations
// ---------------------------------------------------------------------------

/// The answer to a script and the changes it asks for.
#[derive(Debug, PartialEq)]
pub struct SoliloquyJavascriptEvaluation {
    pub result: JSValue,
    pub mutations: Vec<SoliloquyBridgeMutation>,
}

/// The URLs a list of changes navigates to.
pub open spec fn navigations(ms: Seq<SoliloquyBridgeMutation>) -> Seq<Seq<char>> {
    ms.map_values(|m: SoliloquyBridgeMutation| match m {
        SoliloquyBridgeMutation::Navigate { url } => url@,
    })
}

/// The URL an optional change navigates to.
pub open spec fn navigation_of(m: Option<SoliloquyBridgeMutation>) -> Seq<Seq<char>> {
    match m {
        Some(SoliloquyBridgeMutation::Navigate { url }) => seq![url@],
        None => Seq::empty(),
    }
}

/// What handling a script does: the answer, the navigations it asks for
/// and the snapshots afterwards.
pub struct Effect {
    pub json: Json,
    pub navigations: Seq<Seq<char>>,
    pub state: Map<u64, SnapshotView>,
}

/// Whether evaluation `e`, leaving the snapshots as `m`, is `effect`.
pub open spec fn evaluation_is(e: SoliloquyJavascriptEvaluation, m: Map<u64, SnapshotView>, effect: Effect) -> bool {
    json_of(e.result) == effect.json && navigations(e.mutations@) == effect.navigations && m
        == effect.state
}

impl SoliloquyJavascriptEvaluation {
    pub fn ok(value: JSValue) -> (e: SoliloquyJavascriptEvaluation)
        ensures
            e.result == value,
            e.mutations@.len() == 0,
    {
        SoliloquyJavascriptEvaluation { result: value, mutations: Vec::new() }
    }

    /// The envelope of a bridge result, with no changes.
    pub fn bridge_result(result: SoliloquyBridgeResult) -> (e: SoliloquyJavascriptEvaluation)
        ensures
            json_of(e.result) == result_json(result),
            e.mutations@.len() == 0,
    {
        Self::ok(result.into_js_value())
    }

    pub fn with_mutation(value: JSValue, mutation: SoliloquyBridgeMutation) -> (e: SoliloquyJavascriptEvaluation)
        ensures
            e.result == value,
            e.mutations@ == seq![mutation],
    {
        let mut mutations = Vec::new();
        mutations.push(mutation);
        SoliloquyJavascriptEvaluation { result: value, mutations }
    }
}

/// The snapshots after writing the title `t` of `id`.
pub open spec fn title_written(m: Map<u64, SnapshotView>, id: WebViewId, t: Seq<char>) -> Map<u64, SnapshotView> {
    m.insert(webview_key(id), SnapshotView { title: Some(t), ..snapshot_or_empty(m, id) })
}

/// The snapshots after navigating `id` to `u`.
pub open spec fn href_written(m: Map<u64, SnapshotView>, id: WebViewId, u: Seq<char>) -> Map<u64, SnapshotView> {
    m.insert(
        webview_key(id),
        SnapshotView { url: Some(u), ready: Some("loading"@), ..snapshot_or_empty(m, id) },
    )
}

/// Writing `value` to the title (or else the location) of `id`: the title is
/// recorded; a location is resolved, recorded (the page loading again) and
/// navigated to; a location that does not resolve is answered with an
/// error and changes nothing.  `ok` and `error` give the answers.
pub open spec fn write_effect(
    m: Map<u64, SnapshotView>,
    id: WebViewId,
    is_title: bool,
    value: Seq<char>,
    enveloped: bool,
) -> Effect {
    if is_title {
        Effect {
            json: if enveloped { envelope("ok"@, Json::Str(value), Json::Null) } else { Json::Str(value) },
            navigations: Seq::empty(),
            state: title_written(m, id, value),
        }
    } else {
        match resolve_href_spec(m, id, value) {
            Ok(u) => Effect {
                json: if enveloped { envelope("ok"@, Json::Str(u), Json::Null) } else { Json::Str(u) },
                navigations: seq![u],
                state: href_written(m, id, u),
            },
            Err(msg) => Effect {
                json: envelope("error"@, Json::Null, Json::Str(msg)),
                navigations: Seq::empty(),
                state: m,
            },
        }
    }
}

/// The status object of `engine.status`.
pub open spec fn engine_status_json() -> Json {
    Json::Object(
        seq![
            ("requestedEngine"@, Json::Str("v8-experimental"@)),
            ("activeEngine"@, Json::Str("soliloquy-dispatch"@)),
            ("isolateOwner"@, Json::Str("dispatch-only"@)),
            ("realIsolate"@, Json::Boolean(false)),
            ("ownerLifetime"@, Json::Str("none"@)),
            ("bridgeReady"@, Json::Boolean(false)),
            ("controlsDom"@, Json::Boolean(false)),
            ("commandChannel"@, Json::Boolean(true)),
        ],
    )
}

fn engine_status(owner: &SoliloquyV8IsolateOwner) -> (v: JSValue)
    ensures
        json_of(v) == engine_status_json(),
{
    let mut entries: Vec<(String, JSValue)> = Vec::new();
    crate::bridge::push_entry(&mut entries, "requestedEngine", crate::bridge::string_value("v8-experimental"));
    crate::bridge::push_entry(&mut entries, "activeEngine", crate::bridge::string_value("soliloquy-dispatch"));
    crate::bridge::push_entry(&mut entries, "isolateOwner", crate::bridge::string_value(owner.state_label()));
    crate::bridge::push_entry(&mut entries, "realIsolate", JSValue::Boolean(owner.real_isolate_ready()));
    crate::bridge::push_entry(&mut entries, "ownerLifetime", crate::bridge::string_value(owner.lifetime_label()));
    crate::bridge::push_entry(&mut entries, "bridgeReady", JSValue::Boolean(false));
    crate::bridge::push_entry(&mut entries, "controlsDom", JSValue::Boolean(false));
    crate::bridge::push_entry(&mut entries, "commandChannel", JSValue::Boolean(true));
    let r = crate::bridge::object(entries);
    assert(crate::bridge::json_entries(entries@) =~= engine_status_json()->Object_0);
    r
}

/// An `ok` answer that changes nothing.
pub open spec fn ok_effect(m: Map<u64, SnapshotView>, v: Json) -> Effect {
    Effect { json: envelope("ok"@, v, Json::Null), navigations: Seq::empty(), state: m }
}

/// What a structured command does.
pub open spec fn command_effect(
    m: Map<u64, SnapshotView>,
    id: WebViewId,
    c: SoliloquyBridgeCommand,
    backend: SoliloquyJavascriptBackend,
) -> Effect {
    match c {
        SoliloquyBridgeCommand::EngineBackend => ok_effect(m, Json::Str(backend_name(backend))),
        SoliloquyBridgeCommand::EngineStatus => ok_effect(m, engine_status_json()),
        SoliloquyBridgeCommand::WebViewId => ok_effect(m, Json::Number(id.index as int)),
        SoliloquyBridgeCommand::WebViewDescribe => ok_effect(m, describe_json(m, id, backend_name(backend))),
        SoliloquyBridgeCommand::DomCapabilities => ok_effect(m, capabilities_json()),
        SoliloquyBridgeCommand::DomInspect(t) => ok_effect(m, inspect_json(t, read_or_null(m, id, t))),
        SoliloquyBridgeCommand::DomSet(w) => match w {
            SoliloquyBridgeWrite::SetDocumentTitle(t) => write_effect(m, id, true, t@, true),
            SoliloquyBridgeWrite::SetLocationHref(u) => write_effect(m, id, false, u@, true),
        },
        SoliloquyBridgeCommand::Unsupported(op) => Effect {
            json: envelope("unsupported"@, Json::Null, Json::Str(op@)),
            navigations: Seq::empty(),
            state: m,
        },
    }
}

/// Carries out a structured command for `id`.
pub fn dispatch_command(
    state: &mut BridgeState,
    id: WebViewId,
    command: SoliloquyBridgeCommand,
    owner: &SoliloquyV8IsolateOwner,
    backend: SoliloquyJavascriptBackend,
) -> (r: (SoliloquyBridgeResult, Option<SoliloquyBridgeMutation>))
    ensures
        ({
            let effect = command_effect(old(state)@, id, command, backend);
            &&& result_json(r.0) == effect.json
            &&& navigation_of(r.1) == effect.navigations
            &&& final(state)@ == effect.state
        }),
{
    match command {
        SoliloquyBridgeCommand::EngineBackend => (
            SoliloquyBridgeResult::value(crate::bridge::string_value(backend.as_str())),
            None,
        ),
        SoliloquyBridgeCommand::EngineStatus => (SoliloquyBridgeResult::value(engine_status(owner)), None),
        SoliloquyBridgeCommand::WebViewId => (
            SoliloquyBridgeResult::value(JSValue::Number(webview_bridge_id(id))),
            None,
        ),
        SoliloquyBridgeCommand::WebViewDescribe => (
            SoliloquyBridgeResult::value(describe_webview(state, id, backend.as_str())),
            None,
        ),
        SoliloquyBridgeCommand::DomCapabilities => (SoliloquyBridgeResult::value(capabilities()), None),
        SoliloquyBridgeCommand::DomInspect(target) => (
            SoliloquyBridgeResult::value(inspect_property(state, id, target)),
            None,
        ),
        SoliloquyBridgeCommand::DomSet(write) => {
            let write = match resolve_write(state, id, write) {
                Ok(w) => w,
                Err(error) => {
                    return (error, None);
                },
            };
            let (value, mutation) = write_property(state, id, write).into_parts();
            (SoliloquyBridgeResult::value(value), mutation)
        },
        SoliloquyBridgeCommand::Unsupported(operation) => (
            SoliloquyBridgeResult::unsupported(operation),
            None,
        ),
    }
}

/// An `unsupported` answer naming `op`, changing nothing.
pub open spec fn unsupported_effect(m: Map<u64, SnapshotView>, op: Seq<char>) -> Effect {
    Effect { json: envelope("unsupported"@, Json::Null, Json::Str(op)), navigations: Seq::empty(), state: m }
}

/// What the command `name` with `args` does (see `command_matches`).
pub open spec fn command_text_effect(
    m: Map<u64, SnapshotView>,
    id: WebViewId,
    name: Seq<char>,
    args: Seq<Seq<char>>,
    backend: SoliloquyJavascriptBackend,
) -> Effect {
    if name == "engine.backend"@ && args.len() == 0 {
        ok_effect(m, Json::Str(backend_name(backend)))
    } else if name == "engine.status"@ && args.len() == 0 {
        ok_effect(m, engine_status_json())
    } else if name == "webview.id"@ && args.len() == 0 {
        ok_effect(m, Json::Number(id.index as int))
    } else if name == "webview.describe"@ && args.len() == 0 {
        ok_effect(m, describe_json(m, id, backend_name(backend)))
    } else if name == "dom.capabilities"@ && args.len() == 0 {
        ok_effect(m, capabilities_json())
    } else if name == "dom.inspect"@ {
        if args.len() == 1 && read_target_of(args[0]) is Some {
            let t = read_target_of(args[0]).unwrap();
            ok_effect(m, inspect_json(t, read_or_null(m, id, t)))
        } else {
            unsupported_effect(m, name)
        }
    } else if name == "dom.set"@ {
        if args.len() == 2 && is_write_target(args[0]) {
            write_effect(m, id, args[0] == "document.title"@, args[1], true)
        } else {
            unsupported_effect(m, name)
        }
    } else {
        unsupported_effect(m, name)
    }
}

proof fn lemma_command_effect(
    m: Map<u64, SnapshotView>,
    id: WebViewId,
    c: SoliloquyBridgeCommand,
    name: Seq<char>,
    args: Seq<Seq<char>>,
    backend: SoliloquyJavascriptBackend,
)
    requires
        command_matches(c, name, args),
    ensures
        command_effect(m, id, c, backend) == command_text_effect(m, id, name, args, backend),
{
    reveal_strlit("document.title");
    reveal_strlit("location.href");
    reveal_strlit("window.location.href");
    assert("location.href"@.len() != "document.title"@.len());
    assert("window.location.href"@.len() != "document.title"@.len());
    if name == "engine.backend"@ && args.len() == 0 {
    } else if name == "engine.status"@ && args.len() == 0 {
    } else if name == "webview.id"@ && args.len() == 0 {
    } else if name == "webview.describe"@ && args.len() == 0 {
    } else if name == "dom.capabilities"@ && args.len() == 0 {
    } else if name == "dom.inspect"@ {
    } else if name == "dom.set"@ {
        if args.len() == 2 && is_write_target(args[0]) {
            match c {
                SoliloquyBridgeCommand::DomSet(w) => match w {
                    SoliloquyBridgeWrite::SetDocumentTitle(t) => {
                        assert(args[0] == "document.title"@);
                    },
                    SoliloquyBridgeWrite::SetLocationHref(u) => {
                        assert(args[0] != "document.title"@);
                    },
                },
                _ => {},
            }
        }
    }
}

/// Answers a `__soliloquyEval(...)` call with its envelope.
pub fn evaluate_command(
    state: &mut BridgeState,
    id: WebViewId,
    script: &str,
    owner: &SoliloquyV8IsolateOwner,
    backend: SoliloquyJavascriptBackend,
) -> (r: Option<SoliloquyJavascriptEvaluation>)
    ensures
        match command_spec(script@) {
            Some((n, a)) => r matches Some(e) && evaluation_is(
                e,
                final(state)@,
                command_text_effect(old(state)@, id, n, a, backend),
            ),
            None => r is None && final(state)@ == old(state)@,
        },
{
    let command = match parse_soliloquy_command(script) {
        Some(c) => c,
        None => {
            return None;
        },
    };
    proof {
        let (n, a) = command_spec(script@).unwrap();
        lemma_command_effect(old(state)@, id, command, n, a, backend);
    }
    let (result, mutation) = dispatch_command(state, id, command, owner, backend);
    Some(
        match mutation {
            Some(m) => {
                let e = SoliloquyJavascriptEvaluation::with_mutation(result.into_js_value(), m);
                assert(navigations(e.mutations@) =~= navigation_of(Some(m)));
                e
            },
            None => {
                let e = SoliloquyJavascriptEvaluation::bridge_result(result);
                assert(navigations(e.mutations@) =~= Seq::<Seq<char>>::empty());
                e
            },
        },
    )
}

/// Answers a read of a live DOM field with the snapshot's value.
pub fn evaluate_live_dom_property(state: &BridgeState, id: WebViewId, script: &str) -> (r: Option<SoliloquyJavascriptEvaluation>)
    ensures
        match read_target_of(script@) {
            Some(t) => r matches Some(e) && json_of(e.result) == read_or_null(state@, id, t)
                && e.mutations@.len() == 0,
            None => r is None,
        },
{
    let target = match SoliloquyBridgeReadTarget::parse(script) {
        Some(t) => t,
        None => {
            return None;
        },
    };
    let value = match read_property(state, id, target) {
        Some(v) => v,
        None => JSValue::Null,
    };
    Some(SoliloquyJavascriptEvaluation::ok(value))
}

/// The write an assignment script asks for: whether it writes the title
/// (else the location) and the string literal it assigns.
pub open spec fn assignment_spec(s: Seq<char>) -> Option<(bool, Seq<char>)> {
    match split_spec(s, '=') {
        Some((l, rhs)) => match string_literal_spec(rhs) {
            Some(v) => if l == "document.title"@ {
                Some((true, v))
            } else if l == "location.href"@ || l == "window.location.href"@ {
                Some((false, v))
            } else {
                None
            },
            None => None,
        },
        None => None,
    }
}

/// Answers an assignment of a string literal to a writable live DOM field:
/// the written value, with a navigation for a location.
pub fn evaluate_live_dom_assignment(state: &mut BridgeState, id: WebViewId, script: &str) -> (r: Option<SoliloquyJavascriptEvaluation>)
    ensures
        match assignment_spec(script@) {
            Some((is_title, v)) => r matches Some(e) && evaluation_is(
                e,
                final(state)@,
                write_effect(old(state)@, id, is_title, v, false),
            ),
            None => r is None && final(state)@ == old(state)@,
        },
{
    let (lhs, rhs) = match split_assignment(script) {
        Some(p) => p,
        None => {
            return None;
        },
    };
    let value = match parse_string_literal(rhs.as_str()) {
        Some(v) => v,
        None => {
            return None;
        },
    };
    let write = match SoliloquyBridgeWrite::parse(lhs.as_str(), value.as_str()) {
        Some(w) => w,
        None => {
            return None;
        },
    };
    proof {
        reveal_strlit("document.title");
        reveal_strlit("location.href");
        reveal_strlit("window.location.href");
        assert("location.href"@.len() != "document.title"@.len());
        assert("window.location.href"@.len() != "document.title"@.len());
        match write {
            SoliloquyBridgeWrite::SetDocumentTitle(_) => {
                assert(lhs@ == "document.title"@);
            },
            SoliloquyBridgeWrite::SetLocationHref(_) => {
                assert(lhs@ != "document.title"@);
            },
        }
    }
    let write = match resolve_write(state, id, write) {
        Ok(w) => w,
        Err(error) => {
            let e = SoliloquyJavascriptEvaluation::bridge_result(error);
            assert(navigations(e.mutations@) =~= Seq::<Seq<char>>::empty());
            return Some(e);
        },
    };
    let (value, mutation) = write_property(state, id, write).into_parts();
    Some(
        match mutation {
            Some(m) => {
                let e = SoliloquyJavascriptEvaluation::with_mutation(value, m);
                assert(navigations(e.mutations@) =~= navigation_of(Some(m)));
                e
            },
            None => {
                let e = SoliloquyJavascriptEvaluation::ok(value);
                assert(navigations(e.mutations@) =~= Seq::<Seq<char>>::empty());
                e
            },
        },
    )
}

/// The value of an engine probe: the backend name, whether the engine
/// bridge is ready (never), or the webview id.
pub open spec fn probe_spec(s: Seq<char>, id: WebViewId, backend: SoliloquyJavascriptBackend) -> Option<Json> {
    if s == "window.__soliloquyEngineBackend"@ || s == "globalThis.__soliloquyEngineBackend"@ {
        Some(Json::Str(backend_name(backend)))
    } else if s == "window.__soliloquyEngineBridgeReady"@ || s == "globalThis.__soliloquyEngineBridgeReady"@ {
        Some(Json::Boolean(false))
    } else if s == "window.__soliloquyWebViewId"@ || s == "globalThis.__soliloquyWebViewId"@ {
        Some(Json::Number(id.index as int))
    } else {
        None
    }
}

/// Answers the engine probes.
pub fn evaluate_engine_probe(id: WebViewId, script: &str, backend: SoliloquyJavascriptBackend) -> (r: Option<SoliloquyJavascriptEvaluation>)
    ensures
        match probe_spec(script@, id, backend) {
            Some(j) => r matches Some(e) && json_of(e.result) == j && e.mutations@.len() == 0,
            None => r is None,
        },
{
    if same_text(script, "window.__soliloquyEngineBackend") || same_text(script, "globalThis.__soliloquyEngineBackend") {
        Some(SoliloquyJavascriptEvaluation::ok(crate::bridge::string_value(backend.as_str())))
    } else if same_text(script, "window.__soliloquyEngineBridgeReady") || same_text(script, "globalThis.__soliloquyEngineBridgeReady") {
        Some(SoliloquyJavascriptEvaluation::ok(JSValue::Boolean(false)))
    } else if same_text(script, "window.__soliloquyWebViewId") || same_text(script, "globalThis.__soliloquyWebViewId") {
        Some(SoliloquyJavascriptEvaluation::ok(JSValue::Number(webview_bridge_id(id))))
    } else {
        None
    }
}

/// The value of a keyword literal.
pub open spec fn keyword_spec(s: Seq<char>) -> Option<Json> {
    if s == "undefined"@ {
        Some(Json::Undefined)
    } else if s == "null"@ {
        Some(Json::Null)
    } else if s == "true"@ {
        Some(Json::Boolean(true))
    } else if s == "false"@ {
        Some(Json::Boolean(false))
    } else {
        None
    }
}

/// The value of `undefined`, `null`, `true` or `false`.
pub fn keyword_literal(script: &str) -> (r: Option<JSValue>)
    ensures
        match keyword_spec(script@) {
            Some(j) => r matches Some(v) && json_of(v) == j,
            None => r is None,
        },
{
    if same_text(script, "undefined") {
        Some(JSValue::Undefined)
    } else if same_text(script, "null") {
        Some(JSValue::Null)
    } else if same_text(script, "true") {
        Some(JSValue::Boolean(true))
    } else if same_text(script, "false") {
        Some(JSValue::Boolean(false))
    } else {
        None
    }
}

/// What the dispatcher makes of a script: an answer, or the trimmed script
/// for the literal stage (numbers, string literals, `+` and engine probes).
#[derive(Debug, PartialEq)]
pub enum DispatchStep {
    Answered(SoliloquyJavascriptEvaluation),
    Literal(String),
}

/// How the dispatcher answers the trimmed script `t`, before literals:
/// an empty script is `undefined`; then assignments, live DOM reads and
/// structured commands, in that order.
pub open spec fn dispatch_spec(
    m: Map<u64, SnapshotView>,
    id: WebViewId,
    t: Seq<char>,
    backend: SoliloquyJavascriptBackend,
) -> Option<Effect> {
    if t.len() == 0 {
        Some(Effect { json: Json::Undefined, navigations: Seq::empty(), state: m })
    } else if assignment_spec(t) is Some {
        let (is_title, v) = assignment_spec(t).unwrap();
        Some(write_effect(m, id, is_title, v, false))
    } else if read_target_of(t) is Some {
        Some(
            Effect {
                json: read_or_null(m, id, read_target_of(t).unwrap()),
                navigations: Seq::empty(),
                state: m,
            },
        )
    } else if command_spec(t) is Some {
        let (n, a) = command_spec(t).unwrap();
        Some(command_text_effect(m, id, n, a, backend))
    } else {
        None
    }
}

/// Dispatches `script` for `id` (see `dispatch_spec`); a script it does not
/// answer is handed back trimmed for the literal stage.
pub fn dispatch_script(
    state: &mut BridgeState,
    id: WebViewId,
    script: &str,
    owner: &SoliloquyV8IsolateOwner,
    backend: SoliloquyJavascriptBackend,
) -> (r: DispatchStep)
    ensures
        match dispatch_spec(old(state)@, id, trim_spec(script@), backend) {
            Some(effect) => r matches DispatchStep::Answered(e) && evaluation_is(e, final(state)@, effect),
            None => r matches DispatchStep::Literal(t) && t@ == trim_spec(script@) && final(state)@
                == old(state)@,
        },
{
    let trimmed = trim(script);
    if trimmed.as_str().is_empty() {
        let e = SoliloquyJavascriptEvaluation::ok(JSValue::Undefined);
        assert(navigations(e.mutations@) =~= Seq::<Seq<char>>::empty());
        return DispatchStep::Answered(e);
    }
    match evaluate_live_dom_assignment(state, id, trimmed.as_str()) {
        Some(e) => {
            return DispatchStep::Answered(e);
        },
        None => {},
    }
    match evaluate_live_dom_property(state, id, trimmed.as_str()) {
        Some(e) => {
            assert(navigations(e.mutations@) =~= Seq::<Seq<char>>::empty());
            return DispatchStep::Answered(e);
        },
        None => {},
    }
    match evaluate_command(state, id, trimmed.as_str(), owner, backend) {
        Some(e) => DispatchStep::Answered(e),
        None => DispatchStep::Literal(trimmed),
    }
}

/// Dispatches `script` when the experimental backend is selected; with the
/// default engine nothing is answered here.
pub fn maybe_evaluate_with_mutations(
    state: &mut BridgeState,
    id: WebViewId,
    script: &str,
    backend: SoliloquyJavascriptBackend,
) -> (r: Option<DispatchStep>)
    ensures
        backend == SoliloquyJavascriptBackend::Mozjs ==> r is None && final(state)@ == old(state)@,
        backend == SoliloquyJavascriptBackend::V8Experimental ==> match dispatch_spec(
            old(state)@,
            id,
            trim_spec(script@),
            backend,
        ) {
            Some(effect) => r matches Some(DispatchStep::Answered(e)) && evaluation_is(
                e,
                final(state)@,
                effect,
            ),
            None => r matches Some(DispatchStep::Literal(t)) && t@ == trim_spec(script@)
                && final(state)@ == old(state)@,
        },
{
    match backend {
        SoliloquyJavascriptBackend::Mozjs => None,
        SoliloquyJavascriptBackend::V8Experimental => {
            let owner = SoliloquyV8IsolateOwner::new();
            Some(dispatch_script(state, id, script, &owner, backend))
        },
    }
}

// ---------------------------------------------------------------------------
// Laws
// ---------------------------------------------------------------------------

/// A title assigned by a script reads back as assigned, and asks for no
/// navigation.
pub proof fn law_assigned_title_reads_back(m: Map<u64, SnapshotView>, id: WebViewId, v: Seq<char>)
    ensures
        read_or_null(write_effect(m, id, true, v, false).state, id, SoliloquyBridgeReadTarget::DocumentTitle)
            == Json::Str(v),
        write_effect(m, id, true, v, false).navigations.len() == 0,
{
}

/// A location assigned by a script either resolves, reads back resolved,
/// shows the page loading and navigates there exactly once; or does not
/// resolve, is answered with an error envelope and changes nothing.
pub proof fn law_assigned_location_navigates_once(m: Map<u64, SnapshotView>, id: WebViewId, v: Seq<char>)
    ensures
        ({
            let e = write_effect(m, id, false, v, false);
            match resolve_href_spec(m, id, v) {
                Ok(u) => {
                    &&& read_or_null(e.state, id, SoliloquyBridgeReadTarget::LocationHref) == Json::Str(u)
                    &&& read_or_null(e.state, id, SoliloquyBridgeReadTarget::DocumentReadyState)
                        == Json::Str("loading"@)
                    &&& e.navigations == seq![u]
                    &&& e.json == Json::Str(u)
                },
                Err(msg) => {
                    &&& e.state == m
                    &&& e.navigations.len() == 0
                    &&& e.json == envelope("error"@, Json::Null, Json::Str(msg))
                },
            }
        }),
{
}

/// An unknown command is answered with an `unsupported` envelope naming
/// it, whatever its arguments, and changes nothing.
pub proof fn law_unknown_command_is_unsupported(
    m: Map<u64, SnapshotView>,
    id: WebViewId,
    name: Seq<char>,
    args: Seq<Seq<char>>,
    backend: SoliloquyJavascriptBackend,
)
    requires
        name != "engine.backend"@,
        name != "engine.status"@,
        name != "webview.id"@,
        name != "webview.describe"@,
        name != "dom.capabilities"@,
        name != "dom.inspect"@,
        name != "dom.set"@,
    ensures
        command_text_effect(m, id, name, args, backend) == unsupported_effect(m, name),
        unsupported_effect(m, name).state == m,
{
}


/// The payload that lists `xs`, each value between two `q` quotes and the
/// values separated by `, `.
pub open spec fn quoted_list(xs: Seq<Seq<char>>, q: char) -> Seq<char>
    decreases xs.len(),
{
    if xs.len() == 0 {
        Seq::empty()
    } else if xs.len() == 1 {
        seq![q] + xs[0] + seq![q]
    } else {
        seq![q] + xs[0] + seq![q] + seq![',', ' '] + quoted_list(xs.drop_first(), q)
    }
}

proof fn lemma_quoted_list_ends(xs: Seq<Seq<char>>, q: char)
    requires
        xs.len() > 0,
    ensures
        quoted_list(xs, q).len() >= 2,
        quoted_list(xs, q)[0] == q,
        quoted_list(xs, q).last() == q,
    decreases xs.len(),
{
    if xs.len() > 1 {
        lemma_quoted_list_ends(xs.drop_first(), q);
    }
}

proof fn lemma_no_leading_white(s: Seq<char>)
    requires
        s.len() == 0 || !crate::text::is_white_space(s[0]),
    ensures
        trim_start_spec(s) == s,
{
    assert(s.subrange(0, s.len() as int) =~= s);
}

proof fn lemma_scan_quoted_list(xs: Seq<Seq<char>>, q: char)
    requires
        xs.len() > 0,
        is_quote(q),
        forall|i: int| 0 <= i < xs.len() ==> !(#[trigger] xs[i]).contains(q),
    ensures
        args_scan(quoted_list(xs, q)) == Some(xs),
    decreases xs.len(),
{
    let s = quoted_list(xs, q);
    let x = xs[0];
    let tail_part = if xs.len() == 1 {
        Seq::<char>::empty()
    } else {
        seq![',', ' '] + quoted_list(xs.drop_first(), q)
    };
    assert(s =~= seq![q] + x + seq![q] + tail_part);
    let rest = s.drop_first();
    assert(rest =~= x + seq![q] + tail_part);
    assert(!x.contains(q));
    assert forall|m: int| 0 <= m < x.len() implies rest[m] != q by {
        assert(rest[m] == x[m]);
        if x[m] == q {
            assert(x.contains(q));
        }
    }
    lemma_first_index(rest, q, x.len() as int);
    assert(rest.subrange(0, x.len() as int) =~= x);
    assert(rest.subrange(x.len() as int + 1, rest.len() as int) =~= tail_part);
    if xs.len() == 1 {
        lemma_no_leading_white(tail_part);
        assert(xs =~= seq![x]);
    } else {
        let tail = xs.drop_first();
        let rest_list = quoted_list(tail, q);
        lemma_quoted_list_ends(tail, q);
        assert(tail_part[0] == ',');
        lemma_no_leading_white(tail_part);
        let after = trim_start_spec(tail_part);
        assert(after.drop_first() =~= seq![' '] + rest_list);
        let spaced = after.drop_first();
        assert(crate::text::is_white_space(spaced[0]));
        assert(spaced.drop_first() =~= rest_list);
        assert(crate::text::leading_white(rest_list) == 0);
        assert(crate::text::leading_white(spaced) == 1);
        assert(trim_start_spec(spaced) =~= rest_list);
        assert forall|i: int| 0 <= i < tail.len() implies !(#[trigger] tail[i]).contains(q) by {
            assert(tail[i] == xs[i + 1]);
        }
        lemma_scan_quoted_list(tail, q);
        assert(seq![x] + tail =~= xs);
    }
}

/// Quoting each value of a non-empty list with the same quote character
/// (which no value holds), joining them with `, ` and parsing the payload
/// gives the list back, in order, empty values included.
pub proof fn law_quoted_arguments_round_trip(xs: Seq<Seq<char>>, q: char)
    requires
        xs.len() > 0,
        is_quote(q),
        forall|i: int| 0 <= i < xs.len() ==> !(#[trigger] xs[i]).contains(q),
    ensures
        quoted_args_spec(quoted_list(xs, q)) == Some(xs),
{
    let s = quoted_list(xs, q);
    lemma_quoted_list_ends(xs, q);
    lemma_no_leading_white(s);
    assert(crate::text::trailing_white(s) == 0);
    assert(trim_spec(s) =~= s);
    lemma_scan_quoted_list(xs, q);
}


/// The webview-id probe answers the webview's own index: the number the
/// `webview.id` command and `webview.describe` report for the same webview,
/// whichever global object the probe is read through.
pub proof fn law_webview_id_probe_matches_webview_id(
    m: Map<u64, SnapshotView>,
    id: WebViewId,
    backend: SoliloquyJavascriptBackend,
)
    ensures
        probe_spec("window.__soliloquyWebViewId"@, id, backend) == Some(Json::Number(id.index as int)),
        probe_spec("globalThis.__soliloquyWebViewId"@, id, backend) == probe_spec(
            "window.__soliloquyWebViewId"@,
            id,
            backend,
        ),
        command_effect(m, id, SoliloquyBridgeCommand::WebViewId, backend) == ok_effect(
            m,
            probe_spec("window.__soliloquyWebViewId"@, id, backend).unwrap(),
        ),
        describe_json(m, id, backend_name(backend))->Object_0[0].1 == probe_spec(
            "window.__soliloquyWebViewId"@,
            id,
            backend,
        ).unwrap(),
{
    reveal_strlit("window.__soliloquyEngineBackend");
    reveal_strlit("globalThis.__soliloquyEngineBackend");
    reveal_strlit("window.__soliloquyEngineBridgeReady");
    reveal_strlit("globalThis.__soliloquyEngineBridgeReady");
    reveal_strlit("window.__soliloquyWebViewId");
    reveal_strlit("globalThis.__soliloquyWebViewId");
    assert("window.__soliloquyEngineBackend"@.len() == 31);
    assert("globalThis.__soliloquyEngineBackend"@.len() == 35);
    assert("window.__soliloquyEngineBridgeReady"@.len() == 35);
    assert("globalThis.__soliloquyEngineBridgeReady"@.len() == 39);
    assert("window.__soliloquyWebViewId"@.len() == 27);
    assert("globalThis.__soliloquyWebViewId"@.len() == 31);
    assert("globalThis.__soliloquyWebViewId"@[0] != "window.__soliloquyEngineBackend"@[0]);
    assert("globalThis.__soliloquyWebViewId"@ != "window.__soliloquyEngineBackend"@);
}

} // verus!
