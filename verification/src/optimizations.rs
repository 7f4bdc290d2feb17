//! The shell's bookkeeping for its browser optimizations: which tab stands
//! for each webview, the URL each webview shows, the active webview, and
//! which prefetches a URL calls for.  The tab residency manager, the
//! prefetch manager and the navigation cache are driven by the embedder,
//! which hands the tab ids they give back to this bookkeeping.
use crate::bridge::{webview_key, webview_key_exec, WebViewId};
use crate::urls::{url_host, url_parse_error, ParsedUrl};
use std::collections::HashMap;
use vstd::prelude::*;
use vstd::string::StringExecFns;

verus! {

broadcast use vstd::std_specs::hash::group_hash_axioms;

/// How urgently a prefetch is wanted.
#[derive(Clone, Copy, PartialEq, Eq, Structural, Debug)]
pub enum PrefetchPriority {
    High,
    Medium,
}

/// What a prefetch warms up: a connection to a URL, or a DNS lookup of a
/// host.
#[derive(Clone, Copy, PartialEq, Eq, Structural, Debug)]
pub enum ResourceKind {
    Connection,
    Dns,
}

/// One prefetch to request.
pub struct PrefetchRequest {
    pub target: String,
    pub kind: ResourceKind,
    pub priority: PrefetchPriority,
}

/// The prefetches a URL calls for: a connection to the URL itself, then,
/// when it parses and has a host, a DNS lookup of that host.
pub open spec fn prefetch_plan(url: Seq<char>) -> Seq<(Seq<char>, ResourceKind)> {
    let connection = seq![(url, ResourceKind::Connection)];
    if url_parse_error(url) is None && url_host(url) is Some {
        connection.push((url_host(url).unwrap(), ResourceKind::Dns))
    } else {
        connection
    }
}

/// The prefetches to request for `url`, each with `priority`.
pub fn prefetch_requests(url: &str, priority: PrefetchPriority) -> (r: Vec<PrefetchRequest>)
    ensures
        r@.len() == prefetch_plan(url@).len(),
        forall|i: int|
            0 <= i < r@.len() ==> (#[trigger] r@[i]).target@ == prefetch_plan(url@)[i].0
                && r@[i].kind == prefetch_plan(url@)[i].1 && r@[i].priority == priority,
{
    let mut requests: Vec<PrefetchRequest> = Vec::new();
    requests.push(
        PrefetchRequest { target: url.to_owned(), kind: ResourceKind::Connection, priority },
    );
    match ParsedUrl::parse(url) {
        Ok(parsed) => match parsed.host_str() {
            Some(host) => {
                requests.push(PrefetchRequest { target: host, kind: ResourceKind::Dns, priority });
            },
            None => {},
        },
        Err(_) => {},
    }
    requests
}

/// The navigation cache key of a webview event: `webview:`, the webview's
/// label, `:` and the stage.
pub fn navigation_cache_key(webview_label: &str, stage: &str) -> (k: String)
    ensures
        k@ == "webview:"@ + webview_label@ + ":"@ + stage@,
{
    let mut key = "webview:".to_owned();
    key.append(webview_label);
    key.append(":");
    key.append(stage);
    key
}

/// The bookkeeping as values: tabs and URLs are keyed by `webview_key`.
pub struct OptimizationsView {
    pub active_webview_id: Option<WebViewId>,
    pub bootstrap_url: Option<Seq<char>>,
    pub tabs: Map<u64, u64>,
    pub urls: Map<u64, Seq<char>>,
}

/// The shell's optimization bookkeeping.
pub struct SoliloquyOptimizations {
    active_webview_id: Option<WebViewId>,
    bootstrap_url: Option<String>,
    webview_tabs: HashMap<u64, u64>,
    webview_urls: HashMap<u64, String>,
}

impl View for SoliloquyOptimizations {
    type V = OptimizationsView;

    closed spec fn view(&self) -> OptimizationsView {
        OptimizationsView {
            active_webview_id: self.active_webview_id,
            bootstrap_url: match self.bootstrap_url {
                Some(u) => Some(u@),
                None => None,
            },
            tabs: self.webview_tabs@,
            urls: self.webview_urls@.map_values(|s: String| s@),
        }
    }
}

impl SoliloquyOptimizations {
    /// Nothing tracked, no bootstrap URL, no active webview.
    pub fn new() -> (o: SoliloquyOptimizations)
        ensures
            o@.active_webview_id is None,
            o@.bootstrap_url is None,
            o@.tabs == Map::<u64, u64>::empty(),
            o@.urls == Map::<u64, Seq<char>>::empty(),
    {
        let o = SoliloquyOptimizations {
            active_webview_id: None,
            bootstrap_url: None,
            webview_tabs: HashMap::new(),
            webview_urls: HashMap::new(),
        };
        assert(o@.urls =~= Map::<u64, Seq<char>>::empty());
        o
    }

    /// Remembers the URL the shell started with.
    pub fn bootstrap(&mut self, initial_url: String)
        ensures
            final(self)@ == (OptimizationsView { bootstrap_url: Some(initial_url@), ..old(self)@ }),
    {
        self.bootstrap_url = Some(initial_url);
    }

    /// The URL a new webview is tracked under: its own, else the bootstrap
    /// URL, else `fallback`.
    pub fn webview_url(&self, url: Option<String>, fallback: String) -> (u: String)
        ensures
            u@ == match url {
                Some(x) => x@,
                None => match self@.bootstrap_url {
                    Some(b) => b,
                    None => fallback@,
                },
            },
    {
        match url {
            Some(x) => x,
            None => match &self.bootstrap_url {
                Some(b) => b.clone(),
                None => fallback,
            },
        }
    }

    /// The tab that stands for webview `id`, if it is tracked.
    pub fn tab_of(&self, id: WebViewId) -> (t: Option<u64>)
        ensures
            t == if self@.tabs.contains_key(webview_key(id)) {
                Some(self@.tabs[webview_key(id)])
            } else {
                None
            },
    {
        match self.webview_tabs.get(&webview_key_exec(id)) {
            Some(t) => Some(*t),
            None => None,
        }
    }

    /// The URL webview `id` is tracked under, if it is tracked.
    pub fn url_of(&self, id: WebViewId) -> (u: Option<String>)
        ensures
            match u {
                Some(s) => self@.urls.contains_key(webview_key(id)) && s@ == self@.urls[webview_key(
                    id,
                )],
                None => !self@.urls.contains_key(webview_key(id)),
            },
    {
        match self.webview_urls.get(&webview_key_exec(id)) {
            Some(s) => Some(s.clone()),
            None => None,
        }
    }

    /// Tracks webview `id` as tab `tab` showing `url`; `activate` also makes
    /// it the active webview.
    pub fn record_webview(&mut self, id: WebViewId, tab: u64, url: String, activate: bool)
        ensures
            final(self)@.tabs == old(self)@.tabs.insert(webview_key(id), tab),
            final(self)@.urls == old(self)@.urls.insert(webview_key(id), url@),
            final(self)@.active_webview_id == if activate {
                Some(id)
            } else {
                old(self)@.active_webview_id
            },
            final(self)@.bootstrap_url == old(self)@.bootstrap_url,
    {
        let key = webview_key_exec(id);
        let ghost text = url@;
        self.webview_tabs.insert(key, tab);
        self.webview_urls.insert(key, url);
        if activate {
            self.active_webview_id = Some(id);
        }
        assert(self@.urls =~= old(self)@.urls.insert(webview_key(id), text));
    }

    /// Makes webview `id` the active one; gives the tab to touch, if it is
    /// tracked.
    pub fn activate_webview(&mut self, id: WebViewId) -> (t: Option<u64>)
        ensures
            final(self)@ == (OptimizationsView { active_webview_id: Some(id), ..old(self)@ }),
            t == if old(self)@.tabs.contains_key(webview_key(id)) {
                Some(old(self)@.tabs[webview_key(id)])
            } else {
                None
            },
    {
        self.active_webview_id = Some(id);
        self.tab_of(id)
    }

    /// Stops tracking webview `id`; it is no longer active.  Gives the tab
    /// to unregister, if it was tracked.
    pub fn close_webview(&mut self, id: WebViewId) -> (t: Option<u64>)
        ensures
            t == if old(self)@.tabs.contains_key(webview_key(id)) {
                Some(old(self)@.tabs[webview_key(id)])
            } else {
                None
            },
            final(self)@.tabs == old(self)@.tabs.remove(webview_key(id)),
            final(self)@.urls == old(self)@.urls.remove(webview_key(id)),
            final(self)@.active_webview_id == if old(self)@.active_webview_id == Some(id) {
                None
            } else {
                old(self)@.active_webview_id
            },
            final(self)@.bootstrap_url == old(self)@.bootstrap_url,
    {
        let key = webview_key_exec(id);
        let t = self.webview_tabs.remove(&key);
        self.webview_urls.remove(&key);
        let is_active = match self.active_webview_id {
            Some(a) => a == id,
            None => false,
        };
        if is_active {
            self.active_webview_id = None;
        }
        assert(self@.urls =~= old(self)@.urls.remove(webview_key(id)));
        t
    }

    /// The active webview.
    pub fn active_webview(&self) -> (a: Option<WebViewId>)
        ensures
            a == self@.active_webview_id,
    {
        self.active_webview_id
    }

    /// The number of tracked webviews.
    pub fn tracked_webviews(&self) -> (n: usize)
        ensures
            n == self@.tabs.len(),
    {
        self.webview_tabs.len()
    }
}

impl Default for SoliloquyOptimizations {
    fn default() -> (o: SoliloquyOptimizations)
        ensures
            o@.active_webview_id is None,
            o@.bootstrap_url is None,
            o@.tabs == Map::<u64, u64>::empty(),
            o@.urls == Map::<u64, Seq<char>>::empty(),
    {
        SoliloquyOptimizations::new()
    }
}

} // verus!
