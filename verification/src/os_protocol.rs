//! The `os://` protocol: `os://<page>[/path]` is served by the local `sold`
//! service at `http://127.0.0.1:8080/<page>[/path]`.
use crate::text::chars_of;
use crate::urls::{url_error_text, url_host, url_parse_error, url_path, url_serialization, ParsedUrl};
use vstd::prelude::*;

verus! {

/// Base URL of the local `sold` service.
pub const SOLD_BASE: &'static str = "http://127.0.0.1:8080";

/// Handler for `os://` URLs.
#[derive(Clone, Copy, PartialEq, Eq, Structural, Debug, Default)]
pub struct OsProtocolHandler;

/// The `sold` URL text for host `host` (default `terminal`) and `path`; a
/// bare `/` path adds nothing after the host.
pub open spec fn rewritten_text(host: Option<Seq<char>>, path: Seq<char>) -> Seq<char> {
    let h = match host {
        Some(h) => h,
        None => "terminal"@,
    };
    if path == "/"@ {
        SOLD_BASE@ + "/"@ + h
    } else {
        SOLD_BASE@ + "/"@ + h + path
    }
}

fn append(out: &mut String, s: &str)
    ensures
        final(out)@ == old(out)@ + s@,
{
    let cs = chars_of(s);
    let mut i: usize = 0;
    while i < cs.len()
        invariant
            cs@ == s@,
            i <= cs@.len(),
            out@ == old(out)@ + cs@.subrange(0, i as int),
        decreases cs@.len() - i,
    {
        crate::text::push_char(out, cs[i]);
        assert(cs@.subrange(0, i + 1) =~= cs@.subrange(0, i as int).push(cs@[i as int]));
        assert(out@ =~= old(out)@ + cs@.subrange(0, i + 1));
        i = i + 1;
    }
    assert(cs@.subrange(0, cs@.len() as int) =~= cs@);
}

/// What serves a request for the URL text `url`: a URL that does not parse
/// is refused with its parse error's message.
pub open spec fn load_outcome(url: Seq<char>) -> Result<Seq<char>, Seq<char>> {
    match url_parse_error(url) {
        Some(e) => Err(url_error_text(e)),
        None => load_target_spec(url),
    }
}

/// Why an `os://` request cannot be served, or the `sold` URL serving it.
pub open spec fn load_target_spec(source: Seq<char>) -> Result<Seq<char>, Seq<char>> {
    let rewritten = rewritten_text(url_host(source), url_path(source));
    if url_parse_error(rewritten) is None {
        Ok(url_serialization(rewritten))
    } else {
        Err("os:// URL rewrite failed: "@ + rewritten)
    }
}

impl OsProtocolHandler {
    /// `os://` resources can be fetched from scripts.
    pub fn is_fetchable(&self) -> (b: bool)
        ensures
            b,
    {
        true
    }

    /// `os://` is a secure context.
    pub fn is_secure(&self) -> (b: bool)
        ensures
            b,
    {
        true
    }

    /// The `sold` URL text for `host` and `path`.
    pub fn rewrite(&self, host: Option<&str>, path: &str) -> (r: String)
        ensures
            r@ == rewritten_text(
                match host {
                    Some(h) => Some(h@),
                    None => None,
                },
                path@,
            ),
    {
        let h = match host {
            Some(h) => h,
            None => "terminal",
        };
        let mut r = SOLD_BASE.to_owned();
        append(&mut r, "/");
        append(&mut r, h);
        if !crate::text::same_text(path, "/") {
            append(&mut r, path);
        }
        r
    }

    /// The URL that serves the request for the URL text `url`: its host and
    /// path under the `sold` base, as parsed; the error message when that
    /// URL does not parse.  A request URL that does not parse is refused
    /// with the message of its parse error.
    pub fn load_target(&self, url: &str) -> (r: Result<String, String>)
        ensures
            match r {
                Ok(u) => load_outcome(url@) == Ok::<Seq<char>, Seq<char>>(u@),
                Err(m) => load_outcome(url@) == Err::<Seq<char>, Seq<char>>(m@),
            },
    {
        let url = match ParsedUrl::parse(url) {
            Ok(parsed) => parsed,
            Err(e) => {
                return Err(e.message());
            },
        };
        let host = url.host_str();
        let path = url.path();
        let rewritten = match &host {
            Some(h) => self.rewrite(Some(h.as_str()), path.as_str()),
            None => self.rewrite(None, path.as_str()),
        };
        match ParsedUrl::parse(rewritten.as_str()) {
            Ok(u) => Ok(u.as_str()),
            Err(_) => {
                let mut m = "os:// URL rewrite failed: ".to_owned();
                append(&mut m, rewritten.as_str());
                Err(m)
            },
        }
    }
}

} // verus!
