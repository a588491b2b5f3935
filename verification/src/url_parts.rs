//! The parts of a parsed URL that this crate reads, as plain values.

use vstd::prelude::*;

use crate::text::{chars_of, split_exec, split_on, vec_views};

verus! {

/// The scheme, host, explicit port and path of a URL as the `url` crate
/// parses it.
#[derive(Debug)]
pub struct ParsedUrl {
    pub scheme: String,
    pub host: Option<String>,
    pub port: Option<u16>,
    pub path: String,
}

impl View for ParsedUrl {
    type V = (Seq<char>, Option<Seq<char>>, Option<u16>, Seq<char>);

    open spec fn view(&self) -> Self::V {
        (self.scheme@, self.host.deep_view(), self.port, self.path@)
    }
}

/// What `url::Url::parse` makes of a string, read through `scheme()`,
/// `host_str()`, `port()` and `path()`; `None` when the parse fails.
pub uninterp spec fn url_parse(input: Seq<char>) -> Option<(Seq<char>, Option<Seq<char>>, Option<u16>, Seq<char>)>;

/// The view of an optional parse result.
pub open spec fn parsed_view(o: Option<ParsedUrl>) -> Option<(Seq<char>, Option<Seq<char>>, Option<u16>, Seq<char>)> {
    match o {
        Some(p) => Some(p@),
        None => None,
    }
}

/// `url::Url::parse`, followed by the accessors `scheme`, `host_str`, `port`
/// and `path`. Trusted: the result is `url_parse` of the input. Nothing is
/// stated about how the `url` crate parses.
#[verifier::external_body]
pub(crate) fn parse_url(input: &str) -> (r: Option<ParsedUrl>)
    ensures
        parsed_view(r) == url_parse(input@),
{
    match url::Url::parse(input) {
        Ok(u) => Some(ParsedUrl {
            scheme: u.scheme().to_string(),
            host: u.host_str().map(|h| h.to_string()),
            port: u.port(),
            path: u.path().to_string(),
        }),
        Err(_) => None,
    }
}

/// The path segments of a URL path (`url::Url::path_segments`): `None` when
/// the path does not start with `/`, else the rest split on `/`.
pub open spec fn path_segments_spec(path: Seq<char>) -> Option<Seq<Seq<char>>> {
    if path.len() > 0 && path[0] == '/' {
        Some(split_on(path.skip(1), '/'))
    } else {
        None
    }
}

impl ParsedUrl {
    /// The path segments, as `url::Url::path_segments` yields them.
    pub fn path_segments(&self) -> (r: Option<Vec<Vec<char>>>)
        ensures
            match r {
                Some(v) => path_segments_spec(self.path@) == Some(vec_views(v@)),
                None => path_segments_spec(self.path@) is None,
            },
    {
        let p = chars_of(self.path.as_str());
        if p.len() > 0 && p[0] == '/' {
            let mut rest: Vec<char> = Vec::new();
            let mut i: usize = 1;
            while i < p.len()
                invariant
                    1 <= i <= p.len(),
                    rest@ == p@.subrange(1, i as int),
                decreases p.len() - i,
            {
                rest.push(p[i]);
                assert(p@.subrange(1, i + 1) =~= p@.subrange(1, i as int).push(p@[i as int]));
                i = i + 1;
            }
            assert(rest@ =~= p@.skip(1));
            Some(split_exec(&rest, '/'))
        } else {
            None
        }
    }
}

} // verus!
