//! The client handle: the validated base address and token, and the
//! building of every endpoint URL and query string the operations use.
use vstd::prelude::*;
use vstd::string::StrSliceExecFns;
use vstd::string::StringExecFns;
use crate::decimal::{dec_rep, u64_to_dec};
use crate::errors::GotifyError;
use crate::text::{
    seq_contains_char, seq_starts_with, spec_trim_slashes, str_contains_char, str_starts_with,
    trim_slashes,
};

verus! {

/// Whether the url crate accepts a text as an absolute URL.
pub uninterp spec fn spec_url_ok(s: Seq<char>) -> bool;

/// Relies on url::Url::parse: it succeeds exactly on absolute URLs (a
/// relative reference fails with a missing-base error), and the outcome
/// depends on the text alone. Returns the parse error's rendering, or
/// nothing where the text is accepted.
#[verifier::external_body]
fn check_url(s: &str) -> (r: Option<String>)
    ensures
        r is None <==> spec_url_ok(s@),
{
    match url::Url::parse(s) {
        Ok(_) => None,
        Err(e) => Some(e.to_string()),
    }
}

/// The immutable parameters of one connection: a validated base address
/// with trailing slashes stripped, and the auth token sent on every call.
#[derive(Debug, Clone)]
pub struct GotifyClient {
    base_url: String,
    token: String,
}

impl GotifyClient {
    /// The handle is only ever built around an accepted base address.
    pub closed spec fn wf(&self) -> bool {
        spec_url_ok(self.base_url@)
    }

    /// Validates the server address and stores it, trailing slashes
    /// stripped, together with the token. Fails with the invalid-URL error
    /// exactly where the stripped address is not an absolute URL.
    pub fn new(server_url: &str, token: &str) -> (r: Result<GotifyClient, GotifyError>)
        ensures
            match r {
                Ok(c) => spec_url_ok(spec_trim_slashes(server_url@)) && c.wf() && c.spec_base_url()
                    == spec_trim_slashes(server_url@) && c.spec_token() == token@,
                Err(e) => !spec_url_ok(spec_trim_slashes(server_url@)) && e matches
                    GotifyError::InvalidUrl(_),
            },
    {
        let base = trim_slashes(server_url);
        match check_url(base) {
            None => Ok(
                GotifyClient { base_url: base.to_owned(), token: token.to_owned() },
            ),
            Some(msg) => Err(GotifyError::InvalidUrl(msg)),
        }
    }

    /// The stored base address.
    pub fn get_base_url(&self) -> (r: &str)
        ensures
            r@ == self.spec_base_url(),
    {
        self.base_url.as_str()
    }

    /// The stored token.
    pub fn get_token(&self) -> (r: &str)
        ensures
            r@ == self.spec_token(),
    {
        self.token.as_str()
    }

    /// The spec of the handle's base address.
    pub closed spec fn spec_base_url(&self) -> Seq<char> {
        self.base_url@
    }

    /// The spec of the handle's token.
    pub closed spec fn spec_token(&self) -> Seq<char> {
        self.token@
    }

    /// Builds an authenticated endpoint URL: base, slash, endpoint, and
    /// the token appended as a query parameter — after `&` where the
    /// endpoint already carries a query, after `?` otherwise.
    pub fn endpoint_url(&self, endpoint: &str) -> (r: String)
        ensures
            r@ == spec_endpoint_url(self.spec_base_url(), self.spec_token(), endpoint@),
    {
        let mut s = self.base_url.clone();
        s.append("/");
        s.append(endpoint);
        if str_contains_char(endpoint, '?') {
            s.append("&token=");
        } else {
            s.append("?token=");
        }
        s.append(self.token.as_str());
        proof {
            assert(s@ =~= spec_endpoint_url(self.base_url@, self.token@, endpoint@));
        }
        s
    }

    /// The streaming endpoint derived from the handle: the scheme upgraded
    /// to its persistent-connection counterpart, the `/stream` path, and
    /// the token as a query parameter.
    pub fn stream_url(&self) -> (r: String)
        ensures
            r@ == spec_stream_url(self.spec_base_url(), self.spec_token()),
    {
        proof {
            reveal_strlit("https://");
            reveal_strlit("http://");
        }
        let mut s: String;
        let len = self.base_url.as_str().unicode_len();
        if str_starts_with(self.base_url.as_str(), "https://") {
            s = String::from_str("wss://");
            let rest = self.base_url.as_str().substring_char(8, len);
            s.append(rest);
        } else if str_starts_with(self.base_url.as_str(), "http://") {
            s = String::from_str("ws://");
            let rest = self.base_url.as_str().substring_char(7, len);
            s.append(rest);
        } else {
            s = self.base_url.clone();
        }
        s.append("/stream?token=");
        s.append(self.token.as_str());
        proof {
            reveal_strlit("https://");
            reveal_strlit("http://");
            assert(s@ =~= spec_stream_url(self.base_url@, self.token@));
        }
        s
    }

    /// The URL of the unauthenticated health probe.
    pub fn health_url(&self) -> (r: String)
        ensures
            r@ == self.spec_base_url() + "/health"@,
    {
        let mut s = self.base_url.clone();
        s.append("/health");
        s
    }
}

/// An authenticated endpoint URL over the handle's parts.
pub open spec fn spec_endpoint_url(base: Seq<char>, token: Seq<char>, endpoint: Seq<char>) -> Seq<
    char,
> {
    base + "/"@ + endpoint + (if seq_contains_char(endpoint, '?') {
        "&token="@
    } else {
        "?token="@
    }) + token
}

/// The streaming URL over the handle's parts: `https` becomes `wss`,
/// `http` becomes `ws`, any other scheme is left as it stands.
pub open spec fn spec_stream_url(base: Seq<char>, token: Seq<char>) -> Seq<char> {
    (if seq_starts_with(base, "https://"@) {
        "wss://"@ + base.skip(8)
    } else if seq_starts_with(base, "http://"@) {
        "ws://"@ + base.skip(7)
    } else {
        base
    }) + "/stream?token="@ + token
}

/// The `since`, `limit` and `offset` parameters that are present, rendered
/// in that order.
pub open spec fn spec_page_params(
    since: Option<u64>,
    limit: Option<u64>,
    offset: Option<u64>,
) -> Seq<Seq<char>> {
    spec_opt_param("since"@, since) + spec_opt_param("limit"@, limit) + spec_opt_param(
        "offset"@,
        offset,
    )
}

/// One optional `name=value` query parameter: nothing where absent.
pub open spec fn spec_opt_param(name: Seq<char>, v: Option<u64>) -> Seq<Seq<char>> {
    match v {
        Some(n) => seq![name + "="@ + dec_rep(n as nat)],
        None => Seq::empty(),
    }
}

/// The first `i` parts joined with `&` between them.
pub open spec fn spec_join_amp(parts: Seq<Seq<char>>, i: int) -> Seq<char>
    decreases i,
{
    if i <= 0 {
        Seq::empty()
    } else if i == 1 {
        parts[0]
    } else {
        spec_join_amp(parts, i - 1) + "&"@ + parts[i - 1]
    }
}

/// The list-messages endpoint with only the present parameters in its
/// query, in `since`, `limit`, `offset` order; bare `message` where none
/// is present. An omitted parameter does not appear at all.
pub open spec fn spec_messages_endpoint(
    since: Option<u64>,
    limit: Option<u64>,
    offset: Option<u64>,
) -> Seq<char> {
    let parts = spec_page_params(since, limit, offset);
    if parts.len() == 0 {
        "message"@
    } else {
        "message?"@ + spec_join_amp(parts, parts.len() as int)
    }
}

/// Renders one `name=value` parameter.
fn render_param(name: &str, n: u64) -> (r: String)
    ensures
        r@ == name@ + "="@ + dec_rep(n as nat),
{
    let mut s = name.to_owned();
    s.append("=");
    let digits = u64_to_dec(n);
    s.append(digits.as_str());
    proof {
        assert(s@ =~= name@ + "="@ + dec_rep(n as nat));
    }
    s
}

/// Builds the list-messages endpoint from the present parameters only.
pub fn messages_endpoint(since: Option<u64>, limit: Option<u64>, offset: Option<u64>) -> (r: String)
    ensures
        r@ == spec_messages_endpoint(since, limit, offset),
{
    let mut parts: Vec<String> = Vec::new();
    if let Some(n) = since {
        parts.push(render_param("since", n));
    }
    if let Some(n) = limit {
        parts.push(render_param("limit", n));
    }
    if let Some(n) = offset {
        parts.push(render_param("offset", n));
    }
    proof {
        assert(parts@.map_values(|p: String| p@) =~= spec_page_params(since, limit, offset));
    }
    if parts.len() == 0 {
        "message".to_owned()
    } else {
        let mut s = String::from_str("message?");
        let len = parts.len();
        let mut i: usize = 0;
        while i < len
            invariant
                len == parts@.len(),
                0 <= i <= len,
                parts@.map_values(|p: String| p@) == spec_page_params(since, limit, offset),
                s@ == "message?"@ + spec_join_amp(
                    parts@.map_values(|p: String| p@),
                    i as int,
                ),
            decreases len - i,
        {
            if i > 0 {
                s.append("&");
            }
            s.append(parts[i].as_str());
            proof {
                assert(s@ =~= "message?"@ + spec_join_amp(
                    parts@.map_values(|p: String| p@),
                    i as int + 1,
                ));
            }
            i = i + 1;
        }
        s
    }
}

/// The path of one message resource, for deletion.
pub fn message_path(id: u64) -> (r: String)
    ensures
        r@ == "message/"@ + dec_rep(id as nat),
{
    let mut s = String::from_str("message/");
    let digits = u64_to_dec(id);
    s.append(digits.as_str());
    s
}

} // verus!
