//! Thin GoDaddy REST client: `sso-key` auth, prod/OTE base URL, JSON in/out.
//!
//! Credentials resolve lazily — the server starts and advertises its schema
//! without them (so `dangler warm` can harvest a cold, unprovisioned server),
//! and every tool call surfaces a setup hint when they're missing.

use crate::json::{json_compact, json_read, outcome, Json, JsonView};
use crate::text::{
    ascii_capital, ascii_small, begins, blank, copy_text, decimal, empty, is_blank, is_plain,
    lines, lines_of, raised_plainly, same, same_but_case, str_view, strip_prefix, text_view,
    to_uppercase, trim, trimmed, uppercase, views,
};
use vstd::prelude::*;
use vstd::string::*;

verus! {

/// Where credentials come from, in order:
/// 1. `GODADDY_PAT` — a Personal Access Token (Bearer auth; the current
///    scheme since GoDaddy's 2026-07 Developer Platform launch, and the only
///    one v3 endpoints accept).
/// 2. `GODADDY_API_KEY` + `GODADDY_API_SECRET` — legacy sso-key pair
///    (deprecated by GoDaddy, supported through 2026; still required for the
///    older families: certificates, shoppers, subscriptions, …).
/// 3. `GODADDY_CREDENTIALS_FILE` — path to a file with a `PAT=...` line, or
///    `KEY=...`/`SECRET=...` lines (kept outside any repo; dangler.toml
///    names the path).
pub const SETUP_HINT: &'static str = "Create a Personal Access Token in the dashboard at \
     https://developer.godaddy.com (preferred; scope it to what you need) and set \
     GODADDY_PAT — or a legacy production API key at https://developer.godaddy.com/keys \
     as GODADDY_API_KEY + GODADDY_API_SECRET. Alternatively point \
     GODADDY_CREDENTIALS_FILE at a file containing PAT=... (or KEY=... and \
     SECRET=... lines).";

pub const PRODUCTION_URL: &'static str = "https://api.godaddy.com";

pub const OTE_URL: &'static str = "https://api.ote-godaddy.com";

/// The base URL for a value of `GODADDY_ENV`.
pub open spec fn base_url_for(env: Option<Seq<char>>) -> Seq<char> {
    if env == Some("ote"@) {
        OTE_URL@
    } else {
        PRODUCTION_URL@
    }
}

/// Base URL selection: `GODADDY_ENV=ote` targets the test environment.
pub fn base_url(env: Option<&str>) -> (r: &'static str)
    ensures
        r@ == base_url_for(str_view(env)),
{
    match env {
        Some(v) => if same(v, "ote") {
            OTE_URL
        } else {
            PRODUCTION_URL
        },
        None => PRODUCTION_URL,
    }
}

/// A resolved credential: PAT (Bearer) or legacy sso-key pair.
#[derive(Debug)]
pub enum Auth {
    Pat(String),
    SsoKey { key: String, secret: String },
}

/// What an [`Auth`] holds.
pub enum AuthView {
    Pat(Seq<char>),
    SsoKey { key: Seq<char>, secret: Seq<char> },
}

impl View for Auth {
    type V = AuthView;

    open spec fn view(&self) -> AuthView {
        match self {
            Auth::Pat(pat) => AuthView::Pat(pat@),
            Auth::SsoKey { key, secret } => AuthView::SsoKey { key: key@, secret: secret@ },
        }
    }
}

impl AuthView {
    /// The value of the `Authorization` header.
    pub open spec fn header(self) -> Seq<char> {
        match self {
            AuthView::Pat(pat) => "Bearer "@ + pat,
            AuthView::SsoKey { key, secret } => "sso-key "@ + key + ":"@ + secret,
        }
    }
}

impl Auth {
    /// The value of the `Authorization` header.
    pub fn header_value(&self) -> (r: String)
        ensures
            r@ == self@.header(),
    {
        match self {
            Auth::Pat(pat) => {
                let mut h: String = "Bearer ".to_owned();
                h.append(pat.as_str());
                h
            },
            Auth::SsoKey { key, secret } => {
                let mut h: String = "sso-key ".to_owned();
                h.append(key.as_str());
                h.append(":");
                h.append(secret.as_str());
                h
            },
        }
    }
}

/// The environment that names credentials.
#[derive(Debug)]
pub struct CredentialEnv {
    /// `GODADDY_PAT`
    pub pat: Option<String>,
    /// `GODADDY_API_KEY`
    pub key: Option<String>,
    /// `GODADDY_API_SECRET`
    pub secret: Option<String>,
    /// `GODADDY_CREDENTIALS_FILE`
    pub file: Option<String>,
}

impl CredentialEnv {
    /// The credentials that stand in the environment itself.
    pub open spec fn auth(self) -> Option<AuthView> {
        auth_of(text_view(self.pat), text_view(self.key), text_view(self.secret))
    }
}

/// Where the search for credentials stands.
#[derive(Debug)]
pub enum Lookup {
    /// They were found.
    Found(Auth),
    /// They are in the file of this path.
    Read(String),
}

/// The text is set and not empty.
pub open spec fn is_set(t: Option<Seq<char>>) -> bool {
    t matches Some(s) && s.len() > 0
}

/// The credentials that a token, a key and a secret make up: the token where
/// it is set, else the pair where both are.
pub open spec fn auth_of(
    pat: Option<Seq<char>>,
    key: Option<Seq<char>>,
    secret: Option<Seq<char>>,
) -> Option<AuthView> {
    if is_set(pat) {
        Some(AuthView::Pat(pat->0))
    } else if is_set(key) && is_set(secret) {
        Some(AuthView::SsoKey { key: key->0, secret: secret->0 })
    } else {
        None
    }
}

/// The error where no credentials are configured at all.
pub open spec fn nothing_configured() -> Seq<char> {
    "no GoDaddy credentials configured. "@ + SETUP_HINT@
}

/// The credentials that a token, a key and a secret make up.
fn choose_auth(
    pat: Option<String>,
    key: Option<String>,
    secret: Option<String>,
) -> (r: Option<Auth>)
    ensures
        auth_view(r) == auth_of(text_view(pat), text_view(key), text_view(secret)),
{
    if let Some(p) = pat {
        if !empty(p.as_str()) {
            return Some(Auth::Pat(p));
        }
    }
    if let Some(key) = key {
        if let Some(secret) = secret {
            if !empty(key.as_str()) && !empty(secret.as_str()) {
                return Some(Auth::SsoKey { key, secret });
            }
        }
    }
    None
}

/// The view of optional credentials.
pub open spec fn auth_view(a: Option<Auth>) -> Option<AuthView> {
    match a {
        Some(a) => Some(a@),
        None => None,
    }
}

/// The credentials of the environment, or the file that holds them.
pub fn load_creds(env: &CredentialEnv) -> (r: Result<Lookup, String>)
    ensures
        match env.auth() {
            Some(a) => r matches Ok(Lookup::Found(found)) && found@ == a,
            None => match env.file {
                Some(path) => r matches Ok(Lookup::Read(p)) && p@ == path@,
                None => r matches Err(e) && e@ == nothing_configured(),
            },
        },
{
    match choose_auth(copy_text(&env.pat), copy_text(&env.key), copy_text(&env.secret)) {
        Some(a) => Ok(Lookup::Found(a)),
        None => match &env.file {
            Some(path) => Ok(Lookup::Read(path.clone())),
            None => {
                let mut e: String = "no GoDaddy credentials configured. ".to_owned();
                e.append(SETUP_HINT);
                Err(e)
            },
        },
    }
}

/// The value of a field of a credentials file: what follows `prefix` in the
/// last line that begins with it, without white space at either end.
pub open spec fn field(lines: Seq<Seq<char>>, prefix: Seq<char>) -> Option<Seq<char>>
    decreases lines.len(),
{
    if lines.len() == 0 {
        None
    } else if begins(trimmed(lines.last()), prefix) {
        Some(trimmed(trimmed(lines.last()).skip(prefix.len() as int)))
    } else {
        field(lines.drop_last(), prefix)
    }
}

/// The credentials that the text of a credentials file holds.
pub open spec fn file_auth(raw: Seq<char>) -> Option<AuthView> {
    auth_of(
        field(lines_of(raw), "PAT="@),
        field(lines_of(raw), "KEY="@),
        field(lines_of(raw), "SECRET="@),
    )
}

/// The error for a credentials file without credentials.
pub open spec fn file_lacks(path: Seq<char>) -> Seq<char> {
    path + " must contain a PAT=... line, or KEY=... and SECRET=... lines"@
}

/// The error for a credentials file that cannot be read.
pub open spec fn file_unreadable(path: Seq<char>, cause: Seq<char>) -> Seq<char> {
    "reading GODADDY_CREDENTIALS_FILE "@ + path + ": "@ + cause
}

/// What begins with one field's prefix begins with no other's.
proof fn lemma_fields_differ(s: Seq<char>)
    ensures
        !(begins(s, "PAT="@) && begins(s, "KEY="@)),
        !(begins(s, "PAT="@) && begins(s, "SECRET="@)),
        !(begins(s, "KEY="@) && begins(s, "SECRET="@)),
{
    reveal_strlit("PAT=");
    reveal_strlit("KEY=");
    reveal_strlit("SECRET=");
    if begins(s, "PAT="@) {
        assert(s.subrange(0, 4)[0] == 'P');
    }
    if begins(s, "KEY="@) {
        assert(s.subrange(0, 4)[0] == 'K');
    }
    if begins(s, "SECRET="@) {
        assert(s.subrange(0, 7)[0] == 'S');
    }
}

/// The credentials in the file of `path`, of which `contents` was read.
pub fn creds_from_file(path: &str, contents: Result<&str, &str>) -> (r: Result<Auth, String>)
    ensures
        match contents {
            Ok(raw) => match file_auth(raw@) {
                Some(a) => r matches Ok(found) && found@ == a,
                None => r matches Err(e) && e@ == file_lacks(path@),
            },
            Err(cause) => r matches Err(e) && e@ == file_unreadable(path@, cause@),
        },
{
    let raw: &str = match contents {
        Ok(raw) => raw,
        Err(cause) => {
            let mut e: String = "reading GODADDY_CREDENTIALS_FILE ".to_owned();
            e.append(path);
            e.append(": ");
            e.append(cause);
            return Err(e);
        },
    };
    let all: Vec<String> = lines(raw);
    let ghost held = views(all@);
    let mut pat: Option<String> = None;
    let mut key: Option<String> = None;
    let mut secret: Option<String> = None;
    let mut i: usize = 0;
    assert(held.take(0) =~= Seq::empty());
    while i < all.len()
        invariant
            held == views(all@),
            i <= all@.len(),
            text_view(pat) == field(held.take(i as int), "PAT="@),
            text_view(key) == field(held.take(i as int), "KEY="@),
            text_view(secret) == field(held.take(i as int), "SECRET="@),
        decreases all.len() - i,
    {
        let line: &str = trim(all[i].as_str());
        proof {
            assert(held.take(i + 1).drop_last() =~= held.take(i as int));
            assert(held.take(i + 1).last() == all@[i as int]@);
            lemma_fields_differ(line@);
        }
        if let Some(v) = strip_prefix(line, "PAT=") {
            pat = Some(trim(v).to_owned());
        } else if let Some(v) = strip_prefix(line, "KEY=") {
            key = Some(trim(v).to_owned());
        } else if let Some(v) = strip_prefix(line, "SECRET=") {
            secret = Some(trim(v).to_owned());
        }
        i = i + 1;
    }
    assert(held.take(i as int) =~= held);
    match choose_auth(pat, key, secret) {
        Some(a) => Ok(a),
        None => {
            let mut e: String = path.to_owned();
            e.append(" must contain a PAT=... line, or KEY=... and SECRET=... lines");
            Err(e)
        },
    }
}

/// The first `max` characters of `s`, or all of it where it is shorter.
pub open spec fn cut(s: Seq<char>, max: nat) -> Seq<char> {
    if s.len() > max {
        s.take(max as int)
    } else {
        s
    }
}

/// At most `max` characters of `s`, counted in characters and not in bytes.
pub fn truncated(s: &str, max: usize) -> (r: &str)
    ensures
        r@ == cut(s@, max as nat),
{
    let n: usize = s.unicode_len();
    if n > max {
        let r: &str = s.substring_char(0, max);
        assert(r@ =~= s@.take(max as int));
        r
    } else {
        s
    }
}

/// A call of the API, as a tool asks for it.
#[derive(Debug)]
pub struct ApiRequest {
    pub method: String,
    /// Starts with `/`, e.g. `/v1/domains`.
    pub path: String,
    pub query: Vec<(String, String)>,
    pub body: Option<Json>,
}

/// What an [`ApiRequest`] holds.
#[verifier::ext_equal]
pub struct RequestView {
    pub method: Seq<char>,
    pub path: Seq<char>,
    pub query: Seq<(Seq<char>, Seq<char>)>,
    pub body: Option<JsonView>,
}

/// What a list of pairs holds.
pub open spec fn pairs_view(pairs: Seq<(String, String)>) -> Seq<(Seq<char>, Seq<char>)> {
    Seq::new(pairs.len(), |i: int| (pairs[i].0@, pairs[i].1@))
}

/// What an optional document holds.
pub open spec fn body_view(body: Option<Json>) -> Option<JsonView> {
    match body {
        Some(j) => Some(j@),
        None => None,
    }
}

impl View for ApiRequest {
    type V = RequestView;

    open spec fn view(&self) -> RequestView {
        RequestView {
            method: self.method@,
            path: self.path@,
            query: pairs_view(self.query@),
            body: body_view(self.body),
        }
    }
}

/// A request as it goes over the wire.
#[derive(Debug)]
pub struct HttpRequest {
    pub method: String,
    pub url: String,
    pub headers: Vec<(String, String)>,
    pub query: Vec<(String, String)>,
    pub body: Option<String>,
}

/// What an [`HttpRequest`] holds.
#[verifier::ext_equal]
pub struct HttpView {
    pub method: Seq<char>,
    pub url: Seq<char>,
    pub headers: Seq<(Seq<char>, Seq<char>)>,
    pub query: Seq<(Seq<char>, Seq<char>)>,
    pub body: Option<Seq<char>>,
}

impl View for HttpRequest {
    type V = HttpView;

    open spec fn view(&self) -> HttpView {
        HttpView {
            method: self.method@,
            url: self.url@,
            headers: pairs_view(self.headers@),
            query: pairs_view(self.query@),
            body: text_view(self.body),
        }
    }
}

/// The characters that a method's name is made of.
pub open spec fn is_token_char(c: char) -> bool {
    ||| 0x30 <= c as u32 <= 0x39
    ||| 0x41 <= c as u32 <= 0x5a
    ||| 0x61 <= c as u32 <= 0x7a
    ||| c == '!' || c == '#' || c == '$' || c == '%' || c == '&' || c == '\'' || c == '*'
    ||| c == '+' || c == '-' || c == '.' || c == '^' || c == '_' || c == '`' || c == '|'
    ||| c == '~'
}

/// What can be a method's name.
pub open spec fn is_token(s: Seq<char>) -> bool {
    s.len() > 0 && forall|i: int| 0 <= i < s.len() ==> is_token_char(#[trigger] s[i])
}

/// Calls `reqwest::Method::from_str`, which takes any name of one or more
/// token characters and keeps it as it stands. The contract claims that these
/// are the names it takes, and that the method's text is the name.
#[verifier::external_body]
fn http_method(name: &str) -> (r: Option<String>)
    ensures
        r is Some <==> is_token(name@),
        r matches Some(m) ==> m@ == name@,
{
    name.parse::<reqwest::Method>().ok().map(|m| m.as_str().to_owned())
}

/// What a `reqwest::StatusCode` is displayed as: the code, and the reason that
/// is registered for it.
pub uninterp spec fn status_line(code: u16) -> Seq<char>;

/// Displays `reqwest::StatusCode::from_u16`, which takes the codes from 100 to
/// 999. The contract claims that the text depends on the code alone, and that
/// it begins with the code in decimal and a space.
#[verifier::external_body]
fn status_text(code: u16) -> (r: String)
    requires
        100 <= code <= 999,
    ensures
        r@ == status_line(code),
        begins(r@, decimal(code as nat) + " "@),
{
    reqwest::StatusCode::from_u16(code).map(|s| s.to_string()).unwrap_or_default()
}

/// The path begins with a slash.
pub open spec fn is_absolute(path: Seq<char>) -> bool {
    path.len() > 0 && path[0] == '/'
}

/// The error for a path that does not begin with a slash.
pub open spec fn bad_path(path: Seq<char>) -> Seq<char> {
    "path must start with '/', got '"@ + path + "'"@
}

/// The error for what cannot be a method.
pub open spec fn bad_method(method: Seq<char>) -> Seq<char> {
    "invalid HTTP method '"@ + method + "'"@
}

/// The headers of a request.
pub open spec fn headers_for(auth: AuthView, shopper: Option<Seq<char>>, has_body: bool) -> Seq<
    (Seq<char>, Seq<char>),
> {
    let always = seq![
        ("Authorization"@, auth.header()),
        ("Accept"@, "application/json"@),
    ];
    let delegated = if is_set(shopper) {
        always.push(("X-Shopper-Id"@, shopper->0))
    } else {
        always
    };
    if has_body {
        delegated.push(("Content-Type"@, "application/json"@))
    } else {
        delegated
    }
}

/// The request that goes over the wire, where `method` is the one to use.
pub open spec fn wired(
    auth: AuthView,
    request: RequestView,
    method: Seq<char>,
    base: Seq<char>,
    shopper: Option<Seq<char>>,
) -> HttpView {
    HttpView {
        method,
        url: base + request.path,
        headers: headers_for(auth, shopper, request.body is Some),
        query: request.query,
        body: match request.body {
            Some(j) => Some(json_compact(j)),
            None => None,
        },
    }
}

/// The request that goes over the wire, or why none does.
pub open spec fn prepared(
    auth: AuthView,
    request: RequestView,
    base: Seq<char>,
    shopper: Option<Seq<char>>,
) -> Result<HttpView, Seq<char>> {
    if !is_absolute(request.path) {
        Err(bad_path(request.path))
    } else if !is_token(uppercase(request.method)) {
        Err(bad_method(request.method))
    } else {
        Ok(wired(auth, request, uppercase(request.method), base, shopper))
    }
}

/// What preparing a request came to.
pub open spec fn prepared_view(r: Result<HttpRequest, String>) -> Result<HttpView, Seq<char>> {
    match r {
        Ok(h) => Ok(h@),
        Err(e) => Err(e@),
    }
}

/// The same pairs once more.
fn copy_pairs(pairs: &Vec<(String, String)>) -> (r: Vec<(String, String)>)
    ensures
        pairs_view(r@) == pairs_view(pairs@),
{
    let mut out: Vec<(String, String)> = Vec::new();
    let mut i: usize = 0;
    while i < pairs.len()
        invariant
            i <= pairs@.len(),
            out@.len() == i,
            forall|k: int|
                0 <= k < i ==> (#[trigger] out@[k]).0@ == pairs@[k].0@ && out@[k].1@
                    == pairs@[k].1@,
        decreases pairs.len() - i,
    {
        out.push((pairs[i].0.clone(), pairs[i].1.clone()));
        i = i + 1;
    }
    assert(pairs_view(out@) =~= pairs_view(pairs@));
    out
}

/// The method to use where `upper` is the one that a request asks for, in
/// capital letters.
pub fn checked_method(method: &str, upper: &str) -> (r: Result<String, String>)
    ensures
        is_token(upper@) ==> (r matches Ok(m) && m@ == upper@),
        !is_token(upper@) ==> (r matches Err(e) && e@ == bad_method(method@)),
{
    match http_method(upper) {
        Some(m) => Ok(m),
        None => {
            let mut e: String = "invalid HTTP method '".to_owned();
            e.append(method);
            e.append("'");
            Err(e)
        },
    }
}

/// Passes a path that begins with a slash, and refuses any other.
fn checked_path(path: &str) -> (r: Result<(), String>)
    ensures
        is_absolute(path@) ==> r is Ok,
        !is_absolute(path@) ==> (r matches Err(e) && e@ == bad_path(path@)),
{
    if !empty(path) {
        let c: char = path.get_char(0);
        if c == '/' {
            return Ok(());
        }
    }
    let mut e: String = "path must start with '/', got '".to_owned();
    e.append(path);
    e.append("'");
    Err(e)
}

/// GET in whatever case is GET in capital letters.
pub proof fn lemma_get_in_capitals(method: Seq<char>)
    requires
        same_but_case(method, "get"@),
    ensures
        is_plain(method),
        method.map_values(|c: char| ascii_capital(c)) == "GET"@,
{
    reveal_strlit("get");
    reveal_strlit("GET");
    let upper = method.map_values(|c: char| ascii_capital(c));
    assert forall|i: int| 0 <= i < method.len() implies (#[trigger] method[i]) as u32 <= 0x7f
        && upper[i] == "GET"@[i] by {
        assert(ascii_small(method[i]) == ascii_small("get"@[i]));
    }
    assert(upper =~= "GET"@);
}

/// The request that goes over the wire to `base`. Some endpoints act on a
/// delegate account: `shopper` names it.
pub fn prepare(
    auth: &Auth,
    request: &ApiRequest,
    base: &str,
    shopper: &Option<String>,
) -> (r: Result<HttpRequest, String>)
    ensures
        prepared_view(r) == prepared(auth@, request@, base@, text_view(*shopper)),
        same_but_case(request.method@, "get"@) ==> (r matches Ok(h) ==> h.method@ == "GET"@),
        is_absolute(request.path@) ==> raised_plainly(request.method@),
{
    proof {
        if same_but_case(request.method@, "get"@) {
            lemma_get_in_capitals(request.method@);
        }
    }
    if let Err(e) = checked_path(request.path.as_str()) {
        return Err(e);
    }
    let upper: String = to_uppercase(request.method.as_str());
    let method: String = match checked_method(request.method.as_str(), upper.as_str()) {
        Ok(m) => m,
        Err(e) => {
            return Err(e);
        },
    };
    let mut url: String = base.to_owned();
    url.append(request.path.as_str());
    let mut headers: Vec<(String, String)> = Vec::new();
    headers.push(("Authorization".to_owned(), auth.header_value()));
    headers.push(("Accept".to_owned(), "application/json".to_owned()));
    if let Some(id) = shopper {
        if !empty(id.as_str()) {
            headers.push(("X-Shopper-Id".to_owned(), id.clone()));
        }
    }
    let mut body: Option<String> = None;
    if let Some(j) = &request.body {
        headers.push(("Content-Type".to_owned(), "application/json".to_owned()));
        body = Some(j.to_compact());
    }
    assert(pairs_view(headers@) =~= headers_for(
        auth@,
        text_view(*shopper),
        request.body is Some,
    ));
    Ok(HttpRequest { method, url, headers, query: copy_pairs(&request.query), body })
}

/// The code says that the request was served.
pub open spec fn is_success(status: u16) -> bool {
    200 <= status < 300
}

/// The error for a response that is no success. GoDaddy's own errors are JSON
/// and are passed on verbatim.
pub open spec fn refusal(line: Seq<char>, path: Seq<char>, text: Seq<char>) -> Seq<char> {
    "GoDaddy API "@ + line + " on "@ + path + ": "@ + cut(text, 2000)
}

/// The error for a response that is not JSON.
pub open spec fn not_json(path: Seq<char>, text: Seq<char>, cause: Seq<char>) -> Seq<char> {
    "non-JSON response from "@ + path + ": "@ + cut(text, 500) + ": "@ + cause
}

/// What stands for a response without a body.
pub open spec fn accepted(status: u16) -> JsonView {
    JsonView::object().with("ok"@, JsonView::Bool(true)).with(
        "status"@,
        JsonView::UInt(status as u64),
    )
}

/// What a response of success comes to, where `parsed` was read in its text.
pub open spec fn settled(
    path: Seq<char>,
    text: Seq<char>,
    parsed: Result<JsonView, Seq<char>>,
) -> Result<JsonView, Seq<char>> {
    match parsed {
        Ok(j) => Ok(j),
        Err(cause) => Err(not_json(path, text, cause)),
    }
}

/// A response that is no success is refused by its code: what its status reads
/// begins with the code in decimal and a space.
pub open spec fn names_code(status: u16) -> bool {
    !is_success(status) ==> begins(status_line(status), decimal(status as nat) + " "@)
}

/// What a response comes to.
pub open spec fn interpreted(status: u16, path: Seq<char>, text: Seq<char>) -> Result<
    JsonView,
    Seq<char>,
> {
    if !is_success(status) {
        Err(refusal(status_line(status), path, text))
    } else if is_blank(text) {
        Ok(accepted(status))
    } else {
        settled(path, text, json_read(text))
    }
}

/// The error for a response that is no success, whose status reads `line`.
pub fn refuse(line: &str, path: &str, text: &str) -> (r: String)
    ensures
        r@ == refusal(line@, path@, text@),
{
    let mut e: String = "GoDaddy API ".to_owned();
    e.append(line);
    e.append(" on ");
    e.append(path);
    e.append(": ");
    e.append(truncated(text, 2000));
    e
}

/// What a response of success comes to, where `parsed` was read in its text.
pub fn settle(path: &str, text: &str, parsed: Result<Json, String>) -> (r: Result<Json, String>)
    ensures
        outcome(r) == settled(path@, text@, outcome(parsed)),
{
    match parsed {
        Ok(j) => Ok(j),
        Err(cause) => {
            let mut e: String = "non-JSON response from ".to_owned();
            e.append(path);
            e.append(": ");
            e.append(truncated(text, 500));
            e.append(": ");
            e.append(cause.as_str());
            Err(e)
        },
    }
}

/// What a response comes to: its JSON, a stand-in where it has no body (every
/// successful DNS write has none), or an error.
pub fn interpret(status: u16, path: &str, text: &str) -> (r: Result<Json, String>)
    requires
        100 <= status <= 999,
    ensures
        outcome(r) == interpreted(status, path@, text@),
        names_code(status),
{
    if !(200 <= status && status < 300) {
        let line: String = status_text(status);
        return Err(refuse(line.as_str(), path, text));
    }
    if blank(text) {
        return Ok(
            Json::object().with("ok", Json::Bool(true)).with("status", Json::UInt(status as u64)),
        );
    }
    settle(path, text, Json::parse(text))
}

/// The environment of a call.
#[derive(Debug)]
pub struct Settings {
    pub credentials: CredentialEnv,
    /// `GODADDY_ENV`
    pub env: Option<String>,
    /// `GODADDY_SHOPPER_ID`
    pub shopper: Option<String>,
}

/// What happened to a call.
#[derive(Debug)]
pub enum HttpEvent {
    /// The call is asked for.
    Begin,
    /// The credentials file was read, or could not be.
    CredentialsRead(Result<String, String>),
    /// The response came.
    Answered { status: u16, text: String },
    /// No response came.
    Unanswered(String),
}

/// What a call does next.
#[derive(Debug)]
pub enum HttpStep {
    /// Read the credentials file of this path.
    ReadCredentials(String),
    /// Send this request.
    Send(HttpRequest),
    /// End with this result.
    Done(Json),
    /// End with this error.
    Fail(String),
}

/// The error where no response came.
pub open spec fn unanswered(url: Seq<char>, cause: Seq<char>) -> Seq<char> {
    "calling "@ + url + ": "@ + cause
}

impl Settings {
    /// The base URL.
    pub open spec fn base(self) -> Seq<char> {
        base_url_for(text_view(self.env))
    }
}

impl HttpStep {
    /// The call fails with this error.
    pub open spec fn fails(self, error: Seq<char>) -> bool {
        self matches HttpStep::Fail(e) && e@ == error
    }

    /// The call ends in this result or this error.
    pub open spec fn ends(self, result: Result<JsonView, Seq<char>>) -> bool {
        match result {
            Ok(j) => self matches HttpStep::Done(r) && r@ == j,
            Err(e) => self.fails(e),
        }
    }

    /// The request goes over the wire with these credentials, or fails where
    /// it cannot.
    pub open spec fn goes_out(
        self,
        auth: AuthView,
        request: RequestView,
        settings: Settings,
    ) -> bool {
        match prepared(auth, request, settings.base(), text_view(settings.shopper)) {
            Ok(wire) => self matches HttpStep::Send(h) && h@ == wire,
            Err(e) => self.fails(e),
        }
    }
}

/// The base URL that the environment selects.
fn base_of(settings: &Settings) -> (r: &'static str)
    ensures
        r@ == settings.base(),
{
    match &settings.env {
        Some(v) => base_url(Some(v.as_str())),
        None => base_url(None),
    }
}

/// The request with these credentials, or why it cannot go out.
fn send_with(auth: &Auth, request: &ApiRequest, settings: &Settings) -> (r: HttpStep)
    ensures
        r.goes_out(auth@, request@, *settings),
        same_but_case(request.method@, "get"@) ==> (r matches HttpStep::Send(h) ==> h.method@
            == "GET"@),
        r is Send ==> raised_plainly(request.method@),
{
    match prepare(auth, request, base_of(settings), &settings.shopper) {
        Ok(h) => HttpStep::Send(h),
        Err(e) => HttpStep::Fail(e),
    }
}

/// One step of a GoDaddy REST call, from what happened to what is to be done.
/// `request.path` starts with `/` (e.g. `/v1/domains`), and `request.body` is
/// sent as JSON when set.
pub fn call(request: &ApiRequest, settings: &Settings, event: HttpEvent) -> (r: HttpStep)
    requires
        event is CredentialsRead ==> settings.credentials.file is Some,
        event matches HttpEvent::Answered { status, text } ==> 100 <= status <= 999,
    ensures
        match event {
            HttpEvent::Begin => match settings.credentials.auth() {
                Some(auth) => r.goes_out(auth, request@, *settings),
                None => match settings.credentials.file {
                    Some(path) => r matches HttpStep::ReadCredentials(p) && p@ == path@,
                    None => r.fails(nothing_configured()),
                },
            },
            HttpEvent::CredentialsRead(contents) => {
                let path = settings.credentials.file->0@;
                match contents {
                    Ok(raw) => match file_auth(raw@) {
                        Some(auth) => r.goes_out(auth, request@, *settings),
                        None => r.fails(file_lacks(path)),
                    },
                    Err(cause) => r.fails(file_unreadable(path, cause@)),
                }
            },
            HttpEvent::Answered { status, text } => r.ends(
                interpreted(status, request.path@, text@),
            ),
            HttpEvent::Unanswered(cause) => r.fails(
                unanswered(settings.base() + request.path@, cause@),
            ),
        },
        same_but_case(request.method@, "get"@) ==> (r matches HttpStep::Send(h) ==> h.method@
            == "GET"@),
        r is Send ==> raised_plainly(request.method@),
        event matches HttpEvent::Answered { status, text } ==> names_code(status),
{
    match event {
        HttpEvent::Begin => match load_creds(&settings.credentials) {
            Ok(Lookup::Found(auth)) => send_with(&auth, request, settings),
            Ok(Lookup::Read(path)) => HttpStep::ReadCredentials(path),
            Err(e) => HttpStep::Fail(e),
        },
        HttpEvent::CredentialsRead(contents) => {
            let path: String = match &settings.credentials.file {
                Some(p) => p.clone(),
                None => String::new(),
            };
            let found: Result<Auth, String> = match &contents {
                Ok(raw) => creds_from_file(path.as_str(), Ok(raw.as_str())),
                Err(cause) => creds_from_file(path.as_str(), Err(cause.as_str())),
            };
            match found {
                Ok(auth) => send_with(&auth, request, settings),
                Err(e) => HttpStep::Fail(e),
            }
        },
        HttpEvent::Answered { status, text } => match interpret(
            status,
            request.path.as_str(),
            text.as_str(),
        ) {
            Ok(j) => HttpStep::Done(j),
            Err(e) => HttpStep::Fail(e),
        },
        HttpEvent::Unanswered(cause) => {
            let mut e: String = "calling ".to_owned();
            e.append(base_of(settings));
            e.append(request.path.as_str());
            e.append(": ");
            e.append(cause.as_str());
            assert(e@ =~= unanswered(settings.base() + request.path@, cause@));
            HttpStep::Fail(e)
        },
    }
}

/// The documented order of credentials: a token wins over a key pair,
/// wherever the two stand together, and a pair counts only where both halves
/// are set.
pub proof fn law_token_wins(
    pat: Option<Seq<char>>,
    key: Option<Seq<char>>,
    secret: Option<Seq<char>>,
)
    ensures
        is_set(pat) ==> auth_of(pat, key, secret) == Some(AuthView::Pat(pat->0)),
        auth_of(pat, key, secret) matches Some(AuthView::SsoKey { key: k, secret: s })
            ==> !is_set(pat) && key == Some(k) && secret == Some(s) && is_set(key) && is_set(
            secret,
        ),
        auth_of(pat, key, secret) is None <==> !is_set(pat) && !(is_set(key) && is_set(secret)),
{
}

/// No part of the credentials reaches the URL, the query or the body of a
/// request: two credentials give requests that differ in their headers alone.
pub proof fn law_credentials_stay_in_headers(
    a: AuthView,
    b: AuthView,
    request: RequestView,
    base: Seq<char>,
    shopper: Option<Seq<char>>,
)
    ensures
        match (prepared(a, request, base, shopper), prepared(b, request, base, shopper)) {
            (Ok(x), Ok(y)) => x.method == y.method && x.url == y.url && x.query == y.query
                && x.body == y.body,
            (Err(x), Err(y)) => x == y,
            _ => false,
        },
{
}

/// A cut text is a prefix of the text, no longer than the limit, and whole
/// where it fits: no character is split.
pub proof fn law_cut_is_a_prefix(s: Seq<char>, max: nat)
    ensures
        cut(s, max).len() <= max,
        begins(s, cut(s, max)),
        s.len() <= max ==> cut(s, max) == s,
        s.len() > max ==> cut(s, max).len() == max,
{
    assert(s.subrange(0, cut(s, max).len() as int) =~= cut(s, max));
}

} // verus!
