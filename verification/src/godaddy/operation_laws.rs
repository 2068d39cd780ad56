//! What the operations of the GoDaddy server do, told by their arguments and
//! their results.

use crate::godaddy::api::{
    base_url, call, checked_method, creds_from_file, field, interpret, interpreted, is_token_char,
    load_creds, prepare, prepared, refuse, settle, status_line, truncated, ApiRequest, Auth,
    AuthView, CredentialEnv, HttpEvent, HttpRequest, HttpStep, Lookup, RequestView, Settings,
    SETUP_HINT,
};
use crate::godaddy::laws::law_tools_go_by_these_names;
use crate::godaddy::server::{planned, read_only, Godaddy, GodaddyCall, GodaddyTool};
use crate::godaddy::wire_laws::{
    law_call_goes_to_the_selected_service, law_credentials_of_a_file,
    law_credentials_of_the_environment, law_refusals_are_passed_on,
};
use crate::json::{json_pretty, Json};
use crate::mcp::{ErrorKind, ToolDef, ToolError};
use crate::schema_laws::{
    law_godaddy_reads_ask_for_their_arguments, law_godaddy_writes_ask_for_their_arguments,
};
use crate::text::{begins, decimal, lines_of, text_view};
use crate::text_laws::given;
use vstd::prelude::*;
use vstd::string::*;

verus! {

/// The base URL is production's but where the environment is just `ote`.
pub proof fn law_base_url(env: Option<&str>, r: &'static str)
    requires
        call_ensures(base_url, (env,), r),
    ensures
        env is Some && env->0@ == "ote"@ ==> r@ == "https://api.ote-godaddy.com"@,
        !(env is Some && env->0@ == "ote"@) ==> r@ == "https://api.godaddy.com"@,
{
}

/// A token is borne, and a key pair is named with its secret behind it.
pub proof fn law_header_value(auth: &Auth, r: String)
    requires
        call_ensures(Auth::header_value, (auth,), r),
    ensures
        auth matches Auth::Pat(pat) ==> r@ == "Bearer "@ + pat@,
        auth matches Auth::SsoKey { key, secret } ==> r@ == "sso-key "@ + key@ + ":"@ + secret@,
{
}

/// Credentials are looked for in order: the token, the key pair where both
/// halves are set, the file, and where there is nothing of these, the error
/// explains how to set them up.
pub proof fn law_load_creds(env: &CredentialEnv, r: Result<Lookup, String>)
    requires
        call_ensures(load_creds, (env,), r),
    ensures
        given(env.pat) ==> (r matches Ok(Lookup::Found(a)) && a@ == AuthView::Pat(env.pat->0@)),
        !given(env.pat) && given(env.key) && given(env.secret) ==> (r matches Ok(
            Lookup::Found(a),
        ) && a@ == (AuthView::SsoKey { key: env.key->0@, secret: env.secret->0@ })),
        !given(env.pat) && !(given(env.key) && given(env.secret)) && env.file is Some ==> (
        r matches Ok(Lookup::Read(path)) && path@ == env.file->0@),
        !given(env.pat) && !(given(env.key) && given(env.secret)) && env.file is None ==> (
        r matches Err(e) && e@ == "no GoDaddy credentials configured. "@ + SETUP_HINT@),
{
    law_credentials_of_the_environment(*env);
}

/// Credentials are read from a file's fields in the same order; a file that
/// lacks them or cannot be read is an error that names it.
pub proof fn law_creds_from_file(
    path: &str,
    contents: Result<&str, &str>,
    r: Result<Auth, String>,
)
    requires
        call_ensures(creds_from_file, (path, contents), r),
    ensures
        contents matches Err(cause) ==> (r matches Err(e) && e@
            == "reading GODADDY_CREDENTIALS_FILE "@ + path@ + ": "@ + cause@),
        contents matches Ok(raw) ==> {
            let lines = lines_of(raw@);
            let pat = field(lines, "PAT="@);
            let key = field(lines, "KEY="@);
            let secret = field(lines, "SECRET="@);
            let token = pat is Some && pat->0.len() > 0;
            let pair = key is Some && key->0.len() > 0 && secret is Some && secret->0.len() > 0;
            &&& token ==> (r matches Ok(a) && a@ == AuthView::Pat(pat->0))
            &&& !token && pair ==> (r matches Ok(a) && a@ == (AuthView::SsoKey {
                key: key->0,
                secret: secret->0,
            }))
            &&& !token && !pair ==> (r matches Err(e) && e@ == path@
                + " must contain a PAT=... line, or KEY=... and SECRET=... lines"@)
        },
{
    if let Ok(raw) = contents {
        law_credentials_of_a_file(raw@);
    }
}

/// A text is cut to its first characters where it is longer than allowed.
pub proof fn law_truncated(s: &str, max: usize, r: &str)
    requires
        call_ensures(truncated, (s, max), r),
    ensures
        s@.len() <= max ==> r@ == s@,
        s@.len() > max ==> r@ == s@.subrange(0, max as int),
{
    if s@.len() > max {
        assert(s@.take(max as int) =~= s@.subrange(0, max as int));
    }
}

/// A method is used as it is where it is made of token characters, and else
/// refused by the name that the caller gave it.
pub proof fn law_checked_method(method: &str, upper: &str, r: Result<String, String>)
    requires
        call_ensures(checked_method, (method, upper), r),
    ensures
        ({
            let fine = upper@.len() > 0 && forall|i: int|
                0 <= i < upper@.len() ==> is_token_char(#[trigger] upper@[i]);
            &&& fine ==> (r matches Ok(m) && m@ == upper@)
            &&& !fine ==> (r matches Err(e) && e@ == "invalid HTTP method '"@ + method@ + "'"@)
        }),
{
}

/// What is prepared is the request that goes over the wire, or why it cannot.
pub proof fn law_prepare(
    auth: &Auth,
    request: &ApiRequest,
    base: &str,
    shopper: &Option<String>,
    r: Result<HttpRequest, String>,
)
    requires
        call_ensures(prepare, (auth, request, base, shopper), r),
    ensures
        match prepared(auth@, request@, base@, text_view(*shopper)) {
            Ok(wire) => r matches Ok(h) && h@ == wire,
            Err(e) => r matches Err(x) && x@ == e,
        },
        r matches Ok(h) ==> h.url@ == base@ + request.path@,
{
}

/// A response comes to its document, to a stand-in with its code where it has
/// no body, or to an error that names the status, which begins with the code.
pub proof fn law_interpret(status: u16, path: &str, text: &str, r: Result<Json, String>)
    requires
        call_ensures(interpret, (status, path, text), r),
    ensures
        match interpreted(status, path@, text@) {
            Ok(j) => r matches Ok(x) && x@ == j,
            Err(e) => r matches Err(x) && x@ == e,
        },
        status < 200 || status >= 300 ==> {
            &&& r matches Err(e)
            &&& e@ == "GoDaddy API "@ + status_line(status) + " on "@ + path@ + ": "@ + (
            if text@.len() > 2000 {
                text@.take(2000)
            } else {
                text@
            })
            &&& begins(status_line(status), decimal(status as nat) + " "@)
        },
{
    law_refusals_are_passed_on(status, path@, text@);
}

/// The parts that a response is settled by say the same on their own.
pub proof fn law_refuse_and_settle(
    line: &str,
    path: &str,
    text: &str,
    refused: String,
    parsed: Result<Json, String>,
    settled: Result<Json, String>,
)
    requires
        call_ensures(refuse, (line, path, text), refused),
        call_ensures(settle, (path, text, parsed), settled),
    ensures
        refused@ == "GoDaddy API "@ + line@ + " on "@ + path@ + ": "@ + (if text@.len() > 2000 {
            text@.take(2000)
        } else {
            text@
        }),
        parsed matches Ok(j) ==> (settled matches Ok(x) && x@ == j@),
        parsed matches Err(cause) ==> (settled matches Err(e) && e@ == "non-JSON response from "@
            + path@ + ": "@ + (if text@.len() > 500 {
            text@.take(500)
        } else {
            text@
        }) + ": "@ + cause@),
{
}

/// The step sends the request with these credentials to the service that the
/// environment selects, or fails where the request cannot go out.
pub open spec fn sends(
    step: HttpStep,
    auth: AuthView,
    request: RequestView,
    settings: Settings,
) -> bool {
    let base = if text_view(settings.env) == Some("ote"@) {
        "https://api.ote-godaddy.com"@
    } else {
        "https://api.godaddy.com"@
    };
    match prepared(auth, request, base, text_view(settings.shopper)) {
        Ok(wire) => step matches HttpStep::Send(h) && h@ == wire,
        Err(e) => step matches HttpStep::Fail(x) && x@ == e,
    }
}

/// A call goes out with the credentials that it finds, in the order in which
/// they are looked for; the file is read where it has to be, and what is read
/// in it counts.
pub proof fn law_call_finds_its_credentials(
    request: &ApiRequest,
    settings: &Settings,
    event: HttpEvent,
    r: HttpStep,
)
    requires
        call_ensures(call, (request, settings, event), r),
        event is Begin,
    ensures
        ({
            let env = settings.credentials;
            &&& given(env.pat) ==> sends(r, AuthView::Pat(env.pat->0@), request@, *settings)
            &&& !given(env.pat) && given(env.key) && given(env.secret) ==> sends(
                r,
                AuthView::SsoKey { key: env.key->0@, secret: env.secret->0@ },
                request@,
                *settings,
            )
            &&& !given(env.pat) && !(given(env.key) && given(env.secret)) && env.file is Some ==> (
            r matches HttpStep::ReadCredentials(path) && path@ == env.file->0@)
            &&& !given(env.pat) && !(given(env.key) && given(env.secret)) && env.file is None ==> (
            r matches HttpStep::Fail(e) && e@ == "no GoDaddy credentials configured. "@
                + SETUP_HINT@)
        }),
{
    law_credentials_of_the_environment(settings.credentials);
    if let Some(auth) = settings.credentials.auth() {
        law_call_goes_to_the_selected_service(r, auth, request@, *settings);
    }
}

/// A call whose credentials file was read goes out with what the file holds,
/// and fails where it holds nothing or could not be read.
pub proof fn law_call_uses_the_file(
    request: &ApiRequest,
    settings: &Settings,
    contents: Result<String, String>,
    event: HttpEvent,
    r: HttpStep,
)
    requires
        call_ensures(call, (request, settings, event), r),
        event == HttpEvent::CredentialsRead(contents),
        settings.credentials.file is Some,
    ensures
        ({
            let path = settings.credentials.file->0@;
            &&& contents matches Err(cause) ==> (r matches HttpStep::Fail(e) && e@
                == "reading GODADDY_CREDENTIALS_FILE "@ + path + ": "@ + cause@)
            &&& contents matches Ok(raw) ==> {
                let lines = lines_of(raw@);
                let pat = field(lines, "PAT="@);
                let key = field(lines, "KEY="@);
                let secret = field(lines, "SECRET="@);
                let token = pat is Some && pat->0.len() > 0;
                let pair = key is Some && key->0.len() > 0 && secret is Some && secret->0.len() > 0;
                &&& token ==> sends(r, AuthView::Pat(pat->0), request@, *settings)
                &&& !token && pair ==> sends(
                    r,
                    AuthView::SsoKey { key: key->0, secret: secret->0 },
                    request@,
                    *settings,
                )
                &&& !token && !pair ==> (r matches HttpStep::Fail(e) && e@ == path
                    + " must contain a PAT=... line, or KEY=... and SECRET=... lines"@)
            }
        }),
{
    if let Ok(raw) = contents {
        law_credentials_of_a_file(raw@);
        if let Some(auth) = crate::godaddy::api::file_auth(raw@) {
            law_call_goes_to_the_selected_service(r, auth, request@, *settings);
        }
    }
}

/// A call ends with what its response comes to, and one without a response
/// fails and names the address and the cause.
pub proof fn law_call_ends_with_the_response(
    request: &ApiRequest,
    settings: &Settings,
    event: HttpEvent,
    r: HttpStep,
)
    requires
        call_ensures(call, (request, settings, event), r),
    ensures
        event matches HttpEvent::Answered { status, text } ==> match interpreted(
            status,
            request.path@,
            text@,
        ) {
            Ok(j) => r matches HttpStep::Done(x) && x@ == j,
            Err(e) => r matches HttpStep::Fail(x) && x@ == e,
        },
        event matches HttpEvent::Unanswered(cause) ==> (r matches HttpStep::Fail(e) && e@
            == "calling "@ + ((if text_view(settings.env) == Some("ote"@) {
            "https://api.ote-godaddy.com"@
        } else {
            "https://api.godaddy.com"@
        }) + request.path@) + ": "@ + cause@),
{
}

/// Read-only mode is on where the variable is set to more than the empty text.
pub proof fn law_read_only(var: Option<&str>, r: bool)
    requires
        call_ensures(read_only, (var,), r),
    ensures
        r <==> var is Some && var->0@.len() > 0,
{
}

/// A request for a tool is routed by its name; in read-only mode the five tools
/// that write are refused at once, and a name that no tool has is the caller's
/// fault.
pub proof fn law_route(name: &str, read_only: bool, t: GodaddyTool, r: Result<GodaddyTool, ToolError>)
    requires
        call_ensures(Godaddy::route, (name, read_only), r),
    ensures
        ({
            let writes = t is AddDns || t is SetDns || t is DeleteDns || t is ReplaceAllDns
                || t is SetNameservers;
            let named = name@ == (match t {
                GodaddyTool::ListDomains => "list_domains"@,
                GodaddyTool::GetDomain => "get_domain"@,
                GodaddyTool::CheckAvailability => "check_availability"@,
                GodaddyTool::ListTlds => "list_tlds"@,
                GodaddyTool::ListDns => "list_dns_records"@,
                GodaddyTool::AddDns => "add_dns_records"@,
                GodaddyTool::SetDns => "set_dns_records"@,
                GodaddyTool::DeleteDns => "delete_dns_record"@,
                GodaddyTool::ReplaceAllDns => "replace_all_dns_records"@,
                GodaddyTool::SetNameservers => "set_nameservers"@,
                GodaddyTool::ListSubscriptions => "list_subscriptions"@,
                GodaddyTool::RawApi => "raw_api"@,
            });
            &&& named && !(read_only && writes) ==> (r matches Ok(x) && x == t)
            &&& named && read_only && writes ==> (r matches Err(e) && e.kind
                == ErrorKind::InvalidParams && e.message@ == "'"@ + name@
                + "' is a write operation and GODADDY_READ_ONLY is set"@)
            &&& r == Ok::<GodaddyTool, ToolError>(t) ==> named
            &&& r matches Err(e) ==> e.kind == ErrorKind::InvalidParams
        }),
{
    law_tools_go_by_these_names(name@, t);
}

/// A name that no tool has is refused by that name.
pub proof fn law_route_refuses_other_names(
    name: &str,
    read_only: bool,
    r: Result<GodaddyTool, ToolError>,
)
    requires
        call_ensures(Godaddy::route, (name, read_only), r),
        name@ != "list_domains"@,
        name@ != "get_domain"@,
        name@ != "check_availability"@,
        name@ != "list_tlds"@,
        name@ != "list_dns_records"@,
        name@ != "add_dns_records"@,
        name@ != "set_dns_records"@,
        name@ != "delete_dns_record"@,
        name@ != "replace_all_dns_records"@,
        name@ != "set_nameservers"@,
        name@ != "list_subscriptions"@,
        name@ != "raw_api"@,
    ensures
        r matches Err(e) && e.kind == ErrorKind::InvalidParams && e.message@ == "unknown tool '"@
            + name@ + "'"@,
{
    if let Some(t) = crate::godaddy::server::tool_named(name@) {
        law_tools_go_by_these_names(name@, t);
    }
}

/// What is planned for a call is its request, or why it makes none.
pub proof fn law_plan(call: &GodaddyCall, read_only: bool, r: Result<ApiRequest, ToolError>)
    requires
        call_ensures(Godaddy::plan, (call, read_only), r),
    ensures
        match planned(*call, read_only) {
            Ok(q) => r matches Ok(x) && x@ == q,
            Err(e) => r matches Err(x) && x@ == e,
        },
{
}

/// A call is answered with the document that its request came to, written out,
/// and where it failed, with the error as the server's fault.
pub proof fn law_reply(result: Result<Json, String>, r: Result<String, ToolError>)
    requires
        call_ensures(Godaddy::reply, (result,), r),
    ensures
        result matches Ok(j) ==> (r matches Ok(t) && t@ == json_pretty(j@)),
        result matches Err(e) ==> (r matches Err(x) && x.kind == ErrorKind::Internal && x.message@
            == e@),
{
}

/// The tools on offer are these twelve.
pub proof fn law_tools(r: Vec<ToolDef>)
    requires
        call_ensures(Godaddy::tools, (), r),
    ensures
        r@.len() == 12,
        r@[0].name@ == "list_domains"@,
        r@[1].name@ == "get_domain"@,
        r@[2].name@ == "check_availability"@,
        r@[3].name@ == "list_tlds"@,
        r@[4].name@ == "list_dns_records"@,
        r@[5].name@ == "add_dns_records"@,
        r@[6].name@ == "set_dns_records"@,
        r@[7].name@ == "delete_dns_record"@,
        r@[8].name@ == "replace_all_dns_records"@,
        r@[9].name@ == "set_nameservers"@,
        r@[10].name@ == "list_subscriptions"@,
        r@[11].name@ == "raw_api"@,
        forall|i: int|
            0 <= i < 12 ==> (#[trigger] r@[i])@ == crate::godaddy::server::tools_surface()[i],
{
    law_godaddy_reads_ask_for_their_arguments();
    law_godaddy_writes_ask_for_their_arguments();
    let all = crate::mcp::defs_view(r@);
    assert forall|i: int| 0 <= i < 12 implies (#[trigger] r@[i])@
        == crate::godaddy::server::tools_surface()[i] by {
        assert(all[i] == r@[i]@);
    }
    assert(r@[0]@.name == r@[0].name@);
}

} // verus!
