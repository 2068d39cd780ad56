//! What goes over the wire to GoDaddy, under which credentials, and what comes
//! of the answer.

use crate::godaddy::api::{
    base_url_for, cut, field, file_auth, file_lacks, file_unreadable, headers_for, interpreted,
    is_set, is_token_char, law_cut_is_a_prefix, nothing_configured, prepared, status_line,
    unanswered, AuthView, CredentialEnv, HttpStep, RequestView, Settings, SETUP_HINT,
};
use crate::json::{json_compact, json_read, JsonView};
use crate::json_laws::{law_empty_object_has_no_member, law_with_adds_one_member};
use crate::text::{begins, has, is_blank, lines_of, stands_at, text_view, trimmed, uppercase};
use vstd::prelude::*;
use vstd::string::*;

verus! {

/// The test environment is meant where `GODADDY_ENV` is just `ote`, and
/// production wherever it is anything else or nothing.
pub proof fn law_only_ote_leaves_production(env: Option<Seq<char>>)
    ensures
        env == Some("ote"@) ==> base_url_for(env) == "https://api.ote-godaddy.com"@,
        env != Some("ote"@) ==> base_url_for(env) == "https://api.godaddy.com"@,
{
}

/// A variable counts where it is set to more than the empty text.
pub proof fn law_empty_counts_as_unset(t: Option<Seq<char>>)
    ensures
        is_set(t) <==> t is Some && t->0.len() > 0,
{
}

/// The credentials of the environment: the token where there is one, whatever
/// else is set; else the key and the secret, each in its own part, where both
/// are there; else none.
pub proof fn law_credentials_of_the_environment(env: CredentialEnv)
    ensures
        match (env.pat, env.key, env.secret) {
            (pat, key, secret) => {
                let token = pat is Some && pat->0@.len() > 0;
                let pair = key is Some && key->0@.len() > 0 && secret is Some && secret->0@.len()
                    > 0;
                &&& token ==> env.auth() == Some(AuthView::Pat(pat->0@))
                &&& !token && pair ==> env.auth() == Some(
                    AuthView::SsoKey { key: key->0@, secret: secret->0@ },
                )
                &&& !token && !pair ==> env.auth() is None
            },
        },
{
}

/// The credentials of a file are made up in the same way of the fields that
/// its lines hold: `PAT`, `KEY` and `SECRET`.
pub proof fn law_credentials_of_a_file(raw: Seq<char>)
    ensures
        ({
            let lines = lines_of(raw);
            let pat = field(lines, "PAT="@);
            let key = field(lines, "KEY="@);
            let secret = field(lines, "SECRET="@);
            let token = pat is Some && pat->0.len() > 0;
            let pair = key is Some && key->0.len() > 0 && secret is Some && secret->0.len() > 0;
            &&& token ==> file_auth(raw) == Some(AuthView::Pat(pat->0))
            &&& !token && pair ==> file_auth(raw) == Some(
                AuthView::SsoKey { key: key->0, secret: secret->0 },
            )
            &&& !token && !pair ==> file_auth(raw) is None
        }),
{
}

/// A field of a credentials file is what follows its prefix in the last line
/// that begins with it, the white space at the ends of the line and of the
/// value left out.
pub proof fn law_last_line_of_a_field_counts(lines: Seq<Seq<char>>, prefix: Seq<char>, i: int)
    requires
        0 <= i < lines.len(),
        begins(trimmed(lines[i]), prefix),
        forall|k: int| i < k < lines.len() ==> !begins(trimmed(#[trigger] lines[k]), prefix),
    ensures
        field(lines, prefix) == Some(trimmed(trimmed(lines[i]).skip(prefix.len() as int))),
    decreases lines.len(),
{
    if i < lines.len() - 1 {
        let less = lines.drop_last();
        assert(!begins(trimmed(lines[lines.len() - 1]), prefix));
        assert forall|k: int| i < k < less.len() implies !begins(
            trimmed(#[trigger] less[k]),
            prefix,
        ) by {
            assert(less[k] == lines[k]);
        }
        law_last_line_of_a_field_counts(less, prefix, i);
    }
}

/// A field that no line begins with is not there.
pub proof fn law_no_field_is_made_up(lines: Seq<Seq<char>>, prefix: Seq<char>)
    requires
        forall|k: int| 0 <= k < lines.len() ==> !begins(trimmed(#[trigger] lines[k]), prefix),
    ensures
        field(lines, prefix) is None,
    decreases lines.len(),
{
    if lines.len() > 0 {
        let less = lines.drop_last();
        assert(!begins(trimmed(lines[lines.len() - 1]), prefix));
        assert forall|k: int| 0 <= k < less.len() implies !begins(
            trimmed(#[trigger] less[k]),
            prefix,
        ) by {
            assert(less[k] == lines[k]);
        }
        law_no_field_is_made_up(less, prefix);
    }
}

/// A header of a request.
pub open spec fn is_header_of(
    auth: AuthView,
    shopper: Option<Seq<char>>,
    has_body: bool,
    name: Seq<char>,
    value: Seq<char>,
) -> bool {
    ||| name == "Authorization"@ && value == (match auth {
        AuthView::Pat(pat) => "Bearer "@ + pat,
        AuthView::SsoKey { key, secret } => "sso-key "@ + key + ":"@ + secret,
    })
    ||| name == "Accept"@ && value == "application/json"@
    ||| name == "X-Shopper-Id"@ && shopper == Some(value) && value.len() > 0
    ||| name == "Content-Type"@ && value == "application/json"@ && has_body
}

/// A request that goes out is what was asked for: its method in capital
/// letters, its path behind the base URL, its query, its body written as JSON
/// where it has one, and just the headers that say who asks, for which shopper
/// where one is named, and what is sent and taken.
pub proof fn law_wire_carries_the_request(
    auth: AuthView,
    request: RequestView,
    base: Seq<char>,
    shopper: Option<Seq<char>>,
    name: Seq<char>,
    value: Seq<char>,
)
    requires
        prepared(auth, request, base, shopper) is Ok,
    ensures
        ({
            let wire = prepared(auth, request, base, shopper)->Ok_0;
            &&& wire.method == uppercase(request.method)
            &&& wire.url == base + request.path
            &&& wire.query == request.query
            &&& wire.body is Some <==> request.body is Some
            &&& request.body matches Some(j) ==> wire.body == Some(json_compact(j))
            &&& wire.headers.contains((name, value)) <==> is_header_of(
                auth,
                shopper,
                request.body is Some,
                name,
                value,
            )
            &&& wire.headers.len() == 2 + (if shopper is Some && shopper->0.len() > 0 {
                1int
            } else {
                0
            }) + (if request.body is Some {
                1int
            } else {
                0
            })
        }),
{
    let has_body = request.body is Some;
    let wire = prepared(auth, request, base, shopper)->Ok_0;
    let h = wire.headers;
    let named = shopper is Some && shopper->0.len() > 0;
    let bearer = match auth {
        AuthView::Pat(pat) => "Bearer "@ + pat,
        AuthView::SsoKey { key, secret } => "sso-key "@ + key + ":"@ + secret,
    };
    assert(h == headers_for(auth, shopper, has_body));
    assert(h[0] == ("Authorization"@, bearer));
    assert(h[1] == ("Accept"@, "application/json"@));
    if named {
        assert(h[2] == ("X-Shopper-Id"@, shopper->0));
    }
    if has_body {
        assert(h[h.len() - 1] == ("Content-Type"@, "application/json"@));
    }
    if h.contains((name, value)) {
        let i = choose|i: int| 0 <= i < h.len() && h[i] == (name, value);
        assert(i == 0 || i == 1 || i == 2 || i == 3);
    }
}

/// A request goes out exactly where its path begins with a slash and its method
/// in capital letters can be one; else the error names what is at fault, the
/// path first.
pub proof fn law_request_goes_out_where_it_can(
    auth: AuthView,
    request: RequestView,
    base: Seq<char>,
    shopper: Option<Seq<char>>,
)
    ensures
        ({
            let path = request.path;
            let upper = uppercase(request.method);
            let rooted = path.len() > 0 && path[0] == '/';
            let method = upper.len() > 0 && forall|i: int|
                0 <= i < upper.len() ==> is_token_char(#[trigger] upper[i]);
            &&& prepared(auth, request, base, shopper) is Ok <==> rooted && method
            &&& !rooted ==> prepared(auth, request, base, shopper)->Err_0
                == "path must start with '/', got '"@ + path + "'"@
            &&& rooted && !method ==> prepared(auth, request, base, shopper)->Err_0
                == "invalid HTTP method '"@ + request.method + "'"@
        }),
{
}

/// A call goes to the base URL that the environment selects, for the shopper
/// that it names.
pub proof fn law_call_goes_to_the_selected_service(
    step: HttpStep,
    auth: AuthView,
    request: RequestView,
    settings: Settings,
)
    requires
        step.goes_out(auth, request, settings),
    ensures
        ({
            let base = if text_view(settings.env) == Some("ote"@) {
                "https://api.ote-godaddy.com"@
            } else {
                "https://api.godaddy.com"@
            };
            match prepared(auth, request, base, text_view(settings.shopper)) {
                Ok(wire) => step matches HttpStep::Send(h) && h@ == wire,
                Err(e) => step matches HttpStep::Fail(x) && x@ == e,
            }
        }),
{
}

/// A response is a success where its code is two hundred and something. Any
/// other is an error that names the status, the path and the text, of which no
/// more than two thousand characters are quoted.
pub proof fn law_refusals_are_passed_on(status: u16, path: Seq<char>, text: Seq<char>)
    ensures
        interpreted(status, path, text) is Err <== status < 200 || status >= 300,
        status < 200 || status >= 300 ==> interpreted(status, path, text)->Err_0 == "GoDaddy API "@
            + status_line(status) + " on "@ + path + ": "@ + (if text.len() > 2000 {
            text.take(2000)
        } else {
            text
        }),
{
    law_cut_is_a_prefix(text, 2000);
    if text.len() > 2000 {
        assert(cut(text, 2000) =~= text.take(2000)) by {
            assert(text.subrange(0, 2000) =~= text.take(2000));
        }
    }
}

/// A success without a body is answered with its code, and one with a body with
/// the document that the body holds; a body that holds none is an error that
/// names the path and the cause, and quotes no more than five hundred
/// characters.
pub proof fn law_successes_are_read(status: u16, path: Seq<char>, text: Seq<char>)
    requires
        200 <= status < 300,
    ensures
        is_blank(text) ==> {
            &&& interpreted(status, path, text) matches Ok(j)
            &&& j is Object && j->Object_0.len() == 2
            &&& j.member("ok"@) == Some(JsonView::Bool(true))
            &&& j.member("status"@) == Some(JsonView::UInt(status as u64))
        },
        !is_blank(text) ==> match json_read(text) {
            Ok(j) => interpreted(status, path, text) == Ok::<JsonView, Seq<char>>(j),
            Err(cause) => interpreted(status, path, text) == Err::<JsonView, Seq<char>>(
                "non-JSON response from "@ + path + ": "@ + (if text.len() > 500 {
                    text.take(500)
                } else {
                    text
                }) + ": "@ + cause,
            ),
        },
{
    reveal_strlit("ok");
    reveal_strlit("status");
    assert("ok"@.len() == 2);
    assert("status"@.len() == 6);
    law_empty_object_has_no_member();
    law_with_adds_one_member(JsonView::object(), "ok"@, JsonView::Bool(true));
    law_with_adds_one_member(
        JsonView::object().with("ok"@, JsonView::Bool(true)),
        "status"@,
        JsonView::UInt(status as u64),
    );
}

/// What cannot be done for want of credentials or of an answer says so, and
/// names the file, the address and the cause that it is about.
pub proof fn law_failures_are_explained(path: Seq<char>, cause: Seq<char>)
    ensures
        nothing_configured() == "no GoDaddy credentials configured. "@ + SETUP_HINT@,
        file_lacks(path) == path
            + " must contain a PAT=... line, or KEY=... and SECRET=... lines"@,
        file_unreadable(path, cause) == "reading GODADDY_CREDENTIALS_FILE "@ + path + ": "@ + cause,
        unanswered(path, cause) == "calling "@ + path + ": "@ + cause,
{
}

/// The hint that a call without credentials gives names every variable that can
/// hold them.
pub proof fn law_hint_names_what_to_set()
    ensures
        has(SETUP_HINT@, "GODADDY_PAT"@),
        has(SETUP_HINT@, "GODADDY_API_KEY"@),
        has(SETUP_HINT@, "GODADDY_API_SECRET"@),
        has(SETUP_HINT@, "GODADDY_CREDENTIALS_FILE"@),
{
    reveal_strlit(
        "Create a Personal Access Token in the dashboard at \
     https://developer.godaddy.com (preferred; scope it to what you need) and set \
     GODADDY_PAT — or a legacy production API key at https://developer.godaddy.com/keys \
     as GODADDY_API_KEY + GODADDY_API_SECRET. Alternatively point \
     GODADDY_CREDENTIALS_FILE at a file containing PAT=... (or KEY=... and \
     SECRET=... lines).",
    );
    reveal_strlit("GODADDY_PAT");
    reveal_strlit("GODADDY_API_KEY");
    reveal_strlit("GODADDY_API_SECRET");
    reveal_strlit("GODADDY_CREDENTIALS_FILE");
    assert(SETUP_HINT@.subrange(128, 139) =~= "GODADDY_PAT"@);
    assert(stands_at(SETUP_HINT@, "GODADDY_PAT"@, 128));
    assert(SETUP_HINT@.subrange(214, 229) =~= "GODADDY_API_KEY"@);
    assert(stands_at(SETUP_HINT@, "GODADDY_API_KEY"@, 214));
    assert(SETUP_HINT@.subrange(232, 250) =~= "GODADDY_API_SECRET"@);
    assert(stands_at(SETUP_HINT@, "GODADDY_API_SECRET"@, 232));
    assert(SETUP_HINT@.subrange(272, 296) =~= "GODADDY_CREDENTIALS_FILE"@);
    assert(stands_at(SETUP_HINT@, "GODADDY_CREDENTIALS_FILE"@, 272));
}

/// A method's name is made of letters, digits and the signs that HTTP lets
/// stand in a token, and so of no white space, separator or control character.
pub proof fn law_token_characters(c: char)
    ensures
        is_token_char(c) <==> {
            ||| 'a' <= c <= 'z'
            ||| 'A' <= c <= 'Z'
            ||| '0' <= c <= '9'
            ||| seq![
                '!', '#', '$', '%', '&', '\'', '*', '+', '-', '.', '^', '_', '`', '|', '~',
            ].contains(c)
        },
{
    let signs = seq![
        '!', '#', '$', '%', '&', '\'', '*', '+', '-', '.', '^', '_', '`', '|', '~',
    ];
    assert(signs[0] == '!' && signs[1] == '#' && signs[2] == '$' && signs[3] == '%' && signs[4]
        == '&' && signs[5] == '\'' && signs[6] == '*' && signs[7] == '+' && signs[8] == '-'
        && signs[9] == '.' && signs[10] == '^' && signs[11] == '_' && signs[12] == '`'
        && signs[13] == '|' && signs[14] == '~');
    if signs.contains(c) {
        let i = choose|i: int| 0 <= i < signs.len() && signs[i] == c;
        assert(signs[i] == c);
    }
}

} // verus!
