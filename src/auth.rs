//! The OAuth2 "code flow": building the authorization URL, reading the code
//! back from the redirect, and the forms sent to the token endpoint.
use vstd::prelude::*;
use vstd::utf8::encode_utf8;

verus! {

/// URL where the browser is sent once the user approves access for this app.
pub const REDIRECT_URI: &'static str = "http://127.0.0.1:8080/";

/// Identifier of this application at the identity provider.
pub const CLIENT_ID: &'static str = "454dddcf-522d-43b6-b078-b38657e8045a";

/// Page where the user grants this application access to the account.
pub const AUTHORIZE_ENDPOINT: &'static str = "https://login.live.com/oauth20_authorize.srf";

/// Endpoint that trades a code or a refresh token for a new token pair.
pub const TOKEN_ENDPOINT: &'static str = "https://login.live.com/oauth20_token.srf";

/// A byte that percent-encoding leaves as it is.
pub open spec fn is_unreserved_byte(b: u8) -> bool {
    (0x30 <= b <= 0x39) || (0x41 <= b <= 0x5a) || (0x61 <= b <= 0x7a) || b == 0x2d || b == 0x2e
        || b == 0x5f || b == 0x7e
}

/// Upper-case hexadecimal digit for a value below 16.
pub open spec fn hex_digit(d: u8) -> char {
    if d < 10 {
        (0x30 + d) as u8 as char
    } else {
        (0x37 + d) as u8 as char
    }
}

/// One byte, percent-encoded.
pub open spec fn encoded_byte(b: u8) -> Seq<char> {
    if is_unreserved_byte(b) {
        seq![b as char]
    } else {
        seq!['%', hex_digit(b / 16), hex_digit(b % 16)]
    }
}

/// Bytes, percent-encoded one after the other.
pub open spec fn percent_encoded(bytes: Seq<u8>) -> Seq<char>
    decreases bytes.len(),
{
    if bytes.len() == 0 {
        seq![]
    } else {
        encoded_byte(bytes[0]) + percent_encoded(bytes.drop_first())
    }
}

/// Relies on urlencoding::encode: each byte of the UTF-8 form of `s` that is
/// not an ASCII letter, digit, `-`, `.`, `_` or `~` becomes `%` followed by two
/// upper-case hex digits; the others are kept.
#[verifier::external_body]
fn url_encode(s: &str) -> (r: String)
    ensures
        r@ == percent_encoded(encode_utf8(s@)),
{
    urlencoding::encode(s).into_owned()
}

/// Words joined with single spaces.
pub open spec fn space_joined(words: Seq<Seq<char>>) -> Seq<char>
    decreases words.len(),
{
    if words.len() == 0 {
        seq![]
    } else if words.len() == 1 {
        words[0]
    } else {
        space_joined(words.drop_last()) + " "@ + words.last()
    }
}

/// The views of a sequence of strings.
pub open spec fn string_views(v: Seq<String>) -> Seq<Seq<char>> {
    v.map_values(|s: String| s@)
}

/// The `scope` value of an authorization request.
pub open spec fn scope_value(scopes: Seq<Seq<char>>) -> Seq<char> {
    percent_encoded(encode_utf8(space_joined(scopes)))
}

/// Authorization URL for the code flow: the query holds `client_id`, `scope`,
/// `response_type=code` and `redirect_uri`, in that order.
pub open spec fn authorization_url(
    client_id: Seq<char>,
    redirect_uri: Seq<char>,
    scopes: Seq<Seq<char>>,
) -> Seq<char> {
    AUTHORIZE_ENDPOINT@ + "?client_id="@ + client_id + "&scope="@ + scope_value(scopes)
        + "&response_type=code"@ + "&redirect_uri="@ + redirect_uri
}

/// The scopes that this application asks for.
pub open spec fn default_scopes() -> Seq<Seq<char>> {
    seq!["files.readwrite.all"@, "onedrive.readwrite"@, "offline_access"@]
}

/// Joins `words` with single spaces.
pub fn join_with_spaces(words: &Vec<String>) -> (r: String)
    ensures
        r@ == space_joined(string_views(words@)),
{
    let mut out = String::new();
    let mut i: usize = 0;
    while i < words.len()
        invariant
            i <= words.len(),
            out@ == space_joined(string_views(words@.subrange(0, i as int))),
        decreases words.len() - i,
    {
        proof {
            let w = string_views(words@.subrange(0, i as int + 1));
            assert(w.drop_last() =~= string_views(words@.subrange(0, i as int)));
            reveal_strlit(" ");
        }
        if i > 0 {
            out.append(" ");
        }
        out.append(words[i].as_str());
        i = i + 1;
    }
    assert(words@.subrange(0, words@.len() as int) =~= words@);
    out
}

/// Builds the URL that asks the user to grant `scopes` to `client_id`, with
/// the browser sent back to `redirect_uri`. The scopes are joined with spaces
/// and percent-encoded.
pub fn build_authorization_url(client_id: &str, redirect_uri: &str, scopes: &Vec<String>) -> (r:
    String)
    ensures
        r@ == authorization_url(client_id@, redirect_uri@, string_views(scopes@)),
{
    let scope = url_encode(join_with_spaces(scopes).as_str());
    let mut url = String::from_str(AUTHORIZE_ENDPOINT);
    url.append("?client_id=");
    url.append(client_id);
    url.append("&scope=");
    url.append(scope.as_str());
    url.append("&response_type=code");
    url.append("&redirect_uri=");
    url.append(redirect_uri);
    proof {
        assert(url@ =~= authorization_url(client_id@, redirect_uri@, string_views(scopes@)));
    }
    url
}

/// The URL to open in a browser to let this application at the account.
pub fn get_auth_url() -> (r: String)
    ensures
        r@ == authorization_url(CLIENT_ID@, REDIRECT_URI@, default_scopes()),
{
    let mut scopes: Vec<String> = Vec::new();
    scopes.push(String::from_str("files.readwrite.all"));
    scopes.push(String::from_str("onedrive.readwrite"));
    scopes.push(String::from_str("offline_access"));
    assert(string_views(scopes@) =~= default_scopes());
    build_authorization_url(CLIENT_ID, REDIRECT_URI, &scopes)
}

/// Parameters of a query string: the pieces between `&` separators.
pub open spec fn query_params(q: Seq<char>) -> Seq<Seq<char>>
    decreases q.len(),
{
    if q.len() == 0 {
        seq![seq![]]
    } else {
        let rest = query_params(q.drop_first());
        if q[0] == '&' {
            seq![seq![]] + rest
        } else {
            rest.update(0, seq![q[0]] + rest[0])
        }
    }
}

/// A character that percent-encoding can produce.
pub open spec fn is_encoded_char(c: char) -> bool {
    let u = c as u32;
    (0x30 <= u <= 0x39) || (0x41 <= u <= 0x5a) || (0x61 <= u <= 0x7a) || u == 0x2d || u == 0x2e
        || u == 0x5f || u == 0x7e || u == 0x25
}

/// Query string of an authorization request, parameter by parameter.
pub open spec fn authorization_query(
    client_id: Seq<char>,
    redirect_uri: Seq<char>,
    scopes: Seq<Seq<char>>,
) -> Seq<char> {
    "client_id="@ + client_id + "&"@ + "scope="@ + scope_value(scopes) + "&"@ + "response_type=code"@
        + "&"@ + "redirect_uri="@ + redirect_uri
}

proof fn lemma_query_params_len(q: Seq<char>)
    ensures
        query_params(q).len() >= 1,
    decreases q.len(),
{
    if q.len() > 0 {
        lemma_query_params_len(q.drop_first());
    }
}

/// Text without `&` only extends the first parameter of what follows it.
proof fn lemma_query_params_prefix(a: Seq<char>, t: Seq<char>)
    requires
        !a.contains('&'),
    ensures
        query_params(a + t) == query_params(t).update(0, a + query_params(t)[0]),
    decreases a.len(),
{
    lemma_query_params_len(t);
    if a.len() == 0 {
        assert(a + t =~= t);
        assert(a + query_params(t)[0] =~= query_params(t)[0]);
        assert(query_params(t).update(0, query_params(t)[0]) =~= query_params(t));
    } else {
        let a1 = a.drop_first();
        assert(!a1.contains('&')) by {
            if a1.contains('&') {
                let k = choose|k: int| 0 <= k < a1.len() && a1[k] == '&';
                assert(a[k + 1] == '&');
            }
        }
        assert(a[0] != '&') by {
            if a[0] == '&' {
                assert(a.contains('&'));
            }
        }
        lemma_query_params_prefix(a1, t);
        assert((a + t).drop_first() =~= a1 + t);
        assert(seq![a[0]] + (a1 + query_params(t)[0]) =~= a + query_params(t)[0]);
        assert(query_params(a + t) =~= query_params(t).update(0, a + query_params(t)[0]));
    }
}

proof fn lemma_query_params_split(a: Seq<char>, b: Seq<char>)
    requires
        !a.contains('&'),
    ensures
        query_params(a + "&"@ + b) == seq![a] + query_params(b),
{
    reveal_strlit("&");
    let t = "&"@ + b;
    assert(a + "&"@ + b =~= a + t);
    lemma_query_params_prefix(a, t);
    assert(t.drop_first() =~= b);
    assert(a + Seq::<char>::empty() =~= a);
    assert(query_params(t).update(0, a) =~= seq![a] + query_params(b));
}

proof fn lemma_query_params_single(a: Seq<char>)
    requires
        !a.contains('&'),
    ensures
        query_params(a) == seq![a],
{
    lemma_query_params_prefix(a, Seq::<char>::empty());
    assert(a + Seq::<char>::empty() =~= a);
    assert(seq![Seq::<char>::empty()].update(0, a) =~= seq![a]);
}

proof fn lemma_encoded_chars(bytes: Seq<u8>)
    ensures
        forall|k: int|
            0 <= k < percent_encoded(bytes).len() ==> is_encoded_char(
                #[trigger] percent_encoded(bytes)[k],
            ),
    decreases bytes.len(),
{
    if bytes.len() > 0 {
        let b = bytes[0];
        lemma_encoded_chars(bytes.drop_first());
        let e = encoded_byte(b);
        let rest = percent_encoded(bytes.drop_first());
        assert forall|k: int| 0 <= k < e.len() implies is_encoded_char(#[trigger] e[k]) by {
            assert(b / 16 < 16);
            assert(b % 16 < 16);
        }
        assert forall|k: int| 0 <= k < (e + rest).len() implies is_encoded_char(
            #[trigger] (e + rest)[k],
        ) by {
            if k >= e.len() {
                assert((e + rest)[k] == rest[k - e.len()]);
            }
        }
    }
}

proof fn lemma_no_amp_in_literal(s: Seq<char>, t: Seq<char>)
    requires
        !s.contains('&'),
        !t.contains('&'),
    ensures
        !(s + t).contains('&'),
{
    if (s + t).contains('&') {
        let k = choose|k: int| 0 <= k < (s + t).len() && (s + t)[k] == '&';
        if k < s.len() {
            assert(s[k] == '&');
        } else {
            assert(t[k - s.len()] == '&');
        }
    }
}

/// For a client id and a redirect URI without `&`, the authorization URL is
/// the endpoint, `?`, and a query whose parameters are exactly `client_id`,
/// `scope`, `response_type=code` and `redirect_uri`; only one of them is
/// `response_type=code`, and the scope value is percent-encoded: it holds no
/// space and no `&`, only unreserved characters and `%` escapes.
pub proof fn lemma_authorization_url_params(
    client_id: Seq<char>,
    redirect_uri: Seq<char>,
    scopes: Seq<Seq<char>>,
)
    requires
        !client_id.contains('&'),
        !redirect_uri.contains('&'),
    ensures
        authorization_url(client_id, redirect_uri, scopes) == AUTHORIZE_ENDPOINT@ + "?"@
            + authorization_query(client_id, redirect_uri, scopes),
        query_params(authorization_query(client_id, redirect_uri, scopes)) == seq![
            "client_id="@ + client_id,
            "scope="@ + scope_value(scopes),
            "response_type=code"@,
            "redirect_uri="@ + redirect_uri,
        ],
        forall|i: int|
            0 <= i < 4 ==> (#[trigger] query_params(
                authorization_query(client_id, redirect_uri, scopes),
            )[i] == "response_type=code"@ <==> i == 2),
        forall|k: int|
            0 <= k < scope_value(scopes).len() ==> is_encoded_char(#[trigger] scope_value(scopes)[k]),
        !scope_value(scopes).contains(' '),
{
    reveal_strlit("?client_id=");
    reveal_strlit("?");
    reveal_strlit("client_id=");
    reveal_strlit("&scope=");
    reveal_strlit("&");
    reveal_strlit("scope=");
    reveal_strlit("&response_type=code");
    reveal_strlit("response_type=code");
    reveal_strlit("&redirect_uri=");
    reveal_strlit("redirect_uri=");
    let enc = scope_value(scopes);
    let q = authorization_query(client_id, redirect_uri, scopes);
    assert(authorization_url(client_id, redirect_uri, scopes) =~= AUTHORIZE_ENDPOINT@ + "?"@ + q);
    lemma_encoded_chars(encode_utf8(space_joined(scopes)));
    assert(!enc.contains('&')) by {
        if enc.contains('&') {
            let k = choose|k: int| 0 <= k < enc.len() && enc[k] == '&';
            assert(is_encoded_char(enc[k]));
        }
    }
    assert(!enc.contains(' ')) by {
        if enc.contains(' ') {
            let k = choose|k: int| 0 <= k < enc.len() && enc[k] == ' ';
            assert(is_encoded_char(enc[k]));
        }
    }
    let p0 = "client_id="@ + client_id;
    let p1 = "scope="@ + enc;
    let p2 = "response_type=code"@;
    let p3 = "redirect_uri="@ + redirect_uri;
    assert(!"client_id="@.contains('&')) by {
        if "client_id="@.contains('&') {
            let k = choose|k: int| 0 <= k < "client_id="@.len() && "client_id="@[k] == '&';
        }
    }
    assert(!"scope="@.contains('&')) by {
        if "scope="@.contains('&') {
            let k = choose|k: int| 0 <= k < "scope="@.len() && "scope="@[k] == '&';
        }
    }
    assert(!p2.contains('&')) by {
        if p2.contains('&') {
            let k = choose|k: int| 0 <= k < p2.len() && p2[k] == '&';
        }
    }
    assert(!"redirect_uri="@.contains('&')) by {
        if "redirect_uri="@.contains('&') {
            let k = choose|k: int| 0 <= k < "redirect_uri="@.len() && "redirect_uri="@[k] == '&';
        }
    }
    lemma_no_amp_in_literal("client_id="@, client_id);
    lemma_no_amp_in_literal("scope="@, enc);
    lemma_no_amp_in_literal("redirect_uri="@, redirect_uri);
    let tail3 = p3;
    let tail2 = p2 + "&"@ + tail3;
    let tail1 = p1 + "&"@ + tail2;
    assert(q =~= p0 + "&"@ + tail1);
    lemma_query_params_single(p3);
    lemma_query_params_split(p2, tail3);
    lemma_query_params_split(p1, tail2);
    lemma_query_params_split(p0, tail1);
    let params = query_params(q);
    assert(params =~= seq![p0, p1, p2, p3]);
    assert(params[0][0] != p2[0]);
    assert(params[1][0] != p2[0]);
    assert(params[3][2] != p2[2]);
}

/// Why a step of the authorization flow failed.
#[derive(Debug, Clone)]
pub enum AuthError {
    /// The redirect URL could not be parsed as an absolute URL.
    InvalidUrl,
    /// The redirect URL carried no `code` query parameter.
    MissingCode,
    /// The token endpoint refused to trade an authorization code.
    TokenExchangeFailed { status: u16, body: String },
    /// The token endpoint refused to trade a refresh token.
    TokenRefreshFailed { status: u16, body: String },
}

/// Name/value pairs of a query, as views.
pub open spec fn pair_views(v: Seq<(String, String)>) -> Seq<(Seq<char>, Seq<char>)> {
    v.map_values(|p: (String, String)| (p.0@, p.1@))
}

/// What url::Url::parse and Url::query_pairs make of `url`: `None` when it is
/// not an absolute URL, else the percent-decoded pairs of its query in order.
pub uninterp spec fn url_query_pairs(url: Seq<char>) -> Option<Seq<(Seq<char>, Seq<char>)>>;

/// Relies on url::Url::parse, to read `url`, and on Url::query_pairs, for the
/// decoded name/value pairs of its query in the order they appear.
#[verifier::external_body]
fn decoded_query_pairs(url: &str) -> (r: Option<Vec<(String, String)>>)
    ensures
        r.is_some() == url_query_pairs(url@).is_some(),
        r.is_some() ==> pair_views(r.unwrap()@) == url_query_pairs(url@).unwrap(),
{
    url::Url::parse(url).ok().map(
        |u| u.query_pairs().map(|(k, v)| (k.into_owned(), v.into_owned())).collect(),
    )
}

/// Value of the first pair named `code`, if any.
pub open spec fn first_code(pairs: Seq<(Seq<char>, Seq<char>)>) -> Option<Seq<char>>
    decreases pairs.len(),
{
    if pairs.len() == 0 {
        None
    } else if pairs[0].0 == "code"@ {
        Some(pairs[0].1)
    } else {
        first_code(pairs.drop_first())
    }
}

/// Finds the authorization code among the decoded query pairs of a redirect
/// URL: the value of the first pair named `code`, or `MissingCode`.
pub fn code_from_query_pairs(pairs: &Vec<(String, String)>) -> (r: Result<String, AuthError>)
    ensures
        match first_code(pair_views(pairs@)) {
            Some(c) => r is Ok && r->Ok_0@ == c,
            None => r == Err::<String, AuthError>(AuthError::MissingCode),
        },
{
    let key = String::from_str("code");
    let ghost pv = pair_views(pairs@);
    assert(pv.subrange(0, pv.len() as int) =~= pv);
    let mut i: usize = 0;
    while i < pairs.len()
        invariant
            i <= pairs.len(),
            pv == pair_views(pairs@),
            key@ == "code"@,
            first_code(pv) == first_code(pv.subrange(i as int, pv.len() as int)),
        decreases pairs.len() - i,
    {
        let ghost rest = pv.subrange(i as int, pv.len() as int);
        assert(rest[0] == pv[i as int]);
        if pairs[i].0 == key {
            return Ok(pairs[i].1.clone());
        }
        assert(rest.drop_first() =~= pv.subrange(i as int + 1, pv.len() as int));
        i = i + 1;
    }
    assert(pv.subrange(i as int, pv.len() as int) =~= Seq::<(Seq<char>, Seq<char>)>::empty());
    Err(AuthError::MissingCode)
}

/// Reads the authorization code out of the URL that the identity provider
/// redirected the browser to.
pub fn parse_token(url: &str) -> (r: Result<String, AuthError>)
    ensures
        match url_query_pairs(url@) {
            None => r == Err::<String, AuthError>(AuthError::InvalidUrl),
            Some(pairs) => match first_code(pairs) {
                Some(c) => r is Ok && r->Ok_0@ == c,
                None => r == Err::<String, AuthError>(AuthError::MissingCode),
            },
        },
{
    match decoded_query_pairs(url) {
        None => Err(AuthError::InvalidUrl),
        Some(pairs) => code_from_query_pairs(&pairs),
    }
}

/// Among query pairs in any order, the one pair named `code` gives the code;
/// with no pair of that name the code is missing.
pub proof fn lemma_code_in_any_position(pairs: Seq<(Seq<char>, Seq<char>)>, i: int)
    requires
        0 <= i < pairs.len(),
        pairs[i].0 == "code"@,
        forall|j: int| 0 <= j < pairs.len() && j != i ==> pairs[j].0 != "code"@,
    ensures
        first_code(pairs) == Some(pairs[i].1),
    decreases pairs.len(),
{
    if i > 0 {
        assert(pairs[0].0 != "code"@);
        let rest = pairs.drop_first();
        assert forall|j: int| 0 <= j < rest.len() && j != i - 1 implies rest[j].0 != "code"@ by {
            assert(rest[j] == pairs[j + 1]);
        }
        lemma_code_in_any_position(rest, i - 1);
    }
}

/// Query pairs of which none is named `code` carry no code.
pub proof fn lemma_no_code(pairs: Seq<(Seq<char>, Seq<char>)>)
    requires
        forall|j: int| 0 <= j < pairs.len() ==> pairs[j].0 != "code"@,
    ensures
        first_code(pairs) is None,
    decreases pairs.len(),
{
    if pairs.len() > 0 {
        let rest = pairs.drop_first();
        assert forall|j: int| 0 <= j < rest.len() implies rest[j].0 != "code"@ by {
            assert(rest[j] == pairs[j + 1]);
        }
        lemma_no_code(rest);
    }
}

/// Whitespace that separates the fields of an HTTP request line.
pub open spec fn is_blank(c: char) -> bool {
    c == ' ' || c == '\t' || c == '\n' || c == '\r' || c == '\x0b' || c == '\x0c'
}

/// First position at or after `i` that holds no blank, or the end.
pub open spec fn skip_blanks(s: Seq<char>, i: int) -> int
    decreases s.len() - i,
{
    if i < 0 || i >= s.len() || !is_blank(s[i]) {
        i
    } else {
        skip_blanks(s, i + 1)
    }
}

/// First position at or after `i` that holds a blank, or the end.
pub open spec fn skip_field(s: Seq<char>, i: int) -> int
    decreases s.len() - i,
{
    if i < 0 || i >= s.len() || is_blank(s[i]) {
        i
    } else {
        skip_field(s, i + 1)
    }
}

/// The second blank-separated field of an HTTP request line: the request
/// target, such as `/?code=...`.
pub open spec fn request_target(line: Seq<char>) -> Option<Seq<char>> {
    let start = skip_blanks(line, skip_field(line, skip_blanks(line, 0)));
    if start >= line.len() {
        None
    } else {
        Some(line.subrange(start, skip_field(line, start)))
    }
}

fn is_blank_char(c: char) -> (r: bool)
    ensures
        r == is_blank(c),
{
    c == ' ' || c == '\t' || c == '\n' || c == '\r' || c == '\x0b' || c == '\x0c'
}

fn skip_blanks_from(s: &str, i: usize) -> (r: usize)
    requires
        i <= s@.len(),
    ensures
        r == skip_blanks(s@, i as int),
        i <= r <= s@.len(),
    decreases s@.len() - i,
{
    if i < s.unicode_len() && is_blank_char(s.get_char(i)) {
        skip_blanks_from(s, i + 1)
    } else {
        i
    }
}

fn skip_field_from(s: &str, i: usize) -> (r: usize)
    requires
        i <= s@.len(),
    ensures
        r == skip_field(s@, i as int),
        i <= r <= s@.len(),
    decreases s@.len() - i,
{
    if i < s.unicode_len() && !is_blank_char(s.get_char(i)) {
        skip_field_from(s, i + 1)
    } else {
        i
    }
}

/// The URL that the browser was redirected to, from the request line that
/// the loopback listener at `REDIRECT_URI` received: that URI followed by the
/// request target. `None` when the line has no target.
pub fn redirect_url_from_request_line(line: &str) -> (r: Option<String>)
    ensures
        match request_target(line@) {
            None => r is None,
            Some(t) => r is Some && r->Some_0@ == REDIRECT_URI@ + t,
        },
{
    let method_start = skip_blanks_from(line, 0);
    let method_end = skip_field_from(line, method_start);
    let start = skip_blanks_from(line, method_end);
    if start >= line.unicode_len() {
        return None;
    }
    let end = skip_field_from(line, start);
    let mut url = String::from_str(REDIRECT_URI);
    url.append(line.substring_char(start, end));
    Some(url)
}

/// Token pair and metadata returned by the token endpoint.
#[derive(Debug, Clone)]
pub struct Authdata {
    pub token_type: String,
    pub expires_in: u32,
    pub scope: String,
    pub access_token: String,
    pub refresh_token: String,
    pub user_id: String,
}

/// What is traded at the token endpoint for a new token pair.
#[derive(Debug, Clone)]
pub enum TokenGrant {
    /// The one-time code from the redirect after the user's consent.
    AuthorizationCode(String),
    /// The refresh token of the current pair.
    RefreshToken(String),
}

/// Form fields of a token request, in the order they are sent.
pub open spec fn token_form(client_id: Seq<char>, redirect_uri: Seq<char>, grant: TokenGrant) -> Seq<
    (Seq<char>, Seq<char>),
> {
    match grant {
        TokenGrant::AuthorizationCode(code) => seq![
            ("client_id"@, client_id),
            ("redirect_uri"@, redirect_uri),
            ("code"@, code@),
            ("grant_type"@, "authorization_code"@),
        ],
        TokenGrant::RefreshToken(token) => seq![
            ("client_id"@, client_id),
            ("redirect_uri"@, redirect_uri),
            ("refresh_token"@, token@),
            ("grant_type"@, "refresh_token"@),
        ],
    }
}

/// Builds the form-encoded fields that are posted to the token endpoint.
pub fn token_request_form(client_id: &str, redirect_uri: &str, grant: &TokenGrant) -> (r: Vec<
    (String, String),
>)
    ensures
        pair_views(r@) == token_form(client_id@, redirect_uri@, *grant),
{
    let mut form: Vec<(String, String)> = Vec::new();
    form.push((String::from_str("client_id"), String::from_str(client_id)));
    form.push((String::from_str("redirect_uri"), String::from_str(redirect_uri)));
    match grant {
        TokenGrant::AuthorizationCode(code) => {
            form.push((String::from_str("code"), code.clone()));
            form.push((String::from_str("grant_type"), String::from_str("authorization_code")));
        },
        TokenGrant::RefreshToken(token) => {
            form.push((String::from_str("refresh_token"), token.clone()));
            form.push((String::from_str("grant_type"), String::from_str("refresh_token")));
        },
    }
    assert(pair_views(form@) =~= token_form(client_id@, redirect_uri@, *grant));
    form
}

/// A status in the success range.
pub open spec fn is_success(status: u16) -> bool {
    200 <= status <= 299
}

/// The error for a refused token request.
pub open spec fn token_failure(grant: TokenGrant, status: u16, body: String) -> AuthError {
    match grant {
        TokenGrant::AuthorizationCode(_) => AuthError::TokenExchangeFailed { status, body },
        TokenGrant::RefreshToken(_) => AuthError::TokenRefreshFailed { status, body },
    }
}

/// Decides a token request from the endpoint's answer: its status, its body,
/// and the token pair read from the body (`None` when the body is not one).
/// A success status with a readable pair gives that pair; anything else is
/// the failure for the kind of grant, carrying status and body.
pub fn token_outcome(grant: &TokenGrant, status: u16, body: String, parsed: Option<Authdata>) -> (r:
    Result<Authdata, AuthError>)
    ensures
        is_success(status) && parsed is Some ==> r == Ok::<Authdata, AuthError>(parsed->Some_0),
        !(is_success(status) && parsed is Some) ==> r == Err::<Authdata, AuthError>(
            token_failure(*grant, status, body),
        ),
{
    match parsed {
        Some(data) if 200 <= status && status <= 299 => Ok(data),
        _ => match grant {
            TokenGrant::AuthorizationCode(_) => Err(AuthError::TokenExchangeFailed { status, body }),
            TokenGrant::RefreshToken(_) => Err(AuthError::TokenRefreshFailed { status, body }),
        },
    }
}

} // verus!
