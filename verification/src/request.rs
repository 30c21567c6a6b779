//! Request building blocks: percent-encoding, query strings, headers,
//! and the client's construction-time checks (app name, auth header,
//! base path).

use vstd::prelude::*;

use crate::error::FlapsClientCreationError;
use crate::strutil::{spec_starts_with, str_starts_with};

verus! {

/// Characters that percent-encoding passes through unchanged.
pub open spec fn spec_url_safe(c: char) -> bool {
    ('0' <= c && c <= '9') || ('A' <= c && c <= 'Z') || ('a' <= c && c <= 'z') || c == '-' || c
        == '.' || c == '_' || c == '~'
}

/// The uppercase hex digit for a value below sixteen.
pub open spec fn spec_hex_upper(d: int) -> char {
    if d == 0 {
        '0'
    } else if d == 1 {
        '1'
    } else if d == 2 {
        '2'
    } else if d == 3 {
        '3'
    } else if d == 4 {
        '4'
    } else if d == 5 {
        '5'
    } else if d == 6 {
        '6'
    } else if d == 7 {
        '7'
    } else if d == 8 {
        '8'
    } else if d == 9 {
        '9'
    } else if d == 10 {
        'A'
    } else if d == 11 {
        'B'
    } else if d == 12 {
        'C'
    } else if d == 13 {
        'D'
    } else if d == 14 {
        'E'
    } else {
        'F'
    }
}

/// The percent-encoding of one ASCII character: itself when safe, else
/// `%` and its code in two uppercase hex digits.
pub open spec fn spec_encoded_ascii_char(c: char) -> Seq<char> {
    if spec_url_safe(c) {
        seq![c]
    } else {
        seq!['%', spec_hex_upper(c as int / 16), spec_hex_upper(c as int % 16)]
    }
}

/// The character-wise percent-encoding of ASCII text.
pub open spec fn spec_encoded_ascii(s: Seq<char>) -> Seq<char>
    decreases s.len(),
{
    if s.len() == 0 {
        Seq::empty()
    } else {
        spec_encoded_ascii_char(s[0]) + spec_encoded_ascii(s.skip(1))
    }
}

/// Whether every character of `s` is ASCII.
pub open spec fn spec_is_ascii_seq(s: Seq<char>) -> bool {
    forall|i: int| 0 <= i < s.len() ==> (#[trigger] s[i] as int) < 128
}

/// The percent-encoding of arbitrary text (non-ASCII characters encode
/// each of their UTF-8 bytes).
pub uninterp spec fn spec_encoded(s: Seq<char>) -> Seq<char>;

/// Relies on urlencoding::encode: every byte except ASCII alphanumerics
/// and `-`, `.`, `_`, `~` is replaced by `%` and its value in two
/// uppercase hex digits. The result depends on the text alone, and on
/// ASCII text it is exactly the character-wise encoding.
#[verifier::external_body]
pub(crate) fn url_encode(s: &str) -> (r: String)
    ensures
        r@ == spec_encoded(s@),
        spec_is_ascii_seq(s@) ==> r@ == spec_encoded_ascii(s@),
{
    urlencoding::encode(s).into_owned()
}

/// One query parameter at the spec level: key and value before
/// encoding.
pub open spec fn spec_param_piece(p: (Seq<char>, Seq<char>)) -> Seq<char> {
    spec_encoded(p.0) + "="@ + spec_encoded(p.1)
}

/// The `&`-joined, percent-encoded parameter list.
pub open spec fn spec_params_joined(ps: Seq<(Seq<char>, Seq<char>)>) -> Seq<char>
    decreases ps.len(),
{
    if ps.len() == 0 {
        Seq::empty()
    } else if ps.len() == 1 {
        spec_param_piece(ps[0])
    } else {
        spec_param_piece(ps[0]) + "&"@ + spec_params_joined(ps.skip(1))
    }
}

/// The query string for a parameter list: empty for no parameters, else
/// `?` and the joined pieces.
pub open spec fn spec_query(ps: Seq<(Seq<char>, Seq<char>)>) -> Seq<char> {
    if ps.len() == 0 {
        Seq::empty()
    } else {
        "?"@ + spec_params_joined(ps)
    }
}

/// The views of a list of key/value pairs.
pub open spec fn spec_params_view(ps: Seq<(String, String)>) -> Seq<(Seq<char>, Seq<char>)> {
    ps.map(|i: int, p: (String, String)| (p.0@, p.1@))
}

fn params_joined_from(params: &Vec<(String, String)>, i: usize) -> (r: String)
    requires
        i <= params@.len(),
    ensures
        r@ == spec_params_joined(spec_params_view(params@).skip(i as int)),
    decreases params@.len() - i,
{
    let ghost tail = spec_params_view(params@).skip(i as int);
    if i == params.len() {
        assert(tail =~= Seq::<(Seq<char>, Seq<char>)>::empty());
        return String::new();
    }
    proof {
        reveal_strlit("=");
        reveal_strlit("&");
        assert(tail[0] == spec_params_view(params@)[i as int]);
    }
    let mut piece = url_encode(params[i].0.as_str());
    piece.append("=");
    piece.append(url_encode(params[i].1.as_str()).as_str());
    if i + 1 < params.len() {
        piece.append("&");
        let rest = params_joined_from(params, i + 1);
        piece.append(rest.as_str());
        proof {
            assert(spec_params_view(params@).skip(i + 1) =~= tail.skip(1));
            assert(piece@ =~= spec_params_joined(tail));
        }
    } else {
        proof {
            assert(tail.len() == 1);
            assert(piece@ =~= spec_params_joined(tail));
        }
    }
    piece
}

/// Builds the query string for `params`: empty for none, else `?` and
/// the `&`-joined `key=value` pairs, both sides percent-encoded.
pub fn encode_url_params(params: &Vec<(String, String)>) -> (r: String)
    ensures
        r@ == spec_query(spec_params_view(params@)),
{
    if params.len() == 0 {
        return String::new();
    }
    proof {
        reveal_strlit("?");
        assert(spec_params_view(params@).skip(0) =~= spec_params_view(params@));
    }
    let mut s = String::from_str("?");
    let joined = params_joined_from(params, 0);
    s.append(joined.as_str());
    s
}

/// The header carrying the lease nonce on mutating requests.
#[derive(Debug, Clone)]
pub struct HeaderPair {
    pub name: String,
    pub value: String,
}

impl HeaderPair {
    /// The `fly-machine-lease-nonce` header proving lease ownership.
    pub fn lease_nonce(nonce: String) -> (h: HeaderPair)
        ensures
            h.name@ == "fly-machine-lease-nonce"@,
            h.value == nonce,
    {
        HeaderPair { name: String::from_str("fly-machine-lease-nonce"), value: nonce }
    }
}

/// Appends the lease-nonce header when a nonce is supplied; a request
/// carries either no lease header or exactly the one nonce given.
pub fn add_lease_nonce(headers: &mut Vec<HeaderPair>, nonce: Option<String>)
    ensures
        match nonce {
            Some(n) => final(headers)@.len() == old(headers)@.len() + 1 && final(headers)@.last().name@
                == "fly-machine-lease-nonce"@ && final(headers)@.last().value == n && final(
                headers)@.drop_last() == old(headers)@,
            None => final(headers)@ == old(headers)@,
        },
{
    if let Some(nonce) = nonce {
        headers.push(HeaderPair::lease_nonce(nonce));
        proof {
            assert(final(headers)@.drop_last() =~= old(headers)@);
        }
    }
}

/// Whether `s` may serve as an app name: it holds none of `/`, `:`
/// and `\`.
pub open spec fn spec_valid_app_name(s: Seq<char>) -> bool {
    forall|i: int| 0 <= i < s.len() ==> !(#[trigger] s[i] == '/' || s[i] == ':' || s[i] == '\\')
}

/// App-name check; construction rejects an invalid name outright.
pub fn validate_app_name(name: &str) -> (r: bool)
    ensures
        r == spec_valid_app_name(name@),
{
    let n = name.unicode_len();
    let mut i: usize = 0;
    while i < n
        invariant
            n == name@.len(),
            i <= n,
            forall|j: int| 0 <= j < i ==> !(#[trigger] name@[j] == '/' || name@[j] == ':' || name@[j] == '\\'),
        decreases n - i,
    {
        let c = name.get_char(i);
        if c == '/' || c == ':' || c == '\\' {
            return false;
        }
        i += 1;
    }
    true
}

/// The app name to use: the explicit one when given, else the
/// discovered one, else the construction fails.
pub fn resolve_app_name(explicit: Option<String>, discovered: Option<String>) -> (r: Result<
    String,
    FlapsClientCreationError,
>)
    ensures
        match r {
            Ok(name) => (explicit matches Some(e) && name == e) || (explicit is None && (
            discovered matches Some(d) && name == d)),
            Err(e) => explicit is None && discovered is None && e
                matches FlapsClientCreationError::MissingAppName,
        },
{
    match explicit {
        Some(name) => Ok(name),
        None => match discovered {
            Some(name) => Ok(name),
            None => Err(FlapsClientCreationError::MissingAppName),
        },
    }
}

/// The `Authorization` value for a token: kept as is when it already
/// names a structured scheme, else presented as a bearer token.
pub fn auth_header_value(auth_token: String) -> (r: String)
    ensures
        spec_starts_with(auth_token@, "FlyV1 "@) ==> r@ == auth_token@,
        !spec_starts_with(auth_token@, "FlyV1 "@) ==> r@ == "Bearer "@ + auth_token@,
{
    if str_starts_with(auth_token.as_str(), "FlyV1 ") {
        auth_token
    } else {
        proof {
            reveal_strlit("Bearer ");
        }
        let mut s = String::from_str("Bearer ");
        s.append(auth_token.as_str());
        s
    }
}

/// The path of the app's machines collection, relative to the base URL;
/// fails on an invalid app name.
pub fn machines_base_path(app_name: String) -> (r: Result<String, FlapsClientCreationError>)
    ensures
        match r {
            Ok(p) => spec_valid_app_name(app_name@) && p@ == "v1/apps/"@ + app_name@
                + "/machines/"@,
            Err(e) => !spec_valid_app_name(app_name@) && (e
                matches FlapsClientCreationError::InvalidAppName(n) && n == app_name),
        },
{
    if !validate_app_name(app_name.as_str()) {
        return Err(FlapsClientCreationError::InvalidAppName(app_name));
    }
    proof {
        reveal_strlit("v1/apps/");
        reveal_strlit("/machines/");
    }
    let mut p = String::from_str("v1/apps/");
    p.append(app_name.as_str());
    p.append("/machines/");
    assert(p@ =~= "v1/apps/"@ + app_name@ + "/machines/"@);
    Ok(p)
}

/// The base URL requests resolve against: the explicit setting when
/// given, else the internal-network address when running inside the
/// platform, else the public endpoint.
pub fn resolve_base_url(explicit: Option<String>, on_platform: bool) -> (r: String)
    ensures
        match explicit {
            Some(u) => r == u,
            None => (on_platform ==> r@ == "http://_api.internal:4280"@) && (!on_platform ==> r@
                == "https://api.machines.dev"@),
        },
{
    match explicit {
        Some(u) => u,
        None => {
            if on_platform {
                String::from_str("http://_api.internal:4280")
            } else {
                String::from_str("https://api.machines.dev")
            }
        },
    }
}

/// What a client handle is built from; unset fields fall back to
/// discovery or defaults at construction time.
#[derive(Debug, Clone)]
pub struct FlapsSettings {
    pub base_url: Option<String>,
    pub user_agent: Option<String>,
    pub auth_token: String,
    pub app_name: Option<String>,
}

} // verus!
