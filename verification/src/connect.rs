//! Connection establishment: the target address and the handshake headers.
//!
//! The handshake itself (upgrading the connection into a duplex text-frame
//! transport) is network work and is performed by the embedding program;
//! everything it sends is built and specified here.

use vstd::prelude::*;
use vstd::string::*;

verus! {

/// The default service endpoint, used when no override is given.
pub open spec fn default_endpoint_spec() -> Seq<char> {
    "wss://dashscope.aliyuncs.com/api-ws/v1/realtime"@
}

/// The target address: the endpoint with the model identifier appended as a
/// query parameter.
pub open spec fn url_spec(endpoint: Option<Seq<char>>, model: Seq<char>) -> Seq<char> {
    (match endpoint {
        Some(e) => e,
        None => default_endpoint_spec(),
    }) + "?model="@ + model
}

/// Builds the target address for the handshake.
pub fn build_url(endpoint: Option<&str>, model: &str) -> (r: String)
    ensures
        r@ == url_spec(
            match endpoint {
                Some(e) => Some(e@),
                None => None,
            },
            model@,
        ),
{
    let mut r = String::new();
    match endpoint {
        Some(e) => r.append(e),
        None => r.append("wss://dashscope.aliyuncs.com/api-ws/v1/realtime"),
    }
    r.append("?model=");
    r.append(model);
    proof {
        assert(r@ =~= url_spec(
            match endpoint {
                Some(e) => Some(e@),
                None => None,
            },
            model@,
        ));
    }
    r
}

/// The client identity string sent as `user-agent`: library name and version,
/// the language-runtime version when known, and the host system and
/// architecture. Best effort: an unknown runtime version is reported as such
/// rather than failing the handshake. The `platform` value runs straight into
/// the `processor` label with no separator; that is the exact identity string
/// the service has always been sent, kept as is.
pub open spec fn user_agent_spec(
    rustc_version: Option<Seq<char>>,
    os: Seq<char>,
    arch: Seq<char>,
) -> Seq<char> {
    "dashscope/1.18.0; rust/"@ + (match rustc_version {
        Some(v) => v,
        None => "Unknown Rustc Version"@,
    }) + ";platform/"@ + os + "processor/"@ + arch
}

/// Builds the `user-agent` header value.
pub fn user_agent(rustc_version: Option<&str>, os: &str, arch: &str) -> (r: String)
    ensures
        r@ == user_agent_spec(
            match rustc_version {
                Some(v) => Some(v@),
                None => None,
            },
            os@,
            arch@,
        ),
{
    let mut r = String::new();
    r.append("dashscope/1.18.0; rust/");
    match rustc_version {
        Some(v) => r.append(v),
        None => r.append("Unknown Rustc Version"),
    }
    r.append(";platform/");
    r.append(os);
    r.append("processor/");
    r.append(arch);
    proof {
        assert(r@ =~= user_agent_spec(
            match rustc_version {
                Some(v) => Some(v@),
                None => None,
            },
            os@,
            arch@,
        ));
    }
    r
}

/// Value of the `Authorization` header: the word `bearer`, a space, and the
/// raw API token.
pub open spec fn auth_header_spec(token: Seq<char>) -> Seq<char> {
    "bearer "@ + token
}

/// Builds the `Authorization` header value.
pub fn auth_header(token: &str) -> (r: String)
    ensures
        r@ == auth_header_spec(token@),
{
    let mut r = String::new();
    r.append("bearer ");
    r.append(token);
    proof {
        assert(r@ =~= auth_header_spec(token@));
    }
    r
}

/// View of a list of header name/value pairs.
pub open spec fn pairs_view(s: Seq<(String, String)>) -> Seq<(Seq<char>, Seq<char>)> {
    s.map_values(|p: (String, String)| (p.0@, p.1@))
}

/// The headers attached to the handshake request: the client identity, the
/// bearer authorization, and, only when a workspace is given, the workspace
/// header.
pub open spec fn handshake_headers_spec(
    ua: Seq<char>,
    token: Seq<char>,
    workspace: Option<Seq<char>>,
) -> Seq<(Seq<char>, Seq<char>)> {
    (match workspace {
        Some(w) => seq![
            ("user-agent"@, ua),
            ("Authorization"@, auth_header_spec(token)),
            ("X-DashScope-WorkSpace"@, w),
        ],
        None => seq![("user-agent"@, ua), ("Authorization"@, auth_header_spec(token))],
    })
}

/// Builds the handshake header list in the order it is attached.
pub fn handshake_headers(ua: &str, token: &str, workspace: Option<&str>) -> (r: Vec<
    (String, String),
>)
    ensures
        pairs_view(r@) == handshake_headers_spec(
            ua@,
            token@,
            match workspace {
                Some(w) => Some(w@),
                None => None,
            },
        ),
{
    let mut r: Vec<(String, String)> = Vec::new();
    r.push((String::from_str("user-agent"), String::from_str(ua)));
    r.push((String::from_str("Authorization"), auth_header(token)));
    match workspace {
        Some(w) => {
            r.push((String::from_str("X-DashScope-WorkSpace"), String::from_str(w)));
            proof {
                assert(pairs_view(r@) =~= handshake_headers_spec(ua@, token@, Some(w@)));
            }
        },
        None => {
            proof {
                assert(pairs_view(r@) =~= handshake_headers_spec(
                    ua@,
                    token@,
                    None::<Seq<char>>,
                ));
            }
        },
    }
    r
}

} // verus!
