//! Construction of the protocol upgrade request that establishes a tunnel.
//!
//! The request carries a version marker and a signed identity/destination
//! token in the negotiation subprotocol header, and merges header sources
//! in a fixed order — static custom headers, an optional bearer credential,
//! externally sourced headers — with each later source overriding a
//! same-named header from an earlier one. The merge semantics are stated
//! over the headers' views: merging a header removes every header of the
//! same name and appends the new one.

use vstd::prelude::*;
use vstd::string::StringExecFns;

verus! {

/// One header of the upgrade request. Names are compared byte-for-byte, so
/// callers supply them in the protocol's canonical lower-case form.
pub struct Header {
    pub name: String,
    pub value: String,
}

/// The upgrade request handed to the connection layer: method, path and
/// ordered header list.
pub struct UpgradeRequest {
    pub method: String,
    pub path: String,
    pub headers: Vec<Header>,
}

/// The headers as (name, value) view pairs, in order.
pub open spec fn header_views(hs: Seq<Header>) -> Seq<(Seq<char>, Seq<char>)> {
    hs.map_values(|h: Header| (h.name@, h.value@))
}

/// The header list with every header named `name` removed, order of the
/// rest kept.
pub open spec fn without_name(
    s: Seq<(Seq<char>, Seq<char>)>,
    name: Seq<char>,
) -> Seq<(Seq<char>, Seq<char>)>
    decreases s.len(),
{
    if s.len() == 0 {
        Seq::empty()
    } else {
        let rest = without_name(s.drop_last(), name);
        if s.last().0 == name {
            rest
        } else {
            rest.push(s.last())
        }
    }
}

/// One merge step: the new header replaces every same-named header and is
/// appended at the end.
pub open spec fn merged_one(
    s: Seq<(Seq<char>, Seq<char>)>,
    p: (Seq<char>, Seq<char>),
) -> Seq<(Seq<char>, Seq<char>)> {
    without_name(s, p.0).push(p)
}

/// All overrides merged in, in order: a later override wins over an
/// earlier one and over the base.
pub open spec fn merged_all(
    s: Seq<(Seq<char>, Seq<char>)>,
    ps: Seq<(Seq<char>, Seq<char>)>,
) -> Seq<(Seq<char>, Seq<char>)>
    decreases ps.len(),
{
    if ps.len() == 0 {
        s
    } else {
        merged_one(merged_all(s, ps.drop_last()), ps.last())
    }
}

/// The fixed headers every upgrade request starts from: host, the upgrade
/// markers, a fresh key, the protocol version, and the negotiation
/// subprotocol carrying the version marker and the signed token.
pub open spec fn base_header_views(
    host: Seq<char>,
    key: Seq<char>,
    token: Seq<char>,
) -> Seq<(Seq<char>, Seq<char>)> {
    seq![
        ("host"@, host),
        ("upgrade"@, "websocket"@),
        ("connection"@, "upgrade"@),
        ("sec-websocket-key"@, key),
        ("sec-websocket-version"@, "13"@),
        ("sec-websocket-protocol"@, "v1, "@ + "authorization.bearer."@ + token),
    ]
}

/// The optional bearer credential merged in as the authorization header.
pub open spec fn with_credentials(
    s: Seq<(Seq<char>, Seq<char>)>,
    credentials: Option<String>,
) -> Seq<(Seq<char>, Seq<char>)> {
    match credentials {
        Option::None => s,
        Option::Some(c) => merged_one(s, ("authorization"@, c@)),
    }
}

/// The optional externally sourced host header merged in last.
pub open spec fn with_extra_host(
    s: Seq<(Seq<char>, Seq<char>)>,
    extra_host: Option<Header>,
) -> Seq<(Seq<char>, Seq<char>)> {
    match extra_host {
        Option::None => s,
        Option::Some(h) => merged_one(s, (h.name@, h.value@)),
    }
}

/// Relies on fastwebsockets::handshake::generate_key: the standard base64
/// encoding of 16 random bytes, which is always 24 characters long.
#[verifier::external_body]
fn generate_ws_key() -> (r: String)
    ensures
        r@.len() == 24,
{
    fastwebsockets::handshake::generate_key()
}

/// Merges `h` into the header list: every header of the same name is
/// removed and `h` is appended at the end.
pub fn merge_header(headers: Vec<Header>, h: Header) -> (r: Vec<Header>)
    ensures
        header_views(r@) == merged_one(header_views(headers@), (h.name@, h.value@)),
{
    let ghost orig: Seq<Header> = headers@;
    let mut kept: Vec<Header> = Vec::new();
    let mut rest = headers;
    let ghost mut p: int = 0;
    while rest.len() > 0
        invariant
            0 <= p <= orig.len(),
            rest@ == orig.subrange(p, orig.len() as int),
            header_views(kept@) == without_name(header_views(orig.take(p)), h.name@),
        decreases rest@.len(),
    {
        let hd = rest.remove(0);
        proof {
            assert(hd == orig[p]);
            assert(rest@ =~= orig.subrange(p + 1, orig.len() as int));
            assert(header_views(orig.take(p + 1)).drop_last() =~= header_views(orig.take(p)));
            assert(header_views(orig.take(p + 1)).last() == (orig[p].name@, orig[p].value@));
        }
        let same = hd.name == h.name;
        if !same {
            kept.push(hd);
            proof {
                assert(header_views(kept@) =~= without_name(
                    header_views(orig.take(p)),
                    h.name@,
                ).push((orig[p].name@, orig[p].value@)));
            }
        }
        proof {
            p = p + 1;
        }
    }
    proof {
        assert(orig.take(orig.len() as int) =~= orig);
    }
    kept.push(h);
    proof {
        assert(header_views(kept@) =~= without_name(header_views(orig), h.name@).push(
            (h.name@, h.value@),
        ));
    }
    kept
}

/// Merges every header of `overrides` into the list, front to back, so a
/// later override wins over an earlier one.
pub fn apply_overrides(headers: Vec<Header>, overrides: Vec<Header>) -> (r: Vec<Header>)
    ensures
        header_views(r@) == merged_all(header_views(headers@), header_views(overrides@)),
{
    let ghost base: Seq<(Seq<char>, Seq<char>)> = header_views(headers@);
    let ghost orig: Seq<Header> = overrides@;
    let mut acc = headers;
    let mut rest = overrides;
    let ghost mut p: int = 0;
    while rest.len() > 0
        invariant
            0 <= p <= orig.len(),
            rest@ == orig.subrange(p, orig.len() as int),
            header_views(acc@) == merged_all(base, header_views(orig.take(p))),
        decreases rest@.len(),
    {
        let h = rest.remove(0);
        proof {
            assert(h == orig[p]);
            assert(rest@ =~= orig.subrange(p + 1, orig.len() as int));
            assert(header_views(orig.take(p + 1)).drop_last() =~= header_views(orig.take(p)));
            assert(header_views(orig.take(p + 1)).last() == (orig[p].name@, orig[p].value@));
        }
        let ghost name_view = h.name@;
        let ghost value_view = h.value@;
        acc = merge_header(acc, h);
        proof {
            assert(header_views(acc@) == merged_one(
                merged_all(base, header_views(orig.take(p))),
                (name_view, value_view),
            ));
            p = p + 1;
        }
    }
    proof {
        assert(orig.take(orig.len() as int) =~= orig);
    }
    acc
}

/// Builds the complete upgrade request: `GET /<prefix>/events` with the
/// fixed base headers (including a freshly generated key and the
/// negotiation subprotocol carrying the signed token), then the custom
/// headers, the optional bearer credential, the externally sourced headers
/// and the optional externally sourced host header merged in, in that
/// order, each later source overriding a same-named header.
pub fn build_upgrade_request(
    host: &str,
    path_prefix: &str,
    token: &str,
    custom_headers: Vec<Header>,
    credentials: Option<String>,
    file_headers: Vec<Header>,
    file_host: Option<Header>,
) -> (r: UpgradeRequest)
    ensures
        r.method@ == "GET"@,
        r.path@ == "/"@ + path_prefix@ + "/events"@,
        exists|key: Seq<char>|
            key.len() == 24 && header_views(r.headers@) == with_extra_host(
                merged_all(
                    with_credentials(
                        merged_all(
                            base_header_views(host@, key, token@),
                            header_views(custom_headers@),
                        ),
                        credentials,
                    ),
                    header_views(file_headers@),
                ),
                file_host,
            ),
{
    let ghost credentials_in = credentials;
    let ghost file_host_in = file_host;
    let ghost custom_in: Seq<Header> = custom_headers@;
    let ghost file_in: Seq<Header> = file_headers@;
    let mut headers: Vec<Header> = Vec::new();
    headers.push(Header { name: "host".to_owned(), value: host.to_owned() });
    headers.push(Header { name: "upgrade".to_owned(), value: "websocket".to_owned() });
    headers.push(Header { name: "connection".to_owned(), value: "upgrade".to_owned() });
    let key = generate_ws_key();
    let ghost key_view = key@;
    headers.push(Header { name: "sec-websocket-key".to_owned(), value: key });
    headers.push(Header { name: "sec-websocket-version".to_owned(), value: "13".to_owned() });
    let proto = "v1, ".to_owned().concat("authorization.bearer.").concat(token);
    headers.push(Header { name: "sec-websocket-protocol".to_owned(), value: proto });
    proof {
        assert(header_views(headers@) =~= base_header_views(host@, key_view, token@));
    }

    let mut merged = apply_overrides(headers, custom_headers);
    if let Some(cred) = credentials {
        merged = merge_header(merged, Header { name: "authorization".to_owned(), value: cred });
    }
    merged = apply_overrides(merged, file_headers);
    if let Some(fh) = file_host {
        merged = merge_header(merged, fh);
    }

    let path = "/".to_owned().concat(path_prefix).concat("/events");
    let method = "GET".to_owned();
    let r = UpgradeRequest { method, path, headers: merged };
    proof {
        assert(header_views(r.headers@) == with_extra_host(
            merged_all(
                with_credentials(
                    merged_all(
                        base_header_views(host@, key_view, token@),
                        header_views(custom_in),
                    ),
                    credentials_in,
                ),
                header_views(file_in),
            ),
            file_host_in,
        ));
    }
    r
}

} // verus!
