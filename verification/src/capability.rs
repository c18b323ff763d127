//! Server capability discovery: where to ask, which reply to trust, and
//! which settings the reply changes.
use vstd::prelude::*;

verus! {

/// Path of the capability endpoint below the API server.
pub open spec fn capabilities_path() -> Seq<char> {
    "/api/v1/capabilities"@
}

/// `s` without its trailing `/` characters.
pub open spec fn trim_trailing_slashes(s: Seq<char>) -> Seq<char>
    decreases s.len(),
{
    if s.len() > 0 && s.last() == '/' {
        trim_trailing_slashes(s.drop_last())
    } else {
        s
    }
}

/// Trimming the slashes of a prefix that ends where the trailing slashes
/// begin gives the same result as trimming the whole string.
proof fn lemma_trim_prefix(s: Seq<char>, k: int)
    requires
        0 < k <= s.len(),
        s[k - 1] == '/',
    ensures
        trim_trailing_slashes(s.subrange(0, k)) == trim_trailing_slashes(s.subrange(0, k - 1)),
{
    assert(s.subrange(0, k).drop_last() =~= s.subrange(0, k - 1));
}

/// The capability URL below an API server: none for an empty server
/// address, else the address without trailing slashes followed by the path.
pub fn capabilities_url(api: &str) -> (res: Option<String>)
    ensures
        api@.len() == 0 ==> res is None,
        api@.len() > 0 ==> (res matches Some(u) && u@ == trim_trailing_slashes(api@)
            + capabilities_path()),
{
    if api.is_empty() {
        return None;
    }
    let n = api.unicode_len();
    let mut k = n;
    assert(api@.subrange(0, n as int) =~= api@);
    loop
        invariant
            k <= n,
            n == api@.len(),
            trim_trailing_slashes(api@.subrange(0, k as int)) == trim_trailing_slashes(api@),
        ensures
            trim_trailing_slashes(api@.subrange(0, k as int)) == trim_trailing_slashes(api@),
            k == 0 || api@[k - 1] != '/',
        decreases k,
    {
        if k == 0 {
            break;
        }
        let c = api.get_char(k - 1);
        if c != '/' {
            break;
        }
        proof {
            lemma_trim_prefix(api@, k as int);
        }
        k = k - 1;
    }
    let head = api.substring_char(0, k);
    proof {
        let h = api@.subrange(0, k as int);
        assert(head@ == h);
        if k > 0 {
            assert(h.last() == api@[k - 1]);
        }
        assert(trim_trailing_slashes(h) == h);
    }
    let mut url = String::from_str(head);
    url.append("/api/v1/capabilities");
    Some(url)
}

/// The transport capabilities a server announces.
#[derive(Clone, Copy, Debug, PartialEq, Eq, Structural)]
pub struct ServerCapabilities {
    pub tcp_rendezvous: bool,
    pub tcp_relay: bool,
    pub websocket_rendezvous: bool,
    pub websocket_relay: bool,
    pub native_websocket: bool,
    pub tcp_only_registration: bool,
    pub force_relay: bool,
}

/// WebSocket endpoints a server announces (empty when not announced).
pub struct Endpoints {
    pub ws_id: String,
    pub ws_relay: String,
}

/// The capability document of a server.
pub struct CapabilitiesResponse {
    pub tcp_rendezvous: bool,
    pub tcp_relay: bool,
    pub websocket_rendezvous: bool,
    pub websocket_relay: bool,
    pub native_websocket: bool,
    pub tcp_only_registration: bool,
    pub force_relay: bool,
    pub endpoints: Option<Endpoints>,
}

/// The envelope a capability reply may come in.
pub struct HttpResponseBody {
    pub body: String,
    pub status_code: i64,
}

/// Whether an envelope's status allows its content to be used: a 2xx status,
/// or 0 for an envelope without a status.
pub open spec fn status_accepted(status_code: i64) -> bool {
    (200 <= status_code < 300) || status_code == 0
}

/// The capability document to parse from a raw reply. `envelope` is the
/// reply read as an envelope (none when it is not one): a rejected status
/// gives no document; an accepted one gives its body, or the raw reply when
/// the body is empty. A reply that is no envelope is the document itself.
pub fn select_capabilities_body(raw: String, envelope: Option<HttpResponseBody>) -> (res: Option<
    String,
>)
    ensures
        match envelope {
            None => res == Some(raw),
            Some(e) => if !status_accepted(e.status_code) {
                res is None
            } else if e.body@.len() == 0 {
                res == Some(raw)
            } else {
                res == Some(e.body)
            },
        },
{
    match envelope {
        None => Some(raw),
        Some(e) => {
            if (200 <= e.status_code && e.status_code < 300) || e.status_code == 0 {
                if e.body.as_str().is_empty() {
                    Some(raw)
                } else {
                    Some(e.body)
                }
            } else {
                None
            }
        },
    }
}

/// What a capability document changes: the capability override, and the
/// settings to fill in.
pub struct CapabilityPlan {
    /// The capabilities to install as the override.
    pub caps: ServerCapabilities,
    /// The WebSocket id server to set, if any.
    pub websocket_id_server: Option<String>,
    /// The WebSocket relay server to set, if any.
    pub websocket_relay_server: Option<String>,
    /// Whether to turn native WebSocket on.
    pub enable_native_websocket: bool,
}

/// The changes a capability document asks for. The `*_unset` flags tell
/// whether the local setting is still empty: announced endpoints and native
/// WebSocket only fill in settings the user left empty.
pub fn capability_plan(
    resp: CapabilitiesResponse,
    websocket_id_unset: bool,
    websocket_relay_unset: bool,
    native_websocket_unset: bool,
) -> (res: CapabilityPlan)
    ensures
        res.caps == (ServerCapabilities {
            tcp_rendezvous: resp.tcp_rendezvous,
            tcp_relay: resp.tcp_relay,
            websocket_rendezvous: resp.websocket_rendezvous,
            websocket_relay: resp.websocket_relay,
            native_websocket: resp.native_websocket,
            tcp_only_registration: resp.tcp_only_registration,
            force_relay: resp.force_relay,
        }),
        match resp.endpoints {
            Some(ep) => {
                &&& res.websocket_id_server == (if ep.ws_id@.len() > 0 && websocket_id_unset {
                    Some(ep.ws_id)
                } else {
                    None
                })
                &&& res.websocket_relay_server == (if ep.ws_relay@.len() > 0
                    && websocket_relay_unset {
                    Some(ep.ws_relay)
                } else {
                    None
                })
            },
            None => res.websocket_id_server is None && res.websocket_relay_server is None,
        },
        res.enable_native_websocket == (resp.native_websocket && native_websocket_unset),
{
    let caps = ServerCapabilities {
        tcp_rendezvous: resp.tcp_rendezvous,
        tcp_relay: resp.tcp_relay,
        websocket_rendezvous: resp.websocket_rendezvous,
        websocket_relay: resp.websocket_relay,
        native_websocket: resp.native_websocket,
        tcp_only_registration: resp.tcp_only_registration,
        force_relay: resp.force_relay,
    };
    let enable_native_websocket = resp.native_websocket && native_websocket_unset;
    match resp.endpoints {
        Some(ep) => {
            let id_empty = ep.ws_id.as_str().is_empty();
            let relay_empty = ep.ws_relay.as_str().is_empty();
            CapabilityPlan {
                caps,
                websocket_id_server: if !id_empty && websocket_id_unset {
                    Some(ep.ws_id)
                } else {
                    None
                },
                websocket_relay_server: if !relay_empty && websocket_relay_unset {
                    Some(ep.ws_relay)
                } else {
                    None
                },
                enable_native_websocket,
            }
        },
        None => CapabilityPlan {
            caps,
            websocket_id_server: None,
            websocket_relay_server: None,
            enable_native_websocket,
        },
    }
}

} // verus!
