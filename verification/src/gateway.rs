//! The request-handling decisions of the gateway: resolving a route,
//! accepting or rejecting the inbound body, and translating the backend's
//! reply (or its failure) into an HTTP response.

use vstd::prelude::*;
use vstd::string::StringExecFns;

use crate::jsontext::{canonical_json, canonicalize, is_json};
use crate::table::RouteTable;

verus! {

/// An HTTP reply of the gateway: a status code with its body.
#[derive(Debug)]
pub struct GatewayReply {
    pub status: u16,
    pub body: String,
}

/// The body of a success reply: the backend's canonical JSON inside a
/// `{"response": ...}` envelope.
pub open spec fn envelope(v: Seq<char>) -> Seq<char> {
    "{\"response\":"@ + v + "}"@
}

/// Decides what to do with one inbound request: resolves the route name,
/// accepts the body only if it is valid JSON, and looks the backend channel
/// up. On success, hands back the channel on loan together with the
/// canonical payload to forward; otherwise the HTTP error to return, and no
/// channel, so nothing is forwarded.
///
/// A missing route name and a missing table entry are server bugs (500);
/// a body that is not JSON is the client's error (400).
pub fn prepare_request<'a, C>(
    table: &'a RouteTable<C>,
    resolved: Option<&String>,
    body: &str,
) -> (r: Result<(&'a C, String), GatewayReply>)
    ensures
        resolved is None ==> (r matches Err(e) && e.status == 500 && e.body@
            == "missing route name"@),
        resolved matches Some(name) ==> (!is_json(body@) ==> (r matches Err(e) && e.status == 400
            && e.body@ == "malformed JSON body"@)),
        resolved matches Some(name) ==> (is_json(body@) && !table.contains_key(name@) ==> (
        r matches Err(e) && e.status == 500 && e.body@ == "unknown route key"@)),
        resolved matches Some(name) ==> (is_json(body@) && table.contains_key(name@) ==> (
        r matches Ok(p) && p.1@ == canonical_json(body@) && table.entry_is(name@, *(p.0)))),
{
    let name = match resolved {
        Some(n) => n,
        None => {
            return Err(
                GatewayReply { status: 500, body: "missing route name".to_owned() },
            );
        },
    };
    let payload = match canonicalize(body) {
        Some(p) => p,
        None => {
            return Err(
                GatewayReply { status: 400, body: "malformed JSON body".to_owned() },
            );
        },
    };
    match table.lookup(name) {
        Some(channel) => Ok((channel, payload)),
        None => Err(GatewayReply { status: 500, body: "unknown route key".to_owned() }),
    }
}

/// Translates the backend's reply into the gateway's HTTP response: a
/// failed call is a 500, a reply that is not JSON is a 500 (the backend
/// broke its contract), and a JSON reply is wrapped in the response
/// envelope under a 200.
pub fn interpret_backend_reply(reply: Option<&String>) -> (r: GatewayReply)
    ensures
        reply is None ==> r.status == 500 && r.body@ == "backend request failed"@,
        reply matches Some(text) ==> (!is_json(text@) ==> r.status == 500 && r.body@
            == "invalid backend response"@),
        reply matches Some(text) ==> (is_json(text@) ==> r.status == 200 && r.body@ == envelope(
            canonical_json(text@),
        )),
{
    let text = match reply {
        Some(t) => t,
        None => {
            return GatewayReply { status: 500, body: "backend request failed".to_owned() };
        },
    };
    match canonicalize(text.as_str()) {
        Some(canon) => {
            let mut body = "{\"response\":".to_owned();
            body.append(canon.as_str());
            body.append("}");
            proof {
                assert(body@ =~= envelope(canonical_json(text@)));
            }
            GatewayReply { status: 200, body }
        },
        None => GatewayReply { status: 500, body: "invalid backend response".to_owned() },
    }
}

} // verus!
