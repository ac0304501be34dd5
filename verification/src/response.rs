//! The generic success envelope wrapped around every API payload.

use vstd::prelude::*;
use crate::json::{json_string, push_json_string, ToJson};

verus! {

/// The envelope `{status, message, data}` around a successful API payload.
/// The caller supplies the status vocabulary and the message; the envelope
/// itself checks nothing and carries the payload as given.
#[derive(Debug, Clone, PartialEq)]
pub struct ApiResponse<T> {
    pub status: String,
    pub message: String,
    pub data: T,
}

/// The JSON text of an envelope: `{"status":<status>,"message":<message>,
/// "data":<data>}`, where the status and message are JSON strings and the
/// data stands as the JSON text the payload serializes to.
pub open spec fn envelope_json(status: Seq<char>, message: Seq<char>, data: Seq<char>) -> Seq<
    char,
> {
    "{\"status\":"@ + json_string(status) + ",\"message\":"@ + json_string(message)
        + ",\"data\":"@ + data + "}"@
}

impl<T: ToJson> ToJson for ApiResponse<T> {
    open spec fn json_view(&self) -> Seq<char> {
        envelope_json(self.status@, self.message@, self.data.json_view())
    }

    fn to_json(&self) -> (r: String)
        ensures
            r@ == self.json_view(),
    {
        let mut out = String::from_str("{\"status\":");
        push_json_string(&mut out, self.status.as_str());
        out.append(",\"message\":");
        push_json_string(&mut out, self.message.as_str());
        out.append(",\"data\":");
        let data_json = self.data.to_json();
        out.append(data_json.as_str());
        out.append("}");
        proof {
            assert(out@ =~= self.json_view());
        }
        out
    }
}

/// Law: serialization is deterministic. The JSON text of an envelope is a
/// function of the envelope's value alone, so equal envelopes always
/// serialize to identical text, however often they are serialized.
pub proof fn lemma_serialization_deterministic<T: ToJson>(a: &ApiResponse<T>, b: &ApiResponse<T>)
    requires
        a == b,
    ensures
        a.json_view() == b.json_view(),
{
}

} // verus!
