//! The JSON document that a successful command prints on stdout.

use vstd::prelude::*;

verus! {

/// What accompanies the data of a successful command.
pub struct ResponseMeta {
    pub request_id: Option<String>,
    pub api_version: String,
}

/// The document `{ "data": ..., "meta": ... }` that a successful command prints.
pub struct SuccessEnvelope<T> {
    pub data: T,
    pub meta: ResponseMeta,
}

/// The success document for `data`, with the API version `v1`.
pub fn success_envelope<T>(data: T, request_id: Option<String>) -> (r: SuccessEnvelope<T>)
    ensures
        r.data == data,
        r.meta.request_id == request_id,
        r.meta.api_version@ == "v1"@,
{
    SuccessEnvelope { data, meta: ResponseMeta { request_id, api_version: String::from_str("v1") } }
}

} // verus!
