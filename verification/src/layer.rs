//! The producer-side relay configuration.
//!
//! A `BertrandLayer` is attached to a producer's event stream; for
//! every state string the filter extracts, one fire-and-forget HTTP
//! POST goes to the relay's ingestion endpoint. The only state it
//! carries is the endpoint URL, fixed at construction and read-only
//! afterwards, so arbitrarily many producer call sites can share it
//! without coordination.

use vstd::prelude::*;
use vstd::string::*;

verus! {

/// The ingestion endpoint URL for a relay reachable at `addr`.
pub open spec fn ingest_url(addr: Seq<char>) -> Seq<char> {
    "http://"@ + addr + "/api/send"@
}

/// Observer configuration that relays extracted state strings to a
/// running relay server.
pub struct BertrandLayer {
    pub url: String,
}

impl BertrandLayer {
    /// A layer pointed at the relay server listening on `addr`, an
    /// address like `localhost:8080`.
    pub fn new(addr: &str) -> (r: Self)
        ensures
            r.url@ == ingest_url(addr@),
    {
        let mut url = String::from_str("http://");
        url.append(addr);
        url.append("/api/send");
        BertrandLayer { url }
    }

    /// The ingestion endpoint URL this layer posts to.
    pub fn url(&self) -> (r: &str)
        ensures
            r@ == self.url@,
    {
        self.url.as_str()
    }
}

} // verus!
