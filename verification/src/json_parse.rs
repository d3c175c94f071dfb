//! Parsing request bodies into `JsonBody` documents.
//!
//! This module cannot reach the fields of a `JsonBody`: the only way it has
//! to obtain one is `serde_json`'s parse of the very bytes it is given.

use crate::json::{json_text_parses, parse_json_value, JsonBody};
use vstd::prelude::*;

verus! {

impl JsonBody {
    /// Parses a body; the document then stands for exactly these bytes.
    pub fn parse(bytes: &[u8]) -> (parsed: Result<JsonBody, serde_json::Error>)
        ensures
            parsed is Ok <==> json_text_parses(bytes@),
            parsed matches Ok(body) ==> body@ == (bytes@, Seq::<(Seq<char>, Seq<char>)>::empty()),
    {
        parse_json_value(bytes)
    }
}

} // verus!
