//! The JSON formatter; the serialisation itself is done where serde runs.
use vstd::prelude::*;

verus! {

/// Writes a report as pretty-printed JSON.
pub struct JsonFormatter;

} // verus!
