use vstd::prelude::*;

verus! {

/// The public base URL of the application, without a trailing `/`.
pub struct ApplicationBaseUrl(pub String);

} // verus!
