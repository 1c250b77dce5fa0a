//! The key and model that an engine is configured with.
use vstd::prelude::*;

verus! {

/// The mathematical form of an engine's configuration.
pub ghost struct CredentialsView {
    pub api_key: Seq<char>,
    pub model: Seq<char>,
}

/// The value of an `Authorization` header that presents `api_key` as a
/// bearer token.
pub open spec fn bearer(api_key: Seq<char>) -> Seq<char> {
    "Bearer "@ + api_key
}

/// `Bearer ` followed by the key.
pub fn bearer_authorization(api_key: &str) -> (res: String)
    ensures
        res@ == bearer(api_key@),
{
    let mut s = String::from_str("Bearer ");
    s.append(api_key);
    s
}

} // verus!
