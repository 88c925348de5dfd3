//! API token wrapper whose textual renderings never show the secret.

use vstd::prelude::*;

verus! {

/// API token that renders as `***`; the value is reached only through `expose`.
#[derive(Clone, PartialEq, Eq)]
pub struct TokenSecret(String);

impl TokenSecret {
    /// Wraps a plaintext token.
    pub fn new(value: String) -> (t: Self)
        ensures
            t.spec_value() == value@,
    {
        TokenSecret(value)
    }

    /// The real token value.
    pub fn expose(&self) -> (s: &str)
        ensures
            s@ == self.spec_value(),
    {
        self.0.as_str()
    }

    /// The token's view, for contracts.
    pub closed spec fn spec_value(&self) -> Seq<char> {
        self.0@
    }

    /// The debug rendering: `TokenSecret(***)`, never the value.
    pub fn debug_text(&self) -> (s: String)
        ensures
            s@ == "TokenSecret(***)"@,
    {
        String::from_str("TokenSecret(***)")
    }

    /// The display rendering: `***`, never the value.
    pub fn display_text(&self) -> (s: String)
        ensures
            s@ == "***"@,
    {
        String::from_str("***")
    }
}

} // verus!
