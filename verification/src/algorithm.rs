//! The JWS signature algorithms a token header can name.

use vstd::prelude::*;

verus! {

/// A signature algorithm, as a token header or a JWKS entry names it.
#[allow(non_camel_case_types)]
#[derive(Debug, Clone, Copy, PartialEq, Eq, Structural)]
pub enum Algorithm {
    HS256,
    HS384,
    HS512,
    ES256,
    ES384,
    RS256,
    RS384,
    RS512,
    PS256,
    PS384,
    PS512,
    EdDSA,
}

/// The name of an algorithm, as a token header spells it.
pub open spec fn algorithm_name(a: Algorithm) -> Seq<char> {
    match a {
        Algorithm::HS256 => "HS256"@,
        Algorithm::HS384 => "HS384"@,
        Algorithm::HS512 => "HS512"@,
        Algorithm::ES256 => "ES256"@,
        Algorithm::ES384 => "ES384"@,
        Algorithm::RS256 => "RS256"@,
        Algorithm::RS384 => "RS384"@,
        Algorithm::RS512 => "RS512"@,
        Algorithm::PS256 => "PS256"@,
        Algorithm::PS384 => "PS384"@,
        Algorithm::PS512 => "PS512"@,
        Algorithm::EdDSA => "EdDSA"@,
    }
}

/// The algorithm of a given name, if any has it.
pub open spec fn algorithm_named(s: Seq<char>) -> Option<Algorithm> {
    if s == "HS256"@ {
        Some(Algorithm::HS256)
    } else if s == "HS384"@ {
        Some(Algorithm::HS384)
    } else if s == "HS512"@ {
        Some(Algorithm::HS512)
    } else if s == "ES256"@ {
        Some(Algorithm::ES256)
    } else if s == "ES384"@ {
        Some(Algorithm::ES384)
    } else if s == "RS256"@ {
        Some(Algorithm::RS256)
    } else if s == "RS384"@ {
        Some(Algorithm::RS384)
    } else if s == "RS512"@ {
        Some(Algorithm::RS512)
    } else if s == "PS256"@ {
        Some(Algorithm::PS256)
    } else if s == "PS384"@ {
        Some(Algorithm::PS384)
    } else if s == "PS512"@ {
        Some(Algorithm::PS512)
    } else if s == "EdDSA"@ {
        Some(Algorithm::EdDSA)
    } else {
        None
    }
}

/// `s == lit`, for a literal.
pub fn str_is(s: &str, lit: &str) -> (b: bool)
    ensures
        b == (s@ == lit@),
{
    s.to_owned() == lit.to_owned()
}

impl Algorithm {
    /// The name of the algorithm.
    pub fn name(&self) -> (s: String)
        ensures
            s@ == algorithm_name(*self),
    {
        match self {
            Algorithm::HS256 => "HS256".to_owned(),
            Algorithm::HS384 => "HS384".to_owned(),
            Algorithm::HS512 => "HS512".to_owned(),
            Algorithm::ES256 => "ES256".to_owned(),
            Algorithm::ES384 => "ES384".to_owned(),
            Algorithm::RS256 => "RS256".to_owned(),
            Algorithm::RS384 => "RS384".to_owned(),
            Algorithm::RS512 => "RS512".to_owned(),
            Algorithm::PS256 => "PS256".to_owned(),
            Algorithm::PS384 => "PS384".to_owned(),
            Algorithm::PS512 => "PS512".to_owned(),
            Algorithm::EdDSA => "EdDSA".to_owned(),
        }
    }

    /// The algorithm of the given name, if any has it.
    pub fn from_name(s: &str) -> (a: Option<Algorithm>)
        ensures
            a == algorithm_named(s@),
    {
        if str_is(s, "HS256") {
            Some(Algorithm::HS256)
        } else if str_is(s, "HS384") {
            Some(Algorithm::HS384)
        } else if str_is(s, "HS512") {
            Some(Algorithm::HS512)
        } else if str_is(s, "ES256") {
            Some(Algorithm::ES256)
        } else if str_is(s, "ES384") {
            Some(Algorithm::ES384)
        } else if str_is(s, "RS256") {
            Some(Algorithm::RS256)
        } else if str_is(s, "RS384") {
            Some(Algorithm::RS384)
        } else if str_is(s, "RS512") {
            Some(Algorithm::RS512)
        } else if str_is(s, "PS256") {
            Some(Algorithm::PS256)
        } else if str_is(s, "PS384") {
            Some(Algorithm::PS384)
        } else if str_is(s, "PS512") {
            Some(Algorithm::PS512)
        } else if str_is(s, "EdDSA") {
            Some(Algorithm::EdDSA)
        } else {
            None
        }
    }
}

} // verus!
