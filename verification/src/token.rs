use vstd::prelude::*;

verus! {

/// Whether two string slices hold the same characters.
pub fn str_eq(a: &str, b: &str) -> (r: bool)
    ensures
        r == (a@ == b@),
{
    let sa: String = a.to_owned();
    let sb: String = b.to_owned();
    sa == sb
}

/// A token denomination: the chain's own coin, or a foreign token named by
/// its denomination string. Branching on the tag replaces string comparison
/// against a sentinel value.
#[derive(Debug, Clone)]
pub enum Token {
    Native,
    Foreign(String),
}

impl Token {
    /// The denomination string under which positions and prices are keyed.
    pub open spec fn denom_spec(&self) -> Seq<char> {
        match self {
            Token::Native => "native"@,
            Token::Foreign(d) => d@,
        }
    }

    pub fn denom(&self) -> (r: String)
        ensures
            r@ == self.denom_spec(),
    {
        match self {
            Token::Native => "native".to_owned(),
            Token::Foreign(d) => d.clone(),
        }
    }

    pub fn is_native(&self) -> (r: bool)
        ensures
            r == (self is Native),
    {
        match self {
            Token::Native => true,
            Token::Foreign(_) => false,
        }
    }

    /// Reads a denomination string back as a token: the native denomination
    /// yields the native tag, anything else a foreign token of that name.
    pub fn from_denom(d: &str) -> (t: Token)
        ensures
            t.denom_spec() == d@,
            t is Native <==> d@ == "native"@,
    {
        if str_eq(d, "native") {
            Token::Native
        } else {
            Token::Foreign(d.to_owned())
        }
    }
}

} // verus!
