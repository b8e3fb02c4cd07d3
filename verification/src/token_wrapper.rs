//! The wrapped-token registry: which foreign token is represented by which
//! wrapped token, and the decisions for wrapping and unwrapping funds.
//!
//! The registry decides; the messages that mint, instantiate or send funds
//! are built outside from the returned outcome.

use vstd::prelude::*;

use crate::error::LendError;
use crate::store;
use crate::store::pairs_view;
use crate::token::str_eq;

verus! {

/// The wrapped token registered for `token`: the second component of the
/// first pair whose first component is `token`.
pub open spec fn lookup_wrapped(s: Seq<(Seq<char>, Seq<char>)>, token: Seq<char>) -> Option<
    Seq<char>,
>
    decreases s.len(),
{
    if s.len() == 0 {
        None
    } else if s[0].0 == token {
        Some(s[0].1)
    } else {
        lookup_wrapped(s.drop_first(), token)
    }
}

/// The token a wrapped token stands for: the first component of the first
/// pair whose second component is `wrapped`.
pub open spec fn lookup_original(s: Seq<(Seq<char>, Seq<char>)>, wrapped: Seq<char>) -> Option<
    Seq<char>,
>
    decreases s.len(),
{
    if s.len() == 0 {
        None
    } else if s[0].1 == wrapped {
        Some(s[0].0)
    } else {
        lookup_original(s.drop_first(), wrapped)
    }
}

/// A lookup skips every pair that does not match.
proof fn lemma_lookup_wrapped_skip(s: Seq<(Seq<char>, Seq<char>)>, token: Seq<char>, i: int)
    requires
        0 <= i <= s.len(),
        forall|j: int| 0 <= j < i ==> s[j].0 != token,
    ensures
        lookup_wrapped(s, token) == lookup_wrapped(s.skip(i), token),
    decreases i,
{
    if i > 0 {
        assert(s.drop_first() =~= s.skip(1));
        assert(s.skip(1).skip(i - 1) =~= s.skip(i));
        lemma_lookup_wrapped_skip(s.skip(1), token, i - 1);
    } else {
        assert(s.skip(0) =~= s);
    }
}

proof fn lemma_lookup_original_skip(s: Seq<(Seq<char>, Seq<char>)>, wrapped: Seq<char>, i: int)
    requires
        0 <= i <= s.len(),
        forall|j: int| 0 <= j < i ==> s[j].1 != wrapped,
    ensures
        lookup_original(s, wrapped) == lookup_original(s.skip(i), wrapped),
    decreases i,
{
    if i > 0 {
        assert(s.drop_first() =~= s.skip(1));
        assert(s.skip(1).skip(i - 1) =~= s.skip(i));
        lemma_lookup_original_skip(s.skip(1), wrapped, i - 1);
    } else {
        assert(s.skip(0) =~= s);
    }
}

/// The wrapped token registered for `token` in the pair list, if any.
fn find_wrapped(pairs: &Vec<(String, String)>, token: &str) -> (r: Option<String>)
    ensures
        match r {
            Some(w) => lookup_wrapped(pairs_view(pairs@), token@) == Some(w@),
            None => lookup_wrapped(pairs_view(pairs@), token@) is None,
        },
{
    let ghost s = pairs_view(pairs@);
    let mut i: usize = 0;
    while i < pairs.len()
        invariant
            0 <= i <= pairs.len(),
            s == pairs_view(pairs@),
            s.len() == pairs@.len(),
            forall|j: int| 0 <= j < i ==> s[j].0 != token@,
        decreases pairs.len() - i,
    {
        if str_eq(pairs[i].0.as_str(), token) {
            proof {
                lemma_lookup_wrapped_skip(s, token@, i as int);
                assert(s.skip(i as int)[0] == s[i as int]);
            }
            return Some(pairs[i].1.clone());
        }
        i = i + 1;
    }
    proof {
        lemma_lookup_wrapped_skip(s, token@, i as int);
        assert(s.skip(i as int).len() == 0);
    }
    None
}

/// The token whose registered wrapped token is `wrapped`, if any.
fn find_original(pairs: &Vec<(String, String)>, wrapped: &str) -> (r: Option<String>)
    ensures
        match r {
            Some(t) => lookup_original(pairs_view(pairs@), wrapped@) == Some(t@),
            None => lookup_original(pairs_view(pairs@), wrapped@) is None,
        },
{
    let ghost s = pairs_view(pairs@);
    let mut i: usize = 0;
    while i < pairs.len()
        invariant
            0 <= i <= pairs.len(),
            s == pairs_view(pairs@),
            s.len() == pairs@.len(),
            forall|j: int| 0 <= j < i ==> s[j].1 != wrapped@,
        decreases pairs.len() - i,
    {
        if str_eq(pairs[i].1.as_str(), wrapped) {
            proof {
                lemma_lookup_original_skip(s, wrapped@, i as int);
                assert(s.skip(i as int)[0] == s[i as int]);
            }
            return Some(pairs[i].0.clone());
        }
        i = i + 1;
    }
    proof {
        lemma_lookup_original_skip(s, wrapped@, i as int);
        assert(s.skip(i as int).len() == 0);
    }
    None
}

/// What wrapping decides: mint more of the registered wrapped token, or
/// create a wrapped token first because none is registered.
#[derive(Debug, Clone)]
pub enum WrapOutcome {
    Mint { wrapped_token: String, amount: u128 },
    Create { token: String },
}

/// The wrapped token registered for a queried token.
#[derive(Debug, Clone)]
pub struct WrappedTokenResponse {
    pub wrapped_token: String,
}

/// Funds to release: the denomination and the amount to send back.
#[derive(Debug, Clone)]
pub struct ReleaseFunds {
    pub denom: String,
    pub amount: u128,
}

/// The registry of (token, wrapped token) pairs.
pub struct WrapRegistry {
    db: cosmwasm_std::MemoryStorage,
}

impl View for WrapRegistry {
    type V = Seq<(Seq<char>, Seq<char>)>;

    closed spec fn view(&self) -> Seq<(Seq<char>, Seq<char>)> {
        store::registry_of(self.db)
    }
}

impl WrapRegistry {
    /// A registry with nothing registered.
    pub fn new() -> (r: WrapRegistry)
        ensures
            r@.len() == 0,
    {
        WrapRegistry { db: store::db_new() }
    }

    /// Registers `wrapped` as the wrapped token of `token`. Returns false,
    /// and registers nothing, where `token` already has a wrapped token.
    pub fn register_wrapped(&mut self, token: &str, wrapped: &str) -> (r: bool)
        ensures
            match lookup_wrapped(old(self)@, token@) {
                Some(_) => !r && final(self)@ == old(self)@,
                None => r && final(self)@ == old(self)@.push((token@, wrapped@)),
            },
    {
        let pairs = store::registry_load(&self.db);
        if find_wrapped(&pairs, token).is_some() {
            return false;
        }
        let mut pairs = pairs;
        let ghost before = pairs_view(pairs@);
        pairs.push((token.to_owned(), wrapped.to_owned()));
        proof {
            assert(pairs_view(pairs@) =~= before.push((token@, wrapped@)));
        }
        store::registry_save(&mut self.db, &pairs);
        true
    }

    /// The wrapped token registered for `token`.
    pub fn query_wrapped_token(&self, token: &str) -> (r: Result<WrappedTokenResponse, LendError>)
        ensures
            match (r, lookup_wrapped(self@, token@)) {
                (Ok(resp), Some(w)) => resp.wrapped_token@ == w,
                (Err(e), None) => e == LendError::TokenNotFound,
                _ => false,
            },
    {
        let pairs = store::registry_load(&self.db);
        match find_wrapped(&pairs, token) {
            Some(wrapped_token) => Ok(WrappedTokenResponse { wrapped_token }),
            None => Err(LendError::TokenNotFound),
        }
    }

    /// Decides what wrapping `amount` of `token` takes: minting the
    /// registered wrapped token, or creating a wrapped token first.
    pub fn wrap(&self, token: &str, amount: u128) -> (r: WrapOutcome)
        ensures
            match (r, lookup_wrapped(self@, token@)) {
                (WrapOutcome::Mint { wrapped_token, amount: a }, Some(w)) => wrapped_token@ == w
                    && a == amount,
                (WrapOutcome::Create { token: t }, None) => t@ == token@,
                _ => false,
            },
    {
        let pairs = store::registry_load(&self.db);
        match find_wrapped(&pairs, token) {
            Some(wrapped_token) => WrapOutcome::Mint { wrapped_token, amount },
            None => WrapOutcome::Create { token: token.to_owned() },
        }
    }

    /// Decides what unwrapping against `wrapped` releases: the original
    /// denomination and the amount, or `WrongToken` where no token is
    /// registered under that wrapped address.
    pub fn unwrap_token(&self, wrapped: &str, amount: u128) -> (r: Result<ReleaseFunds, LendError>)
        ensures
            match (r, lookup_original(self@, wrapped@)) {
                (Ok(f), Some(t)) => f.denom@ == t && f.amount == amount,
                (Err(e), None) => e == LendError::WrongToken,
                _ => false,
            },
    {
        let pairs = store::registry_load(&self.db);
        match find_original(&pairs, wrapped) {
            Some(denom) => Ok(ReleaseFunds { denom, amount }),
            None => Err(LendError::WrongToken),
        }
    }

    /// Decides what a wrapped-token deposit from `sender` releases: the
    /// original denomination for the deposited amount, or `WrongToken` where
    /// the sender is not a registered wrapped token.
    pub fn receive_cw20(&self, sender: &str, amount: u128) -> (r: Result<ReleaseFunds, LendError>)
        ensures
            match (r, lookup_original(self@, sender@)) {
                (Ok(f), Some(t)) => f.denom@ == t && f.amount == amount,
                (Err(e), None) => e == LendError::WrongToken,
                _ => false,
            },
    {
        let pairs = store::registry_load(&self.db);
        match find_original(&pairs, sender) {
            Some(denom) => Ok(ReleaseFunds { denom, amount }),
            None => Err(LendError::WrongToken),
        }
    }
}

} // verus!
