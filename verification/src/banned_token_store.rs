//! The in-process revocation store: a set of revoked token strings whose
//! entries persist for the lifetime of the process.

use vstd::prelude::*;
use vstd::hash_set::StringHashSet;
use crate::data_store::{BannedTokenStore, BannedTokenStoreError};

verus! {

pub struct HashsetBannedTokenStore {
    banned_tokens: StringHashSet,
}

impl Default for HashsetBannedTokenStore {
    /// An empty revocation store.
    fn default() -> (r: Self)
        ensures
            r.inv(),
            r.tokens() == Set::<Seq<char>>::empty(),
    {
        HashsetBannedTokenStore { banned_tokens: StringHashSet::new() }
    }
}

impl BannedTokenStore for HashsetBannedTokenStore {
    closed spec fn tokens(&self) -> Set<Seq<char>> {
        self.banned_tokens@
    }

    closed spec fn inv(&self) -> bool {
        true
    }

    fn add_token(&mut self, token: String) -> (r: Result<(), BannedTokenStoreError>) {
        if self.banned_tokens.contains(token.as_str()) {
            proof {
                assert(self.banned_tokens@.insert(token@) =~= self.banned_tokens@);
            }
            return Err(BannedTokenStoreError::TokenAlreadyBanned);
        }
        self.banned_tokens.insert(token);
        Ok(())
    }

    fn contains_token(&self, token: &str) -> (r: Result<bool, BannedTokenStoreError>) {
        Ok(self.banned_tokens.contains(token))
    }

    fn remove_token(&mut self, token: &str) -> (r: Result<(), BannedTokenStoreError>) {
        if self.banned_tokens.remove(token) {
            Ok(())
        } else {
            Err(BannedTokenStoreError::TokenNotFound)
        }
    }

    fn store_token(&mut self, token: String) -> (r: Result<(), BannedTokenStoreError>) {
        if self.banned_tokens.contains(token.as_str()) {
            proof {
                assert(self.banned_tokens@.insert(token@) =~= self.banned_tokens@);
            }
            return Err(BannedTokenStoreError::TokenAlreadyBanned);
        }
        self.banned_tokens.insert(token);
        Ok(())
    }

    fn is_token_banned(&self, token: &str) -> (r: Result<bool, BannedTokenStoreError>) {
        Ok(self.banned_tokens.contains(token))
    }
}

} // verus!
