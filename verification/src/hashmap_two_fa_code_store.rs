//! The in-process challenge store: a keyed mapping from email to the pending
//! attempt identifier and code. Adding a challenge overwrites the previous
//! one for that email.

use vstd::prelude::*;
use vstd::hash_map::StringHashMap;
use crate::data_store::{LoginAttemptId, TwoFACode, TwoFACodeStore, TwoFACodeStoreError};
use crate::email::Email;

verus! {

/// The challenge views of a mapping from email to pending challenge.
pub open spec fn code_views(m: Map<Seq<char>, (LoginAttemptId, TwoFACode)>) -> Map<
    Seq<char>,
    (Seq<char>, Seq<char>),
> {
    Map::new(|e: Seq<char>| m.contains_key(e), |e: Seq<char>| (m[e].0@, m[e].1@))
}

pub struct HashmapTwoFACodeStore {
    codes: StringHashMap<(LoginAttemptId, TwoFACode)>,
}

impl Default for HashmapTwoFACodeStore {
    /// An empty challenge store.
    fn default() -> (r: Self)
        ensures
            r.inv(),
            r.codes() == Map::<Seq<char>, (Seq<char>, Seq<char>)>::empty(),
    {
        let r = HashmapTwoFACodeStore { codes: StringHashMap::new() };
        proof {
            assert(code_views(r.codes@) =~= Map::<Seq<char>, (Seq<char>, Seq<char>)>::empty());
        }
        r
    }
}

impl TwoFACodeStore for HashmapTwoFACodeStore {
    closed spec fn codes(&self) -> Map<Seq<char>, (Seq<char>, Seq<char>)> {
        code_views(self.codes@)
    }

    closed spec fn inv(&self) -> bool {
        true
    }

    fn add_code(
        &mut self,
        email: &Email,
        login_attempt_id: &LoginAttemptId,
        code: &TwoFACode,
    ) -> (r: Result<(), TwoFACodeStoreError>) {
        let key = String::from_str(email.as_str());
        let ghost prior = self.codes@;
        self.codes.insert(key, (login_attempt_id.clone(), code.clone()));
        proof {
            assert(code_views(self.codes@) =~= code_views(prior).insert(
                email@,
                (login_attempt_id@, code@),
            ));
        }
        Ok(())
    }

    fn remove_code(&mut self, email: &Email) -> (r: Result<(), TwoFACodeStoreError>) {
        let ghost prior = self.codes@;
        self.codes.remove(email.as_str());
        proof {
            assert(code_views(self.codes@) =~= code_views(prior).remove(email@));
        }
        Ok(())
    }

    fn get_code(&self, email: &Email) -> (r: Result<
        (LoginAttemptId, TwoFACode),
        TwoFACodeStoreError,
    >) {
        match self.codes.get(email.as_str()) {
            Some(p) => Ok((p.0.clone(), p.1.clone())),
            None => Err(TwoFACodeStoreError::LoginAttemptIdNotFound),
        }
    }
}

} // verus!
