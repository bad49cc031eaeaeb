//! The in-process credential store: a keyed mapping from email to user
//! record, non-durable, used for development and tests.

use vstd::prelude::*;
use vstd::hash_map::StringHashMap;
use crate::data_store::{UserStore, UserStoreError};
use crate::email::Email;
use crate::password::Password;
use crate::user::{User, UserView};

verus! {

/// The record views of a mapping from email to user record.
pub open spec fn user_views(m: Map<Seq<char>, User>) -> Map<Seq<char>, UserView> {
    Map::new(|e: Seq<char>| m.contains_key(e), |e: Seq<char>| m[e]@)
}

pub struct HashmapUserStore {
    users: StringHashMap<User>,
}

impl Default for HashmapUserStore {
    /// An empty credential store.
    fn default() -> (r: Self)
        ensures
            r.inv(),
            r.users() == Map::<Seq<char>, UserView>::empty(),
    {
        let r = HashmapUserStore { users: StringHashMap::new() };
        proof {
            assert(user_views(r.users@) =~= Map::<Seq<char>, UserView>::empty());
        }
        r
    }
}

impl UserStore for HashmapUserStore {
    closed spec fn users(&self) -> Map<Seq<char>, UserView> {
        user_views(self.users@)
    }

    closed spec fn inv(&self) -> bool {
        true
    }

    fn add_user(&mut self, user: User) -> (r: Result<(), UserStoreError>) {
        if self.users.contains_key(user.email.as_str()) {
            return Err(UserStoreError::UserAlreadyExists);
        }
        let key = String::from_str(user.email.as_str());
        let ghost prior = self.users@;
        self.users.insert(key, user);
        proof {
            assert(user_views(self.users@) =~= user_views(prior).insert(user.email@, user@));
        }
        Ok(())
    }

    fn get_user(&self, email: &Email) -> (r: Result<User, UserStoreError>) {
        match self.users.get(email.as_str()) {
            Some(u) => Ok(u.clone()),
            None => Err(UserStoreError::UserNotFound),
        }
    }

    fn validate_user(&self, email: &Email, password: &Password) -> (r: Result<
        (),
        UserStoreError,
    >) {
        let user = match self.get_user(email) {
            Ok(u) => u,
            Err(_) => {
                return Err(UserStoreError::UserNotFound);
            },
        };
        if user.password == *password {
            Ok(())
        } else {
            Err(UserStoreError::InvalidCredentials)
        }
    }
}

} // verus!
