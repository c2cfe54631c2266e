//! The user record: the one entity the service stores.
//!
//! A record carries an optional identifier and its domain fields. A
//! payload arriving with a create or update request carries no
//! meaningful identifier (it is absent or ignored); a record handed
//! back by the store always carries the identifier the storage layer
//! assigned at creation.

use vstd::prelude::*;

use crate::oid::ObjectId;

verus! {

/// Mathematical shape of a user record: the identifier's bytes, if
/// one is assigned, and the domain fields.
#[verifier::ext_equal]
pub ghost struct UserView {
    pub id: Option<Seq<u8>>,
    pub name: Seq<char>,
}

/// The views of a sequence of records, element for element.
pub open spec fn views_of(s: Seq<User>) -> Seq<UserView> {
    Seq::new(s.len(), |i: int| s[i]@)
}

/// A user record as it travels through the service.
pub struct User {
    pub id: Option<ObjectId>,
    pub name: String,
}

impl View for User {
    type V = UserView;

    open spec fn view(&self) -> UserView {
        UserView {
            id: match self.id {
                Some(o) => Some(o@),
                None => None,
            },
            name: self.name@,
        }
    }
}

impl Clone for User {
    /// A cloned record holds the same identifier bytes and fields.
    fn clone(&self) -> (r: Self)
        ensures
            r@ == self@,
    {
        let r = User {
            id: match &self.id {
                Some(o) => Some(o.clone()),
                None => None,
            },
            name: self.name.clone(),
        };
        assert(r@ =~= self@);
        r
    }
}

} // verus!
