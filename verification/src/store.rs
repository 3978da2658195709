//! The persisted user record and the user token store: the mapping from
//! provider subject id to stored refresh token and profile metadata, with
//! last-write-wins upsert semantics.

use vstd::prelude::*;

verus! {

/// The abstract value of a [`GoogleUser`]: its fields at the level of
/// character sequences.
pub struct GoogleUserView {
    /// The provider-issued subject id, the store key.
    pub id: Seq<char>,
    /// The user's email address, when the identity token carried one.
    pub email: Option<Seq<char>>,
    /// The stored refresh token, when one has been issued.
    pub refresh_token: Option<Seq<char>>,
    /// The scopes granted to the user.
    pub scope: Seq<Seq<char>>,
}

/// A user authenticated with the provider, keyed by the provider-issued
/// subject id. Created or overwritten only when an exchange response
/// carries a refresh token.
///
/// The record holds secrets, so it deliberately has no formatting
/// implementation: neither the refresh token nor the email can reach a
/// log through it.
pub struct GoogleUser {
    /// The provider-issued subject id; the store key, not a stored field.
    pub id: String,
    /// The user's email address, if available.
    pub email: Option<String>,
    /// The refresh token, if present.
    pub refresh_token: Option<String>,
    /// The scopes granted to the user.
    pub scope: Vec<String>,
}

impl View for GoogleUser {
    type V = GoogleUserView;

    open spec fn view(&self) -> GoogleUserView {
        GoogleUserView {
            id: self.id@,
            email: match self.email {
                Some(e) => Some(e@),
                None => None,
            },
            refresh_token: match self.refresh_token {
                Some(t) => Some(t@),
                None => None,
            },
            scope: self.scope@.map_values(|s: String| s@),
        }
    }
}

impl GoogleUser {
    /// Copies the record field by field.
    pub fn duplicate(&self) -> (r: GoogleUser)
        ensures
            r@ == self@,
    {
        let email = match &self.email {
            Some(e) => Some(e.clone()),
            None => None,
        };
        let refresh_token = match &self.refresh_token {
            Some(t) => Some(t.clone()),
            None => None,
        };
        let mut scope: Vec<String> = Vec::new();
        let mut i: usize = 0;
        while i < self.scope.len()
            invariant
                i <= self.scope@.len(),
                scope@.len() == i,
                forall|j: int| 0 <= j < i ==> #[trigger] scope@[j]@ == self.scope@[j]@,
            decreases self.scope@.len() - i,
        {
            scope.push(self.scope[i].clone());
            i += 1;
        }
        let r = GoogleUser { id: self.id.clone(), email, refresh_token, scope };
        assert(r@.scope =~= self@.scope);
        r
    }
}

/// The subject id of the provider identity a broker-authenticated caller
/// proves; resolved server-side, never client-supplied.
#[derive(Clone, Debug)]
pub struct GoogleUserId(pub String);

impl GoogleUserId {
    /// Picks the provider identity out of the broker's identity claims:
    /// the first provider subject id listed, or an error when the claim
    /// list is empty.
    pub fn from_google_identities(ids: &Vec<String>) -> (r: Result<GoogleUserId, crate::error::Error>)
        ensures
            match r {
                Ok(gid) => ids@.len() > 0 && gid.0@ == ids@[0]@,
                Err(e) => ids@.len() == 0 && e is FirebaseUserMissingGoogleIdentity,
            },
    {
        if ids.len() == 0 {
            Err(crate::error::Error::FirebaseUserMissingGoogleIdentity)
        } else {
            Ok(GoogleUserId(ids[0].clone()))
        }
    }

    /// The subject id as a string slice.
    pub fn as_str(&self) -> (r: &str)
        ensures
            r@ == self.0@,
    {
        self.0.as_str()
    }
}

/// The stored records a sequence of writes leaves behind: later writes to
/// the same subject id win.
pub open spec fn spec_store_contents(writes: Seq<GoogleUserView>) -> Map<Seq<char>, GoogleUserView>
    decreases writes.len(),
{
    if writes.len() == 0 {
        Map::empty()
    } else {
        spec_store_contents(writes.drop_last()).insert(writes.last().id, writes.last())
    }
}

/// The user token store: get-by-key and put-by-key over user records, with
/// single-key last-write-wins semantics. Writes are kept in arrival order;
/// reads resolve to the latest write for the key.
pub struct GoogleUserRepository {
    collection_name: String,
    writes: Vec<GoogleUser>,
}

impl View for GoogleUserRepository {
    type V = Map<Seq<char>, GoogleUserView>;

    closed spec fn view(&self) -> Map<Seq<char>, GoogleUserView> {
        spec_store_contents(self.writes@.map_values(|u: GoogleUser| u@))
    }
}

impl GoogleUserRepository {
    /// An empty store for the named collection.
    pub fn new(collection_name: &str) -> (r: GoogleUserRepository)
        ensures
            r@ == Map::<Seq<char>, GoogleUserView>::empty(),
            r.spec_collection_name() == collection_name@,
    {
        let r = GoogleUserRepository { collection_name: collection_name.to_owned(), writes: Vec::new() };
        assert(r.writes@.map_values(|u: GoogleUser| u@) =~= Seq::<GoogleUserView>::empty());
        r
    }

    /// The collection the store writes to.
    pub closed spec fn spec_collection_name(&self) -> Seq<char> {
        self.collection_name@
    }

    /// The collection the store writes to.
    pub fn collection_name(&self) -> (r: &str)
        ensures
            r@ == self.spec_collection_name(),
    {
        self.collection_name.as_str()
    }

    /// Looks up the record stored for a subject id: the latest write for
    /// that key, or `None` when no write has touched it. A returned
    /// record is keyed by the id it was asked for.
    pub fn get(&self, id: &str) -> (r: Option<GoogleUser>)
        ensures
            match r {
                Some(u) => self@.contains_key(id@) && u@ == self@[id@] && u@.id == id@,
                None => !self@.contains_key(id@),
            },
    {
        let ghost all = self.writes@.map_values(|u: GoogleUser| u@);
        let mut j: usize = self.writes.len();
        proof {
            assert(all.take(j as int) =~= all);
        }
        while j > 0
            invariant
                j <= self.writes@.len(),
                all == self.writes@.map_values(|u: GoogleUser| u@),
                spec_store_contents(all).contains_key(id@) == spec_store_contents(
                    all.take(j as int),
                ).contains_key(id@),
                spec_store_contents(all).contains_key(id@) ==> spec_store_contents(all)[id@]
                    == spec_store_contents(all.take(j as int))[id@],
            decreases j,
        {
            j -= 1;
            proof {
                assert(all.take(j + 1 as int).drop_last() =~= all.take(j as int));
                assert(all.take(j + 1 as int).last() == all[j as int]);
                assert(all[j as int] == self.writes@[j as int]@);
            }
            if crate::text::str_eq(self.writes[j].id.as_str(), id) {
                let found = self.writes[j].duplicate();
                return Some(found);
            }
        }
        proof {
            assert(all.take(0) =~= Seq::<GoogleUserView>::empty());
        }
        None
    }

    /// Upserts the record under its subject id: afterwards the store maps
    /// `user.id` to `user` and no other key changed.
    pub fn update(&mut self, user: &GoogleUser)
        ensures
            final(self)@ == old(self)@.insert(user@.id, user@),
            final(self).spec_collection_name() == old(self).spec_collection_name(),
    {
        let ghost before = self.writes@.map_values(|u: GoogleUser| u@);
        let copy = user.duplicate();
        self.writes.push(copy);
        proof {
            let after = self.writes@.map_values(|u: GoogleUser| u@);
            assert(after.drop_last() =~= before);
            assert(after.last() == user@);
        }
    }
}

} // verus!
