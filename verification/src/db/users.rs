//! User records.

use crate::text::text_eq;
use vstd::prelude::*;

verus! {

/// What a user may do.
#[derive(Debug, Clone, Copy, PartialEq, Eq, Structural)]
pub enum UserRole {
    Admin,
    User,
}

impl UserRole {
    /// The name under which a role stands in signed claims.
    pub open spec fn name(self) -> Seq<char> {
        match self {
            UserRole::Admin => "Admin"@,
            UserRole::User => "User"@,
        }
    }

    /// The name under which a role stands in signed claims.
    pub fn as_str(&self) -> (name: &'static str)
        ensures
            name@ == self.name(),
    {
        match self {
            UserRole::Admin => "Admin",
            UserRole::User => "User",
        }
    }

    /// The role that a name stands for, if any.
    pub fn from_name(name: &str) -> (role: Option<UserRole>)
        ensures
            role == role_named(name@),
    {
        if text_eq(name, "Admin") {
            Some(UserRole::Admin)
        } else if text_eq(name, "User") {
            Some(UserRole::User)
        } else {
            None
        }
    }
}

/// The role that a name stands for, if any.
pub open spec fn role_named(name: Seq<char>) -> Option<UserRole> {
    if name == "Admin"@ {
        Some(UserRole::Admin)
    } else if name == "User"@ {
        Some(UserRole::User)
    } else {
        None
    }
}

/// A role is found again from its name.
pub proof fn lemma_role_name_round_trip(role: UserRole)
    ensures
        role_named(role.name()) == Some(role),
{
    reveal_strlit("Admin");
    reveal_strlit("User");
    assert("Admin"@.len() == 5);
}

/// A user as the directory holds it. The password itself is never kept, only
/// its salted digest.
#[derive(Debug, Clone, PartialEq, Eq)]
pub struct Model {
    pub id: u128,
    pub username: String,
    pub password_hash: String,
    pub email: String,
    pub role: UserRole,
    pub created_at: i64,
    pub updated_at: i64,
}

/// A user record with its texts as sequences of characters.
pub struct ModelView {
    pub id: u128,
    pub username: Seq<char>,
    pub password_hash: Seq<char>,
    pub email: Seq<char>,
    pub role: UserRole,
    pub created_at: i64,
    pub updated_at: i64,
}

impl View for Model {
    type V = ModelView;

    open spec fn view(&self) -> ModelView {
        ModelView {
            id: self.id,
            username: self.username@,
            password_hash: self.password_hash@,
            email: self.email@,
            role: self.role,
            created_at: self.created_at,
            updated_at: self.updated_at,
        }
    }
}

impl Model {
    /// A copy of the record.
    pub fn duplicate(&self) -> (copy: Model)
        ensures
            copy@ == self@,
    {
        Model {
            id: self.id,
            username: self.username.clone(),
            password_hash: self.password_hash.clone(),
            email: self.email.clone(),
            role: self.role,
            created_at: self.created_at,
            updated_at: self.updated_at,
        }
    }
}

/// No two users share an id or a username.
pub open spec fn valid_users(users: Seq<ModelView>) -> bool {
    forall|i: int, j: int|
        0 <= i < j < users.len() ==> users[i].id != users[j].id && users[i].username
            != users[j].username
}

/// The user with this username, if there is one.
pub open spec fn user_named(users: Seq<ModelView>, username: Seq<char>) -> Option<ModelView>
    decreases users.len(),
{
    if users.len() == 0 {
        None
    } else if users.last().username == username {
        Some(users.last())
    } else {
        user_named(users.drop_last(), username)
    }
}

/// The user with this id, if there is one.
pub open spec fn user_with_id(users: Seq<ModelView>, id: u128) -> Option<ModelView>
    decreases users.len(),
{
    if users.len() == 0 {
        None
    } else if users.last().id == id {
        Some(users.last())
    } else {
        user_with_id(users.drop_last(), id)
    }
}

/// The views of a row of users.
pub open spec fn user_views(users: Seq<Model>) -> Seq<ModelView> {
    Seq::new(users.len(), |i: int| users[i]@)
}

/// A user that is found is one of the users, and has what was asked for.
pub proof fn lemma_found_user(users: Seq<ModelView>, username: Seq<char>, id: u128)
    ensures
        user_named(users, username) matches Some(user) ==> users.contains(user) && user.username
            == username,
        user_named(users, username) is None ==> forall|i: int|
            0 <= i < users.len() ==> (#[trigger] users[i]).username != username,
        user_with_id(users, id) matches Some(user) ==> users.contains(user) && user.id == id,
        user_with_id(users, id) is None ==> forall|i: int|
            0 <= i < users.len() ==> (#[trigger] users[i]).id != id,
    decreases users.len(),
{
    if users.len() > 0 {
        let front = users.drop_last();
        lemma_found_user(front, username, id);
        assert forall|i: int| 0 <= i < users.len() && user_named(users, username)
            is None implies (#[trigger] users[i]).username != username by {
            if i < front.len() {
                assert(front[i].username != username);
            }
        }
        assert forall|i: int| 0 <= i < users.len() && user_with_id(users, id)
            is None implies (#[trigger] users[i]).id != id by {
            if i < front.len() {
                assert(front[i].id != id);
            }
        }
    }
}

/// The users that have registered.
pub struct UserDirectory {
    users: Vec<Model>,
}

impl View for UserDirectory {
    type V = Seq<ModelView>;

    /// The users, in the order in which they registered.
    closed spec fn view(&self) -> Seq<ModelView> {
        user_views(self.users@)
    }
}

impl UserDirectory {
    /// Ids and usernames are unique.
    pub open spec fn wf(&self) -> bool {
        valid_users(self@)
    }

    /// A directory without users.
    pub fn new() -> (directory: UserDirectory)
        ensures
            directory.wf(),
            directory@ == Seq::<ModelView>::empty(),
    {
        let directory = UserDirectory { users: Vec::new() };
        directory
    }

    /// The number of users.
    pub fn len(&self) -> (count: usize)
        ensures
            count == self@.len(),
    {
        self.users.len()
    }

    /// The user with this username.
    pub fn find_by_username(&self, username: &str) -> (found: Option<Model>)
        ensures
            match found {
                Some(user) => user_named(self@, username@) == Some(user@),
                None => user_named(self@, username@) is None,
            },
    {
        let mut i: usize = self.users.len();
        assert(self@.take(i as int) =~= self@);
        while i > 0
            invariant
                i <= self.users.len(),
                user_named(self@.take(i as int), username@) == user_named(self@, username@),
            decreases i,
        {
            assert(self@.take(i as int).drop_last() =~= self@.take(i - 1));
            if text_eq(self.users[i - 1].username.as_str(), username) {
                return Some(self.users[i - 1].duplicate());
            }
            i -= 1;
        }
        None
    }

    /// The user with this id.
    pub fn find_by_id(&self, id: u128) -> (found: Option<Model>)
        ensures
            match found {
                Some(user) => user_with_id(self@, id) == Some(user@),
                None => user_with_id(self@, id) is None,
            },
    {
        let mut i: usize = self.users.len();
        assert(self@.take(i as int) =~= self@);
        while i > 0
            invariant
                i <= self.users.len(),
                user_with_id(self@.take(i as int), id) == user_with_id(self@, id),
            decreases i,
        {
            assert(self@.take(i as int).drop_last() =~= self@.take(i - 1));
            if self.users[i - 1].id == id {
                return Some(self.users[i - 1].duplicate());
            }
            i -= 1;
        }
        None
    }

    /// Adds a user, where neither the id nor the username is taken; says
    /// whether it did. A user that is not added leaves the directory as it was.
    pub fn insert(&mut self, user: Model) -> (added: bool)
        requires
            old(self).wf(),
        ensures
            final(self).wf(),
            added == (user_named(old(self)@, user@.username) is None && user_with_id(
                old(self)@,
                user@.id,
            ) is None),
            final(self)@ == if added {
                old(self)@.push(user@)
            } else {
                old(self)@
            },
    {
        if self.find_by_username(user.username.as_str()).is_some() {
            return false;
        }
        if self.find_by_id(user.id).is_some() {
            return false;
        }
        proof {
            lemma_found_user(self@, user@.username, user@.id);
        }
        let ghost before = self@;
        let ghost added = user@;
        self.users.push(user);
        assert(self@ =~= before.push(added));
        true
    }
}

impl UserDirectory {
    /// A directory that holds the given users, as they were kept elsewhere.
    /// `None` where two of them share an id or a username.
    pub fn restore(users: Vec<Model>) -> (directory: Option<UserDirectory>)
        ensures
            match directory {
                Some(restored) => restored.wf() && restored@ == user_views(users@),
                None => !valid_users(user_views(users@)),
            },
    {
        let ghost given = user_views(users@);
        let mut i: usize = 0;
        while i < users.len()
            invariant
                i <= users.len(),
                given == user_views(users@),
                forall|a: int, b: int|
                    0 <= a < b < i ==> given[a].id != given[b].id && given[a].username
                        != given[b].username,
            decreases users.len() - i,
        {
            let mut j: usize = 0;
            while j < i
                invariant
                    j <= i < users.len(),
                    given == user_views(users@),
                    forall|a: int|
                        0 <= a < j ==> given[a].id != given[i as int].id && given[a].username
                            != given[i as int].username,
                decreases i - j,
            {
                if users[j].id == users[i].id || text_eq(
                    users[j].username.as_str(),
                    users[i].username.as_str(),
                ) {
                    assert(given[j as int].id == given[i as int].id || given[j as int].username
                        == given[i as int].username);
                    return None;
                }
                j += 1;
            }
            i += 1;
        }
        let restored = UserDirectory { users };
        Some(restored)
    }

    /// The users, in the order in which they registered.
    pub fn list(&self) -> (users: Vec<Model>)
        ensures
            user_views(users@) == self@,
    {
        let mut users: Vec<Model> = Vec::new();
        let mut i: usize = 0;
        while i < self.users.len()
            invariant
                i <= self.users.len(),
                user_views(users@) == self@.take(i as int),
            decreases self.users.len() - i,
        {
            let ghost before = users@;
            users.push(self.users[i].duplicate());
            assert(user_views(users@) =~= user_views(before).push(self@[i as int]));
            i += 1;
        }
        users
    }
}

} // verus!
