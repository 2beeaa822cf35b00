use vstd::prelude::*;
use vstd::string::*;
use crate::text::same_text;
use crate::user::User;
use crate::user::UserModel;
use crate::session::Session;
use crate::session::SessionModel;

verus! {

/// Whether row `i` holds the identity named `name`.
pub open spec fn user_at(rows: Seq<UserModel>, name: Seq<char>, i: int) -> bool {
    0 <= i < rows.len() && rows[i].username == name
}

/// The row that holds the identity named `name`, if there is one.
pub open spec fn index_of_name(rows: Seq<UserModel>, name: Seq<char>) -> Option<int> {
    if exists|i: int| user_at(rows, name, i) {
        Some(choose|i: int| user_at(rows, name, i))
    } else {
        None
    }
}

/// The stored identity named `name`, if there is one.
pub open spec fn stored_user(rows: Seq<UserModel>, name: Seq<char>) -> Option<UserModel> {
    match index_of_name(rows, name) {
        Some(i) => Some(rows[i]),
        None => None,
    }
}

/// Whether row `i` holds the identity with identifier `id`.
pub open spec fn id_at(rows: Seq<UserModel>, id: int, i: int) -> bool {
    0 <= i < rows.len() && rows[i].id == id
}

/// The row that holds the identity with identifier `id`, if there is one.
pub open spec fn index_of_id(rows: Seq<UserModel>, id: int) -> Option<int> {
    if exists|i: int| id_at(rows, id, i) {
        Some(choose|i: int| id_at(rows, id, i))
    } else {
        None
    }
}

/// No two rows carry the same name.
pub open spec fn unique_names(rows: Seq<UserModel>) -> bool {
    forall|i: int, j: int|
        0 <= i < rows.len() && 0 <= j < rows.len() && #[trigger] rows[i].username
            == #[trigger] rows[j].username ==> i == j
}

/// No two rows carry the same identifier.
pub open spec fn unique_user_ids(rows: Seq<UserModel>) -> bool {
    forall|i: int, j: int|
        0 <= i < rows.len() && 0 <= j < rows.len() && #[trigger] rows[i].id
            == #[trigger] rows[j].id ==> i == j
}

/// The rows without the one at `at`, if any is named.
pub open spec fn without_row(rows: Seq<UserModel>, at: Option<int>) -> Seq<UserModel> {
    match at {
        Some(i) => rows.remove(i),
        None => rows,
    }
}

/// The rows after the one with the identifier of `user` took the values of
/// `user`: unchanged where no row has that identifier, and refused where
/// another row already carries the new name.
pub open spec fn update_verdict(rows: Seq<UserModel>, user: UserModel) -> Result<
    Seq<UserModel>,
    StoreError,
> {
    match index_of_id(rows, user.id) {
        None => Ok(rows),
        Some(i) => if index_of_name(rows, user.username) is Some && index_of_name(
            rows,
            user.username,
        ) != Some(i) {
            Err(StoreError::Duplicate)
        } else {
            Ok(rows.update(i, user))
        },
    }
}

/// The rows after the one with identifier `id` took the role `role`, where
/// there is such a row.
pub open spec fn role_verdict(rows: Seq<UserModel>, id: int, role: Seq<char>) -> Result<
    Seq<UserModel>,
    StoreError,
> {
    match index_of_id(rows, id) {
        None => Err(StoreError::NotFound),
        Some(i) => Ok(rows.update(i, UserModel { role: role, ..rows[i] })),
    }
}

/// Whether row `i` holds the session with identifier `id`.
pub open spec fn session_at(rows: Seq<SessionModel>, id: Seq<char>, i: int) -> bool {
    0 <= i < rows.len() && rows[i].session_id == id
}

/// The session with identifier `id`, if there is one.
pub open spec fn stored_session(rows: Seq<SessionModel>, id: Seq<char>) -> Option<SessionModel> {
    if exists|i: int| session_at(rows, id, i) {
        Some(rows[choose|i: int| session_at(rows, id, i)])
    } else {
        None
    }
}

/// No two rows carry the same identifier.
pub open spec fn unique_ids(rows: Seq<SessionModel>) -> bool {
    forall|i: int, j: int|
        0 <= i < rows.len() && 0 <= j < rows.len() && #[trigger] rows[i].session_id
            == #[trigger] rows[j].session_id ==> i == j
}

/// Why the store refused a write.
#[derive(Clone, Copy, Debug, PartialEq, Eq, Structural)]
pub enum StoreError {
    /// A row with the same key is already there.
    Duplicate,
    /// No identifier is left to give to a new row.
    Exhausted,
    /// The row to change is not there.
    NotFound,
}

/// The identities that are persisted, each under its unique name.
pub struct UserStore {
    users: Vec<User>,
    next_id: i32,
}

impl View for UserStore {
    type V = Seq<UserModel>;

    closed spec fn view(&self) -> Seq<UserModel> {
        self.users@.map_values(|u: User| u@)
    }
}

impl UserStore {
    /// The identifier that the next inserted row gets.
    pub closed spec fn next_id(&self) -> int {
        self.next_id as int
    }

    /// Names and identifiers are unique, and every row's identifier lies
    /// below the next one.
    pub open spec fn wf(&self) -> bool {
        &&& unique_names(self@)
        &&& unique_user_ids(self@)
        &&& 1 <= self.next_id() <= i32::MAX
        &&& forall|i: int| 0 <= i < self@.len() ==> (#[trigger] self@[i]).id < self.next_id()
    }

    /// An empty store, whose first row will get the identifier 1.
    pub fn new() -> (out: Self)
        ensures
            out.wf(),
            out@ == Seq::<UserModel>::empty(),
            out.next_id() == 1,
    {
        let out = UserStore { users: Vec::new(), next_id: 1 };
        assert(out@ =~= Seq::<UserModel>::empty());
        out
    }

    /// The number of stored identities.
    pub fn len(&self) -> (out: usize)
        ensures
            out == self@.len(),
    {
        self.users.len()
    }

    /// The row of the identity named `name`.
    pub fn position_of_name(&self, name: &str) -> (out: Option<usize>)
        requires
            self.wf(),
        ensures
            match out {
                Some(i) => index_of_name(self@, name@) == Some(i as int) && user_at(
                    self@,
                    name@,
                    i as int,
                ),
                None => index_of_name(self@, name@) is None,
            },
    {
        let mut i: usize = 0;
        while i < self.users.len()
            invariant
                self.wf(),
                i <= self.users.len(),
                forall|j: int| 0 <= j < i ==> !user_at(self@, name@, j),
            decreases self.users.len() - i,
        {
            if same_text(self.users[i].username.as_str(), name) {
                proof {
                    assert(user_at(self@, name@, i as int));
                    let c = choose|k: int| user_at(self@, name@, k);
                    assert(user_at(self@, name@, c));
                    assert(self@[c].username == self@[i as int].username);
                    assert(c == i);
                }
                return Some(i);
            }
            i += 1;
        }
        None
    }

    /// The row of the identity with identifier `id`.
    pub fn position_of_id(&self, id: i32) -> (out: Option<usize>)
        requires
            self.wf(),
        ensures
            match out {
                Some(i) => index_of_id(self@, id as int) == Some(i as int) && id_at(
                    self@,
                    id as int,
                    i as int,
                ),
                None => index_of_id(self@, id as int) is None,
            },
    {
        let mut i: usize = 0;
        while i < self.users.len()
            invariant
                self.wf(),
                i <= self.users.len(),
                forall|j: int| 0 <= j < i ==> !id_at(self@, id as int, j),
            decreases self.users.len() - i,
        {
            if self.users[i].id == id {
                proof {
                    assert(id_at(self@, id as int, i as int));
                    let c = choose|k: int| id_at(self@, id as int, k);
                    assert(id_at(self@, id as int, c));
                    assert(self@[c].id == self@[i as int].id);
                    assert(c == i);
                }
                return Some(i);
            }
            i += 1;
        }
        None
    }

    /// Looks a stored identity up by its exact name.
    pub fn find(&self, name: &str) -> (out: Option<User>)
        requires
            self.wf(),
        ensures
            match out {
                Some(user) => stored_user(self@, name@) == Some(user@),
                None => stored_user(self@, name@) is None,
            },
    {
        match self.position_of_name(name) {
            Some(i) => Some(self.users[i].clone()),
            None => None,
        }
    }

    /// All stored identities, in the order in which they are held.
    pub fn list(&self) -> (out: Vec<User>)
        ensures
            out@.map_values(|u: User| u@) == self@,
    {
        let mut out: Vec<User> = Vec::new();
        let mut i: usize = 0;
        while i < self.users.len()
            invariant
                i <= self.users.len(),
                out@.len() == i,
                forall|j: int| 0 <= j < i ==> out@[j]@ == self.users@[j]@,
            decreases self.users.len() - i,
        {
            out.push(self.users[i].clone());
            i += 1;
        }
        assert(out@.map_values(|u: User| u@) =~= self@);
        out
    }

    /// Removes the row at `at`.
    fn remove_row(&mut self, at: usize)
        requires
            old(self).wf(),
            at < old(self)@.len(),
        ensures
            final(self).wf(),
            final(self)@ == old(self)@.remove(at as int),
            final(self).next_id() == old(self).next_id(),
    {
        let ghost before = self@;
        self.users.remove(at);
        proof {
            assert(self@ =~= before.remove(at as int));
            assert forall|a: int| 0 <= a < self@.len() implies #[trigger] self@[a] == before[if a
                < at {
                a
            } else {
                a + 1
            }] by {}
            assert forall|i: int, j: int|
                0 <= i < self@.len() && 0 <= j < self@.len() && #[trigger] self@[i].username
                    == #[trigger] self@[j].username implies i == j by {
                let i0 = if i < at { i } else { i + 1 };
                let j0 = if j < at { j } else { j + 1 };
                assert(before[i0].username == before[j0].username);
            }
            assert forall|i: int, j: int|
                0 <= i < self@.len() && 0 <= j < self@.len() && #[trigger] self@[i].id
                    == #[trigger] self@[j].id implies i == j by {
                let i0 = if i < at { i } else { i + 1 };
                let j0 = if j < at { j } else { j + 1 };
                assert(before[i0].id == before[j0].id);
            }
            assert forall|i: int| 0 <= i < self@.len() implies (#[trigger] self@[i]).id
                < self.next_id() by {
                let i0 = if i < at { i } else { i + 1 };
                assert(before[i0].id < self.next_id());
            }
        }
    }

    /// Puts `row` in the place of the row at `at`, which has the same
    /// identifier and whose name no other row carries.
    fn replace_row(&mut self, at: usize, row: User)
        requires
            old(self).wf(),
            at < old(self)@.len(),
            old(self)@[at as int].id == row@.id,
            forall|j: int| user_at(old(self)@, row@.username, j) ==> j == at,
        ensures
            final(self).wf(),
            final(self)@ == old(self)@.update(at as int, row@),
            final(self).next_id() == old(self).next_id(),
    {
        let ghost before = self@;
        self.users.set(at, row);
        proof {
            assert(self@ =~= before.update(at as int, row@));
            assert forall|i: int, j: int|
                0 <= i < self@.len() && 0 <= j < self@.len() && #[trigger] self@[i].username
                    == #[trigger] self@[j].username implies i == j by {
                if i != at && j != at {
                    assert(before[i].username == before[j].username);
                } else if i != at {
                    assert(user_at(before, row@.username, i));
                } else if j != at {
                    assert(user_at(before, row@.username, j));
                }
            }
            assert forall|i: int, j: int|
                0 <= i < self@.len() && 0 <= j < self@.len() && #[trigger] self@[i].id
                    == #[trigger] self@[j].id implies i == j by {
                assert(before[i].id == before[j].id);
            }
            assert forall|i: int| 0 <= i < self@.len() implies (#[trigger] self@[i]).id
                < self.next_id() by {
                assert(before[i].id < self.next_id());
            }
        }
    }

    /// Deletes the identity named `name` and says how many rows went.
    pub fn delete_by_name(&mut self, name: &str) -> (out: usize)
        requires
            old(self).wf(),
        ensures
            final(self).wf(),
            final(self)@ == without_row(old(self)@, index_of_name(old(self)@, name@)),
            final(self).next_id() == old(self).next_id(),
            out == (if index_of_name(old(self)@, name@) is Some { 1usize } else { 0usize }),
    {
        match self.position_of_name(name) {
            Some(i) => {
                self.remove_row(i);
                1
            },
            None => 0,
        }
    }

    /// Deletes the identity with identifier `id` and says how many rows went.
    pub fn delete_by_id(&mut self, id: i32) -> (out: usize)
        requires
            old(self).wf(),
        ensures
            final(self).wf(),
            final(self)@ == without_row(old(self)@, index_of_id(old(self)@, id as int)),
            final(self).next_id() == old(self).next_id(),
            out == (if index_of_id(old(self)@, id as int) is Some { 1usize } else { 0usize }),
    {
        match self.position_of_id(id) {
            Some(i) => {
                self.remove_row(i);
                1
            },
            None => 0,
        }
    }

    /// Gives the row with the identifier of `user` the values of `user`.
    /// Where no row has that identifier nothing changes; where another row
    /// carries the new name the change is refused.
    pub fn update(&mut self, user: User) -> (out: Result<(), StoreError>)
        requires
            old(self).wf(),
        ensures
            final(self).wf(),
            final(self).next_id() == old(self).next_id(),
            match out {
                Ok(_) => update_verdict(old(self)@, user@) == Ok::<Seq<UserModel>, StoreError>(
                    final(self)@,
                ),
                Err(e) => update_verdict(old(self)@, user@) == Err::<Seq<UserModel>, StoreError>(e)
                    && final(self)@ == old(self)@,
            },
    {
        match self.position_of_id(user.id) {
            None => Ok(()),
            Some(i) => {
                match self.position_of_name(user.username.as_str()) {
                    Some(j) => {
                        if j != i {
                            return Err(StoreError::Duplicate);
                        }
                        assert forall|k: int| user_at(self@, user@.username, k) implies k == i by {
                            assert(self@[k].username == self@[i as int].username);
                        }
                    },
                    None => {
                        assert forall|k: int| user_at(self@, user@.username, k) implies k == i by {}
                    },
                }
                self.replace_row(i, user);
                Ok(())
            },
        }
    }

    /// Gives the row with identifier `id` the role `role` and hands the
    /// changed row back.
    pub fn update_role(&mut self, id: i32, role: String) -> (out: Result<User, StoreError>)
        requires
            old(self).wf(),
        ensures
            final(self).wf(),
            final(self).next_id() == old(self).next_id(),
            match out {
                Ok(row) => role_verdict(old(self)@, id as int, role@) == Ok::<
                    Seq<UserModel>,
                    StoreError,
                >(final(self)@) && index_of_id(old(self)@, id as int) is Some
                    && row@ == final(self)@[index_of_id(old(self)@, id as int)->0],
                Err(e) => role_verdict(old(self)@, id as int, role@) == Err::<
                    Seq<UserModel>,
                    StoreError,
                >(e) && final(self)@ == old(self)@,
            },
    {
        match self.position_of_id(id) {
            None => Err(StoreError::NotFound),
            Some(i) => {
                let current = self.users[i].clone();
                let row = User {
                    id: current.id,
                    username: current.username,
                    role: role,
                    password: current.password,
                    explicit_consent: current.explicit_consent,
                    created_at: current.created_at,
                };
                let changed = row.clone();
                assert forall|k: int| user_at(self@, row@.username, k) implies k == i by {
                    assert(self@[k].username == self@[i as int].username);
                }
                self.replace_row(i, row);
                Ok(changed)
            },
        }
    }

    /// Persists a new identity under a fresh identifier, unless its name is
    /// taken or the identifiers are used up; then nothing changes.
    pub fn insert(&mut self, user: User) -> (out: Result<User, StoreError>)
        requires
            old(self).wf(),
        ensures
            final(self).wf(),
            match out {
                Ok(row) => {
                    &&& stored_user(old(self)@, user@.username) is None
                    &&& old(self).next_id() < i32::MAX
                    &&& row@ == (UserModel { id: old(self).next_id(), ..user@ })
                    &&& final(self)@ == old(self)@.push(row@)
                    &&& final(self).next_id() == old(self).next_id() + 1
                },
                Err(e) => {
                    &&& final(self)@ == old(self)@
                    &&& final(self).next_id() == old(self).next_id()
                    &&& stored_user(old(self)@, user@.username) is Some ==> e
                        == StoreError::Duplicate
                    &&& stored_user(old(self)@, user@.username) is None ==> e
                        == StoreError::Exhausted && old(self).next_id() == i32::MAX
                },
            },
    {
        if self.find(user.username.as_str()).is_some() {
            return Err(StoreError::Duplicate);
        }
        if self.next_id == i32::MAX {
            return Err(StoreError::Exhausted);
        }
        let row = User {
            id: self.next_id,
            username: user.username,
            role: user.role,
            password: user.password,
            explicit_consent: user.explicit_consent,
            created_at: user.created_at,
        };
        let stored = row.clone();
        let ghost before = self@;
        self.users.push(row);
        self.next_id = self.next_id + 1;
        proof {
            assert(self@ =~= before.push(stored@));
            assert(forall|j: int| 0 <= j < before.len() ==> !user_at(before, user@.username, j));
            assert forall|i: int, j: int|
                0 <= i < self@.len() && 0 <= j < self@.len() && #[trigger] self@[i].id
                    == #[trigger] self@[j].id implies i == j by {
                if i < before.len() && j < before.len() {
                    assert(before[i].id == before[j].id);
                } else if i < before.len() {
                    assert(before[i].id < stored@.id);
                } else if j < before.len() {
                    assert(before[j].id < stored@.id);
                }
            }
            assert forall|i: int| 0 <= i < self@.len() implies (#[trigger] self@[i]).id
                < self.next_id() by {
                if i < before.len() {
                    assert(before[i].id < stored@.id);
                }
            }
            assert forall|i: int, j: int|
                0 <= i < self@.len() && 0 <= j < self@.len() && #[trigger] self@[i].username
                    == #[trigger] self@[j].username implies i == j by {
                if i < before.len() && j < before.len() {
                    assert(before[i].username == before[j].username);
                } else if i < before.len() {
                    assert(user_at(before, user@.username, i));
                } else if j < before.len() {
                    assert(user_at(before, user@.username, j));
                }
            }
        }
        Ok(stored)
    }
}

/// The sessions that were issued, each under its unique identifier.
pub struct SessionStore {
    sessions: Vec<Session>,
}

impl View for SessionStore {
    type V = Seq<SessionModel>;

    closed spec fn view(&self) -> Seq<SessionModel> {
        self.sessions@.map_values(|s: Session| s@)
    }
}

impl SessionStore {
    /// Identifiers are unique.
    pub open spec fn wf(&self) -> bool {
        unique_ids(self@)
    }

    /// An empty store.
    pub fn new() -> (out: Self)
        ensures
            out.wf(),
            out@ == Seq::<SessionModel>::empty(),
    {
        let out = SessionStore { sessions: Vec::new() };
        assert(out@ =~= Seq::<SessionModel>::empty());
        out
    }

    /// The number of stored sessions.
    pub fn len(&self) -> (out: usize)
        ensures
            out == self@.len(),
    {
        self.sessions.len()
    }

    /// Looks a session up by its identifier.
    pub fn find_by_session_id(&self, session_id: &str) -> (out: Option<Session>)
        requires
            self.wf(),
        ensures
            match out {
                Some(session) => stored_session(self@, session_id@) == Some(session@),
                None => stored_session(self@, session_id@) is None,
            },
    {
        let mut i: usize = 0;
        while i < self.sessions.len()
            invariant
                self.wf(),
                i <= self.sessions.len(),
                forall|j: int| 0 <= j < i ==> !session_at(self@, session_id@, j),
            decreases self.sessions.len() - i,
        {
            if same_text(self.sessions[i].session_id.as_str(), session_id) {
                let found = self.sessions[i].clone();
                proof {
                    assert(session_at(self@, session_id@, i as int));
                    let c = choose|k: int| session_at(self@, session_id@, k);
                    assert(session_at(self@, session_id@, c));
                    assert(self@[c].session_id == self@[i as int].session_id);
                    assert(c == i);
                }
                return Some(found);
            }
            i += 1;
        }
        None
    }

    /// Persists a session, unless its identifier is taken; then nothing
    /// changes.
    pub fn insert_session(&mut self, session: &Session) -> (out: Result<(), StoreError>)
        requires
            old(self).wf(),
        ensures
            final(self).wf(),
            match out {
                Ok(_) => {
                    &&& stored_session(old(self)@, session@.session_id) is None
                    &&& final(self)@ == old(self)@.push(session@)
                },
                Err(e) => {
                    &&& e == StoreError::Duplicate
                    &&& stored_session(old(self)@, session@.session_id) is Some
                    &&& final(self)@ == old(self)@
                },
            },
    {
        if self.find_by_session_id(session.session_id.as_str()).is_some() {
            return Err(StoreError::Duplicate);
        }
        let ghost before = self@;
        self.sessions.push(session.clone());
        proof {
            assert(self@ =~= before.push(session@));
            assert(forall|j: int|
                0 <= j < before.len() ==> !session_at(before, session@.session_id, j));
            assert forall|i: int, j: int|
                0 <= i < self@.len() && 0 <= j < self@.len() && #[trigger] self@[i].session_id
                    == #[trigger] self@[j].session_id implies i == j by {
                if i < before.len() && j < before.len() {
                    assert(before[i].session_id == before[j].session_id);
                } else if i < before.len() {
                    assert(session_at(before, session@.session_id, i));
                } else if j < before.len() {
                    assert(session_at(before, session@.session_id, j));
                }
            }
        }
        Ok(())
    }
}

} // verus!
