use vstd::prelude::*;
use vstd::string::*;
use crate::role::Role;
use crate::role::admin_tag;
use crate::role::uploader_tag;
use crate::text::same_text;
use crate::text::text_of;
use crate::environment::EnvironmentService;
use crate::environment::EnvironmentModel;
use crate::store::UserStore;
use crate::store::stored_user;
use crate::store::StoreError;
use crate::store::index_of_id;
use crate::store::index_of_name;
use crate::store::without_row;
use crate::store::update_verdict;
use crate::store::role_verdict;

verus! {

/// A named principal with a role and an optional password digest.
/// `created_at` counts seconds since 1970-01-01 00:00:00 UTC.
#[derive(Debug, PartialEq)]
pub struct User {
    pub id: i32,
    pub username: String,
    pub role: String,
    pub password: Option<String>,
    pub explicit_consent: bool,
    pub created_at: i64,
}

/// An identity without its password digest, as it is listed to clients.
pub struct UserWithoutPassword {
    pub id: i32,
    pub username: String,
    pub role: String,
    pub created_at: i64,
    pub explicit_consent: bool,
}

/// An identity as plain values.
pub struct UserModel {
    pub id: int,
    pub username: Seq<char>,
    pub role: Seq<char>,
    pub password: Option<Seq<char>>,
    pub explicit_consent: bool,
    pub created_at: int,
}

/// A listed identity as plain values.
pub struct UserWithoutPasswordModel {
    pub id: int,
    pub username: Seq<char>,
    pub role: Seq<char>,
    pub created_at: int,
    pub explicit_consent: bool,
}

impl View for User {
    type V = UserModel;

    open spec fn view(&self) -> UserModel {
        UserModel {
            id: self.id as int,
            username: self.username@,
            role: self.role@,
            password: text_of(self.password),
            explicit_consent: self.explicit_consent,
            created_at: self.created_at as int,
        }
    }
}

impl View for UserWithoutPassword {
    type V = UserWithoutPasswordModel;

    open spec fn view(&self) -> UserWithoutPasswordModel {
        UserWithoutPasswordModel {
            id: self.id as int,
            username: self.username@,
            role: self.role@,
            created_at: self.created_at as int,
            explicit_consent: self.explicit_consent,
        }
    }
}

impl Clone for User {
    fn clone(&self) -> (out: Self)
        ensures
            out@ == self@,
    {
        User {
            id: self.id,
            username: self.username.clone(),
            role: self.role.clone(),
            password: match &self.password {
                Some(p) => Some(p.clone()),
                None => None,
            },
            explicit_consent: self.explicit_consent,
            created_at: self.created_at,
        }
    }
}

/// The identifier that the bootstrap administrator carries.
pub const ADMIN_ID: i32 = 9999;

/// The bootstrap administrator of the name `name`: role `Admin`, no password
/// digest, consent given, created at the epoch.
pub open spec fn admin_user(name: Seq<char>) -> UserModel {
    UserModel {
        id: ADMIN_ID as int,
        username: name,
        role: admin_tag(),
        password: None,
        explicit_consent: true,
        created_at: 0,
    }
}

/// What a name resolves to: the bootstrap administrator where the name is the
/// configured one, whatever is stored under it; else the stored identity of
/// that name, if there is one.
pub open spec fn resolve(env: EnvironmentModel, rows: Seq<UserModel>, name: Seq<char>) -> Option<
    UserModel,
> {
    if env.is_bootstrap_name(name) {
        Some(admin_user(name))
    } else {
        stored_user(rows, name)
    }
}

/// The identity without its digest.
pub open spec fn without_password(user: UserModel) -> UserWithoutPasswordModel {
    UserWithoutPasswordModel {
        id: user.id,
        username: user.username,
        role: user.role,
        created_at: user.created_at,
        explicit_consent: user.explicit_consent,
    }
}

/// Why a guard turned a request away.
#[derive(Clone, Copy, Debug, PartialEq, Eq, Structural)]
pub enum GuardError {
    /// The asserted name resolves to no identity.
    UserNotFound,
    /// The identity is neither an administrator nor an uploader.
    NotAdminOrUploader,
    /// The identity is no administrator.
    NotAdmin,
}

/// What the guard for administrators and uploaders answers: nothing where no
/// name is asserted or the resolved role is `Admin` or `Uploader`.
pub open spec fn admin_or_uploader_verdict(
    env: EnvironmentModel,
    rows: Seq<UserModel>,
    name: Option<Seq<char>>,
) -> Option<GuardError> {
    match name {
        None => None,
        Some(n) => match resolve(env, rows, n) {
            None => Some(GuardError::UserNotFound),
            Some(user) => if user.role == admin_tag() || user.role == uploader_tag() {
                None
            } else {
                Some(GuardError::NotAdminOrUploader)
            },
        },
    }
}

/// What the guard for administrators answers: nothing where no name is
/// asserted or the resolved role is `Admin`.
pub open spec fn admin_verdict(
    env: EnvironmentModel,
    rows: Seq<UserModel>,
    name: Option<Seq<char>>,
) -> Option<GuardError> {
    match name {
        None => None,
        Some(n) => match resolve(env, rows, n) {
            None => Some(GuardError::UserNotFound),
            Some(user) => if user.role == admin_tag() {
                None
            } else {
                Some(GuardError::NotAdmin)
            },
        },
    }
}

/// Why an identity was not created.
#[derive(Clone, Copy, Debug, PartialEq, Eq, Structural)]
pub enum UserError {
    /// The name is that of the bootstrap administrator.
    UsernameExists,
    /// The store refused the row.
    Store(StoreError),
}

/// What creating `user` at the time `now` comes to, in a store that holds
/// `rows` and would give the identifier `next_id`: the stored row, or the
/// reason for which nothing is stored. The row has not consented yet.
pub open spec fn insert_verdict(
    env: EnvironmentModel,
    rows: Seq<UserModel>,
    next_id: int,
    user: UserModel,
    now: int,
) -> Result<UserModel, UserError> {
    if env.is_bootstrap_name(user.username) {
        Err(UserError::UsernameExists)
    } else if stored_user(rows, user.username) is Some {
        Err(UserError::Store(StoreError::Duplicate))
    } else if next_id >= i32::MAX {
        Err(UserError::Store(StoreError::Exhausted))
    } else {
        Ok(
            UserModel {
                id: next_id,
                username: user.username,
                role: user.role,
                password: user.password,
                explicit_consent: false,
                created_at: now,
            },
        )
    }
}

/// Why a request carries no usable asserted name.
#[derive(Clone, Copy, Debug, PartialEq, Eq, Structural)]
pub enum HeaderError {
    /// The header that carries the asserted name is absent.
    UsernameNotFound,
}

/// The status under which every refusal of a guard goes out: a client error
/// that is not 401.
pub const GUARD_STATUS: u16 = 400;

impl GuardError {
    /// The words that tell the client why the guard refused.
    pub open spec fn words(self) -> Seq<char> {
        match self {
            GuardError::UserNotFound => "User not found"@,
            GuardError::NotAdminOrUploader => "User is not an admin or uploader"@,
            GuardError::NotAdmin => "User is not an admin"@,
        }
    }

    /// The HTTP status of the refusal.
    pub fn status(&self) -> (out: u16)
        ensures
            out == GUARD_STATUS,
    {
        GUARD_STATUS
    }

    /// The words that tell the client why the guard refused.
    pub fn message(&self) -> (out: String)
        ensures
            out@ == self.words(),
    {
        match self {
            GuardError::UserNotFound => String::from_str("User not found"),
            GuardError::NotAdminOrUploader => String::from_str("User is not an admin or uploader"),
            GuardError::NotAdmin => String::from_str("User is not an admin"),
        }
    }
}

impl User {
    /// An identity from its parts; the role is stored as its tag.
    pub fn new(
        id: i32,
        username: String,
        role: Role,
        password: Option<String>,
        created_at: i64,
        explicit_consent: bool,
    ) -> (out: Self)
        ensures
            out.id == id,
            out.username == username,
            out.role@ == role.tag(),
            out.password == password,
            out.created_at == created_at,
            out.explicit_consent == explicit_consent,
    {
        User { id, username, role: role.to_string(), password, created_at, explicit_consent }
    }

    /// Resolves a name: the bootstrap administrator wins over a stored
    /// identity of the same name, and the store is only read otherwise.
    pub fn find_by_username(
        username_to_find: &str,
        env: &EnvironmentService,
        store: &UserStore,
    ) -> (out: Option<User>)
        requires
            store.wf(),
        ensures
            match out {
                Some(user) => resolve(env@, store@, username_to_find@) == Some(user@),
                None => resolve(env@, store@, username_to_find@) is None,
            },
    {
        if env.is_bootstrap_name(username_to_find) {
            Some(User::create_admin_user(username_to_find))
        } else {
            store.find(username_to_find)
        }
    }

    /// Persists this identity as a new row created at `now` (seconds since
    /// the epoch). A name equal to the bootstrap username is refused before
    /// the store is touched; a refusal changes nothing.
    pub fn insert_user(&mut self, env: &EnvironmentService, store: &mut UserStore, now: i64) -> (out:
        Result<User, UserError>)
        requires
            old(store).wf(),
        ensures
            final(store).wf(),
            final(self)@ == old(self)@,
            match out {
                Ok(row) => {
                    &&& insert_verdict(
                        env@,
                        old(store)@,
                        old(store).next_id(),
                        old(self)@,
                        now as int,
                    ) == Ok::<UserModel, UserError>(row@)
                    &&& final(store)@ == old(store)@.push(row@)
                    &&& final(store).next_id() == old(store).next_id() + 1
                },
                Err(e) => {
                    &&& insert_verdict(
                        env@,
                        old(store)@,
                        old(store).next_id(),
                        old(self)@,
                        now as int,
                    ) == Err::<UserModel, UserError>(e)
                    &&& final(store)@ == old(store)@
                    &&& final(store).next_id() == old(store).next_id()
                },
            },
            env@.is_bootstrap_name(old(self)@.username) ==> out is Err,
    {
        if env.is_bootstrap_name(self.username.as_str()) {
            return Err(UserError::UsernameExists);
        }
        let row = User {
            id: self.id,
            username: self.username.clone(),
            role: self.role.clone(),
            password: match &self.password {
                Some(p) => Some(p.clone()),
                None => None,
            },
            explicit_consent: false,
            created_at: now,
        };
        match store.insert(row) {
            Ok(stored) => Ok(stored),
            Err(e) => Err(UserError::Store(e)),
        }
    }

    /// Deletes the row that has this identity's identifier and says how many
    /// rows went: one or none.
    pub fn delete_user(&self, store: &mut UserStore) -> (out: Result<usize, StoreError>)
        requires
            old(store).wf(),
        ensures
            final(store).wf(),
            final(store)@ == without_row(old(store)@, index_of_id(old(store)@, self@.id)),
            final(store).next_id() == old(store).next_id(),
            out == Ok::<usize, StoreError>(
                if index_of_id(old(store)@, self@.id) is Some {
                    1usize
                } else {
                    0usize
                },
            ),
    {
        Ok(store.delete_by_id(self.id))
    }

    /// Gives the row that has this identity's identifier this identity's
    /// role, and hands the changed row back without its digest.
    pub fn update_role(&self, store: &mut UserStore) -> (out: Result<
        UserWithoutPassword,
        StoreError,
    >)
        requires
            old(store).wf(),
        ensures
            final(store).wf(),
            final(store).next_id() == old(store).next_id(),
            match out {
                Ok(listed) => role_verdict(old(store)@, self@.id, self@.role) == Ok::<
                    Seq<UserModel>,
                    StoreError,
                >(final(store)@) && index_of_id(old(store)@, self@.id) is Some
                    && listed@ == without_password(
                    final(store)@[index_of_id(old(store)@, self@.id)->0],
                ),
                Err(e) => role_verdict(old(store)@, self@.id, self@.role) == Err::<
                    Seq<UserModel>,
                    StoreError,
                >(e) && final(store)@ == old(store)@,
            },
    {
        match store.update_role(self.id, self.role.clone()) {
            Ok(row) => Ok(User::map_to_dto(row)),
            Err(e) => Err(e),
        }
    }

    /// Lists every stored identity without its digest, in the store's order.
    pub fn find_all_users(store: &UserStore) -> (out: Vec<UserWithoutPassword>)
        ensures
            out@.len() == store@.len(),
            forall|i: int| 0 <= i < out@.len() ==> (#[trigger] out@[i])@ == without_password(store@[i]),
    {
        let rows = store.list();
        assert(forall|i: int| 0 <= i < rows@.len() ==> rows@[i]@ == #[trigger] store@[i]) by {
            assert(forall|i: int|
                0 <= i < rows@.len() ==> rows@.map_values(|u: User| u@)[i] == rows@[i]@);
        }
        let mut out: Vec<UserWithoutPassword> = Vec::new();
        let mut i: usize = 0;
        while i < rows.len()
            invariant
                i <= rows.len(),
                rows@.len() == store@.len(),
                out@.len() == i,
                forall|j: int| 0 <= j < rows@.len() ==> rows@[j]@ == #[trigger] store@[j],
                forall|j: int|
                    0 <= j < i ==> (#[trigger] out@[j])@ == without_password(store@[j]),
            decreases rows.len() - i,
        {
            out.push(User::map_to_dto(rows[i].clone()));
            i += 1;
        }
        out
    }

    /// Deletes the stored identity of that name, if there is one.
    pub fn delete_by_username(username_to_search: String, store: &mut UserStore) -> (out: Result<
        (),
        StoreError,
    >)
        requires
            old(store).wf(),
        ensures
            final(store).wf(),
            out is Ok,
            final(store)@ == without_row(
                old(store)@,
                index_of_name(old(store)@, username_to_search@),
            ),
            final(store).next_id() == old(store).next_id(),
    {
        store.delete_by_name(username_to_search.as_str());
        Ok(())
    }

    /// Gives the row with the identifier of `user` the values of `user`.
    /// Nothing changes where no row has that identifier; the change is
    /// refused where another row carries the new name.
    pub fn update_user(user: User, store: &mut UserStore) -> (out: Result<(), StoreError>)
        requires
            old(store).wf(),
        ensures
            final(store).wf(),
            final(store).next_id() == old(store).next_id(),
            match out {
                Ok(_) => update_verdict(old(store)@, user@) == Ok::<Seq<UserModel>, StoreError>(
                    final(store)@,
                ),
                Err(e) => update_verdict(old(store)@, user@) == Err::<Seq<UserModel>, StoreError>(
                    e,
                ) && final(store)@ == old(store)@,
            },
    {
        store.update(user)
    }

    /// The bootstrap administrator under the configured name.
    pub fn create_admin_user(name: &str) -> (out: User)
        ensures
            out@ == admin_user(name@),
    {
        User {
            id: ADMIN_ID,
            username: name.to_owned(),
            role: Role::Admin.to_string(),
            password: None,
            explicit_consent: true,
            created_at: 0,
        }
    }

    /// Drops the password digest.
    pub fn map_to_dto(user: Self) -> (out: UserWithoutPassword)
        ensures
            out@ == without_password(user@),
    {
        UserWithoutPassword {
            id: user.id,
            explicit_consent: user.explicit_consent,
            username: user.username,
            role: user.role,
            created_at: user.created_at,
        }
    }

    /// The name that a trusted upstream asserted in its header, where
    /// delegated authentication is switched on: then a missing header is an
    /// error. With it switched off no name is asserted, whatever the header.
    pub fn get_username_from_req_header(header: Option<String>, env: &EnvironmentService) -> (out:
        Result<Option<String>, HeaderError>)
        ensures
            !env@.delegated() ==> out == Ok::<Option<String>, HeaderError>(None),
            env@.delegated() && header is None ==> out == Err::<Option<String>, HeaderError>(
                HeaderError::UsernameNotFound,
            ),
            env@.delegated() && header is Some ==> out == Ok::<Option<String>, HeaderError>(header),
    {
        if env.delegated() {
            match header {
                None => Err(HeaderError::UsernameNotFound),
                Some(name) => Ok(Some(name)),
            }
        } else {
            Ok(None)
        }
    }

    /// The name asserted in the header, which must be there.
    pub fn get_gpodder_req_header(header: Option<String>) -> (out: Result<String, HeaderError>)
        ensures
            match header {
                Some(name) => out == Ok::<String, HeaderError>(name),
                None => out == Err::<String, HeaderError>(HeaderError::UsernameNotFound),
            },
    {
        match header {
            None => Err(HeaderError::UsernameNotFound),
            Some(name) => Ok(name),
        }
    }

    /// Lets a request pass where no name is asserted, or the asserted name
    /// resolves to an administrator or an uploader.
    pub fn check_if_admin_or_uploader(
        username: &Option<String>,
        env: &EnvironmentService,
        store: &UserStore,
    ) -> (out: Option<GuardError>)
        requires
            store.wf(),
        ensures
            out == admin_or_uploader_verdict(
                env@,
                store@,
                text_of(*username),
            ),
    {
        match username {
            None => None,
            Some(name) => match User::find_by_username(name.as_str(), env, store) {
                None => Some(GuardError::UserNotFound),
                Some(user) => {
                    let admin = same_text(user.role.as_str(), Role::Admin.to_string().as_str());
                    let uploader = same_text(
                        user.role.as_str(),
                        Role::Uploader.to_string().as_str(),
                    );
                    if !admin && !uploader {
                        Some(GuardError::NotAdminOrUploader)
                    } else {
                        None
                    }
                },
            },
        }
    }

    /// Lets a request pass where no name is asserted, or the asserted name
    /// resolves to an administrator.
    pub fn check_if_admin(username: &Option<String>, env: &EnvironmentService, store: &UserStore) -> (out:
        Option<GuardError>)
        requires
            store.wf(),
        ensures
            out == admin_verdict(
                env@,
                store@,
                text_of(*username),
            ),
    {
        match username {
            None => None,
            Some(name) => match User::find_by_username(name.as_str(), env, store) {
                None => Some(GuardError::UserNotFound),
                Some(user) => {
                    if !same_text(user.role.as_str(), Role::Admin.to_string().as_str()) {
                        Some(GuardError::NotAdmin)
                    } else {
                        None
                    }
                },
            },
        }
    }
}

/// The bootstrap username always resolves to an administrator without a
/// password digest, whatever the store holds, also under that very name.
pub proof fn lemma_bootstrap_resolves_to_admin(
    env: EnvironmentModel,
    rows: Seq<UserModel>,
    name: Seq<char>,
)
    requires
        env.is_bootstrap_name(name),
    ensures
        resolve(env, rows, name) == Some(admin_user(name)),
        resolve(env, rows, name)->0.role == Role::Admin.tag(),
        resolve(env, rows, name)->0.password is None,
{
}

/// No identity can be created under the bootstrap username.
pub proof fn lemma_bootstrap_name_is_reserved(
    env: EnvironmentModel,
    rows: Seq<UserModel>,
    next_id: int,
    user: UserModel,
    now: int,
)
    requires
        env.is_bootstrap_name(user.username),
    ensures
        insert_verdict(env, rows, next_id, user, now) == Err::<UserModel, UserError>(
            UserError::UsernameExists,
        ),
{
}

/// Where no name is asserted, both guards pass, whatever the store holds.
pub proof fn lemma_no_name_passes(env: EnvironmentModel, rows: Seq<UserModel>)
    ensures
        admin_verdict(env, rows, None) is None,
        admin_or_uploader_verdict(env, rows, None) is None,
{
}

/// The guard for administrators passes a name exactly where it resolves to
/// the role `Admin`: any other canonical or unknown role is turned away, and
/// so is a name that resolves to nothing.
pub proof fn lemma_admin_guard_follows_role(
    env: EnvironmentModel,
    rows: Seq<UserModel>,
    name: Seq<char>,
)
    ensures
        admin_verdict(env, rows, Some(name)) is None <==> resolve(env, rows, name) is Some
            && Role::of_tag(resolve(env, rows, name)->0.role) == Some(Role::Admin),
        resolve(env, rows, name) is Some && resolve(env, rows, name)->0.role != Role::Admin.tag()
            ==> admin_verdict(env, rows, Some(name)) == Some(GuardError::NotAdmin),
        resolve(env, rows, name) is None ==> admin_verdict(env, rows, Some(name)) == Some(
            GuardError::UserNotFound,
        ),
{
    crate::role::lemma_tag_names_its_role(Role::Admin);
    crate::role::lemma_tag_names_its_role(Role::Uploader);
    crate::role::lemma_tag_names_its_role(Role::Regular);
}

/// The guard for administrators and uploaders passes a name exactly where it
/// resolves to the role `Admin` or `Uploader`.
pub proof fn lemma_uploader_guard_follows_role(
    env: EnvironmentModel,
    rows: Seq<UserModel>,
    name: Seq<char>,
)
    ensures
        admin_or_uploader_verdict(env, rows, Some(name)) is None <==> resolve(env, rows, name) is Some
            && (Role::of_tag(resolve(env, rows, name)->0.role) == Some(Role::Admin) || Role::of_tag(
            resolve(env, rows, name)->0.role,
        ) == Some(Role::Uploader)),
        resolve(env, rows, name) is Some && Role::of_tag(resolve(env, rows, name)->0.role) == Some(
            Role::Regular,
        ) ==> admin_or_uploader_verdict(env, rows, Some(name)) == Some(
            GuardError::NotAdminOrUploader,
        ),
{
    crate::role::lemma_tag_names_its_role(Role::Admin);
    crate::role::lemma_tag_names_its_role(Role::Uploader);
    crate::role::lemma_tag_names_its_role(Role::Regular);
}

} // verus!
