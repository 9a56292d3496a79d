use vstd::prelude::*;

verus! {

/// What a stored user record holds, as mathematical values.
pub struct UserView {
    pub id: nat,
    pub name: Seq<char>,
    pub email: Seq<char>,
    pub avatar_url: Option<Seq<char>>,
}

/// The view of an optional string.
pub open spec fn optional_text(o: Option<String>) -> Option<Seq<char>> {
    match o {
        Some(s) => Some(s@),
        None => None,
    }
}

/// A registration payload.
pub struct CreateUser {
    pub name: String,
    pub email: String,
    pub avatar_url: Option<String>,
}

/// What a registration payload holds, as mathematical values.
pub struct CreateUserView {
    pub name: Seq<char>,
    pub email: Seq<char>,
    pub avatar_url: Option<Seq<char>>,
}

impl View for CreateUser {
    type V = CreateUserView;

    open spec fn view(&self) -> CreateUserView {
        CreateUserView {
            name: self.name@,
            email: self.email@,
            avatar_url: optional_text(self.avatar_url),
        }
    }
}

/// A login payload.
pub struct LoginUser {
    pub email: String,
}

/// The view of an optional user record.
pub open spec fn optional_record(o: Option<User>) -> Option<UserView> {
    match o {
        Some(u) => Some(u@),
        None => None,
    }
}

/// A user record as the store persists it.
pub struct User {
    pub id: usize,
    pub name: String,
    pub email: String,
    pub avatar_url: Option<String>,
}

impl View for User {
    type V = UserView;

    open spec fn view(&self) -> UserView {
        UserView {
            id: self.id as nat,
            name: self.name@,
            email: self.email@,
            avatar_url: optional_text(self.avatar_url),
        }
    }
}

/// Copies an optional string.
fn copy_optional_text(o: &Option<String>) -> (r: Option<String>)
    ensures
        r == *o,
{
    match o {
        Some(s) => Some(s.clone()),
        None => None,
    }
}

impl Clone for User {
    fn clone(&self) -> (r: Self)
        ensures
            r == *self,
    {
        User {
            id: self.id,
            name: self.name.clone(),
            email: self.email.clone(),
            avatar_url: copy_optional_text(&self.avatar_url),
        }
    }
}

/// True when some record in `users` has the given email.
pub open spec fn email_taken(users: Seq<UserView>, email: Seq<char>) -> bool {
    exists|i: int| 0 <= i < users.len() && #[trigger] users[i].email == email
}

/// True when `i` is the position of the first record in `users` with the given email.
pub open spec fn first_with_email(users: Seq<UserView>, email: Seq<char>, i: int) -> bool {
    &&& 0 <= i < users.len()
    &&& users[i].email == email
    &&& forall|j: int| 0 <= j < i ==> #[trigger] users[j].email != email
}

/// The record that the store creates from `input` when it already holds `users`.
pub open spec fn new_record(users: Seq<UserView>, input: CreateUserView) -> UserView {
    UserView {
        id: users.len(),
        name: input.name,
        email: input.email,
        avatar_url: input.avatar_url,
    }
}

/// An in-memory user database: records in order of insertion, each record's id
/// being its position.
pub struct Database {
    users: Vec<User>,
}

impl View for Database {
    type V = Seq<UserView>;

    closed spec fn view(&self) -> Seq<UserView> {
        self.users@.map_values(|u: User| u@)
    }
}

impl Database {
    /// Each record's id is its position.
    pub open spec fn wf(&self) -> bool {
        forall|i: int| 0 <= i < self@.len() ==> (#[trigger] self@[i]).id == i
    }

    /// An empty store.
    pub fn new() -> (r: Self)
        ensures
            r.wf(),
            r@ == Seq::<UserView>::empty(),
    {
        let r = Database { users: Vec::new() };
        assert(r@ =~= Seq::<UserView>::empty());
        r
    }

    /// The number of records.
    pub fn len(&self) -> (r: usize)
        ensures
            r == self@.len(),
    {
        self.users.len()
    }

    /// Looks a user up by email: the first record with that email, or `None`
    /// when no record has it.
    pub fn get_user_by_email(&self, email: &String) -> (r: Option<User>)
        ensures
            r.is_some() == email_taken(self@, email@),
            r matches Some(u) ==> exists|i: int|
                first_with_email(self@, email@, i) && #[trigger] self@[i] == u@,
    {
        let n = self.users.len();
        let mut i: usize = 0;
        while i < n
            invariant
                n == self.users@.len(),
                self@.len() == n,
                0 <= i <= n,
                forall|j: int| 0 <= j < i ==> #[trigger] self@[j].email != email@,
            decreases n - i,
        {
            if self.users[i].email == *email {
                let u = self.users[i].clone();
                assert(self@[i as int] == u@);
                assert(self@[i as int].email == email@);
                return Some(u);
            }
            i = i + 1;
        }
        assert forall|j: int| 0 <= j < self@.len() implies #[trigger] self@[j].email != email@ by {}
        None
    }

    /// Persists a new record with the next id and returns it.
    pub fn insert_user(&mut self, new_user: CreateUser) -> (r: User)
        requires
            old(self).wf(),
        ensures
            final(self).wf(),
            r@ == new_record(old(self)@, new_user@),
            final(self)@ == old(self)@.push(r@),
    {
        let user = User {
            id: self.users.len(),
            name: new_user.name,
            email: new_user.email,
            avatar_url: new_user.avatar_url,
        };
        let r = user.clone();
        self.users.push(user);
        assert(self@ =~= old(self)@.push(r@));
        r
    }
}

} // verus!
