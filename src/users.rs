//! The users-file credential store: users with PHC password hashes, one
//! `username:hash` line each, checked with Argon2.

use vstd::prelude::*;
use argon2::PasswordVerifier;
use crate::config::ClientAuthenticationConfig;
use crate::error::{AuthError, QuincyError, Result};
use crate::text::owned;

verus! {

#[verifier::external_type_specification]
#[verifier::external_body]
#[verifier::reject_recursive_types(K)]
#[verifier::reject_recursive_types(V)]
#[verifier::reject_recursive_types(S)]
pub struct ExDashMap<K, V, S>(dashmap::DashMap<K, V, S>);

/// A user and the PHC string of their password hash.
#[derive(Clone, Debug, PartialEq, Eq)]
pub struct User {
    pub username: String,
    pub password_hash: String,
}

/// Users by name.
pub type UserTable = dashmap::DashMap<String, User>;

/// What a user table holds: each username with its password hash.
pub uninterp spec fn user_table(m: UserTable) -> Map<Seq<char>, Seq<char>>;

/// Whether `phc` parses as a PHC password-hash string.
pub uninterp spec fn phc_parses(phc: Seq<char>) -> bool;

/// Whether Argon2 with default parameters accepts `password` for the hash `phc`.
pub uninterp spec fn argon2_accepts(password: Seq<char>, phc: Seq<char>) -> bool;

/// The table of no users.
pub open spec fn no_users() -> Map<Seq<char>, Seq<char>> {
    Map::empty()
}

/// Relies on `dashmap::DashMap::new`: an empty map.
#[verifier::external_body]
fn new_user_table() -> (r: UserTable)
    ensures
        user_table(r) == no_users(),
{
    dashmap::DashMap::new()
}

/// Relies on `dashmap::DashMap::insert`: the user's name then maps to the
/// user, replacing any earlier entry; other entries stay.
#[verifier::external_body]
fn insert_user(m: &mut UserTable, user: User)
    ensures
        user_table(*final(m)) == user_table(*old(m)).insert(user.username@, user.password_hash@),
{
    m.insert(user.username.clone(), user);
}

/// Relies on `dashmap::DashMap::get`: the entry stored under `username`, if
/// any, handed out as its password hash.
#[verifier::external_body]
fn user_hash(m: &UserTable, username: &str) -> (r: Option<String>)
    ensures
        r is Some <==> user_table(*m).contains_key(username@),
        r matches Some(h) ==> h@ == user_table(*m)[username@],
{
    match m.get(username) {
        Some(entry) => Some(entry.password_hash.clone()),
        None => None,
    }
}

/// How a stored password hash judged a password.
enum HashVerdict {
    Unparsable,
    Mismatch,
    Match,
}

/// Relies on `password_hash::PasswordHash::new` (whether `phc` parses) and
/// on `PasswordVerifier::verify_password` of `argon2::Argon2::default()`
/// (whether `password` matches the parsed hash).
#[verifier::external_body]
fn argon2_check(password: &str, phc: &str) -> (r: HashVerdict)
    ensures
        r is Unparsable <==> !phc_parses(phc@),
        r is Match <==> (phc_parses(phc@) && argon2_accepts(password@, phc@)),
{
    match argon2::PasswordHash::new(phc) {
        Ok(hash) => match argon2::Argon2::default().verify_password(password.as_bytes(), &hash) {
            Ok(()) => HashVerdict::Match,
            Err(_) => HashVerdict::Mismatch,
        },
        Err(_) => HashVerdict::Unparsable,
    }
}

/// The index where the `:`-separated field of `s` starting at `from` ends:
/// the next `:`, or the end of `s`.
pub open spec fn field_end(s: Seq<char>, from: int) -> int
    decreases s.len() - from,
{
    if from >= s.len() {
        s.len() as int
    } else if s[from] == ':' {
        from
    } else {
        field_end(s, from + 1)
    }
}

/// The user a users-file line describes: the text before the first `:` is
/// the name, the text after it up to the next `:` (or the end) the hash. A
/// line without `:` describes none.
pub open spec fn spec_parse_user(line: Seq<char>) -> Option<(Seq<char>, Seq<char>)> {
    let name_end = field_end(line, 0);
    if name_end >= line.len() {
        None
    } else {
        Some((line.subrange(0, name_end), line.subrange(name_end + 1, field_end(line, name_end + 1))))
    }
}

proof fn lemma_field_end_bounds(s: Seq<char>, from: int)
    requires
        0 <= from,
    ensures
        from <= s.len() ==> from <= field_end(s, from) <= s.len(),
        from > s.len() ==> field_end(s, from) == s.len(),
    decreases s.len() - from,
{
    if from < s.len() && s[from] != ':' {
        lemma_field_end_bounds(s, from + 1);
    }
}

fn find_field_end(s: &str, len: usize, from: usize) -> (r: usize)
    requires
        len == s@.len(),
        from <= len,
    ensures
        r == field_end(s@, from as int),
{
    let mut i: usize = from;
    while i < len && s.get_char(i) != ':'
        invariant
            from <= i <= len,
            len == s@.len(),
            field_end(s@, i as int) == field_end(s@, from as int),
        decreases len - i,
    {
        i = i + 1;
    }
    i
}

impl User {
    pub fn new(username: String, password_hash: String) -> (r: User)
        ensures
            r.username@ == username@,
            r.password_hash@ == password_hash@,
    {
        User { username, password_hash }
    }

    /// The user described by one users-file line; an invalid-payload error
    /// where the line has no `:`.
    pub fn parse(line: &str) -> (r: Result<User>)
        ensures
            spec_parse_user(line@) matches Some((n, h)) ==> (r matches Ok(u) && u.username@ == n
                && u.password_hash@ == h),
            spec_parse_user(line@) is None ==> r == Err::<User, QuincyError>(
                QuincyError::Auth(AuthError::InvalidPayload),
            ),
    {
        let len = line.unicode_len();
        let name_end = find_field_end(line, len, 0);
        if name_end >= len {
            return Err(QuincyError::Auth(AuthError::InvalidPayload));
        }
        let hash_end = find_field_end(line, len, name_end + 1);
        proof {
            lemma_field_end_bounds(line@, name_end as int + 1);
        }
        let name = owned(line.substring_char(0, name_end));
        let hash = owned(line.substring_char(name_end + 1, hash_end));
        Ok(User { username: name, password_hash: hash })
    }
}

/// The table that loading `lines` in order builds: each line's user, later
/// lines replacing earlier ones of the same name. `None` where a line
/// describes no user.
pub open spec fn spec_users_table(lines: Seq<Seq<char>>) -> Option<Map<Seq<char>, Seq<char>>>
    decreases lines.len(),
{
    if lines.len() == 0 {
        Some(Map::empty())
    } else {
        match (spec_users_table(lines.drop_last()), spec_parse_user(lines.last())) {
            (Some(t), Some((n, h))) => Some(t.insert(n, h)),
            _ => None,
        }
    }
}

/// The outcome of checking `password` for `username` against `table`.
pub open spec fn spec_authenticate(table: Map<Seq<char>, Seq<char>>, username: Seq<char>, password: Seq<char>) -> Result<()> {
    if !table.contains_key(username) {
        Err(QuincyError::Auth(AuthError::UserNotFound))
    } else if !phc_parses(table[username]) {
        Err(QuincyError::Auth(AuthError::PasswordHashingFailed))
    } else if !argon2_accepts(password, table[username]) {
        Err(QuincyError::Auth(AuthError::InvalidCredentials))
    } else {
        Ok(())
    }
}

/// The users of a users file, checked with Argon2.
pub struct UserDatabase {
    users: UserTable,
}

impl UserDatabase {
    pub closed spec fn table(&self) -> Map<Seq<char>, Seq<char>> {
        user_table(self.users)
    }

    pub fn new(users: UserTable) -> (r: UserDatabase)
        ensures
            r.table() == user_table(users),
    {
        UserDatabase { users }
    }

    /// Checks `password` for `username`: user-not-found where there is no
    /// such user, password-hashing-failed where the stored hash does not
    /// parse, invalid-credentials where the password does not match it.
    pub fn authenticate(&self, username: &str, password: String) -> (r: Result<()>)
        ensures
            r == spec_authenticate(self.table(), username@, password@),
    {
        let hash = match user_hash(&self.users, username) {
            Some(h) => h,
            None => return Err(QuincyError::Auth(AuthError::UserNotFound)),
        };
        match argon2_check(password.as_str(), hash.as_str()) {
            HashVerdict::Unparsable => Err(QuincyError::Auth(AuthError::PasswordHashingFailed)),
            HashVerdict::Mismatch => Err(QuincyError::Auth(AuthError::InvalidCredentials)),
            HashVerdict::Match => Ok(()),
        }
    }
}

/// The user table described by the lines of a users file, in order; an
/// invalid-payload error where a line describes no user.
pub fn users_from_lines(lines: Vec<String>) -> (r: Result<UserTable>)
    ensures
        match spec_users_table(lines@.map_values(|l: String| l@)) {
            Some(t) => r matches Ok(m) && user_table(m) == t,
            None => r == Err::<UserTable, QuincyError>(
                QuincyError::Auth(AuthError::InvalidPayload),
            ),
        },
{
    let ghost views = lines@.map_values(|l: String| l@);
    let mut table = new_user_table();
    let mut i: usize = 0;
    while i < lines.len()
        invariant
            i <= lines@.len(),
            views == lines@.map_values(|l: String| l@),
            spec_users_table(views.take(i as int)) == Some(user_table(table)),
        decreases lines@.len() - i,
    {
        assert(views.take(i as int + 1).drop_last() =~= views.take(i as int));
        let user = match User::parse(lines[i].as_str()) {
            Ok(u) => u,
            Err(e) => {
                proof {
                    lemma_users_table_fails(views, i as int);
                }
                return Err(e);
            },
        };
        insert_user(&mut table, user);
        i = i + 1;
    }
    assert(views.take(lines@.len() as int) =~= views);
    Ok(table)
}

proof fn lemma_users_table_fails(views: Seq<Seq<char>>, i: int)
    requires
        0 <= i < views.len(),
        spec_parse_user(views[i]) is None,
    ensures
        spec_users_table(views) is None,
    decreases views.len(),
{
    if i < views.len() - 1 {
        lemma_users_table_fails(views.drop_last(), i);
    }
}

/// The credentials a users-file client sends.
#[derive(Clone, Debug, PartialEq, Eq)]
pub struct UsersFilePayload {
    username: String,
    password: String,
}

impl UsersFilePayload {
    pub closed spec fn spec_username(&self) -> Seq<char> {
        self.username@
    }

    pub closed spec fn spec_password(&self) -> Seq<char> {
        self.password@
    }

    pub fn new(username: String, password: String) -> (r: UsersFilePayload)
        ensures
            r.spec_username() == username@,
            r.spec_password() == password@,
    {
        UsersFilePayload { username, password }
    }

    pub fn username(&self) -> (r: &String)
        ensures
            r@ == self.spec_username(),
    {
        &self.username
    }

    pub fn password(&self) -> (r: &String)
        ensures
            r@ == self.spec_password(),
    {
        &self.password
    }
}

/// The client side of users-file authentication: the credentials it sends.
pub struct UsersFileClientAuthenticator {
    username: String,
    password: String,
}

impl UsersFileClientAuthenticator {
    pub closed spec fn spec_username(&self) -> Seq<char> {
        self.username@
    }

    pub closed spec fn spec_password(&self) -> Seq<char> {
        self.password@
    }

    pub fn new(config: &ClientAuthenticationConfig) -> (r: UsersFileClientAuthenticator)
        ensures
            r.spec_username() == config.username@,
            r.spec_password() == config.password@,
    {
        UsersFileClientAuthenticator {
            username: config.username.clone(),
            password: config.password.clone(),
        }
    }

    /// The payload to send: this client's username and password.
    pub fn payload(&self) -> (r: UsersFilePayload)
        ensures
            r.spec_username() == self.spec_username(),
            r.spec_password() == self.spec_password(),
    {
        UsersFilePayload { username: self.username.clone(), password: self.password.clone() }
    }
}

} // verus!
