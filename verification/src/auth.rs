//! The rules of passkey registration and login that do not depend on the
//! WebAuthn ceremony itself: input validation, device enrolment, and the
//! store of challenges waiting for their second step.
use vstd::prelude::*;
use vstd::string::*;

use crate::text::{contains_spec, owned, str_contains, str_trim, trim_spec};

verus! {

/// Why a registration or login request is refused before any lookup.
#[derive(Debug, Clone, PartialEq, Eq)]
pub enum AuthInputError {
    EmptyUsername,
    UsernameHasAt,
    EmptyDisplayName,
    RootNeedsPassword,
    EmptyPassword,
}

impl AuthInputError {
    /// The message the service answers with.
    pub fn message(&self) -> (res: String)
        ensures
            res@ == self.spec_message(),
    {
        match self {
            AuthInputError::EmptyUsername => owned("username cannot be empty"),
            AuthInputError::UsernameHasAt => owned("username cannot contain @ (reserved for mentions)"),
            AuthInputError::EmptyDisplayName => owned("display name cannot be empty"),
            AuthInputError::RootNeedsPassword => owned("root user requires a password"),
            AuthInputError::EmptyPassword => owned("password cannot be empty"),
        }
    }

    pub open spec fn spec_message(self) -> Seq<char> {
        match self {
            AuthInputError::EmptyUsername => "username cannot be empty"@,
            AuthInputError::UsernameHasAt => "username cannot contain @ (reserved for mentions)"@,
            AuthInputError::EmptyDisplayName => "display name cannot be empty"@,
            AuthInputError::RootNeedsPassword => "root user requires a password"@,
            AuthInputError::EmptyPassword => "password cannot be empty"@,
        }
    }
}

/// The outcome of checking a registration request: the trimmed user name
/// and display name, or the first rule broken, in the order the rules are
/// checked.
pub open spec fn registration_check(
    username: Seq<char>,
    display_name: Seq<char>,
    role: Seq<char>,
    password: Option<Seq<char>>,
) -> Result<(Seq<char>, Seq<char>), AuthInputError> {
    let u = trim_spec(username);
    let d = trim_spec(display_name);
    if u.len() == 0 {
        Err(AuthInputError::EmptyUsername)
    } else if contains_spec(u, "@"@) {
        Err(AuthInputError::UsernameHasAt)
    } else if d.len() == 0 {
        Err(AuthInputError::EmptyDisplayName)
    } else if role == "root"@ && trim_spec(match password { Some(p) => p, None => Seq::empty() }).len() == 0 {
        Err(AuthInputError::RootNeedsPassword)
    } else {
        Ok((u, d))
    }
}

/// Checks a registration request: user name and display name must be
/// non-blank, the user name may not contain `@`, and a `root` user needs a
/// non-blank password.
pub fn validate_registration(
    username: &str,
    display_name: &str,
    role: &str,
    password: Option<&str>,
) -> (res: Result<(String, String), AuthInputError>)
    ensures
        match (res, registration_check(username@, display_name@, role@, match password { Some(p) => Some(p@), None => None })) {
            (Ok((u, d)), Ok((su, sd))) => u@ == su && d@ == sd,
            (Err(e), Err(se)) => e == se,
            _ => false,
        },
{
    let u = str_trim(username);
    let d = str_trim(display_name);
    if u.is_empty() {
        return Err(AuthInputError::EmptyUsername);
    }
    if str_contains(u, "@") {
        return Err(AuthInputError::UsernameHasAt);
    }
    if d.is_empty() {
        return Err(AuthInputError::EmptyDisplayName);
    }
    let is_root = owned(role) == owned("root");
    if is_root {
        let pw = match password {
            Some(p) => p,
            None => "",
        };
        proof {
            reveal_strlit("");
        }
        if str_trim(pw).is_empty() {
            return Err(AuthInputError::RootNeedsPassword);
        }
    }
    Ok((owned(u), owned(d)))
}

/// The outcome of checking a password login request: the trimmed user name
/// and password, or the first blank one.
pub open spec fn login_check(username: Seq<char>, password: Seq<char>) -> Result<(Seq<char>, Seq<char>), AuthInputError> {
    if trim_spec(username).len() == 0 {
        Err(AuthInputError::EmptyUsername)
    } else if trim_spec(password).len() == 0 {
        Err(AuthInputError::EmptyPassword)
    } else {
        Ok((trim_spec(username), trim_spec(password)))
    }
}

/// Checks a password login request: both user name and password must be
/// non-blank; both are used trimmed.
pub fn validate_login(username: &str, password: &str) -> (res: Result<(String, String), AuthInputError>)
    ensures
        match (res, login_check(username@, password@)) {
            (Ok((u, p)), Ok((su, sp))) => u@ == su && p@ == sp,
            (Err(e), Err(se)) => e == se,
            _ => false,
        },
{
    let u = str_trim(username);
    let p = str_trim(password);
    if u.is_empty() {
        return Err(AuthInputError::EmptyUsername);
    }
    if p.is_empty() {
        return Err(AuthInputError::EmptyPassword);
    }
    Ok((owned(u), owned(p)))
}

/// The device to record for a completed registration: only a `device` user
/// that named its device gets one, with its user agent or `unknown`.
pub open spec fn device_enrolment_spec(
    role: Seq<char>,
    device_name: Option<Seq<char>>,
    user_agent: Option<Seq<char>>,
) -> Option<(Seq<char>, Seq<char>)> {
    if role == "device"@ {
        match device_name {
            Some(n) => Some((n, match user_agent { Some(a) => a, None => "unknown"@ })),
            None => None,
        }
    } else {
        None
    }
}

/// The device to record for a completed registration, as (name, user agent).
pub fn device_enrolment(role: &str, device_name: Option<String>, user_agent: Option<String>) -> (res: Option<(String, String)>)
    ensures
        res.deep_view() == device_enrolment_spec(role@, device_name.deep_view(), user_agent.deep_view()),
{
    let is_device = owned(role) == owned("device");
    if !is_device {
        return None;
    }
    match device_name {
        Some(name) => {
            let agent = match user_agent {
                Some(a) => a,
                None => owned("unknown"),
            };
            Some((name, agent))
        },
        None => None,
    }
}

/// A WebAuthn ceremony waiting for its second step. `R` and `A` are the
/// opaque registration and authentication states of the WebAuthn library.
#[derive(Debug)]
#[allow(inconsistent_fields)]
pub enum PendingChallenge<R, A> {
    Registration {
        user_id: String,
        state: R,
        role: String,
        device_name: Option<String>,
        user_agent: Option<String>,
    },
    Authentication { user_id: String, state: A },
}

/// The map a store holds after `id` is taken from `m`, with what was taken.
pub open spec fn take_spec<V>(m: Map<Seq<char>, V>, id: Seq<char>) -> (Option<V>, Map<Seq<char>, V>) {
    if m.contains_key(id) {
        (Some(m[id]), m.remove(id))
    } else {
        (None, m)
    }
}

/// The entries of a store hold each id once, and are exactly the bindings
/// of `m`.
pub open spec fn store_matches<V>(entries: Seq<(String, V)>, m: Map<Seq<char>, V>) -> bool {
    &&& forall|a: int, b: int|
        0 <= a < b < entries.len() ==> #[trigger] entries[a].0@ != #[trigger] entries[b].0@
    &&& forall|j: int|
        0 <= j < entries.len() ==> m.contains_key(#[trigger] entries[j].0@) && m[entries[j].0@] == entries[j].1
    &&& forall|k: Seq<char>| #[trigger] m.contains_key(k) ==> exists|j: int| 0 <= j < entries.len() && entries[j].0@ == k
}

/// Pending challenges by challenge id; each id is held at most once. The
/// challenges are kept in a `Vec` with a ghost map of their meaning rather
/// than in a `HashMap`: vstd's `HashMap` specification gives nothing for
/// `String` keys, whose hashing it does not model.
pub struct PendingChallengeStore<R, A> {
    entries: Vec<(String, PendingChallenge<R, A>)>,
    contents: Ghost<Map<Seq<char>, PendingChallenge<R, A>>>,
}

impl<R, A> View for PendingChallengeStore<R, A> {
    type V = Map<Seq<char>, PendingChallenge<R, A>>;

    /// The pending challenges by id.
    closed spec fn view(&self) -> Map<Seq<char>, PendingChallenge<R, A>> {
        self.contents@
    }
}

impl<R, A> PendingChallengeStore<R, A> {
    #[verifier::type_invariant]
    spec fn inv(self) -> bool {
        store_matches(self.entries@, self.contents@)
    }

    /// A store with no pending challenge.
    pub fn new() -> (res: Self)
        ensures
            res@ == Map::<Seq<char>, PendingChallenge<R, A>>::empty(),
    {
        PendingChallengeStore { entries: Vec::new(), contents: Ghost(Map::empty()) }
    }

    fn position(&self, id: &str) -> (res: Option<usize>)
        ensures
            match res {
                Some(i) => i < self.entries.len() && self.entries@[i as int].0@ == id@,
                None => forall|j: int| 0 <= j < self.entries.len() ==> self.entries@[j].0@ != id@,
            },
    {
        let key = owned(id);
        let mut i: usize = 0;
        while i < self.entries.len()
            invariant
                i <= self.entries.len(),
                key@ == id@,
                forall|j: int| 0 <= j < i ==> self.entries@[j].0@ != id@,
            decreases self.entries.len() - i,
        {
            if self.entries[i].0 == key {
                return Some(i);
            }
            i = i + 1;
        }
        None
    }

    /// Holds `challenge` under `challenge_id`, replacing any challenge held
    /// under the same id.
    pub fn insert(&mut self, challenge_id: String, challenge: PendingChallenge<R, A>)
        ensures
            final(self)@ == old(self)@.insert(challenge_id@, challenge),
    {
        proof {
            use_type_invariant(&*self);
        }
        let idx = self.position(challenge_id.as_str());
        let ghost old_entries = self.entries@;
        let ghost old_contents = self.contents@;
        let ghost key = challenge_id@;
        let ghost m2 = old_contents.insert(key, challenge);
        let mut whole = Self::new();
        std::mem::swap(&mut whole, self);
        let PendingChallengeStore { entries, contents: _ } = whole;
        let mut entries = entries;
        match idx {
            Some(i) => {
                entries.set(i, (challenge_id, challenge));
            },
            None => {
                entries.push((challenge_id, challenge));
            },
        }
        proof {
            assert forall|k: Seq<char>| #[trigger] m2.contains_key(k) implies exists|j: int|
                0 <= j < entries.len() && entries@[j].0@ == k by {
                if k != key {
                    assert(old_contents.contains_key(k));
                    let j = choose|j: int| 0 <= j < old_entries.len() && old_entries[j].0@ == k;
                    assert(entries@[j].0@ == k);
                } else {
                    match idx {
                        Some(i) => assert(entries@[i as int].0@ == k),
                        None => assert(entries@[old_entries.len() as int].0@ == k),
                    }
                }
            }
            assert forall|j: int| 0 <= j < entries.len() implies m2.contains_key(#[trigger] entries@[j].0@)
                && m2[entries@[j].0@] == entries@[j].1 by {
                if j < old_entries.len() && (idx is None || j != idx->0) {
                    assert(entries@[j] == old_entries[j]);
                }
            }
        }
        assert(store_matches(entries@, m2));
        *self = PendingChallengeStore { entries, contents: Ghost(m2) };
    }

    /// Holds a registration ceremony under `challenge_id`.
    pub fn insert_registration(
        &mut self,
        challenge_id: String,
        user_id: String,
        state: R,
        role: String,
        device_name: Option<String>,
        user_agent: Option<String>,
    )
        ensures
            final(self)@ == old(self)@.insert(
                challenge_id@,
                PendingChallenge::Registration { user_id, state, role, device_name, user_agent },
            ),
    {
        self.insert(challenge_id, PendingChallenge::Registration { user_id, state, role, device_name, user_agent });
    }

    /// Holds an authentication ceremony under `challenge_id`.
    pub fn insert_authentication(&mut self, challenge_id: String, user_id: String, state: A)
        ensures
            final(self)@ == old(self)@.insert(
                challenge_id@,
                PendingChallenge::Authentication { user_id, state },
            ),
    {
        self.insert(challenge_id, PendingChallenge::Authentication { user_id, state });
    }

    /// Removes and returns the challenge held under `challenge_id`, if any.
    pub fn take(&mut self, challenge_id: &str) -> (res: Option<PendingChallenge<R, A>>)
        ensures
            (res, final(self)@) == take_spec(old(self)@, challenge_id@),
    {
        proof {
            use_type_invariant(&*self);
        }
        let idx = self.position(challenge_id);
        match idx {
            None => {
                proof {
                    if self.contents@.contains_key(challenge_id@) {
                        let j = choose|j: int| 0 <= j < self.entries.len() && self.entries@[j].0@ == challenge_id@;
                        assert(self.entries@[j].0@ != challenge_id@);
                    }
                }
                None
            },
            Some(i) => {
                let ghost old_entries = self.entries@;
                let ghost old_contents = self.contents@;
                let ghost key = challenge_id@;
                let ghost m2 = old_contents.remove(key);
                let mut whole = Self::new();
                std::mem::swap(&mut whole, self);
                let PendingChallengeStore { entries, contents: _ } = whole;
                let mut entries = entries;
                let (_, challenge) = entries.remove(i);
                proof {
                    assert forall|j: int| 0 <= j < entries.len() implies m2.contains_key(#[trigger] entries@[j].0@)
                        && m2[entries@[j].0@] == entries@[j].1 by {
                        if j < i {
                            assert(entries@[j] == old_entries[j]);
                            assert(old_entries[j].0@ != old_entries[i as int].0@);
                        } else {
                            assert(entries@[j] == old_entries[j + 1]);
                            assert(old_entries[j + 1].0@ != old_entries[i as int].0@);
                        }
                    }
                    assert forall|k: Seq<char>| #[trigger] m2.contains_key(k) implies exists|j: int|
                        0 <= j < entries.len() && entries@[j].0@ == k by {
                        assert(old_contents.contains_key(k));
                        let j = choose|j: int| 0 <= j < old_entries.len() && old_entries[j].0@ == k;
                        if j < i {
                            assert(entries@[j].0@ == k);
                        } else {
                            assert(j != i);
                            assert(entries@[j - 1].0@ == k);
                        }
                    }
                    assert forall|a: int, b: int| 0 <= a < b < entries.len() implies
                        #[trigger] entries@[a].0@ != #[trigger] entries@[b].0@ by {
                        let a2 = if a < i { a } else { a + 1 };
                        let b2 = if b < i { b } else { b + 1 };
                        assert(entries@[a] == old_entries[a2]);
                        assert(entries@[b] == old_entries[b2]);
                    }
                }
                assert(store_matches(entries@, m2));
                *self = PendingChallengeStore { entries, contents: Ghost(m2) };
                Some(challenge)
            },
        }
    }
}

/// Taking a challenge right after holding it under the same id returns it,
/// and leaves the store as it was apart from that id.
pub proof fn law_take_returns_inserted<V>(m: Map<Seq<char>, V>, id: Seq<char>, c: V)
    ensures
        take_spec(m.insert(id, c), id).0 == Some(c),
        take_spec(m.insert(id, c), id).1 == m.remove(id),
{
    assert(m.insert(id, c).remove(id) =~= m.remove(id));
}

/// A challenge can be taken only once: a second take of the same id finds
/// nothing and changes nothing.
pub proof fn law_take_is_single_use<V>(m: Map<Seq<char>, V>, id: Seq<char>)
    ensures
        take_spec(take_spec(m, id).1, id).0 is None,
        take_spec(take_spec(m, id).1, id).1 == take_spec(m, id).1,
{
}

/// Taking one challenge leaves every other pending challenge in place.
pub proof fn law_take_leaves_others<V>(m: Map<Seq<char>, V>, id: Seq<char>, other: Seq<char>)
    requires
        other != id,
    ensures
        take_spec(m, id).1.contains_key(other) == m.contains_key(other),
        m.contains_key(other) ==> take_spec(m, id).1[other] == m[other],
{
}

/// A user found under the requested name may only be registered again in
/// the same role; a registration under another role is refused.
pub fn check_existing_user_role(existing_role: &str, requested_role: &str) -> (res: Result<(), String>)
    ensures
        match res {
            Ok(()) => existing_role@ == requested_role@,
            Err(e) => existing_role@ != requested_role@ && e@ == "username already exists"@,
        },
{
    if owned(existing_role) == owned(requested_role) {
        Ok(())
    } else {
        Err(owned("username already exists"))
    }
}

/// What a password login leads to once the password is accepted.
#[derive(Debug, Clone, Copy, PartialEq, Eq, Structural)]
pub enum LoginNextStep {
    /// Passkeys are off: the user is logged in.
    Complete,
    /// Passkeys are on but the user has none: the user registers one.
    RegisterPasskey,
    /// The user proves possession of a registered passkey.
    AuthenticatePasskey,
}

/// The facts about a user that a password login decides on.
pub struct LoginFacts {
    /// Whether a user with the name exists.
    pub user_found: bool,
    /// Whether that user has a password set.
    pub has_password: bool,
    /// Whether the given password matches the stored one.
    pub password_matches: bool,
    /// Whether passkeys are enabled.
    pub passkeys_enabled: bool,
    /// How many passkeys the user has registered.
    pub passkey_count: usize,
}

/// The outcome of a password login: the first check that fails (unknown
/// user, no password, wrong password), else the next step.
pub open spec fn login_step_spec(f: LoginFacts) -> Result<LoginNextStep, Seq<char>> {
    if !f.user_found {
        Err("user not found"@)
    } else if !f.has_password {
        Err("password not set"@)
    } else if !f.password_matches {
        Err("invalid password"@)
    } else if !f.passkeys_enabled {
        Ok(LoginNextStep::Complete)
    } else if f.passkey_count == 0 {
        Ok(LoginNextStep::RegisterPasskey)
    } else {
        Ok(LoginNextStep::AuthenticatePasskey)
    }
}

/// Once the password is accepted, passkeys decide the rest: with passkeys
/// off the login is complete whatever passkeys the user has; with passkeys
/// on, a user without one registers one and a user with some proves one.
pub proof fn law_login_after_accepted_password(f: LoginFacts)
    requires
        f.user_found,
        f.has_password,
        f.password_matches,
    ensures
        !f.passkeys_enabled ==> login_step_spec(f) == Ok::<LoginNextStep, Seq<char>>(LoginNextStep::Complete),
        f.passkeys_enabled && f.passkey_count == 0
            ==> login_step_spec(f) == Ok::<LoginNextStep, Seq<char>>(LoginNextStep::RegisterPasskey),
        f.passkeys_enabled && f.passkey_count > 0
            ==> login_step_spec(f) == Ok::<LoginNextStep, Seq<char>>(LoginNextStep::AuthenticatePasskey),
{
}

/// A login goes on exactly when the user exists, has a password and gave
/// it; otherwise the first missing one is named: an unknown user, then a
/// user without password, then a wrong password.
pub proof fn law_login_refusals(f: LoginFacts)
    ensures
        login_step_spec(f) is Ok <==> (f.user_found && f.has_password && f.password_matches),
        !f.user_found ==> login_step_spec(f) == Err::<LoginNextStep, Seq<char>>("user not found"@),
        f.user_found && !f.has_password ==> login_step_spec(f) == Err::<LoginNextStep, Seq<char>>("password not set"@),
        f.user_found && f.has_password && !f.password_matches
            ==> login_step_spec(f) == Err::<LoginNextStep, Seq<char>>("invalid password"@),
{
}

/// Decides a password login from the facts looked up about the user.
pub fn login_next_step(f: &LoginFacts) -> (res: Result<LoginNextStep, String>)
    ensures
        match (res, login_step_spec(*f)) {
            (Ok(a), Ok(b)) => a == b,
            (Err(a), Err(b)) => a@ == b,
            _ => false,
        },
{
    if !f.user_found {
        return Err(owned("user not found"));
    }
    if !f.has_password {
        return Err(owned("password not set"));
    }
    if !f.password_matches {
        return Err(owned("invalid password"));
    }
    if !f.passkeys_enabled {
        return Ok(LoginNextStep::Complete);
    }
    if f.passkey_count == 0 {
        return Ok(LoginNextStep::RegisterPasskey);
    }
    Ok(LoginNextStep::AuthenticatePasskey)
}

/// A registration ceremony ready to be finished.
#[derive(Debug)]
pub struct PendingRegistration<R> {
    pub user_id: String,
    pub state: R,
    pub role: String,
    pub device_name: Option<String>,
    pub user_agent: Option<String>,
}

/// Checks the challenge taken for a registration's second step: it must
/// exist, be a registration, and passkeys must still be enabled.
pub fn expect_registration<R, A>(pending: Option<PendingChallenge<R, A>>, passkeys_enabled: bool) -> (res: Result<PendingRegistration<R>, String>)
    ensures
        match pending {
            None => res is Err && res->Err_0@ == "invalid challenge"@,
            Some(PendingChallenge::Authentication { .. }) => res is Err && res->Err_0@ == "invalid challenge type"@,
            Some(PendingChallenge::Registration { user_id, state, role, device_name, user_agent }) => if passkeys_enabled {
                res is Ok && res->Ok_0 == (PendingRegistration { user_id, state, role, device_name, user_agent })
            } else {
                res is Err && res->Err_0@ == "passkey registration is disabled"@
            },
        },
{
    match pending {
        None => Err(owned("invalid challenge")),
        Some(PendingChallenge::Authentication { .. }) => Err(owned("invalid challenge type")),
        Some(PendingChallenge::Registration { user_id, state, role, device_name, user_agent }) => {
            if !passkeys_enabled {
                return Err(owned("passkey registration is disabled"));
            }
            Ok(PendingRegistration { user_id, state, role, device_name, user_agent })
        },
    }
}

/// Checks the challenge taken for a login's second step: it must exist, be
/// an authentication, and passkeys must still be enabled. Gives the user id
/// and the ceremony state.
pub fn expect_authentication<R, A>(pending: Option<PendingChallenge<R, A>>, passkeys_enabled: bool) -> (res: Result<(String, A), String>)
    ensures
        match pending {
            None => res is Err && res->Err_0@ == "invalid challenge"@,
            Some(PendingChallenge::Registration { .. }) => res is Err && res->Err_0@ == "invalid challenge type"@,
            Some(PendingChallenge::Authentication { user_id, state }) => if passkeys_enabled {
                res is Ok && res->Ok_0 == (user_id, state)
            } else {
                res is Err && res->Err_0@ == "passkey authentication is disabled"@
            },
        },
{
    match pending {
        None => Err(owned("invalid challenge")),
        Some(PendingChallenge::Registration { .. }) => Err(owned("invalid challenge type")),
        Some(PendingChallenge::Authentication { user_id, state }) => {
            if !passkeys_enabled {
                return Err(owned("passkey authentication is disabled"));
            }
            Ok((user_id, state))
        },
    }
}

/// Whether any stored passkey changed when the authentication result was
/// applied to each of them (`Some(changed)` for a passkey the result
/// applies to, `None` otherwise); the passkeys are saved again only then.
pub fn any_credential_changed(updates: &Vec<Option<bool>>) -> (res: bool)
    ensures
        res == exists|i: int| 0 <= i < updates.len() && updates@[i] == Some(true),
{
    let mut changed = false;
    let mut i: usize = 0;
    while i < updates.len()
        invariant
            i <= updates.len(),
            changed == exists|j: int| 0 <= j < i && updates@[j] == Some(true),
        decreases updates.len() - i,
    {
        match updates[i] {
            Some(u) => {
                changed = changed || u;
            },
            None => {},
        }
        proof {
            if !changed {
                assert forall|j: int| 0 <= j < i + 1 implies updates@[j] != Some(true) by {
                    if j < i {
                    } else {
                        assert(updates@[j] == updates@[i as int]);
                    }
                }
            } else {
                if !(exists|j: int| 0 <= j < i && updates@[j] == Some(true)) {
                    assert(updates@[i as int] == Some(true));
                }
            }
        }
        i = i + 1;
    }
    changed
}

/// A registration passes exactly when the trimmed user name is non-blank
/// and holds no `@`, the trimmed display name is non-blank, and a `root`
/// registration carries a non-blank password; it then keeps both names
/// trimmed. A registration that fails names the first rule broken.
pub proof fn law_registration_rules(username: Seq<char>, display_name: Seq<char>, role: Seq<char>, password: Option<Seq<char>>)
    ensures
        registration_check(username, display_name, role, password) is Ok <==> (
            trim_spec(username).len() > 0
            && !contains_spec(trim_spec(username), "@"@)
            && trim_spec(display_name).len() > 0
            && !(role == "root"@ && (password is None || trim_spec(password->0).len() == 0))
        ),
        registration_check(username, display_name, role, password) is Ok ==> registration_check(
            username, display_name, role, password)->Ok_0 == (trim_spec(username), trim_spec(display_name)),
        trim_spec(username).len() == 0 ==> registration_check(username, display_name, role, password)
            == Err::<(Seq<char>, Seq<char>), AuthInputError>(AuthInputError::EmptyUsername),
        trim_spec(username).len() > 0 && contains_spec(trim_spec(username), "@"@) ==> registration_check(
            username, display_name, role, password) == Err::<(Seq<char>, Seq<char>), AuthInputError>(AuthInputError::UsernameHasAt),
{
    if password is None {
        assert(trim_spec(Seq::<char>::empty()) =~= Seq::<char>::empty());
    }
}

/// A login request passes exactly when neither the trimmed user name nor
/// the trimmed password is blank, and is then used trimmed.
pub proof fn law_login_input(username: Seq<char>, password: Seq<char>)
    ensures
        login_check(username, password) is Ok <==> (trim_spec(username).len() > 0 && trim_spec(password).len() > 0),
        login_check(username, password) is Ok ==> login_check(username, password)->Ok_0
            == (trim_spec(username), trim_spec(password)),
        trim_spec(username).len() == 0 ==> login_check(username, password)
            == Err::<(Seq<char>, Seq<char>), AuthInputError>(AuthInputError::EmptyUsername),
{
}

/// A device is recorded exactly for a `device` user that named it, under
/// that name, with the user agent given or `unknown`.
pub proof fn law_device_enrolment(role: Seq<char>, device_name: Option<Seq<char>>, user_agent: Option<Seq<char>>)
    ensures
        device_enrolment_spec(role, device_name, user_agent) is Some <==> (role == "device"@ && device_name is Some),
        device_enrolment_spec(role, device_name, user_agent) is Some ==> {
            let (n, a) = device_enrolment_spec(role, device_name, user_agent)->0;
            &&& n == device_name->0
            &&& user_agent is Some ==> a == user_agent->0
            &&& user_agent is None ==> a == "unknown"@
        },
{
}

} // verus!
