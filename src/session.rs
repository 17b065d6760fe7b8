use crate::digest::{blake2b_hex, blake2b_hex_of};
use crate::datetime::now_seconds;
use crate::error::{CoreError, Entity};
use vstd::prelude::*;

verus! {

/// How long a login stays valid, in seconds.
pub const MAX_LOGIN_TIME_SECS: i64 = 3600;

/// The three independent login namespaces.
#[derive(Debug, Clone, Copy, PartialEq, Eq, Structural)]
pub enum Role {
    Patient,
    Doctor,
    Admin,
}

/// One successful login: the token handed out, who it names, in which
/// namespace, and when it was issued (seconds since the Unix epoch).
pub struct SessionRow {
    pub token: String,
    pub subject_id: String,
    pub role: Role,
    pub issued_at: i64,
}

/// All logins that have not been revoked, in the order they were issued.
pub struct SessionRegistry {
    pub rows: Vec<SessionRow>,
}

pub open spec fn row_matches(r: SessionRow, token: Seq<char>, role: Role) -> bool {
    r.token@ == token && r.role == role
}

/// Index of the most recently issued row for `token` in namespace `role`:
/// the matching row with the greatest `issued_at`, the one added last
/// among equals.
pub open spec fn latest_match(rows: Seq<SessionRow>, token: Seq<char>, role: Role) -> Option<int>
    decreases rows.len(),
{
    if rows.len() == 0 {
        None
    } else {
        let prev = latest_match(rows.drop_last(), token, role);
        if row_matches(rows.last(), token, role) && match prev {
            None => true,
            Some(j) => rows[j].issued_at <= rows.last().issued_at,
        } {
            Some(rows.len() - 1)
        } else {
            prev
        }
    }
}

/// What resolving `token` at time `now` yields: the subject of the most
/// recent matching login while it is at most an hour old.
pub open spec fn resolve_spec(rows: Seq<SessionRow>, token: Seq<char>, role: Role, now: int) -> Result<
    Seq<char>,
    CoreError,
> {
    match latest_match(rows, token, role) {
        None => Err(CoreError::Unauthenticated),
        Some(i) => if now - rows[i].issued_at <= MAX_LOGIN_TIME_SECS {
            Ok(rows[i].subject_id@)
        } else {
            Err(CoreError::SessionExpired)
        },
    }
}

/// The rows left after every login of `token` in namespace `role` is removed.
pub open spec fn without_token(rows: Seq<SessionRow>, token: Seq<char>, role: Role) -> Seq<SessionRow>
    decreases rows.len(),
{
    if rows.len() == 0 {
        rows
    } else {
        let rest = without_token(rows.drop_last(), token, role);
        if row_matches(rows.last(), token, role) {
            rest
        } else {
            rest.push(rows.last())
        }
    }
}

pub open spec fn view_text_result(r: Result<String, CoreError>) -> Result<Seq<char>, CoreError> {
    match r {
        Ok(s) => Ok(s@),
        Err(e) => Err(e),
    }
}

/// The login token of a subject: the digest of its identifier.
pub open spec fn token_for(subject_id: Seq<char>) -> Seq<char> {
    blake2b_hex_of(subject_id)
}

fn copy_text(s: &String) -> (r: String)
    ensures
        r@ == s@,
{
    s.clone()
}

impl SessionRow {
    pub fn duplicate(&self) -> (r: SessionRow)
        ensures
            r == *self,
    {
        SessionRow {
            token: self.token.clone(),
            subject_id: self.subject_id.clone(),
            role: self.role,
            issued_at: self.issued_at,
        }
    }
}

impl SessionRegistry {
    pub fn new() -> (r: SessionRegistry)
        ensures
            r.rows@ == Seq::<SessionRow>::empty(),
    {
        SessionRegistry { rows: Vec::new() }
    }

    /// Records a new login of `subject_id` at time `now` and returns its token.
    /// Earlier logins of the same subject stay valid.
    pub fn issue(&mut self, subject_id: &str, role: Role, now: i64) -> (token: String)
        ensures
            token@ == token_for(subject_id@),
            final(self).rows@.len() == old(self).rows@.len() + 1,
            final(self).rows@.drop_last() == old(self).rows@,
            final(self).rows@.last().token@ == token@,
            final(self).rows@.last().subject_id@ == subject_id@,
            final(self).rows@.last().role == role,
            final(self).rows@.last().issued_at == now,
    {
        let token = blake2b_hex(subject_id);
        let row = SessionRow {
            token: copy_text(&token),
            subject_id: subject_id.to_owned(),
            role,
            issued_at: now,
        };
        self.rows.push(row);
        proof {
            assert(self.rows@.drop_last() =~= old(self).rows@);
        }
        token
    }

    /// Looks up the subject of `token` in namespace `role` at time `now`.
    pub fn resolve(&self, token: &str, role: Role, now: i64) -> (r: Result<String, CoreError>)
        ensures
            view_text_result(r) == resolve_spec(self.rows@, token@, role, now as int),
    {
        let wanted = token.to_owned();
        let mut best: Option<usize> = None;
        let mut i: usize = 0;
        while i < self.rows.len()
            invariant
                i <= self.rows@.len(),
                wanted@ == token@,
                match best {
                    None => latest_match(self.rows@.subrange(0, i as int), token@, role) is None,
                    Some(b) => b < i && latest_match(self.rows@.subrange(0, i as int), token@, role)
                        == Some(b as int),
                },
            decreases self.rows@.len() - i,
        {
            let ghost prefix = self.rows@.subrange(0, i + 1);
            proof {
                assert(prefix.drop_last() =~= self.rows@.subrange(0, i as int));
            }
            let row = &self.rows[i];
            if row.token == wanted && row.role == role {
                let newer = match best {
                    None => true,
                    Some(b) => self.rows[b].issued_at <= row.issued_at,
                };
                if newer {
                    best = Some(i);
                }
            }
            i = i + 1;
        }
        proof {
            assert(self.rows@.subrange(0, self.rows@.len() as int) =~= self.rows@);
        }
        match best {
            None => Err(CoreError::Unauthenticated),
            Some(b) => {
                let row = &self.rows[b];
                if (now as i128) - (row.issued_at as i128) <= MAX_LOGIN_TIME_SECS as i128 {
                    Ok(copy_text(&row.subject_id))
                } else {
                    Err(CoreError::SessionExpired)
                }
            },
        }
    }

    /// Removes every login of `token` in namespace `role`; nothing happens
    /// when there is none.
    pub fn revoke(&mut self, token: &str, role: Role)
        ensures
            final(self).rows@ == without_token(old(self).rows@, token@, role),
    {
        let wanted = token.to_owned();
        let mut kept: Vec<SessionRow> = Vec::new();
        let mut i: usize = 0;
        while i < self.rows.len()
            invariant
                i <= self.rows@.len(),
                wanted@ == token@,
                kept@ == without_token(self.rows@.subrange(0, i as int), token@, role),
            decreases self.rows@.len() - i,
        {
            let ghost prefix = self.rows@.subrange(0, i + 1);
            assert(prefix.drop_last() =~= self.rows@.subrange(0, i as int));
            let row = &self.rows[i];
            if !(row.token == wanted && row.role == role) {
                kept.push(row.duplicate());
            }
            i = i + 1;
        }
        assert(self.rows@.subrange(0, self.rows@.len() as int) =~= self.rows@);
        self.rows = kept;
    }
}

/// The entity that holds the accounts of a namespace.
pub open spec fn account_entity(role: Role) -> Entity {
    match role {
        Role::Patient => Entity::User,
        Role::Doctor => Entity::Doctor,
        Role::Admin => Entity::Administrator,
    }
}

/// The stored form of a password: its digest.
pub fn hash_password(password: &str) -> (r: String)
    ensures
        r@ == blake2b_hex_of(password@),
{
    blake2b_hex(password)
}

/// Whether `password` is the one whose digest is `stored_hash`.
pub fn check_password(stored_hash: &str, password: &str) -> (r: Result<(), CoreError>)
    ensures
        r is Ok <==> stored_hash@ == blake2b_hex_of(password@),
        r is Err ==> r == Err::<(), CoreError>(CoreError::WrongPassword),
{
    let hashed = blake2b_hex(password);
    if hashed == stored_hash.to_owned() {
        Ok(())
    } else {
        Err(CoreError::WrongPassword)
    }
}

/// What `login` reports, given the stored password digest of the account
/// (`None` when there is no such account) and whether it is banned.
pub open spec fn login_outcome(
    stored_hash: Option<Seq<char>>,
    banned: bool,
    subject_id: Seq<char>,
    password: Seq<char>,
    role: Role,
) -> Result<Seq<char>, CoreError> {
    match stored_hash {
        None => Err(CoreError::NotFound(account_entity(role))),
        Some(h) => if banned || h != blake2b_hex_of(password) {
            Err(CoreError::WrongPassword)
        } else {
            Ok(token_for(subject_id))
        },
    }
}

pub open spec fn view_opt_text(s: Option<&str>) -> Option<Seq<char>> {
    match s {
        Some(t) => Some(t@),
        None => None,
    }
}

impl SessionRegistry {
    /// Logs `subject_id` in: the account must exist, not be banned, and
    /// `password` must match its stored digest. On success a new login is
    /// recorded at `now` and its token returned; on failure nothing changes.
    pub fn login(
        &mut self,
        subject_id: &str,
        role: Role,
        stored_hash: Option<&str>,
        banned: bool,
        password: &str,
        now: i64,
    ) -> (r: Result<String, CoreError>)
        ensures
            view_text_result(r) == login_outcome(
                view_opt_text(stored_hash),
                banned,
                subject_id@,
                password@,
                role,
            ),
            r is Err ==> final(self).rows@ == old(self).rows@,
            r is Ok ==> {
                &&& final(self).rows@.drop_last() == old(self).rows@
                &&& final(self).rows@.len() == old(self).rows@.len() + 1
                &&& final(self).rows@.last().token@ == token_for(subject_id@)
                &&& final(self).rows@.last().subject_id@ == subject_id@
                &&& final(self).rows@.last().role == role
                &&& final(self).rows@.last().issued_at == now
            },
    {
        let hash = match stored_hash {
            None => {
                let e = match role {
                    Role::Patient => Entity::User,
                    Role::Doctor => Entity::Doctor,
                    Role::Admin => Entity::Administrator,
                };
                return Err(CoreError::NotFound(e));
            },
            Some(h) => h,
        };
        if banned {
            return Err(CoreError::WrongPassword);
        }
        check_password(hash, password)?;
        Ok(self.issue(subject_id, role, now))
    }

    /// Resolves `token` in namespace `role` at the current time.
    pub fn resolve_now(&self, token: &str, role: Role) -> (r: Result<String, CoreError>)
        ensures
            exists|now: i64| view_text_result(r) == resolve_spec(self.rows@, token@, role, now as int),
    {
        let now = now_seconds();
        self.resolve(token, role, now)
    }
}

/// The patient that `token` is logged in as, at the current time.
pub fn get_username_from_token(token: &str, registry: &SessionRegistry) -> (r: Result<String, CoreError>)
    ensures
        exists|now: i64|
            view_text_result(r) == resolve_spec(registry.rows@, token@, Role::Patient, now as int),
{
    registry.resolve_now(token, Role::Patient)
}

/// The doctor that `token` is logged in as, at the current time.
pub fn get_did_from_token(token: &str, registry: &SessionRegistry) -> (r: Result<String, CoreError>)
    ensures
        exists|now: i64|
            view_text_result(r) == resolve_spec(registry.rows@, token@, Role::Doctor, now as int),
{
    registry.resolve_now(token, Role::Doctor)
}

/// The administrator that `token` is logged in as, at the current time.
pub fn get_aid_from_token(token: &str, registry: &SessionRegistry) -> (r: Result<String, CoreError>)
    ensures
        exists|now: i64|
            view_text_result(r) == resolve_spec(registry.rows@, token@, Role::Admin, now as int),
{
    registry.resolve_now(token, Role::Admin)
}

} // verus!
