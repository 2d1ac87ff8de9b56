//! The tables behind the hub, as its rules see them: one table of users and
//! one table of sessions for each client type. A table of sessions holds at
//! most one row for a user, and no two rows under one identifier. Whatever
//! keeps the rows must answer as these tables do.

use vstd::prelude::*;
use vstd::string::*;
use crate::common::user::ClientType;
use crate::models::entities::{FindBy, Session, User, UserView};
use crate::ident::{fresh_id, is_random_id};
use crate::text::{eq_ignore_case, fold};
use crate::utils::{is_moment, now};

verus! {

/// The place of the first row that meets a condition; the number of rows
/// where none does.
pub open spec fn first_index<T>(rows: Seq<T>, pred: spec_fn(T) -> bool) -> int
    decreases rows.len(),
{
    if rows.len() == 0 {
        0
    } else if pred(rows[0]) {
        0
    } else {
        1 + first_index(rows.drop_first(), pred)
    }
}

/// `first_index` is the place `i` if no row before `i` meets the condition
/// and the row at `i`, if there is one, does.
pub proof fn lemma_first_index_is<T>(rows: Seq<T>, pred: spec_fn(T) -> bool, i: int)
    requires
        0 <= i <= rows.len(),
        forall|j: int| 0 <= j < i ==> !pred(#[trigger] rows[j]),
        i < rows.len() ==> pred(rows[i]),
    ensures
        first_index(rows, pred) == i,
    decreases rows.len(),
{
    if rows.len() == 0 {
    } else if i == 0 {
    } else {
        assert(!pred(rows[0]));
        let rest = rows.drop_first();
        assert forall|j: int| 0 <= j < i - 1 implies !pred(#[trigger] rest[j]) by {
            assert(rest[j] == rows[j + 1]);
        }
        if i < rows.len() {
            assert(rest[i - 1] == rows[i]);
        }
        lemma_first_index_is(rest, pred, i - 1);
    }
}

/// What `first_index` finds: a place within the rows or just behind them;
/// no row before it meets the condition, and the row at it, if there is one,
/// does.
pub proof fn lemma_first_index<T>(rows: Seq<T>, pred: spec_fn(T) -> bool)
    ensures
        0 <= first_index(rows, pred) <= rows.len(),
        forall|j: int| 0 <= j < first_index(rows, pred) ==> !pred(#[trigger] rows[j]),
        first_index(rows, pred) < rows.len() ==> pred(rows[first_index(rows, pred)]),
    decreases rows.len(),
{
    if rows.len() == 0 {
    } else if pred(rows[0]) {
    } else {
        let rest = rows.drop_first();
        lemma_first_index(rest, pred);
        let k = first_index(rest, pred);
        assert forall|j: int| 0 <= j < k + 1 implies !pred(#[trigger] rows[j]) by {
            if j > 0 {
                assert(rest[j - 1] == rows[j]);
            }
        }
        if k < rest.len() {
            assert(rest[k] == rows[k + 1]);
        }
    }
}

/// The condition that a session holds `value` in the column `by`.
pub open spec fn session_is(by: FindBy, value: u128) -> spec_fn(Session) -> bool {
    |row: Session| row.column(by) == value
}

/// The condition that a session does not hold `value` in the column `by`.
pub open spec fn session_is_not(by: FindBy, value: u128) -> spec_fn(Session) -> bool {
    |row: Session| row.column(by) != value
}

/// The first session that holds `value` in the column `by`.
pub open spec fn found_session(rows: Seq<Session>, by: FindBy, value: u128) -> Option<Session> {
    let i = first_index(rows, session_is(by, value));
    if i < rows.len() {
        Some(rows[i])
    } else {
        None
    }
}

/// No two rows belong to one user, and no two rows have one identifier.
pub open spec fn sessions_wf(rows: Seq<Session>) -> bool {
    forall|i: int, j: int|
        0 <= i < j < rows.len() ==> (#[trigger] rows[i]).sub != (#[trigger] rows[j]).sub
            && rows[i].uuid != rows[j].uuid
}

/// The number of rows that belong to a user.
pub open spec fn count_for(rows: Seq<Session>, sub: u128) -> nat {
    rows.filter(session_is(FindBy::Sub, sub)).len()
}

/// No two users have one identifier, nor usernames or emails that differ in
/// case only.
pub open spec fn users_wf(rows: Seq<UserView>) -> bool {
    forall|i: int, j: int|
        0 <= i < j < rows.len() ==> (#[trigger] rows[i]).uuid != (#[trigger] rows[j]).uuid && fold(
            rows[i].username,
        ) != fold(rows[j].username) && fold(rows[i].email) != fold(rows[j].email)
}

/// The users that a vector holds, as contracts see them.
pub open spec fn users_view(rows: Seq<User>) -> Seq<UserView> {
    rows.map_values(|user: User| user@)
}

/// The tables.
pub struct DB {
    users: Vec<User>,
    web: Vec<Session>,
    game: Vec<Session>,
    mobile: Vec<Session>,
}

/// The tables as contracts see them: the rows of each, in the order in which
/// they are kept.
pub struct DBView {
    pub users: Seq<UserView>,
    pub web: Seq<Session>,
    pub game: Seq<Session>,
    pub mobile: Seq<Session>,
}

impl DBView {
    /// The sessions of a client type.
    pub open spec fn sessions(self, client_type: ClientType) -> Seq<Session> {
        match client_type {
            ClientType::Web => self.web,
            ClientType::Game => self.game,
            ClientType::Mobile => self.mobile,
        }
    }

    /// The tables with the sessions of one client type replaced.
    pub open spec fn with_sessions(self, client_type: ClientType, rows: Seq<Session>) -> DBView {
        match client_type {
            ClientType::Web => DBView { web: rows, ..self },
            ClientType::Game => DBView { game: rows, ..self },
            ClientType::Mobile => DBView { mobile: rows, ..self },
        }
    }

    /// The tables with the users replaced.
    pub open spec fn with_users(self, rows: Seq<UserView>) -> DBView {
        DBView { users: rows, ..self }
    }

    /// Every table keeps its rule.
    pub open spec fn wf(self) -> bool {
        &&& users_wf(self.users)
        &&& sessions_wf(self.web)
        &&& sessions_wf(self.game)
        &&& sessions_wf(self.mobile)
    }
}

impl View for DB {
    type V = DBView;

    closed spec fn view(&self) -> DBView {
        DBView {
            users: users_view(self.users@),
            web: self.web@,
            game: self.game@,
            mobile: self.mobile@,
        }
    }
}

impl DB {
    /// The rule that every value of the tables keeps.
    #[verifier::type_invariant]
    pub open spec fn inv(&self) -> bool {
        self@.wf()
    }

    /// Empty tables.
    pub fn new() -> (db: DB)
        ensures
            db@ == (DBView {
                users: Seq::empty(),
                web: Seq::empty(),
                game: Seq::empty(),
                mobile: Seq::empty(),
            }),
            db@.wf(),
    {
        let db = DB { users: Vec::new(), web: Vec::new(), game: Vec::new(), mobile: Vec::new() };
        assert(users_view(db.users@) =~= Seq::empty());
        db
    }

    /// The sessions of a client type.
    pub(crate) fn table(&self, client_type: ClientType) -> (rows: &Vec<Session>)
        ensures
            rows@ == self@.sessions(client_type),
            self@.wf(),
    {
        proof {
            use_type_invariant(self);
        }
        match client_type {
            ClientType::Web => &self.web,
            ClientType::Game => &self.game,
            ClientType::Mobile => &self.mobile,
        }
    }

    /// Replaces the sessions of a client type.
    pub(crate) fn set_table(&mut self, client_type: ClientType, rows: Vec<Session>)
        requires
            sessions_wf(rows@),
        ensures
            final(self)@ == old(self)@.with_sessions(client_type, rows@),
            final(self)@.wf(),
    {
        proof {
            use_type_invariant(&*self);
        }
        match client_type {
            ClientType::Web => {
                self.web = rows;
            },
            ClientType::Game => {
                self.game = rows;
            },
            ClientType::Mobile => {
                self.mobile = rows;
            },
        }
    }

    /// The users.
    pub(crate) fn users(&self) -> (rows: &Vec<User>)
        ensures
            users_view(rows@) == self@.users,
            self@.wf(),
    {
        proof {
            use_type_invariant(self);
        }
        &self.users
    }

    /// Replaces the users.
    pub(crate) fn set_users(&mut self, rows: Vec<User>)
        requires
            users_wf(users_view(rows@)),
        ensures
            final(self)@ == old(self)@.with_users(users_view(rows@)),
            final(self)@.wf(),
    {
        proof {
            use_type_invariant(&*self);
        }
        self.users = rows;
    }
}

/// Why the tables refuse a change.
#[derive(Clone, Copy, Debug, PartialEq, Eq, Structural)]
pub enum DbError {
    /// The change would break the rule of the named constraint.
    UniqueViolation(Constraint),
    /// The row to change is not there.
    RowNotFound,
}

/// The rules that the tables keep.
#[derive(Clone, Copy, Debug, PartialEq, Eq, Structural)]
pub enum Constraint {
    /// No two users under one identifier.
    UserKey,
    /// No two users under one username.
    UserUsername,
    /// No two users under one email.
    UserEmail,
    /// No two sessions of a client type under one identifier.
    SessionKey(ClientType),
}

impl Constraint {
    /// The name of the constraint in the stored schema.
    pub open spec fn spec_name(self) -> Seq<char> {
        match self {
            Constraint::UserKey => "User_pkey"@,
            Constraint::UserUsername => "User_username_key"@,
            Constraint::UserEmail => "User_email_key"@,
            Constraint::SessionKey(ClientType::Web) => "WebSession_pkey"@,
            Constraint::SessionKey(ClientType::Game) => "GameSession_pkey"@,
            Constraint::SessionKey(ClientType::Mobile) => "MobileSession_pkey"@,
        }
    }

    /// The name of the constraint in the stored schema.
    pub fn name(self) -> (text: &'static str)
        ensures
            text@ == self.spec_name(),
    {
        match self {
            Constraint::UserKey => "User_pkey",
            Constraint::UserUsername => "User_username_key",
            Constraint::UserEmail => "User_email_key",
            Constraint::SessionKey(ClientType::Web) => "WebSession_pkey",
            Constraint::SessionKey(ClientType::Game) => "GameSession_pkey",
            Constraint::SessionKey(ClientType::Mobile) => "MobileSession_pkey",
        }
    }
}

/// The place of the first session that holds `value` in the column `by`; the
/// number of rows where none does.
pub open spec fn session_index(rows: Seq<Session>, by: FindBy, value: u128) -> int {
    first_index(rows, session_is(by, value))
}

/// Finds the place of the first session that holds `value` in the column
/// `by`.
pub fn find_session_index(rows: &Vec<Session>, by: FindBy, value: u128) -> (i: usize)
    ensures
        i == session_index(rows@, by, value),
        i <= rows.len(),
        i < rows.len() ==> rows@[i as int].column(by) == value,
        forall|j: int| 0 <= j < i ==> (#[trigger] rows@[j]).column(by) != value,
{
    let mut i: usize = 0;
    while i < rows.len()
        invariant
            i <= rows.len(),
            forall|j: int| 0 <= j < i ==> (#[trigger] rows@[j]).column(by) != value,
        decreases rows.len() - i,
    {
        if rows[i].get(by) == value {
            proof {
                lemma_first_index_is(rows@, session_is(by, value), i as int);
            }
            return i;
        }
        i = i + 1;
    }
    proof {
        lemma_first_index_is(rows@, session_is(by, value), i as int);
    }
    i
}

/// The row that a login writes: a new identifier, a new refresh token, an
/// end one refresh-token lifetime after `now`. Where the user already has a
/// row, the time of its last change stays.
pub open spec fn upsert_row(rows: Seq<Session>, sub: u128, uuid: u128, token: u128, now: i64) -> Session {
    let i = session_index(rows, FindBy::Sub, sub);
    Session {
        uuid,
        sub,
        token,
        exp: (now + 15552000) as i64,
        updated_at: if i < rows.len() {
            rows[i].updated_at
        } else {
            now
        },
        created_at: now,
    }
}

/// Whether a new identifier is already that of another user's session.
pub open spec fn upsert_clash(rows: Seq<Session>, sub: u128, uuid: u128) -> bool {
    let k = session_index(rows, FindBy::Uuid, uuid);
    k < rows.len() && rows[k].sub != sub
}

/// The rows after a row was written for its user: in place of the user's
/// row, or behind all rows where the user had none.
pub open spec fn upserted(rows: Seq<Session>, row: Session) -> Seq<Session> {
    let i = session_index(rows, FindBy::Sub, row.sub);
    if i < rows.len() {
        rows.update(i, row)
    } else {
        rows.push(row)
    }
}

/// What writing the row of a login does: the answer, and the tables
/// afterwards.
pub open spec fn upsert_outcome(
    before: DBView,
    client_type: ClientType,
    sub: u128,
    uuid: u128,
    token: u128,
    now: i64,
) -> (Result<Session, DbError>, DBView) {
    let rows = before.sessions(client_type);
    if upsert_clash(rows, sub, uuid) {
        (Err(DbError::UniqueViolation(Constraint::SessionKey(client_type))), before)
    } else {
        let row = upsert_row(rows, sub, uuid, token, now);
        (Ok(row), before.with_sessions(client_type, upserted(rows, row)))
    }
}

/// What rotating the refresh token of a session does: the answer, the
/// caller's copy of the session afterwards, and the tables afterwards.
pub open spec fn rotate_outcome(
    before: DBView,
    client_type: ClientType,
    session: Session,
    token: u128,
    now: i64,
) -> (Result<(), DbError>, Session, DBView) {
    let rows = before.sessions(client_type);
    let exp = (now + 15552000) as i64;
    if session_index(rows, FindBy::Uuid, session.uuid) < rows.len() {
        (
            Ok(()),
            Session { token, exp, ..session },
            before.with_sessions(client_type, rotated(rows, session.uuid, token, exp)),
        )
    } else {
        (Err(DbError::RowNotFound), Session { exp, ..session }, before)
    }
}

/// The rows after the session `uuid` was given a new refresh token and a new
/// end. Nothing else changes.
pub open spec fn rotated(rows: Seq<Session>, uuid: u128, token: u128, exp: i64) -> Seq<Session> {
    let i = session_index(rows, FindBy::Uuid, uuid);
    if i < rows.len() {
        rows.update(i, Session { token, exp, ..rows[i] })
    } else {
        rows
    }
}

/// The rows that are left when those that hold `value` in the column `by`
/// are deleted.
pub open spec fn without(rows: Seq<Session>, by: FindBy, value: u128) -> Seq<Session> {
    rows.filter(session_is_not(by, value))
}

impl Session {
    /// Finds the session that holds `value` in the column `by`; the first
    /// one, where there are several.
    pub fn find_by(db: &DB, client_type: ClientType, value: u128, by: FindBy) -> (found: Option<
        Session,
    >)
        ensures
            found == found_session(db@.sessions(client_type), by, value),
            found matches Some(row) ==> row.column(by) == value,
            db@.wf(),
    {
        let rows = db.table(client_type);
        let i = find_session_index(rows, by, value);
        if i < rows.len() {
            Some(rows[i])
        } else {
            None
        }
    }

    /// Writes the row of a login at the time `now`: the user's session of
    /// this client type, under the new identifier `uuid` and with the new
    /// refresh token `token`, in place of the session that the user may have
    /// had. The tables refuse an identifier that another user's session has,
    /// and then stay as they are.
    pub fn upsert(
        db: &mut DB,
        client_type: ClientType,
        sub: u128,
        uuid: u128,
        token: u128,
        now: i64,
    ) -> (res: Result<Session, DbError>)
        requires
            now + 15552000 <= i64::MAX,
        ensures
            final(db)@.wf(),
            (res, final(db)@) == upsert_outcome(old(db)@, client_type, sub, uuid, token, now),
            res matches Ok(row) ==> row.exp > now && row.sub == sub && row.uuid == uuid && row.token
                == token,
    {
        let rows = db.table(client_type);
        let i = find_session_index(rows, FindBy::Sub, sub);
        let k = find_session_index(rows, FindBy::Uuid, uuid);
        if k < rows.len() && rows[k].sub != sub {
            return Err(DbError::UniqueViolation(Constraint::SessionKey(client_type)));
        }
        let row = Session {
            uuid,
            sub,
            token,
            exp: now + 15552000,
            updated_at: if i < rows.len() {
                rows[i].updated_at
            } else {
                now
            },
            created_at: now,
        };
        let ghost before = rows@;
        let mut next = rows.clone();
        assert(next@ =~= before);
        if i < next.len() {
            next.set(i, row);
        } else {
            next.push(row);
        }
        assert(next@ =~= upserted(before, row));
        assert(sessions_wf(next@)) by {
            assert forall|a: int, b: int| 0 <= a < b < next@.len() implies (#[trigger] next@[a]).sub
                != (#[trigger] next@[b]).sub && next@[a].uuid != next@[b].uuid by {
                if a < before.len() && a != i {
                    assert(next@[a] == before[a]);
                }
                if b < before.len() && b != i {
                    assert(next@[b] == before[b]);
                }
                if a < before.len() && b < before.len() {
                    assert(before[a].sub != before[b].sub);
                }
            }
        }
        db.set_table(client_type, next);
        Ok(row)
    }

    /// Deletes the sessions that hold `value` in the column `by`, and tells
    /// how many they were.
    pub fn delete_by(db: &mut DB, client_type: ClientType, value: u128, by: FindBy) -> (gone: u64)
        ensures
            final(db)@.wf(),
            final(db)@ == old(db)@.with_sessions(
                client_type,
                without(old(db)@.sessions(client_type), by, value),
            ),
            gone == old(db)@.sessions(client_type).len() - final(db)@.sessions(client_type).len(),
    {
        let rows = db.table(client_type);
        let ghost before = rows@;
        let ghost keep = session_is_not(by, value);
        let mut next: Vec<Session> = Vec::new();
        let mut gone: u64 = 0;
        let mut i: usize = 0;
        proof {
            reveal(Seq::filter);
            assert(before.take(0) =~= Seq::<Session>::empty());
        }
        while i < rows.len()
            invariant
                i <= rows.len(),
                rows@ == before,
                sessions_wf(before),
                keep == session_is_not(by, value),
                next@ == before.take(i as int).filter(keep),
                gone + next@.len() == i,
                sessions_wf(next@),
                forall|a: int, j: int|
                    0 <= a < next@.len() && i <= j < before.len() ==> (#[trigger] next@[a]).sub != (
                    #[trigger] before[j]).sub && next@[a].uuid != before[j].uuid,
            decreases rows.len() - i,
        {
            let row = rows[i];
            proof {
                assert(before.take(i + 1) =~= before.take(i as int).push(before[i as int]));
                before.take(i as int).lemma_filter_push(before[i as int], keep);
            }
            if row.get(by) != value {
                next.push(row);
            } else {
                gone = gone + 1;
            }
            i = i + 1;
        }
        assert(before.take(i as int) =~= before);
        db.set_table(client_type, next);
        gone
    }

    /// Deletes this session, and tells how many rows went.
    pub fn delete(&self, db: &mut DB, client_type: ClientType) -> (gone: u64)
        ensures
            final(db)@.wf(),
            final(db)@ == old(db)@.with_sessions(
                client_type,
                without(old(db)@.sessions(client_type), FindBy::Uuid, self.uuid),
            ),
            gone == old(db)@.sessions(client_type).len() - final(db)@.sessions(client_type).len(),
    {
        Self::delete_by(db, client_type, self.uuid, FindBy::Uuid)
    }

    /// Rotates the refresh token of this session at the time `now`: the
    /// stored row gets the new token and an end one refresh-token lifetime
    /// after `now`, and so does this copy of it. Where the row is gone, the
    /// tables stay as they are and only the end of this copy changes.
    pub fn rotate(&mut self, db: &mut DB, client_type: ClientType, token: u128, now: i64) -> (res:
        Result<(), DbError>)
        requires
            now + 15552000 <= i64::MAX,
        ensures
            final(db)@.wf(),
            (res, *final(self), final(db)@) == rotate_outcome(
                old(db)@,
                client_type,
                *old(self),
                token,
                now,
            ),
    {
        self.exp = now + 15552000;
        let rows = db.table(client_type);
        let i = find_session_index(rows, FindBy::Uuid, self.uuid);
        if i >= rows.len() {
            return Err(DbError::RowNotFound);
        }
        let ghost before = rows@;
        let mut next = rows.clone();
        assert(next@ =~= before);
        let row = Session { token, exp: self.exp, ..rows[i] };
        next.set(i, row);
        assert(sessions_wf(next@)) by {
            assert forall|a: int, b: int| 0 <= a < b < next@.len() implies (#[trigger] next@[a]).sub
                != (#[trigger] next@[b]).sub && next@[a].uuid != next@[b].uuid by {
                assert(before[a].sub != before[b].sub);
                assert(next@[a].sub == before[a].sub && next@[a].uuid == before[a].uuid);
                assert(next@[b].sub == before[b].sub && next@[b].uuid == before[b].uuid);
            }
        }
        db.set_table(client_type, next);
        self.token = token;
        Ok(())
    }
}

impl Session {
    /// Writes the row of a login now, under a fresh random identifier and
    /// with a fresh random refresh token.
    pub fn new(db: &mut DB, client_type: ClientType, sub: u128) -> (res: Result<Session, DbError>)
        ensures
            final(db)@.wf(),
            exists|uuid: u128, token: u128, now: i64|
                is_random_id(uuid) && is_random_id(token) && is_moment(now) && (res, final(db)@)
                    == #[trigger] upsert_outcome(old(db)@, client_type, sub, uuid, token, now),
    {
        let uuid = fresh_id();
        let token = fresh_id();
        let moment = now();
        let res = Self::upsert(db, client_type, sub, uuid, token, moment);
        assert(is_random_id(uuid) && is_random_id(token) && is_moment(moment) && (res, db@)
            == upsert_outcome(old(db)@, client_type, sub, uuid, token, moment));
        res
    }

    /// Rotates the refresh token of this session now, to a fresh random
    /// token.
    pub fn refresh(&mut self, db: &mut DB, client_type: ClientType) -> (res: Result<(), DbError>)
        ensures
            final(db)@.wf(),
            exists|token: u128, now: i64|
                is_random_id(token) && is_moment(now) && (res, *final(self), final(db)@)
                    == #[trigger] rotate_outcome(old(db)@, client_type, *old(self), token, now),
    {
        let token = fresh_id();
        let moment = now();
        let res = self.rotate(db, client_type, token, moment);
        assert(is_random_id(token) && is_moment(moment) && (res, *self, db@) == rotate_outcome(
            old(db)@,
            client_type,
            *old(self),
            token,
            moment,
        ));
        res
    }
}

/// At no time does a table hold two sessions of one user: under the rule of
/// the tables, the rows of a table that belong to a user are one at most.
pub proof fn lemma_one_session_per_user(db: DBView, client_type: ClientType, sub: u128)
    requires
        db.wf(),
    ensures
        count_for(db.sessions(client_type), sub) <= 1,
{
    lemma_count_for(db.sessions(client_type), sub);
}

/// Among rows of which no two belong to one user, those of a user are one at
/// most.
pub proof fn lemma_count_for(rows: Seq<Session>, sub: u128)
    requires
        sessions_wf(rows),
    ensures
        count_for(rows, sub) <= 1,
    decreases rows.len(),
{
    reveal(Seq::filter);
    if rows.len() > 0 {
        let front = rows.drop_last();
        let pred = session_is(FindBy::Sub, sub);
        assert(sessions_wf(front)) by {
            assert forall|i: int, j: int| 0 <= i < j < front.len() implies (#[trigger] front[i]).sub
                != (#[trigger] front[j]).sub && front[i].uuid != front[j].uuid by {
                assert(front[i] == rows[i] && front[j] == rows[j]);
            }
        }
        lemma_count_for(front, sub);
        if pred(rows.last()) {
            assert(front.all(|row: Session| !pred(row))) by {
                assert forall|i: int| 0 <= i < front.len() implies !pred(#[trigger] front[i]) by {
                    assert(front[i] == rows[i]);
                    assert(rows[i].sub != rows[rows.len() - 1].sub);
                }
            }
            front.lemma_all_neg_filter_empty(pred);
        }
    }
}

/// Once a session's refresh token is rotated, the stored session holds the
/// new token and no other: looked for by its identifier, the session shows
/// the new token, and so the old one, if it differs, matches no more.
pub proof fn lemma_rotation_replaces_token(
    db: DBView,
    client_type: ClientType,
    session: Session,
    token: u128,
    now: i64,
)
    requires
        db.wf(),
        found_session(db.sessions(client_type), FindBy::Uuid, session.uuid) == Some(session),
    ensures
        rotate_outcome(db, client_type, session, token, now).0 is Ok,
        found_session(
            rotate_outcome(db, client_type, session, token, now).2.sessions(client_type),
            FindBy::Uuid,
            session.uuid,
        ) == Some(rotate_outcome(db, client_type, session, token, now).1),
        rotate_outcome(db, client_type, session, token, now).1.token == token,
        rotate_outcome(db, client_type, session, token, now).1.uuid == session.uuid,
{
    let rows = db.sessions(client_type);
    let pred = session_is(FindBy::Uuid, session.uuid);
    lemma_first_index(rows, pred);
    let i = first_index(rows, pred);
    let exp = (now + 15552000) as i64;
    let after = rotated(rows, session.uuid, token, exp);
    assert(after == rows.update(i, Session { token, exp, ..rows[i] }));
    assert forall|j: int| 0 <= j < i implies !pred(#[trigger] after[j]) by {
        assert(after[j] == rows[j]);
    }
    assert(pred(after[i]));
    lemma_first_index_is(after, pred, i);
}

/// The condition that a user has the identifier `uuid`.
pub open spec fn user_has_id(uuid: u128) -> spec_fn(UserView) -> bool {
    |user: UserView| user.uuid == uuid
}

/// The condition that a user has the username `name`, but for case.
pub open spec fn user_has_name(name: Seq<char>) -> spec_fn(UserView) -> bool {
    |user: UserView| fold(user.username) == fold(name)
}

/// The condition that a user has the email `email`, but for case.
pub open spec fn user_has_email(email: Seq<char>) -> spec_fn(UserView) -> bool {
    |user: UserView| fold(user.email) == fold(email)
}

/// The first user that meets a condition.
pub open spec fn found_user(rows: Seq<UserView>, pred: spec_fn(UserView) -> bool) -> Option<
    UserView,
> {
    let i = first_index(rows, pred);
    if i < rows.len() {
        Some(rows[i])
    } else {
        None
    }
}

/// What storing a new user does: the answer, and the tables afterwards. The
/// tables refuse a user whose identifier, username or email another user has,
/// naming the first of these rules that is broken, and then stay as they are.
/// Else the user goes behind all others and one row is counted.
pub open spec fn insert_outcome(before: DBView, user: UserView) -> (Result<u64, DbError>, DBView) {
    let rows = before.users;
    if first_index(rows, user_has_id(user.uuid)) < rows.len() {
        (Err(DbError::UniqueViolation(Constraint::UserKey)), before)
    } else if first_index(rows, user_has_name(user.username)) < rows.len() {
        (Err(DbError::UniqueViolation(Constraint::UserUsername)), before)
    } else if first_index(rows, user_has_email(user.email)) < rows.len() {
        (Err(DbError::UniqueViolation(Constraint::UserEmail)), before)
    } else {
        (Ok(1), before.with_users(rows.push(user)))
    }
}

/// What replacing the password of the user `uuid` does: the number of rows
/// changed, and the tables afterwards.
pub open spec fn password_outcome(before: DBView, uuid: u128, password: Seq<char>) -> (u64, DBView) {
    let rows = before.users;
    let i = first_index(rows, user_has_id(uuid));
    if i < rows.len() {
        (1, before.with_users(rows.update(i, UserView { password, ..rows[i] })))
    } else {
        (0, before)
    }
}

impl DB {
    /// Takes the users out, leaving none.
    fn take_users(&mut self) -> (rows: Vec<User>)
        ensures
            users_view(rows@) == old(self)@.users,
            users_wf(users_view(rows@)),
            final(self)@ == old(self)@.with_users(Seq::empty()),
    {
        proof {
            use_type_invariant(&*self);
        }
        let mut rows: Vec<User> = Vec::new();
        assert(users_view(rows@) =~= Seq::empty());
        std::mem::swap(&mut self.users, &mut rows);
        rows
    }
}

/// Finds the place of the user with the identifier `uuid`.
pub fn find_user_index_by_uuid(rows: &Vec<User>, uuid: u128) -> (i: usize)
    ensures
        i == first_index(users_view(rows@), user_has_id(uuid)),
        i <= rows.len(),
{
    let ghost all = users_view(rows@);
    let mut i: usize = 0;
    while i < rows.len()
        invariant
            i <= rows.len(),
            all == users_view(rows@),
            forall|j: int| 0 <= j < i ==> (#[trigger] all[j]).uuid != uuid,
        decreases rows.len() - i,
    {
        if rows[i].uuid == uuid {
            proof {
                lemma_first_index_is(all, user_has_id(uuid), i as int);
            }
            return i;
        }
        i = i + 1;
    }
    proof {
        lemma_first_index_is(all, user_has_id(uuid), i as int);
    }
    i
}

/// Finds the place of the user with the username `name`, but for case.
pub fn find_user_index_by_name(rows: &Vec<User>, name: &str) -> (i: usize)
    ensures
        i == first_index(users_view(rows@), user_has_name(name@)),
        i <= rows.len(),
{
    let ghost all = users_view(rows@);
    let mut i: usize = 0;
    while i < rows.len()
        invariant
            i <= rows.len(),
            all == users_view(rows@),
            forall|j: int| 0 <= j < i ==> fold((#[trigger] all[j]).username) != fold(name@),
        decreases rows.len() - i,
    {
        if eq_ignore_case(rows[i].username.as_str(), name) {
            proof {
                lemma_first_index_is(all, user_has_name(name@), i as int);
            }
            return i;
        }
        i = i + 1;
    }
    proof {
        lemma_first_index_is(all, user_has_name(name@), i as int);
    }
    i
}

/// Finds the place of the user with the email `email`, but for case.
pub fn find_user_index_by_email(rows: &Vec<User>, email: &str) -> (i: usize)
    ensures
        i == first_index(users_view(rows@), user_has_email(email@)),
        i <= rows.len(),
{
    let ghost all = users_view(rows@);
    let mut i: usize = 0;
    while i < rows.len()
        invariant
            i <= rows.len(),
            all == users_view(rows@),
            forall|j: int| 0 <= j < i ==> fold((#[trigger] all[j]).email) != fold(email@),
        decreases rows.len() - i,
    {
        if rows[i].email.matches(email) {
            proof {
                lemma_first_index_is(all, user_has_email(email@), i as int);
            }
            return i;
        }
        i = i + 1;
    }
    proof {
        lemma_first_index_is(all, user_has_email(email@), i as int);
    }
    i
}

impl User {
    /// Finds the user with the given username. Case does not count.
    pub fn find_by_username(db: &DB, username: &str) -> (found: Option<User>)
        ensures
            db@.wf(),
            match found {
                Some(user) => found_user(db@.users, user_has_name(username@)) == Some(user@),
                None => found_user(db@.users, user_has_name(username@)) is None,
            },
    {
        let rows = db.users();
        let i = find_user_index_by_name(rows, username);
        if i < rows.len() {
            Some(rows[i].copy())
        } else {
            None
        }
    }

    /// Finds the user with the given identifier.
    pub fn find_by_uuid(db: &DB, uuid: u128) -> (found: Option<User>)
        ensures
            db@.wf(),
            match found {
                Some(user) => found_user(db@.users, user_has_id(uuid)) == Some(user@),
                None => found_user(db@.users, user_has_id(uuid)) is None,
            },
    {
        let rows = db.users();
        let i = find_user_index_by_uuid(rows, uuid);
        if i < rows.len() {
            Some(rows[i].copy())
        } else {
            None
        }
    }

    /// Stores this user as a new one, and tells how many rows were written.
    pub fn insert(&self, db: &mut DB) -> (res: Result<u64, DbError>)
        ensures
            final(db)@.wf(),
            (res, final(db)@) == insert_outcome(old(db)@, self@),
    {
        let rows = db.users();
        if find_user_index_by_uuid(rows, self.uuid) < rows.len() {
            return Err(DbError::UniqueViolation(Constraint::UserKey));
        }
        if find_user_index_by_name(rows, self.username.as_str()) < rows.len() {
            return Err(DbError::UniqueViolation(Constraint::UserUsername));
        }
        if find_user_index_by_email(rows, self.email.as_str()) < rows.len() {
            return Err(DbError::UniqueViolation(Constraint::UserEmail));
        }
        let mut rows = db.take_users();
        let ghost before = users_view(rows@);
        rows.push(self.copy());
        proof {
            let after = users_view(rows@);
            assert(after =~= before.push(self@));
            lemma_first_index(before, user_has_id(self.uuid));
            lemma_first_index(before, user_has_name(self.username@));
            lemma_first_index(before, user_has_email(self.email@));
            assert forall|i: int, j: int| 0 <= i < j < after.len() implies (#[trigger] after[i]).uuid
                != (#[trigger] after[j]).uuid && fold(after[i].username) != fold(after[j].username)
                && fold(after[i].email) != fold(after[j].email) by {
                if j < before.len() {
                    assert(after[i] == before[i] && after[j] == before[j]);
                } else {
                    assert(after[i] == before[i]);
                    assert(!user_has_id(self.uuid)(before[i]));
                    assert(!user_has_name(self.username@)(before[i]));
                    assert(!user_has_email(self.email@)(before[i]));
                }
            }
        }
        db.set_users(rows);
        assert(db@ =~= old(db)@.with_users(before.push(self@)));
        Ok(1)
    }

    /// Stores this user's password in place of the one that the stored user
    /// of the same identifier has, and tells how many rows were changed.
    pub fn update_password(&self, db: &mut DB) -> (changed: u64)
        ensures
            final(db)@.wf(),
            (changed, final(db)@) == password_outcome(old(db)@, self.uuid, self.password@),
    {
        let i = find_user_index_by_uuid(db.users(), self.uuid);
        if i >= db.users().len() {
            return 0;
        }
        let mut rows = db.take_users();
        let ghost before = users_view(rows@);
        let mut user = rows[i].copy();
        user.password = self.password.clone();
        rows.set(i, user);
        proof {
            let after = users_view(rows@);
            assert(after =~= before.update(i as int, UserView { password: self.password@, ..before[i as int] }));
            assert forall|a: int, b: int| 0 <= a < b < after.len() implies (#[trigger] after[a]).uuid
                != (#[trigger] after[b]).uuid && fold(after[a].username) != fold(after[b].username)
                && fold(after[a].email) != fold(after[b].email) by {
                assert(before[a].uuid != before[b].uuid);
                assert(after[a].uuid == before[a].uuid && after[a].username == before[a].username
                    && after[a].email == before[a].email);
                assert(after[b].uuid == before[b].uuid && after[b].username == before[b].username
                    && after[b].email == before[b].email);
            }
        }
        db.set_users(rows);
        assert(db@ =~= old(db)@.with_users(
            before.update(i as int, UserView { password: self.password@, ..before[i as int] }),
        ));
        1
    }
}

/// After a login wrote its row, the user's session is that row, under the
/// user and under the row's identifier, and the table keeps its rule.
pub proof fn lemma_upserted_is_found(rows: Seq<Session>, row: Session)
    requires
        sessions_wf(rows),
        !upsert_clash(rows, row.sub, row.uuid),
    ensures
        sessions_wf(upserted(rows, row)),
        found_session(upserted(rows, row), FindBy::Sub, row.sub) == Some(row),
        found_session(upserted(rows, row), FindBy::Uuid, row.uuid) == Some(row),
{
    let by_sub = session_is(FindBy::Sub, row.sub);
    let by_uuid = session_is(FindBy::Uuid, row.uuid);
    lemma_first_index(rows, by_sub);
    lemma_first_index(rows, by_uuid);
    let i = first_index(rows, by_sub);
    let k = first_index(rows, by_uuid);
    let after = upserted(rows, row);
    assert forall|j: int| 0 <= j < i implies !by_sub(#[trigger] after[j]) && !by_uuid(after[j]) by {
        assert(after[j] == rows[j]);
        assert(!by_sub(rows[j]));
        if by_uuid(rows[j]) {
            assert(k <= j) by {
                if j < k {
                    assert(!by_uuid(rows[j]));
                }
            }
            assert(rows[k].sub == row.sub);
            if k != j {
                assert(rows[k].uuid != rows[j].uuid);
            }
        }
    }
    assert(by_sub(after[i]) && by_uuid(after[i]));
    lemma_first_index_is(after, by_sub, i);
    lemma_first_index_is(after, by_uuid, i);
    assert forall|a: int, b: int| 0 <= a < b < after.len() implies (#[trigger] after[a]).sub != (
    #[trigger] after[b]).sub && after[a].uuid != after[b].uuid by {
        if a != i && a < rows.len() {
            assert(after[a] == rows[a]);
            assert(!by_sub(rows[a])) by {
                if i < rows.len() && a != i {
                    assert(rows[a].sub != rows[i].sub);
                }
            }
        }
        if b != i && b < rows.len() {
            assert(after[b] == rows[b]);
            assert(!by_sub(rows[b])) by {
                if i < rows.len() && b != i {
                    assert(rows[b].sub != rows[i].sub);
                }
            }
        }
        if a < rows.len() && b < rows.len() {
            assert(rows[a].sub != rows[b].sub);
        }
        if a != i && by_uuid(rows[a]) {
            assert(k <= a) by {
                if a < k {
                    assert(!by_uuid(rows[a]));
                }
            }
            if k != a {
                assert(rows[k].uuid != rows[a].uuid);
            }
        }
        if b != i && b < rows.len() && by_uuid(rows[b]) {
            assert(k <= b) by {
                if b < k {
                    assert(!by_uuid(rows[b]));
                }
            }
            if k != b {
                assert(rows[k].uuid != rows[b].uuid);
            }
        }
    }
}

/// A login of one user leaves the sessions of every other user as they
/// were.
pub proof fn lemma_upserted_spares_others(rows: Seq<Session>, row: Session, other: u128)
    requires
        other != row.sub,
    ensures
        found_session(upserted(rows, row), FindBy::Sub, other) == found_session(
            rows,
            FindBy::Sub,
            other,
        ),
{
    let by_sub = session_is(FindBy::Sub, row.sub);
    let by_other = session_is(FindBy::Sub, other);
    lemma_first_index(rows, by_sub);
    lemma_first_index(rows, by_other);
    let i = first_index(rows, by_sub);
    let m = first_index(rows, by_other);
    let after = upserted(rows, row);
    assert(m != i || m == rows.len());
    assert forall|j: int| 0 <= j < m implies !by_other(#[trigger] after[j]) by {
        if j != i {
            assert(after[j] == rows[j]);
        }
    }
    if m < rows.len() {
        assert(after[m] == rows[m]);
        lemma_first_index_is(after, by_other, m);
    } else {
        if i == rows.len() {
            assert(after[m] == row);
            lemma_first_index_is(after, by_other, m + 1);
        } else {
            lemma_first_index_is(after, by_other, m);
        }
    }
}

/// Once the sessions that hold a value in a column are deleted, no session
/// is found under that value, and the table keeps its rule.
pub proof fn lemma_without_finds_none(rows: Seq<Session>, by: FindBy, value: u128)
    requires
        sessions_wf(rows),
    ensures
        found_session(without(rows, by, value), by, value) is None,
        sessions_wf(without(rows, by, value)),
        without(rows, by, value).len() <= rows.len(),
    decreases rows.len(),
{
    reveal(Seq::filter);
    let keep = session_is_not(by, value);
    let left = without(rows, by, value);
    rows.lemma_filter_len(keep);
    lemma_first_index(left, session_is(by, value));
    let i = first_index(left, session_is(by, value));
    if i < left.len() {
        rows.lemma_filter_pred(keep, i);
        assert(keep(left[i]));
    }
    assert forall|a: int, b: int| 0 <= a < b < left.len() implies (#[trigger] left[a]).sub != (
    #[trigger] left[b]).sub && left[a].uuid != left[b].uuid by {
        lemma_filter_keeps_order(rows, keep, a, b);
    }
}

/// Two rows that a filter leaves, one before the other, stood in that order
/// in the rows that were filtered.
proof fn lemma_filter_keeps_order(rows: Seq<Session>, keep: spec_fn(Session) -> bool, a: int, b: int)
    requires
        0 <= a < b < rows.filter(keep).len(),
    ensures
        exists|i: int, j: int|
            0 <= i < j < rows.len() && #[trigger] rows[i] == rows.filter(keep)[a] && #[trigger] rows[j]
                == rows.filter(keep)[b],
    decreases rows.len(),
{
    reveal(Seq::filter);
    if rows.len() > 0 {
        let front = rows.drop_last();
        let left = front.filter(keep);
        if keep(rows.last()) && b == left.len() {
            assert(left[a] == rows.filter(keep)[a]);
            assert(left.contains(left[a]));
            front.lemma_filter_contains_rev(keep, left[a]);
            assert(front.contains(left[a]));
            let i = choose|i: int| 0 <= i < front.len() && front[i] == left[a];
            assert(rows[i] == rows.filter(keep)[a]);
            assert(rows[rows.len() - 1] == rows.filter(keep)[b]);
        } else {
            assert(b < left.len());
            lemma_filter_keeps_order(front, keep, a, b);
            let (i, j) = choose|i: int, j: int|
                0 <= i < j < front.len() && #[trigger] front[i] == left[a] && #[trigger] front[j]
                    == left[b];
            assert(rows[i] == rows.filter(keep)[a]);
            assert(rows[j] == rows.filter(keep)[b]);
        }
    }
}

/// Under the rule of a table, a user whose session is found has that one
/// row there, and a user whose session is not found has none.
pub proof fn lemma_found_is_counted(rows: Seq<Session>, sub: u128)
    requires
        sessions_wf(rows),
    ensures
        count_for(rows, sub) == if found_session(rows, FindBy::Sub, sub) is Some {
            1nat
        } else {
            0nat
        },
{
    let pred = session_is(FindBy::Sub, sub);
    lemma_first_index(rows, pred);
    lemma_count_for(rows, sub);
    let i = first_index(rows, pred);
    if i < rows.len() {
        rows.lemma_filter_contains(pred, i);
        assert(rows.filter(pred).len() > 0);
    } else {
        assert(rows.all(|row: Session| !pred(row)));
        rows.lemma_all_neg_filter_empty(pred);
    }
}

/// Behind rows of which none meets a condition, a row that meets it is the
/// first to do so.
pub proof fn lemma_pushed_is_first<T>(rows: Seq<T>, pred: spec_fn(T) -> bool, row: T)
    requires
        first_index(rows, pred) >= rows.len(),
        pred(row),
    ensures
        first_index(rows.push(row), pred) == rows.len(),
        rows.push(row)[rows.len() as int] == row,
{
    lemma_first_index(rows, pred);
    let after = rows.push(row);
    assert forall|j: int| 0 <= j < rows.len() implies !pred(#[trigger] after[j]) by {
        assert(after[j] == rows[j]);
    }
    lemma_first_index_is(after, pred, rows.len() as int);
}

} // verus!
