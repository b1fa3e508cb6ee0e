//! Rolling sessions: issued at login, renewed on every use, gone for good
//! once they expire.

use vstd::prelude::*;
use crate::bearer::{bearer_token, bearer_token_of};
use crate::clock::{is_clock_reading, utc_now_millis, Timestamp, MAX_TIMESTAMP};
use crate::ids::fresh_id;
use crate::requests::{opt_text, Session, SessionView};
use crate::text::same_text;

verus! {

/// How long a session lives after its last use, in days.
pub const SESSION_DURATION_DAYS: i64 = 10;

/// The milliseconds of a day.
pub const MILLIS_PER_DAY: i64 = 86_400_000;

/// The instant at which a session that is used at `now` expires.
pub open spec fn expiry_after(now: Timestamp) -> int {
    now + SESSION_DURATION_DAYS * MILLIS_PER_DAY
}

/// The instant at which a session that is used at `now` expires.
pub fn session_expiry(now: Timestamp) -> (expiry: Timestamp)
    requires
        now <= MAX_TIMESTAMP,
    ensures
        expiry == expiry_after(now),
{
    now + SESSION_DURATION_DAYS * MILLIS_PER_DAY
}

/// The instant at which a session that is used right now expires: some
/// reading of the clock plus the session's lifetime.
pub fn get_session_expiry() -> (expiry: Timestamp)
    ensures
        exists|reading: Timestamp|
            is_clock_reading(reading) && expiry == #[trigger] expiry_after(reading),
{
    let reading = utc_now_millis();
    session_expiry(reading)
}

/// A session as the authority stores it.
#[derive(Debug, PartialEq)]
pub struct SessionRecord {
    pub session_id: String,
    pub user_id: String,
    pub expires_at: Timestamp,
}

/// What a session id stands for.
pub struct SessionInfo {
    pub user_id: Seq<char>,
    pub expires_at: Timestamp,
}

impl SessionRecord {
    /// What the record says of its session id.
    pub open spec fn info(&self) -> SessionInfo {
        SessionInfo { user_id: self.user_id@, expires_at: self.expires_at }
    }
}

/// The sessions of an authority: for each known session id the user it is
/// bound to and the instant it expires.
pub type Sessions = Map<Seq<char>, SessionInfo>;

/// What the check of a session id decides.
#[derive(Debug, PartialEq)]
pub enum SessionCheck {
    /// No such session: reject.
    Unknown,
    /// The session is past its expiry: delete it and reject.
    Expired,
    /// The session is good: store the new expiry and let `user_id` in.
    Renewed { user_id: String, expires_at: Timestamp },
}

/// Decides what becomes of a request under a session id, given what is
/// stored under that id and the instant `now`.
pub fn check_session(found: Option<&SessionRecord>, now: Timestamp) -> (check: SessionCheck)
    requires
        now <= MAX_TIMESTAMP,
    ensures
        match found {
            None => check is Unknown,
            Some(record) => if record.expires_at < now {
                check is Expired
            } else {
                &&& check matches SessionCheck::Renewed { user_id, expires_at }
                &&& user_id@ == record.user_id@
                &&& expires_at == expiry_after(now)
            },
        },
{
    match found {
        None => SessionCheck::Unknown,
        Some(record) => {
            if record.expires_at < now {
                SessionCheck::Expired
            } else {
                SessionCheck::Renewed {
                    user_id: record.user_id.clone(),
                    expires_at: session_expiry(now),
                }
            }
        },
    }
}

/// The sessions after `session_id` was presented at `now`: an expired
/// session is deleted, a good one gets a new expiry, and nothing changes for
/// an unknown id.
pub open spec fn validated(sessions: Sessions, session_id: Seq<char>, now: Timestamp) -> Sessions {
    if !sessions.contains_key(session_id) {
        sessions
    } else if sessions[session_id].expires_at < now {
        sessions.remove(session_id)
    } else {
        sessions.insert(
            session_id,
            SessionInfo {
                user_id: sessions[session_id].user_id,
                expires_at: expiry_after(now) as Timestamp,
            },
        )
    }
}

/// The user that `session_id` lets in at `now`, if it lets anyone in.
pub open spec fn admitted(sessions: Sessions, session_id: Seq<char>, now: Timestamp) -> Option<
    Seq<char>,
> {
    if sessions.contains_key(session_id) && sessions[session_id].expires_at >= now {
        Some(sessions[session_id].user_id)
    } else {
        None
    }
}

/// The sessions that a list of records stands for.
pub open spec fn table(records: Seq<SessionRecord>) -> Sessions
    decreases records.len(),
{
    if records.len() == 0 {
        Map::empty()
    } else {
        table(records.drop_last()).insert(records.last().session_id@, records.last().info())
    }
}

/// No two records share a session id.
pub open spec fn distinct_sessions(records: Seq<SessionRecord>) -> bool {
    forall|i: int, j: int|
        0 <= i < j < records.len() ==> records[i].session_id@ != records[j].session_id@
}

/// A session id is known exactly when a record carries it, and then the
/// table says what that record says.
proof fn lemma_table(records: Seq<SessionRecord>, id: Seq<char>)
    requires
        distinct_sessions(records),
    ensures
        table(records).contains_key(id) <==> exists|i: int|
            0 <= i < records.len() && (#[trigger] records[i]).session_id@ == id,
        forall|i: int|
            0 <= i < records.len() && (#[trigger] records[i]).session_id@ == id ==> table(
                records,
            )[id] == records[i].info(),
    decreases records.len(),
{
    if records.len() > 0 {
        let rest = records.drop_last();
        let last = records.len() - 1;
        lemma_table(rest, id);
        if records[last].session_id@ != id {
            assert(table(records).contains_key(id) == table(rest).contains_key(id));
            if table(rest).contains_key(id) {
                let i = choose|i: int| 0 <= i < rest.len() && (#[trigger] rest[i]).session_id@ == id;
                assert(records[i].session_id@ == id);
            }
            if exists|i: int| 0 <= i < records.len() && (#[trigger] records[i]).session_id@ == id {
                let i = choose|i: int|
                    0 <= i < records.len() && (#[trigger] records[i]).session_id@ == id;
                assert(rest[i].session_id@ == id);
            }
            assert forall|i: int|
                0 <= i < records.len() && (#[trigger] records[i]).session_id@ == id implies table(
                records,
            )[id] == records[i].info() by {
                assert(rest[i] == records[i]);
            }
        } else {
            assert(records[last].session_id@ == id);
            assert forall|i: int|
                0 <= i < records.len() && (#[trigger] records[i]).session_id@ == id implies table(
                records,
            )[id] == records[i].info() by {
                assert(i == last);
            }
        }
    }
}

/// Replacing a record by one of the same session id replaces what the table
/// says of that id.
proof fn lemma_table_update(records: Seq<SessionRecord>, i: int, record: SessionRecord)
    requires
        distinct_sessions(records),
        0 <= i < records.len(),
        record.session_id@ == records[i].session_id@,
    ensures
        distinct_sessions(records.update(i, record)),
        table(records.update(i, record)) == table(records).insert(
            record.session_id@,
            record.info(),
        ),
    decreases records.len(),
{
    let after = records.update(i, record);
    let rest = records.drop_last();
    if i == records.len() - 1 {
        assert(after.drop_last() =~= rest);
        assert(table(after) =~= table(records).insert(record.session_id@, record.info()));
    } else {
        lemma_table_update(rest, i, record);
        assert(after.drop_last() =~= rest.update(i, record));
        assert(after.last() == records.last());
        assert(records.last().session_id@ != record.session_id@);
        assert(table(after) =~= table(records).insert(record.session_id@, record.info()));
    }
}

/// Taking a record out takes its session id out of the table.
proof fn lemma_table_remove(records: Seq<SessionRecord>, i: int)
    requires
        distinct_sessions(records),
        0 <= i < records.len(),
    ensures
        distinct_sessions(records.remove(i)),
        table(records.remove(i)) == table(records).remove(records[i].session_id@),
    decreases records.len(),
{
    let after = records.remove(i);
    let rest = records.drop_last();
    let id = records[i].session_id@;
    if i == records.len() - 1 {
        assert(after =~= rest);
        lemma_table(rest, id);
        assert(!table(rest).contains_key(id)) by {
            if table(rest).contains_key(id) {
                let j = choose|j: int| 0 <= j < rest.len() && (#[trigger] rest[j]).session_id@ == id;
                assert(records[j].session_id@ == id);
            }
        }
        assert(table(after) =~= table(records).remove(id));
    } else {
        lemma_table_remove(rest, i);
        assert(after.drop_last() =~= rest.remove(i));
        assert(after.last() == records.last());
        assert(records.last().session_id@ != id);
        assert(table(after) =~= table(records).remove(id));
    }
}

/// Why a request was not let in.
#[derive(Debug, Clone, Copy, PartialEq, Eq)]
pub enum AuthError {
    /// The request has no `Authorization` header.
    MissingHeader,
    /// The header's value is not text.
    InvalidCharacters,
    /// The header's value does not name the `Bearer` scheme.
    NotBearer,
    /// The session is unknown or expired.
    InvalidSession,
}

/// The `Authorization` header of a request, as far as it could be read.
#[derive(Debug, PartialEq)]
pub enum AuthorizationHeader {
    Missing,
    /// The header is there, but its value is not text.
    Unreadable,
    Value(String),
}

/// The session id that a header presents, if it presents one.
pub open spec fn presented(header: AuthorizationHeader) -> Option<Seq<char>> {
    match header {
        AuthorizationHeader::Value(value) => bearer_token_of(value@),
        _ => None,
    }
}

/// What becomes of a request with the given header at `now`: the session it
/// runs under, or the reason why it is rejected.
pub open spec fn judged(sessions: Sessions, header: AuthorizationHeader, now: Timestamp) -> Result<
    SessionView,
    AuthError,
> {
    match header {
        AuthorizationHeader::Missing => Err(AuthError::MissingHeader),
        AuthorizationHeader::Unreadable => Err(AuthError::InvalidCharacters),
        AuthorizationHeader::Value(value) => match bearer_token_of(value@) {
            None => Err(AuthError::NotBearer),
            Some(token) => match admitted(sessions, token, now) {
                Some(user) => Ok(SessionView { session_id: token, user_id: user }),
                None => Err(AuthError::InvalidSession),
            },
        },
    }
}

/// Whether `after` and `user_id` are what the check of `session_id` at
/// `now` leaves and returns: the sessions as `validated`, and the user that
/// is `admitted`, if any.
pub open spec fn checked(
    before: Sessions,
    session_id: Seq<char>,
    now: Timestamp,
    after: Sessions,
    user_id: Option<String>,
) -> bool {
    &&& after == validated(before, session_id, now)
    &&& after == performed(before, SessionOp::Validate { session_id, now })
    &&& opt_text(user_id) == admitted(before, session_id, now)
}

/// Whether `after` and `outcome` are what a request with the given header
/// at `now` leaves and gets: only a session that is presented is checked,
/// and the request runs under it or is rejected as `judged`.
pub open spec fn answered(
    before: Sessions,
    header: AuthorizationHeader,
    now: Timestamp,
    after: Sessions,
    outcome: Result<Session, AuthError>,
) -> bool {
    &&& after == match presented(header) {
        Some(token) => validated(before, token, now),
        None => before,
    }
    &&& match judged(before, header, now) {
        Ok(granted) => outcome matches Ok(session) && session@ == granted,
        Err(error) => outcome == Err::<Session, AuthError>(error),
    }
}

/// Issues, checks, renews and ends sessions.
#[derive(Debug)]
pub struct SessionAuthority {
    records: Vec<SessionRecord>,
}

impl View for SessionAuthority {
    type V = Sessions;

    closed spec fn view(&self) -> Sessions {
        table(self.records@)
    }
}

impl SessionAuthority {
    /// No session id is stored twice.
    pub closed spec fn wf(&self) -> bool {
        distinct_sessions(self.records@)
    }

    /// An authority that knows no session.
    pub fn new() -> (authority: Self)
        ensures
            authority.wf(),
            authority@ == Map::<Seq<char>, SessionInfo>::empty(),
    {
        SessionAuthority { records: Vec::new() }
    }

    /// Where the record of a session id stands.
    fn find(&self, session_id: &String) -> (at: Option<usize>)
        requires
            self.wf(),
        ensures
            at is Some <==> self@.contains_key(session_id@),
            at matches Some(i) ==> i < self.records@.len() && self.records@[i as int].session_id@
                == session_id@ && self@[session_id@] == self.records@[i as int].info(),
    {
        let mut i: usize = 0;
        while i < self.records.len()
            invariant
                i <= self.records.len(),
                self.wf(),
                forall|j: int| 0 <= j < i ==> (#[trigger] self.records@[j]).session_id@ != session_id@,
            decreases self.records.len() - i,
        {
            if same_text(&self.records[i].session_id, session_id) {
                proof {
                    lemma_table(self.records@, session_id@);
                }
                return Some(i);
            }
            i = i + 1;
        }
        proof {
            lemma_table(self.records@, session_id@);
        }
        None
    }

    /// Binds `session_id` to `user_id` until ten days after `now`, unless
    /// the id is already in use: a session id is never given a second
    /// meaning. Says whether the session was opened.
    pub fn open_session(&mut self, session_id: String, user_id: String, now: Timestamp) -> (opened:
        bool)
        requires
            old(self).wf(),
            now <= MAX_TIMESTAMP,
        ensures
            final(self).wf(),
            opened == !old(self)@.contains_key(session_id@),
            final(self)@ == performed(
                old(self)@,
                SessionOp::Open { session_id: session_id@, user_id: user_id@, now },
            ),
    {
        if self.find(&session_id).is_some() {
            return false;
        }
        proof {
            lemma_table(self.records@, session_id@);
        }
        let record = SessionRecord { session_id, user_id, expires_at: session_expiry(now) };
        self.records.push(record);
        assert(self.records@.drop_last() =~= old(self).records@);
        true
    }

    /// Opens a session for `user_id` under a fresh random id, to expire ten
    /// days after the instant that the clock shows, and returns the id.
    /// Returns `None`, and changes nothing, in the event that the id drawn is
    /// in use, and in no other event: an authority without sessions always
    /// opens one.
    pub fn create_session(&mut self, user_id: String) -> (session_id: Option<String>)
        requires
            old(self).wf(),
        ensures
            final(self).wf(),
            match session_id {
                Some(id) => !old(self)@.contains_key(id@) && exists|now: Timestamp|
                    is_clock_reading(now) && final(self)@ == #[trigger] performed(
                        old(self)@,
                        SessionOp::Open { session_id: id@, user_id: user_id@, now },
                    ),
                None => final(self)@ == old(self)@ && exists|drawn: Seq<char>| #[trigger]
                    old(self)@.contains_key(drawn),
            },
    {
        let id = fresh_id();
        let now = utc_now_millis();
        let ghost user = user_id@;
        if self.open_session(id.clone(), user_id, now) {
            assert(exists|at: Timestamp|
                is_clock_reading(at) && self@ == #[trigger] performed(
                    old(self)@,
                    SessionOp::Open { session_id: id@, user_id: user, now: at },
                ));
            Some(id)
        } else {
            assert(old(self)@.contains_key(id@));
            None
        }
    }

    /// Checks a session id at the instant that the clock shows.
    pub fn validate_and_renew(&mut self, session_id: &String) -> (user_id: Option<String>)
        requires
            old(self).wf(),
        ensures
            final(self).wf(),
            exists|now: Timestamp|
                is_clock_reading(now) && #[trigger] checked(
                    old(self)@,
                    session_id@,
                    now,
                    final(self)@,
                    user_id,
                ),
    {
        let now = utc_now_millis();
        self.validate_and_renew_at(session_id, now)
    }

    /// Checks a session id at the instant `now`. A good session is renewed
    /// and names its user; an expired one is deleted; an unknown one changes
    /// nothing.
    pub fn validate_and_renew_at(&mut self, session_id: &String, now: Timestamp) -> (user_id:
        Option<String>)
        requires
            old(self).wf(),
            now <= MAX_TIMESTAMP,
        ensures
            final(self).wf(),
            checked(old(self)@, session_id@, now, final(self)@, user_id),
    {
        match self.find(session_id) {
            None => None,
            Some(i) => {
                match check_session(Some(&self.records[i]), now) {
                    SessionCheck::Renewed { user_id, expires_at } => {
                        proof {
                            let renewed = SessionRecord {
                                session_id: self.records@[i as int].session_id,
                                user_id: self.records@[i as int].user_id,
                                expires_at,
                            };
                            lemma_table_update(self.records@, i as int, renewed);
                        }
                        self.records[i].expires_at = expires_at;
                        assert(self.records@ =~= old(self).records@.update(
                            i as int,
                            SessionRecord {
                                session_id: old(self).records@[i as int].session_id,
                                user_id: old(self).records@[i as int].user_id,
                                expires_at,
                            },
                        ));
                        Some(user_id)
                    },
                    _ => {
                        proof {
                            lemma_table_remove(self.records@, i as int);
                        }
                        self.records.remove(i);
                        None
                    },
                }
            },
        }
    }

    /// Ends a session. Ending a session that is not there changes nothing.
    pub fn destroy_session(&mut self, session_id: &String)
        requires
            old(self).wf(),
        ensures
            final(self).wf(),
            final(self)@ == old(self)@.remove(session_id@),
            final(self)@ == performed(old(self)@, SessionOp::Destroy { session_id: session_id@ }),
    {
        match self.find(session_id) {
            Some(i) => {
                proof {
                    lemma_table_remove(self.records@, i as int);
                }
                self.records.remove(i);
            },
            None => {
                assert(self@ =~= self@.remove(session_id@));
            },
        }
    }

    /// Lets a request in or rejects it at the instant that the clock shows,
    /// by its `Authorization` header alone. Every request that is let in
    /// renews its session.
    pub fn authenticate(&mut self, header: AuthorizationHeader) -> (outcome: Result<
        Session,
        AuthError,
    >)
        requires
            old(self).wf(),
        ensures
            final(self).wf(),
            exists|now: Timestamp|
                is_clock_reading(now) && #[trigger] answered(
                    old(self)@,
                    header,
                    now,
                    final(self)@,
                    outcome,
                ),
    {
        let now = utc_now_millis();
        self.authenticate_at(header, now)
    }

    /// Lets a request in or rejects it at the instant `now`.
    pub fn authenticate_at(&mut self, header: AuthorizationHeader, now: Timestamp) -> (outcome:
        Result<Session, AuthError>)
        requires
            old(self).wf(),
            now <= MAX_TIMESTAMP,
        ensures
            final(self).wf(),
            answered(old(self)@, header, now, final(self)@, outcome),
    {
        match header {
            AuthorizationHeader::Missing => Err(AuthError::MissingHeader),
            AuthorizationHeader::Unreadable => Err(AuthError::InvalidCharacters),
            AuthorizationHeader::Value(value) => {
                match bearer_token(&value) {
                    None => Err(AuthError::NotBearer),
                    Some(session_id) => {
                        match self.validate_and_renew_at(&session_id, now) {
                            Some(user_id) => Ok(Session { session_id, user_id }),
                            None => Err(AuthError::InvalidSession),
                        }
                    },
                }
            },
        }
    }

    /// The number of sessions.
    pub fn len(&self) -> (n: usize)
        requires
            self.wf(),
        ensures
            n == self@.dom().len(),
            self@.dom().finite(),
    {
        proof {
            lemma_table_len(self.records@);
        }
        self.records.len()
    }

    /// The instant at which a session expires, if the session is known.
    pub fn expires_at(&self, session_id: &String) -> (expiry: Option<Timestamp>)
        requires
            self.wf(),
        ensures
            expiry is Some <==> self@.contains_key(session_id@),
            expiry matches Some(at) ==> at == self@[session_id@].expires_at,
    {
        match self.find(session_id) {
            Some(i) => Some(self.records[i].expires_at),
            None => None,
        }
    }
}

/// A table has as many session ids as the list has records.
proof fn lemma_table_len(records: Seq<SessionRecord>)
    requires
        distinct_sessions(records),
    ensures
        table(records).dom().finite(),
        table(records).dom().len() == records.len(),
    decreases records.len(),
{
    if records.len() > 0 {
        let rest = records.drop_last();
        lemma_table_len(rest);
        lemma_table(rest, records.last().session_id@);
        assert(!table(rest).contains_key(records.last().session_id@)) by {
            if table(rest).contains_key(records.last().session_id@) {
                let j = choose|j: int|
                    0 <= j < rest.len() && (#[trigger] rest[j]).session_id@
                        == records.last().session_id@;
                assert(records[j].session_id@ == records.last().session_id@);
            }
        }
        assert(table(records).dom() =~= table(rest).dom().insert(records.last().session_id@));
    }
}

/// One thing that happens to the sessions of an authority.
pub enum SessionOp {
    /// A login asked for a session under `session_id`.
    Open { session_id: Seq<char>, user_id: Seq<char>, now: Timestamp },
    /// A request presented `session_id`.
    Validate { session_id: Seq<char>, now: Timestamp },
    /// A logout ended `session_id`.
    Destroy { session_id: Seq<char> },
}

/// The sessions after one operation.
pub open spec fn performed(sessions: Sessions, op: SessionOp) -> Sessions {
    match op {
        SessionOp::Open { session_id, user_id, now } => if sessions.contains_key(session_id) {
            sessions
        } else {
            sessions.insert(
                session_id,
                SessionInfo { user_id, expires_at: expiry_after(now) as Timestamp },
            )
        },
        SessionOp::Validate { session_id, now } => validated(sessions, session_id, now),
        SessionOp::Destroy { session_id } => sessions.remove(session_id),
    }
}

/// The sessions after a series of operations, the first of `ops` first.
pub open spec fn performed_all(sessions: Sessions, ops: Seq<SessionOp>) -> Sessions
    decreases ops.len(),
{
    if ops.len() == 0 {
        sessions
    } else {
        performed(performed_all(sessions, ops.drop_last()), ops.last())
    }
}

/// Use extends a session. A session that is presented before it expires is
/// let in and expires ten days after that use, which is later than the use
/// and no earlier than it expired before.
///
/// The last claim needs a clock that has not been set back by more than the
/// session's lifetime since the session was last used: a session that would
/// outlive ten days from `now` is cut back to them.
pub proof fn law_use_extends_session(sessions: Sessions, session_id: Seq<char>, now: Timestamp)
    requires
        now <= MAX_TIMESTAMP,
        sessions.contains_key(session_id),
        now <= sessions[session_id].expires_at <= expiry_after(now),
    ensures
        admitted(sessions, session_id, now) == Some(sessions[session_id].user_id),
        validated(sessions, session_id, now).contains_key(session_id),
        validated(sessions, session_id, now)[session_id].user_id == sessions[session_id].user_id,
        validated(sessions, session_id, now)[session_id].expires_at == expiry_after(now),
        validated(sessions, session_id, now)[session_id].expires_at
            >= sessions[session_id].expires_at,
        validated(sessions, session_id, now)[session_id].expires_at > now,
{
}

/// An expired session is rejected and deleted by the first request that
/// presents it.
pub proof fn law_expired_session_is_deleted(sessions: Sessions, session_id: Seq<char>, now: Timestamp)
    requires
        sessions.contains_key(session_id),
        sessions[session_id].expires_at < now,
    ensures
        admitted(sessions, session_id, now) is None,
        !validated(sessions, session_id, now).contains_key(session_id),
{
}

/// Gone is gone. A session id that the authority does not know is rejected
/// at every instant, and nothing that happens afterwards brings it back:
/// no request, whatever id it presents and whenever, no logout, and no login
/// under another id. With the law before, an expired session that was
/// presented once never lets anyone in again.
pub proof fn law_unknown_session_stays_unknown(
    sessions: Sessions,
    ops: Seq<SessionOp>,
    session_id: Seq<char>,
    at: Timestamp,
)
    requires
        !sessions.contains_key(session_id),
        forall|i: int|
            0 <= i < ops.len() ==> !(#[trigger] ops[i] matches SessionOp::Open {
                session_id: opened,
                ..
            } && opened == session_id),
    ensures
        !performed_all(sessions, ops).contains_key(session_id),
        admitted(performed_all(sessions, ops), session_id, at) is None,
    decreases ops.len(),
{
    if ops.len() > 0 {
        let earlier = ops.drop_last();
        assert forall|i: int| 0 <= i < earlier.len() implies !(#[trigger] earlier[i] matches SessionOp::Open {
            session_id: opened,
            ..
        } && opened == session_id) by {
            assert(earlier[i] == ops[i]);
        }
        law_unknown_session_stays_unknown(sessions, earlier, session_id, at);
        assert(ops.last() == ops[ops.len() - 1]);
    }
}

/// A session id means one user for as long as it lives: whatever happens,
/// a session that is still known afterwards is bound to the user it was
/// bound to before.
pub proof fn law_session_keeps_its_user(sessions: Sessions, op: SessionOp, session_id: Seq<char>)
    requires
        sessions.contains_key(session_id),
        performed(sessions, op).contains_key(session_id),
    ensures
        performed(sessions, op)[session_id].user_id == sessions[session_id].user_id,
{
}

} // verus!
