//! Sessions with the flip service, by player.

use vstd::prelude::*;

use crate::text::same_text;

verus! {

/// How many days a session lasts.
pub const SESSION_DAYS: i64 = 180;

/// The first second that the calendar has, counted from the beginning of 1970.
pub const FIRST_SECOND: i64 = -8_334_601_228_800;

/// The last second that the calendar has, counted from the beginning of 1970.
pub const LAST_SECOND: i64 = 8_210_266_876_799;

/// A point in time: the seconds since the beginning of 1970, in UTC, and the nanoseconds since the
/// last of them.
#[derive(Clone, Copy, Debug, PartialEq, Eq, Structural)]
pub struct UtcTime {
    pub secs: i64,
    pub nanos: u32,
}

impl UtcTime {
    /// This time comes before `other`.
    pub open spec fn precedes(self, other: UtcTime) -> bool {
        self.secs < other.secs || (self.secs == other.secs && self.nanos < other.nanos)
    }

    /// Whether this time comes before `other`.
    pub fn is_before(self, other: UtcTime) -> (r: bool)
        ensures
            r == self.precedes(other),
    {
        self.secs < other.secs || (self.secs == other.secs && self.nanos < other.nanos)
    }
}

/// `chrono::Utc::now`, as the seconds and nanoseconds of the time it gives. It reads the clock, so
/// nothing is said of the time but that it lies in the calendar, not before 1970, and that the
/// nanoseconds stay within a second.
#[verifier::external_body]
fn utc_now() -> (r: UtcTime)
    ensures
        is_clock_time(r),
{
    let now = chrono::Utc::now();
    UtcTime { secs: now.timestamp(), nanos: now.timestamp_subsec_nanos() }
}

/// `chrono::DateTime::checked_add_signed` with a number of days: the time that many days later, if
/// it lies in the calendar.
#[verifier::external_body]
fn days_later(time: UtcTime, days: i64) -> (r: Option<UtcTime>)
    requires
        FIRST_SECOND <= time.secs <= LAST_SECOND,
        time.nanos < 1_000_000_000,
        0 <= days <= 1_000_000,
    ensures
        r == (if time.secs + days * 86400 <= LAST_SECOND {
            Some(UtcTime { secs: (time.secs + days * 86400) as i64, nanos: time.nanos })
        } else {
            None
        }),
{
    let start = chrono::DateTime::from_timestamp(time.secs, time.nanos)?;
    let later = start.checked_add_signed(chrono::Duration::days(days))?;
    Some(UtcTime { secs: later.timestamp(), nanos: later.timestamp_subsec_nanos() })
}

/// The text has the form of a random UUID: 36 characters, hyphens between groups of 8, 4, 4, 4 and
/// 12 lower-case hexadecimal digits, the third group beginning with 4 and the fourth with 8, 9, a
/// or b.
pub open spec fn is_random_uuid(id: Seq<char>) -> bool {
    &&& id.len() == 36
    &&& id[14] == '4'
    &&& id[19] == '8' || id[19] == '9' || id[19] == 'a' || id[19] == 'b'
    &&& forall|i: int|
        0 <= i < 36 ==> if i == 8 || i == 13 || i == 18 || i == 23 {
            #[trigger] id[i] == '-'
        } else {
            '0' <= id[i] <= '9' || 'a' <= id[i] <= 'f'
        }
}

/// `uuid::Uuid::new_v4` as text. The digits are random: only the form is promised.
#[verifier::external_body]
fn new_uuid() -> (r: String)
    ensures
        is_random_uuid(r@),
{
    uuid::Uuid::new_v4().to_string()
}

/// A session with the flip service.
#[derive(Debug, PartialEq)]
pub struct CoflSession {
    pub id: String,
    pub expires: UtcTime,
}

/// A session, as the contracts speak of it.
#[verifier::ext_equal]
pub struct SessionView {
    pub id: Seq<char>,
    pub expires: UtcTime,
}

impl View for CoflSession {
    type V = SessionView;

    open spec fn view(&self) -> SessionView {
        SessionView { id: self.id@, expires: self.expires }
    }
}

impl CoflSession {
    /// A copy that says the same.
    pub fn copy(&self) -> (r: CoflSession)
        ensures
            r@ == self@,
    {
        CoflSession { id: self.id.clone(), expires: self.expires }
    }
}

/// The sessions, by player.
pub struct Sessions {
    pub entries: Vec<(String, CoflSession)>,
}

/// The entries by player; a later entry replaces an earlier one.
pub open spec fn sessions_map(entries: Seq<(String, CoflSession)>) -> Map<Seq<char>, SessionView>
    decreases entries.len(),
{
    if entries.len() == 0 {
        Map::empty()
    } else {
        sessions_map(entries.drop_last()).insert(entries.last().0@, entries.last().1@)
    }
}

impl View for Sessions {
    type V = Map<Seq<char>, SessionView>;

    open spec fn view(&self) -> Map<Seq<char>, SessionView> {
        sessions_map(self.entries@)
    }
}

/// The session of `player`, if there is one.
pub open spec fn session_of(map: Map<Seq<char>, SessionView>, player: Seq<char>) -> Option<
    SessionView,
> {
    if map.dom().contains(player) {
        Some(map[player])
    } else {
        None
    }
}

/// What a session that may be there says.
pub open spec fn session_view(session: Option<CoflSession>) -> Option<SessionView> {
    match session {
        Some(session) => Some(session@),
        None => None,
    }
}

impl Sessions {
    /// No sessions.
    pub fn new() -> (r: Sessions)
        ensures
            r@ == Map::<Seq<char>, SessionView>::empty(),
    {
        Sessions { entries: Vec::new() }
    }

    /// A copy that says the same.
    pub fn copy(&self) -> (r: Sessions)
        ensures
            r@ == self@,
    {
        let mut entries: Vec<(String, CoflSession)> = Vec::new();
        let mut i: usize = 0;
        proof {
            assert(self.entries@.take(0) =~= Seq::empty());
        }
        while i < self.entries.len()
            invariant
                i <= self.entries@.len(),
                sessions_map(entries@) == sessions_map(self.entries@.take(i as int)),
            decreases self.entries@.len() - i,
        {
            let ghost before = entries@;
            entries.push((self.entries[i].0.clone(), self.entries[i].1.copy()));
            proof {
                assert(entries@.drop_last() =~= before);
                assert(self.entries@.take(i + 1).drop_last() =~= self.entries@.take(i as int));
            }
            i = i + 1;
        }
        proof {
            assert(self.entries@.take(self.entries@.len() as int) =~= self.entries@);
        }
        Sessions { entries }
    }

    /// The session of `player`, if there is one.
    pub fn get(&self, player: &str) -> (r: Option<CoflSession>)
        ensures
            session_view(r) == session_of(self@, player@),
    {
        let mut found: Option<CoflSession> = None;
        let mut i: usize = 0;
        proof {
            assert(self.entries@.take(0) =~= Seq::empty());
        }
        while i < self.entries.len()
            invariant
                i <= self.entries@.len(),
                session_view(found) == session_of(
                    sessions_map(self.entries@.take(i as int)),
                    player@,
                ),
            decreases self.entries@.len() - i,
        {
            proof {
                assert(self.entries@.take(i + 1).drop_last() =~= self.entries@.take(i as int));
            }
            if same_text(self.entries[i].0.as_str(), player) {
                found = Some(self.entries[i].1.copy());
            }
            i = i + 1;
        }
        proof {
            assert(self.entries@.take(self.entries@.len() as int) =~= self.entries@);
        }
        found
    }

    /// Put a session in the place of the player's earlier one.
    pub fn insert(&mut self, player: &str, session: CoflSession)
        ensures
            final(self)@ == old(self)@.insert(player@, session@),
    {
        let ghost before = self.entries@;
        let mut kept: Vec<(String, CoflSession)> = Vec::new();
        let mut i: usize = 0;
        proof {
            assert(before.take(0) =~= Seq::empty());
            assert(sessions_map(kept@) =~= sessions_map(before.take(0)).remove(player@));
        }
        while i < self.entries.len()
            invariant
                i <= self.entries@.len(),
                before == self.entries@,
                sessions_map(kept@) == sessions_map(before.take(i as int)).remove(player@),
            decreases self.entries@.len() - i,
        {
            let ghost kept_before = kept@;
            proof {
                assert(before.take(i + 1).drop_last() =~= before.take(i as int));
            }
            if !same_text(self.entries[i].0.as_str(), player) {
                kept.push((self.entries[i].0.clone(), self.entries[i].1.copy()));
                proof {
                    assert(kept@.drop_last() =~= kept_before);
                }
            }
            proof {
                assert(sessions_map(kept@) =~= sessions_map(before.take(i + 1)).remove(player@));
            }
            i = i + 1;
        }
        let ghost others = kept@;
        kept.push((player.to_owned(), session));
        proof {
            assert(before.take(before.len() as int) =~= before);
            assert(kept@.drop_last() =~= others);
            assert(sessions_map(kept@) =~= sessions_map(before).insert(player@, session@));
        }
        self.entries = kept;
    }
}

/// The session can still be used: it has not expired.
pub open spec fn is_usable(session: Option<SessionView>, now: UtcTime) -> bool {
    match session {
        Some(session) => !session.expires.precedes(now),
        None => false,
    }
}

/// Whether a session can still be used.
pub fn can_be_used(session: &Option<CoflSession>, now: UtcTime) -> (r: bool)
    ensures
        r == is_usable(session_view(*session), now),
{
    match session {
        Some(session) => !session.expires.is_before(now),
        None => false,
    }
}

/// When a session that begins at `now` expires, if the calendar goes so far.
pub open spec fn expiry(now: UtcTime) -> Option<UtcTime> {
    if now.secs + SESSION_DAYS * 86400 <= LAST_SECOND {
        Some(UtcTime { secs: (now.secs + SESSION_DAYS * 86400) as i64, nanos: now.nanos })
    } else {
        None
    }
}

/// The session to use.
#[derive(Debug, PartialEq)]
pub struct SessionChoice {
    pub id: String,
    /// Whether the session is new, so that the configuration has to be saved.
    pub is_new: bool,
}

/// What a choice says: the id, and whether the session is new.
pub open spec fn choice_view(choice: Option<SessionChoice>) -> Option<(Seq<char>, bool)> {
    match choice {
        Some(choice) => Some((choice.id@, choice.is_new)),
        None => None,
    }
}

/// The session of `player` as it stands at `now`, and the sessions that are kept then: the one that
/// is there, if it has not expired, or else a new one with the id `fresh_id`. There is none only
/// where a new one is needed and the calendar does not reach to its end.
pub open spec fn picked(
    sessions: Map<Seq<char>, SessionView>,
    player: Seq<char>,
    now: UtcTime,
    fresh_id: Seq<char>,
) -> (Option<(Seq<char>, bool)>, Map<Seq<char>, SessionView>) {
    let known = session_of(sessions, player);
    if is_usable(known, now) {
        (Some((known->Some_0.id, false)), sessions)
    } else {
        match expiry(now) {
            Some(expires) => (
                Some((fresh_id, true)),
                sessions.insert(player, SessionView { id: fresh_id, expires }),
            ),
            None => (None, sessions),
        }
    }
}

/// The clock can show this time: it lies in the calendar, not before 1970.
pub open spec fn is_clock_time(time: UtcTime) -> bool {
    0 <= time.secs <= LAST_SECOND && time.nanos < 1_000_000_000
}

/// The session does not expire before the calendar ends, so no clock can show it as expired.
pub open spec fn outlasts_the_calendar(session: SessionView) -> bool {
    !session.expires.precedes(UtcTime { secs: LAST_SECOND, nanos: 999_999_999 })
}

impl Sessions {
    /// The session of `player` as it stands at `now`: the one that is there, if it has not expired,
    /// or else a new one with the id `fresh_id`, which is kept from then on. There is none only
    /// where a new one is needed and the calendar does not reach to its end.
    pub fn pick(&mut self, player: &str, now: UtcTime, fresh_id: String) -> (r: Option<
        SessionChoice,
    >)
        requires
            FIRST_SECOND <= now.secs <= LAST_SECOND,
            now.nanos < 1_000_000_000,
        ensures
            (choice_view(r), final(self)@) == picked(old(self)@, player@, now, fresh_id@),
    {
        let known = self.get(player);
        if can_be_used(&known, now) {
            match known {
                Some(session) => Some(SessionChoice { id: session.id, is_new: false }),
                None => None,
            }
        } else {
            match days_later(now, SESSION_DAYS) {
                Some(expires) => {
                    self.insert(player, CoflSession { id: fresh_id.clone(), expires });
                    Some(SessionChoice { id: fresh_id, is_new: true })
                },
                None => None,
            }
        }
    }

    /// The session of `player` to use now, as it stands at the time that the clock shows. A new one
    /// has a random id. Whatever the clock says, the id is that of the session kept for the player,
    /// and the other players' sessions are left alone; nothing is kept anew unless the session is
    /// new. A session that outlasts the calendar is used whatever the clock says.
    pub fn current(&mut self, player: &str) -> (r: Option<SessionChoice>)
        ensures
            exists|now: UtcTime, fresh_id: Seq<char>|
                is_clock_time(now) && is_random_uuid(fresh_id) && (choice_view(r), final(self)@)
                    == #[trigger] picked(old(self)@, player@, now, fresh_id),
            session_of(old(self)@, player@) matches Some(session) ==> outlasts_the_calendar(session)
                ==> choice_view(r) == Some((session.id, false)),
            match r {
                Some(choice) => {
                    &&& session_of(final(self)@, player@) matches Some(session) && session.id
                        == choice.id@
                    &&& final(self)@.remove(player@) == old(self)@.remove(player@)
                    &&& !choice.is_new ==> final(self)@ == old(self)@
                    &&& choice.is_new ==> is_random_uuid(choice.id@)
                },
                None => final(self)@ == old(self)@,
            },
    {
        let ghost before = self@;
        let now = utc_now();
        let fresh_id = new_uuid();
        let ghost id = fresh_id@;
        let r = self.pick(player, now, fresh_id);
        proof {
            assert((choice_view(r), self@) == picked(before, player@, now, id));
            assert(self@.remove(player@) =~= before.remove(player@));
        }
        r
    }
}

/// A session that was made is used again until it expires, and no longer.
pub proof fn law_session_is_used_until_it_expires(
    before: Map<Seq<char>, SessionView>,
    player: Seq<char>,
    id: Seq<char>,
    made: UtcTime,
    later: UtcTime,
)
    requires
        expiry(made) is Some,
    ensures
        ({
            let kept = before.insert(player, SessionView { id, expires: expiry(made)->Some_0 });
            &&& session_of(kept, player) == Some(SessionView { id, expires: expiry(made)->Some_0 })
            &&& is_usable(session_of(kept, player), made)
            &&& is_usable(session_of(kept, player), later) <==> !expiry(made)->Some_0.precedes(
                later,
            )
        }),
{
}

/// A session lasts for a hundred and eighty days: one that is made at `now` is used for that long,
/// to the nanosecond, and is then replaced by a new one, which is kept. The sessions of others stay.
pub proof fn law_session_lasts_half_a_year(
    sessions: Map<Seq<char>, SessionView>,
    player: Seq<char>,
    other: Seq<char>,
    now: UtcTime,
    id: Seq<char>,
    later: UtcTime,
    later_id: Seq<char>,
)
    requires
        session_of(sessions, player) is None,
        other != player,
        0 <= now.secs <= 4_000_000_000,
        0 <= later.secs <= 4_000_000_000,
    ensures
        ({
            let (first, kept) = picked(sessions, player, now, id);
            let (second, kept_later) = picked(kept, player, later, later_id);
            let over = later.secs > now.secs + 15_552_000 || later.secs == now.secs + 15_552_000
                && later.nanos > now.nanos;
            &&& first == Some((id, true))
            &&& second == Some(
                if over {
                    (later_id, true)
                } else {
                    (id, false)
                },
            )
            &&& session_of(kept_later, player) matches Some(session) && session.id == (if over {
                later_id
            } else {
                id
            })
            &&& session_of(kept, other) == session_of(sessions, other)
            &&& session_of(kept_later, other) == session_of(sessions, other)
        }),
{
}

} // verus!
