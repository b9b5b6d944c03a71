//! The attendance engine: RSVP, geofenced check-in, and the host's summary.
//!
//! At most one attendance record exists per (event, attendee) pair -- that is
//! the book's invariant -- and a record moves only from `Registered` to
//! `CheckedIn`, exactly once. Check-in is gated in order by the event's
//! existence, a prior RSVP, the not-yet-checked-in state, the start time, the
//! profile's window, and, when asked, the geofence.

use vstd::prelude::*;
use crate::events::{spec_duration_minutes, EventStatus, EventStore, DEFAULT_GEOFENCE_RADIUS_M};
use crate::token::MAX_TIME;
use crate::users::{User, UserDirectory};

verus! {

/// State of one attendance record.
#[derive(Clone, Copy, Debug, PartialEq, Eq, Structural)]
pub enum AttendanceStatus {
    /// RSVP taken, not yet checked in.
    Registered,
    /// Checked in; final for this record.
    CheckedIn,
    /// Registered but never checked in after the event concluded. Readable in
    /// summaries; no engine operation writes it.
    NoShow,
}

/// One (event, attendee) attendance record.
#[derive(Clone, Copy, Debug, PartialEq, Eq, Structural)]
pub struct AttendanceRecord {
    pub id: i32,
    pub event_id: i32,
    pub attendee_id: i32,
    pub status: AttendanceStatus,
    /// RSVP instant.
    pub created_at: i64,
    /// Last status change; the check-in instant once status is `CheckedIn`.
    pub updated_at: i64,
}

/// Why an engine operation failed.
#[derive(Clone, Copy, Debug, PartialEq, Eq, Structural)]
pub enum EngineError {
    /// No such event.
    NotFound,
    /// The event's lifecycle state forbids the operation.
    InvalidState,
    /// An attendance record for this pair already exists.
    AlreadyRegistered,
    /// Check-in without a prior RSVP.
    NoRsvp,
    /// The record is already `CheckedIn`.
    AlreadyCheckedIn,
    /// The event has not started.
    NotStarted,
    /// The check-in window elapsed and the event is closed.
    WindowClosed,
    /// The event ended and is closed (unlimited-window events).
    EventEnded,
    /// Location verification was asked without a position.
    MissingCoordinates,
    /// Too far from the event: the measured distance and the limit, meters.
    TooFar(u64, u64),
    /// The caller is not the host that owns the event.
    Unauthorized,
}

/// Whether a record for the pair exists.
pub open spec fn spec_has_record(s: Seq<AttendanceRecord>, event_id: i32, attendee_id: i32) -> bool {
    exists|i: int|
        0 <= i < s.len() && (#[trigger] s[i]).event_id == event_id && s[i].attendee_id
            == attendee_id
}

/// The index of the pair's record; unique under the book's invariant.
pub open spec fn spec_record_index(s: Seq<AttendanceRecord>, event_id: i32, attendee_id: i32) -> int {
    choose|i: int|
        0 <= i < s.len() && (#[trigger] s[i]).event_id == event_id && s[i].attendee_id
            == attendee_id
}

/// All attendance records. Row `i` holds the record with id `i + 1`.
pub struct AttendanceBook {
    pub records: Vec<AttendanceRecord>,
}

impl AttendanceBook {
    /// Ids are the row positions shifted by one, and at most one record
    /// exists per (event, attendee) pair.
    pub open spec fn well_formed(&self) -> bool {
        &&& self.records@.len() < 0x7fff_ffff
        &&& forall|i: int| 0 <= i < self.records@.len() ==> #[trigger] self.records@[i].id == i + 1
        &&& forall|i: int, j: int|
            0 <= i < j < self.records@.len() ==> !((#[trigger] self.records@[i]).event_id == (
            #[trigger] self.records@[j]).event_id && self.records@[i].attendee_id
                == self.records@[j].attendee_id)
    }

    /// An empty book.
    pub fn new() -> (b: AttendanceBook)
        ensures
            b.well_formed(),
            b.records@.len() == 0,
    {
        AttendanceBook { records: Vec::new() }
    }

    /// The index of the pair's record, if one exists.
    fn find_record(&self, event_id: i32, attendee_id: i32) -> (r: Option<usize>)
        requires
            self.well_formed(),
        ensures
            match r {
                Some(i) => i < self.records@.len() && self.records@[i as int].event_id == event_id
                    && self.records@[i as int].attendee_id == attendee_id && i as int
                    == spec_record_index(self.records@, event_id, attendee_id),
                None => !spec_has_record(self.records@, event_id, attendee_id),
            },
    {
        let n = self.records.len();
        let mut i: usize = 0;
        while i < n
            invariant
                self.well_formed(),
                n == self.records@.len(),
                i <= n,
                forall|j: int|
                    0 <= j < i ==> !((#[trigger] self.records@[j]).event_id == event_id
                        && self.records@[j].attendee_id == attendee_id),
            decreases n - i,
        {
            let rec = &self.records[i];
            if rec.event_id == event_id && rec.attendee_id == attendee_id {
                proof {
                    assert(spec_has_record(self.records@, event_id, attendee_id));
                    let j = spec_record_index(self.records@, event_id, attendee_id);
                    assert(0 <= j < self.records@.len() && self.records@[j].event_id == event_id
                        && self.records@[j].attendee_id == attendee_id);
                    assert(j == i as int);
                }
                return Some(i);
            }
            i = i + 1;
        }
        None
    }
}

/// What an RSVP yields: the event must exist and be neither cancelled nor
/// completed, the pair must be unregistered; then a fresh `Registered` record.
pub open spec fn spec_rsvp_outcome(
    events: EventStore,
    book: AttendanceBook,
    event_id: i32,
    attendee_id: i32,
    now: i64,
) -> Result<AttendanceRecord, EngineError> {
    if !events.spec_has_event(event_id) {
        Err(EngineError::NotFound)
    } else if events.spec_event(event_id).status == EventStatus::Cancelled || events.spec_event(
        event_id,
    ).status == EventStatus::Completed {
        Err(EngineError::InvalidState)
    } else if spec_has_record(book.records@, event_id, attendee_id) {
        Err(EngineError::AlreadyRegistered)
    } else {
        Ok(
            AttendanceRecord {
                id: (book.records@.len() + 1) as i32,
                event_id,
                attendee_id,
                status: AttendanceStatus::Registered,
                created_at: now,
                updated_at: now,
            },
        )
    }
}

/// RSVP: inserts a fresh `Registered` record for the pair, provided the event
/// exists, is neither cancelled nor completed, and the pair has none yet.
pub fn rsvp_event(
    events: &EventStore,
    book: &mut AttendanceBook,
    event_id: i32,
    attendee_id: i32,
    now: i64,
) -> (r: Result<AttendanceRecord, EngineError>)
    requires
        events.well_formed(),
        old(book).well_formed(),
        old(book).records@.len() + 1 < 0x7fff_ffff,
        0 <= now <= MAX_TIME,
    ensures
        final(book).well_formed(),
        r == spec_rsvp_outcome(*events, *old(book), event_id, attendee_id, now),
        r is Ok ==> final(book).records@ == old(book).records@.push(r->Ok_0),
        r is Err ==> final(book).records@ == old(book).records@,
{
    let event = match events.get_event_by_id(event_id) {
        Ok(e) => e,
        Err(_) => {
            return Err(EngineError::NotFound);
        },
    };
    if matches!(event.status, EventStatus::Cancelled) || matches!(
        event.status,
        EventStatus::Completed,
    ) {
        return Err(EngineError::InvalidState);
    }
    if book.find_record(event_id, attendee_id).is_some() {
        return Err(EngineError::AlreadyRegistered);
    }
    let record = AttendanceRecord {
        id: (book.records.len() + 1) as i32,
        event_id,
        attendee_id,
        status: AttendanceStatus::Registered,
        created_at: now,
        updated_at: now,
    };
    book.records.push(record);
    Ok(record)
}

/// Window evaluation at `now` for a profile over the event's times and
/// lifecycle state. `Ok(is_late)` accepts; a bounded window past its end
/// rejects `WindowClosed` once the event is closed, and an unlimited window
/// rejects `EventEnded` past the end of a closed event; in either shape, past
/// the bound with the event still open, the check-in is accepted late.
pub open spec fn spec_window_eval(
    profile: crate::events::AttendanceProfile,
    start_time: i64,
    end_time: i64,
    status: EventStatus,
    now: i64,
) -> Result<bool, EngineError> {
    match spec_duration_minutes(profile) {
        Some(w) => {
            let window_end = start_time + (w as int) * 60;
            if now > window_end {
                if status != EventStatus::Completed {
                    Ok(true)
                } else {
                    Err(EngineError::WindowClosed)
                }
            } else {
                Ok(false)
            }
        },
        None => {
            if now > end_time && status == EventStatus::Completed {
                Err(EngineError::EventEnded)
            } else if now > end_time {
                Ok(true)
            } else {
                Ok(false)
            }
        },
    }
}

/// Evaluates the check-in window; see [`spec_window_eval`].
pub fn evaluate_window(
    profile: crate::events::AttendanceProfile,
    start_time: i64,
    end_time: i64,
    status: EventStatus,
    now: i64,
) -> (r: Result<bool, EngineError>)
    requires
        0 <= start_time <= MAX_TIME,
        0 <= end_time <= MAX_TIME,
        0 <= now <= MAX_TIME,
    ensures
        r == spec_window_eval(profile, start_time, end_time, status, now),
{
    match profile.duration_minutes() {
        Some(w) => {
            let window_end = start_time + (w as i64) * 60;
            if now > window_end {
                if !matches!(status, EventStatus::Completed) {
                    Ok(true)
                } else {
                    Err(EngineError::WindowClosed)
                }
            } else {
                Ok(false)
            }
        },
        None => {
            if now > end_time && matches!(status, EventStatus::Completed) {
                Err(EngineError::EventEnded)
            } else if now > end_time {
                Ok(true)
            } else {
                Ok(false)
            }
        },
    }
}

/// Geofence evaluation: without verification nothing is checked; with it a
/// position is required, and the measured distance must not exceed the
/// event's radius (or the default). `Ok(location_verified)`.
pub open spec fn spec_location_eval(
    verify_location: bool,
    distance_m: Option<u64>,
    geofence_radius_m: Option<u64>,
) -> Result<bool, EngineError> {
    if !verify_location {
        Ok(false)
    } else {
        match distance_m {
            None => Err(EngineError::MissingCoordinates),
            Some(d) => {
                let limit = match geofence_radius_m {
                    Some(r) => r,
                    None => DEFAULT_GEOFENCE_RADIUS_M,
                };
                if d > limit {
                    Err(EngineError::TooFar(d, limit))
                } else {
                    Ok(true)
                }
            },
        }
    }
}

/// Evaluates the geofence; see [`spec_location_eval`].
pub fn evaluate_location(
    verify_location: bool,
    distance_m: Option<u64>,
    geofence_radius_m: Option<u64>,
) -> (r: Result<bool, EngineError>)
    ensures
        r == spec_location_eval(verify_location, distance_m, geofence_radius_m),
{
    if !verify_location {
        return Ok(false);
    }
    let d = match distance_m {
        Some(d) => d,
        None => {
            return Err(EngineError::MissingCoordinates);
        },
    };
    let limit = match geofence_radius_m {
        Some(r) => r,
        None => DEFAULT_GEOFENCE_RADIUS_M,
    };
    if d > limit {
        Err(EngineError::TooFar(d, limit))
    } else {
        Ok(true)
    }
}

/// What a check-in yields, gates evaluated in order: event existence, prior
/// RSVP, not already checked in, started, window, geofence. On success the
/// record turns `CheckedIn` with `now` as its check-in instant, paired with
/// the location-verified and late flags.
pub open spec fn spec_check_in_outcome(
    events: EventStore,
    book: AttendanceBook,
    event_id: i32,
    attendee_id: i32,
    verify_location: bool,
    distance_m: Option<u64>,
    now: i64,
) -> Result<(AttendanceRecord, bool, bool), EngineError> {
    if !events.spec_has_event(event_id) {
        Err(EngineError::NotFound)
    } else {
        let event = events.spec_event(event_id);
        if !spec_has_record(book.records@, event_id, attendee_id) {
            Err(EngineError::NoRsvp)
        } else {
            let rec = book.records@[spec_record_index(book.records@, event_id, attendee_id)];
            if rec.status == AttendanceStatus::CheckedIn {
                Err(EngineError::AlreadyCheckedIn)
            } else if now < event.start_time {
                Err(EngineError::NotStarted)
            } else {
                match spec_window_eval(
                    event.attendance_profile,
                    event.start_time,
                    event.end_time,
                    event.status,
                    now,
                ) {
                    Err(e) => Err(e),
                    Ok(is_late) => match spec_location_eval(
                        verify_location,
                        distance_m,
                        event.geofence_radius_m,
                    ) {
                        Err(e) => Err(e),
                        Ok(location_verified) => Ok(
                            (
                                AttendanceRecord {
                                    status: AttendanceStatus::CheckedIn,
                                    updated_at: now,
                                    ..rec
                                },
                                location_verified,
                                is_late,
                            ),
                        ),
                    },
                }
            }
        }
    }
}

/// Check-in: turns the pair's record `CheckedIn` when every gate passes, and
/// reports whether the location was verified and whether the check-in was
/// late. The caller supplies the measured distance to the event where
/// location verification is asked.
pub fn mark_attendance(
    events: &EventStore,
    book: &mut AttendanceBook,
    event_id: i32,
    attendee_id: i32,
    verify_location: bool,
    distance_m: Option<u64>,
    now: i64,
) -> (r: Result<(AttendanceRecord, bool, bool), EngineError>)
    requires
        events.well_formed(),
        old(book).well_formed(),
        0 <= now <= MAX_TIME,
    ensures
        final(book).well_formed(),
        r == spec_check_in_outcome(
            *events,
            *old(book),
            event_id,
            attendee_id,
            verify_location,
            distance_m,
            now,
        ),
        r is Ok ==> final(book).records@ == old(book).records@.update(
            spec_record_index(old(book).records@, event_id, attendee_id),
            r->Ok_0.0,
        ),
        r is Err ==> final(book).records@ == old(book).records@,
{
    let event = match events.get_event_by_id(event_id) {
        Ok(e) => e,
        Err(_) => {
            return Err(EngineError::NotFound);
        },
    };
    let idx = match book.find_record(event_id, attendee_id) {
        Some(i) => i,
        None => {
            return Err(EngineError::NoRsvp);
        },
    };
    let rec = book.records[idx];
    if matches!(rec.status, AttendanceStatus::CheckedIn) {
        return Err(EngineError::AlreadyCheckedIn);
    }
    if now < event.start_time {
        return Err(EngineError::NotStarted);
    }
    let is_late = match evaluate_window(
        event.attendance_profile,
        event.start_time,
        event.end_time,
        event.status,
        now,
    ) {
        Ok(l) => l,
        Err(e) => {
            return Err(e);
        },
    };
    let location_verified = match evaluate_location(
        verify_location,
        distance_m,
        event.geofence_radius_m,
    ) {
        Ok(v) => v,
        Err(e) => {
            return Err(e);
        },
    };
    let updated = AttendanceRecord {
        id: rec.id,
        event_id: rec.event_id,
        attendee_id: rec.attendee_id,
        status: AttendanceStatus::CheckedIn,
        created_at: rec.created_at,
        updated_at: now,
    };
    book.records.set(idx, updated);
    Ok((updated, location_verified, is_late))
}

/// One row of the host's attendance summary.
#[derive(Clone, Debug)]
pub struct EventAttendeeDetails {
    pub attendee_id: i32,
    pub username: String,
    pub first_name: Option<String>,
    pub last_name: Option<String>,
    pub status: AttendanceStatus,
    pub rsvp_time: i64,
    pub check_in_time: Option<i64>,
    pub is_late: bool,
}

/// The host's view of an event's attendance.
#[derive(Clone, Debug)]
pub struct EventAttendanceSummary {
    pub event_id: i32,
    pub total_rsvp: i32,
    pub total_checked_in: i32,
    pub total_no_show: i32,
    pub total_late: i32,
    pub attendees: Vec<EventAttendeeDetails>,
}

/// When the event's profile bounds the window: the instant it ends.
pub open spec fn spec_window_end(e: crate::events::Event) -> Option<int> {
    match spec_duration_minutes(e.attendance_profile) {
        Some(w) => Some(e.start_time + (w as int) * 60),
        None => None,
    }
}

/// A checked-in record is late when the window is bounded and its check-in
/// instant lies past the window's end.
pub open spec fn spec_is_late(rec: AttendanceRecord, window_end: Option<int>) -> bool {
    rec.status == AttendanceStatus::CheckedIn && window_end is Some && rec.updated_at
        > window_end->0
}

/// How many records of the sequence belong to the event.
pub open spec fn spec_count_rsvp(s: Seq<AttendanceRecord>, event_id: i32) -> int
    decreases s.len(),
{
    if s.len() == 0 {
        0
    } else {
        spec_count_rsvp(s.drop_last(), event_id) + if s.last().event_id == event_id {
            1int
        } else {
            0int
        }
    }
}

/// How many of the event's records carry the given status.
pub open spec fn spec_count_status(
    s: Seq<AttendanceRecord>,
    event_id: i32,
    status: AttendanceStatus,
) -> int
    decreases s.len(),
{
    if s.len() == 0 {
        0
    } else {
        spec_count_status(s.drop_last(), event_id, status) + if s.last().event_id == event_id
            && s.last().status == status {
            1int
        } else {
            0int
        }
    }
}

/// Whether a record contributes a summary row: it belongs to the event and
/// its attendee resolves to a user that holds the attendee sub-record.
pub open spec fn spec_row_included(rec: AttendanceRecord, dir: UserDirectory, event_id: i32) -> bool {
    rec.event_id == event_id && dir.spec_has_user(rec.attendee_id) && dir.spec_user(
        rec.attendee_id,
    ).attendee is Some
}

/// How many included rows are late check-ins.
pub open spec fn spec_count_late(
    s: Seq<AttendanceRecord>,
    dir: UserDirectory,
    event_id: i32,
    window_end: Option<int>,
) -> int
    decreases s.len(),
{
    if s.len() == 0 {
        0
    } else {
        spec_count_late(s.drop_last(), dir, event_id, window_end) + if spec_row_included(
            s.last(),
            dir,
            event_id,
        ) && spec_is_late(s.last(), window_end) {
            1int
        } else {
            0int
        }
    }
}

/// The summary row a record and its user denote.
pub open spec fn spec_summary_row(
    rec: AttendanceRecord,
    user: User,
    window_end: Option<int>,
) -> EventAttendeeDetails {
    EventAttendeeDetails {
        attendee_id: rec.attendee_id,
        username: user.username,
        first_name: user.first_name,
        last_name: user.last_name,
        status: rec.status,
        rsvp_time: rec.created_at,
        check_in_time: if rec.status == AttendanceStatus::CheckedIn {
            Some(rec.updated_at)
        } else {
            None
        },
        is_late: spec_is_late(rec, window_end),
    }
}

/// The summary rows of the event, in record order, one per included record.
pub open spec fn spec_summary_rows(
    s: Seq<AttendanceRecord>,
    dir: UserDirectory,
    event_id: i32,
    window_end: Option<int>,
) -> Seq<EventAttendeeDetails>
    decreases s.len(),
{
    if s.len() == 0 {
        Seq::empty()
    } else {
        let rest = spec_summary_rows(s.drop_last(), dir, event_id, window_end);
        if spec_row_included(s.last(), dir, event_id) {
            rest.push(spec_summary_row(s.last(), dir.spec_user(s.last().attendee_id), window_end))
        } else {
            rest
        }
    }
}

/// The host's summary of an event's attendance: only the owning host may ask;
/// the totals count every record of the event, the late count and the rows
/// only those whose attendee still resolves.
pub fn get_event_attendance_summary(
    events: &EventStore,
    book: &AttendanceBook,
    dir: &UserDirectory,
    event_id: i32,
    host_id: i32,
) -> (r: Result<EventAttendanceSummary, EngineError>)
    requires
        events.well_formed(),
        book.well_formed(),
        dir.well_formed(),
    ensures
        match r {
            Ok(s) => {
                &&& events.spec_has_event(event_id)
                &&& events.spec_event(event_id).host_id == host_id
                &&& s.event_id == event_id
                &&& s.total_rsvp == spec_count_rsvp(book.records@, event_id)
                &&& s.total_checked_in == spec_count_status(
                    book.records@,
                    event_id,
                    AttendanceStatus::CheckedIn,
                )
                &&& s.total_no_show == spec_count_status(
                    book.records@,
                    event_id,
                    AttendanceStatus::NoShow,
                )
                &&& s.total_late == spec_count_late(
                    book.records@,
                    *dir,
                    event_id,
                    spec_window_end(events.spec_event(event_id)),
                )
                &&& s.attendees@ == spec_summary_rows(
                    book.records@,
                    *dir,
                    event_id,
                    spec_window_end(events.spec_event(event_id)),
                )
            },
            Err(e) => {
                &&& e == EngineError::NotFound ==> !events.spec_has_event(event_id)
                &&& e == EngineError::Unauthorized ==> events.spec_has_event(event_id)
                    && events.spec_event(event_id).host_id != host_id
                &&& (e == EngineError::NotFound || e == EngineError::Unauthorized)
            },
        },
{
    let event = match events.get_event_by_id(event_id) {
        Ok(e) => e,
        Err(_) => {
            return Err(EngineError::NotFound);
        },
    };
    if event.host_id != host_id {
        return Err(EngineError::Unauthorized);
    }
    let window_end: Option<i64> = match event.attendance_profile.duration_minutes() {
        Some(w) => Some(event.start_time + (w as i64) * 60),
        None => None,
    };
    let ghost gwe = spec_window_end(events.spec_event(event_id));
    proof {
        assert(match window_end {
            Some(v) => gwe == Some(v as int),
            None => gwe is None,
        });
    }
    let n = book.records.len();
    let mut attendees: Vec<EventAttendeeDetails> = Vec::new();
    let mut total_rsvp: i32 = 0;
    let mut total_checked_in: i32 = 0;
    let mut total_no_show: i32 = 0;
    let mut total_late: i32 = 0;
    let mut i: usize = 0;
    while i < n
        invariant
            book.well_formed(),
            dir.well_formed(),
            n == book.records@.len(),
            i <= n,
            gwe == match window_end {
                Some(v) => Some(v as int),
                None => None::<int>,
            },
            total_rsvp == spec_count_rsvp(book.records@.take(i as int), event_id),
            total_checked_in == spec_count_status(
                book.records@.take(i as int),
                event_id,
                AttendanceStatus::CheckedIn,
            ),
            total_no_show == spec_count_status(
                book.records@.take(i as int),
                event_id,
                AttendanceStatus::NoShow,
            ),
            total_late == spec_count_late(book.records@.take(i as int), *dir, event_id, gwe),
            attendees@ == spec_summary_rows(book.records@.take(i as int), *dir, event_id, gwe),
            0 <= total_rsvp <= i,
            0 <= total_checked_in <= i,
            0 <= total_no_show <= i,
            0 <= total_late <= i,
        decreases n - i,
    {
        proof {
            assert(book.records@.take(i + 1).drop_last() =~= book.records@.take(i as int));
            assert(book.records@.take(i + 1).last() == book.records@[i as int]);
        }
        let rec = book.records[i];
        if rec.event_id == event_id {
            total_rsvp = total_rsvp + 1;
            match rec.status {
                AttendanceStatus::CheckedIn => {
                    total_checked_in = total_checked_in + 1;
                },
                AttendanceStatus::NoShow => {
                    total_no_show = total_no_show + 1;
                },
                _ => {},
            }
            match dir.get_user_model_by_id(rec.attendee_id) {
                Ok(user) => {
                    if user.attendee.is_some() {
                        let is_late = match window_end {
                            Some(we) => matches!(rec.status, AttendanceStatus::CheckedIn)
                                && rec.updated_at > we,
                            None => false,
                        };
                        if is_late {
                            total_late = total_late + 1;
                        }
                        attendees.push(
                            EventAttendeeDetails {
                                attendee_id: rec.attendee_id,
                                username: user.username.clone(),
                                first_name: crate::users::clone_opt_string(&user.first_name),
                                last_name: crate::users::clone_opt_string(&user.last_name),
                                status: rec.status,
                                rsvp_time: rec.created_at,
                                check_in_time: if matches!(
                                    rec.status,
                                    AttendanceStatus::CheckedIn,
                                ) {
                                    Some(rec.updated_at)
                                } else {
                                    None
                                },
                                is_late,
                            },
                        );
                    }
                },
                Err(_) => {},
            }
        }
        i = i + 1;
    }
    proof {
        assert(book.records@.take(n as int) =~= book.records@);
    }
    Ok(
        EventAttendanceSummary {
            event_id,
            total_rsvp,
            total_checked_in,
            total_no_show,
            total_late,
            attendees,
        },
    )
}

/// How many records of the book belong to the event.
pub fn count_rsvps(book: &AttendanceBook, event_id: i32) -> (r: i32)
    requires
        book.well_formed(),
    ensures
        r == spec_count_rsvp(book.records@, event_id),
{
    let n = book.records.len();
    let mut count: i32 = 0;
    let mut i: usize = 0;
    while i < n
        invariant
            book.well_formed(),
            n == book.records@.len(),
            i <= n,
            count == spec_count_rsvp(book.records@.take(i as int), event_id),
            0 <= count <= i,
        decreases n - i,
    {
        proof {
            assert(book.records@.take(i + 1).drop_last() =~= book.records@.take(i as int));
        }
        if book.records[i].event_id == event_id {
            count = count + 1;
        }
        i = i + 1;
    }
    proof {
        assert(book.records@.take(n as int) =~= book.records@);
    }
    count
}

/// How many of the event's records carry the given status.
pub fn count_with_status(book: &AttendanceBook, event_id: i32, status: AttendanceStatus) -> (r: i32)
    requires
        book.well_formed(),
    ensures
        r == spec_count_status(book.records@, event_id, status),
{
    let n = book.records.len();
    let mut count: i32 = 0;
    let mut i: usize = 0;
    while i < n
        invariant
            book.well_formed(),
            n == book.records@.len(),
            i <= n,
            count == spec_count_status(book.records@.take(i as int), event_id, status),
            0 <= count <= i,
        decreases n - i,
    {
        proof {
            assert(book.records@.take(i + 1).drop_last() =~= book.records@.take(i as int));
        }
        let rec = &book.records[i];
        if rec.event_id == event_id && rec.status == status {
            count = count + 1;
        }
        i = i + 1;
    }
    proof {
        assert(book.records@.take(n as int) =~= book.records@);
    }
    count
}

/// A second RSVP for a pair that already holds a record fails
/// `AlreadyRegistered`: with the record a successful RSVP inserted in place,
/// repeating it at any instant is refused, so at most one record ever exists
/// per (event, attendee) pair.
pub proof fn lemma_rsvp_at_most_once(
    events: EventStore,
    book0: AttendanceBook,
    book1: AttendanceBook,
    event_id: i32,
    attendee_id: i32,
    now1: i64,
    now2: i64,
)
    requires
        spec_rsvp_outcome(events, book0, event_id, attendee_id, now1) is Ok,
        book1.records@ == book0.records@.push(
            spec_rsvp_outcome(events, book0, event_id, attendee_id, now1)->Ok_0,
        ),
    ensures
        spec_rsvp_outcome(events, book1, event_id, attendee_id, now2) == Err::<
            AttendanceRecord,
            EngineError,
        >(EngineError::AlreadyRegistered),
{
    let rec = spec_rsvp_outcome(events, book0, event_id, attendee_id, now1)->Ok_0;
    assert(book1.records@[book1.records@.len() - 1] == rec);
    assert(spec_has_record(book1.records@, event_id, attendee_id));
}

/// Check-in is idempotently rejected: once a check-in succeeds, a second
/// check-in for the same pair fails `AlreadyCheckedIn`, whatever instant,
/// position or verification mode it presents.
pub proof fn lemma_check_in_once(
    events: EventStore,
    book0: AttendanceBook,
    book1: AttendanceBook,
    event_id: i32,
    attendee_id: i32,
    verify1: bool,
    dist1: Option<u64>,
    now1: i64,
    verify2: bool,
    dist2: Option<u64>,
    now2: i64,
)
    requires
        book0.well_formed(),
        spec_check_in_outcome(events, book0, event_id, attendee_id, verify1, dist1, now1) is Ok,
        book1.records@ == book0.records@.update(
            spec_record_index(book0.records@, event_id, attendee_id),
            spec_check_in_outcome(
                events,
                book0,
                event_id,
                attendee_id,
                verify1,
                dist1,
                now1,
            )->Ok_0.0,
        ),
    ensures
        spec_check_in_outcome(events, book1, event_id, attendee_id, verify2, dist2, now2) == Err::<
            (AttendanceRecord, bool, bool),
            EngineError,
        >(EngineError::AlreadyCheckedIn),
{
    let i = spec_record_index(book0.records@, event_id, attendee_id);
    assert(spec_has_record(book0.records@, event_id, attendee_id));
    assert(0 <= i < book0.records@.len() && book0.records@[i].event_id == event_id
        && book0.records@[i].attendee_id == attendee_id);
    let rec1 = spec_check_in_outcome(
        events,
        book0,
        event_id,
        attendee_id,
        verify1,
        dist1,
        now1,
    )->Ok_0.0;
    assert(book1.records@[i] == rec1);
    assert(rec1.event_id == event_id && rec1.attendee_id == attendee_id);
    assert(spec_has_record(book1.records@, event_id, attendee_id));
    let j = spec_record_index(book1.records@, event_id, attendee_id);
    assert(0 <= j < book1.records@.len() && book1.records@[j].event_id == event_id
        && book1.records@[j].attendee_id == attendee_id);
    if j != i {
        assert(book1.records@[j] == book0.records@[j]);
        assert(false);
    }
    assert(book1.records@[j].status == AttendanceStatus::CheckedIn);
}

/// The window law for a bounded profile, stated through check-in: with a
/// prior RSVP not yet checked in and a started event, a check-in inside the
/// window is accepted on time; past the window it is accepted late while the
/// event is not closed, and refused `WindowClosed` once it is.
pub proof fn lemma_bounded_window_check_in(
    events: EventStore,
    book: AttendanceBook,
    event_id: i32,
    attendee_id: i32,
    now: i64,
)
    requires
        events.spec_has_event(event_id),
        spec_duration_minutes(events.spec_event(event_id).attendance_profile) is Some,
        spec_has_record(book.records@, event_id, attendee_id),
        book.records@[spec_record_index(book.records@, event_id, attendee_id)].status
            != AttendanceStatus::CheckedIn,
        events.spec_event(event_id).start_time <= now,
    ensures
        ({
            let event = events.spec_event(event_id);
            let window_end = event.start_time + (spec_duration_minutes(
                event.attendance_profile,
            )->0 as int) * 60;
            let r = spec_check_in_outcome(events, book, event_id, attendee_id, false, None, now);
            &&& now <= window_end ==> r is Ok && r->Ok_0.2 == false
            &&& now > window_end && event.status != EventStatus::Completed ==> r is Ok
                && r->Ok_0.2 == true
            &&& now > window_end && event.status == EventStatus::Completed ==> r == Err::<
                (AttendanceRecord, bool, bool),
                EngineError,
            >(EngineError::WindowClosed)
        }),
{
}


/// Request to RSVP; the note is for the host.
#[derive(Clone, Debug)]
pub struct RsvpEventRequest {
    pub note: Option<String>,
}

/// Acknowledgement of an RSVP.
#[derive(Clone, Debug)]
pub struct RsvpResponse {
    pub event_id: i32,
    pub attendee_id: i32,
    pub status: AttendanceStatus,
    pub message: String,
}

/// Shapes an RSVP's record into its acknowledgement.
pub fn rsvp_response(record: &AttendanceRecord) -> (r: RsvpResponse)
    ensures
        r.event_id == record.event_id,
        r.attendee_id == record.attendee_id,
        r.status == record.status,
        r.message@ == "RSVP successful"@,
{
    RsvpResponse {
        event_id: record.event_id,
        attendee_id: record.attendee_id,
        status: record.status,
        message: "RSVP successful".to_owned(),
    }
}

/// A completed check-in as handed to callers.
#[derive(Clone, Debug)]
pub struct AttendanceResponse {
    pub id: i32,
    pub event_id: i32,
    pub attendee_id: i32,
    pub status: AttendanceStatus,
    pub checked_in_at: Option<i64>,
    pub location_verified: bool,
    pub is_late: bool,
    pub message: String,
}

/// Shapes a successful check-in into its response; the message says whether
/// it was late.
pub fn attendance_response(
    record: &AttendanceRecord,
    location_verified: bool,
    is_late: bool,
) -> (r: AttendanceResponse)
    ensures
        r.id == record.id,
        r.event_id == record.event_id,
        r.attendee_id == record.attendee_id,
        r.status == record.status,
        r.checked_in_at == Some(record.updated_at),
        r.location_verified == location_verified,
        r.is_late == is_late,
        is_late ==> r.message@ == "Checked in successfully (late)"@,
        !is_late ==> r.message@ == "Checked in successfully"@,
{
    let message = if is_late {
        "Checked in successfully (late)".to_owned()
    } else {
        "Checked in successfully".to_owned()
    };
    AttendanceResponse {
        id: record.id,
        event_id: record.event_id,
        attendee_id: record.attendee_id,
        status: record.status,
        checked_in_at: Some(record.updated_at),
        location_verified,
        is_late,
        message,
    }
}

} // verus!
