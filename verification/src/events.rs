//! Physical events: the records the attendance engine works against.
//!
//! An event carries first-class fields for its geographic point (in
//! microdegrees), its geofence radius in meters, and its attendance profile;
//! status moves only forward (`Scheduled` to `Ongoing`/`Completed`/`Cancelled`,
//! never back), and only the owning host may mutate an event.

use vstd::prelude::*;
use crate::token::MAX_TIME;
use crate::users::{clone_opt_string, User, UserDirectory};

verus! {

/// Lifecycle state of an event; `Cancelled` is final.
#[derive(Clone, Copy, Debug, PartialEq, Eq, Structural)]
pub enum EventStatus {
    Scheduled,
    Ongoing,
    Completed,
    Cancelled,
}

/// What an event is about.
#[derive(Clone, Copy, Debug, PartialEq, Eq, Structural)]
pub enum EventCategory {
    Conference,
    Workshop,
    Social,
    Sports,
    Music,
    Other,
}

/// Who can see an event.
#[derive(Clone, Copy, Debug, PartialEq, Eq, Structural)]
pub enum EventVisibility {
    Public,
    Private,
}

/// Named presets for how long after start a check-in counts as on time.
#[derive(Clone, Copy, Debug, PartialEq, Eq, Structural)]
pub enum AttendanceProfile {
    /// Fifteen minutes after event start.
    Quick,
    /// Thirty minutes after event start.
    Standard,
    /// One hour after event start.
    Extended,
    /// No bound: on time throughout the event.
    Unlimited,
}

/// The check-in window of a profile, in minutes; `None` means unlimited.
pub open spec fn spec_duration_minutes(profile: AttendanceProfile) -> Option<i32> {
    match profile {
        AttendanceProfile::Quick => Some(15),
        AttendanceProfile::Standard => Some(30),
        AttendanceProfile::Extended => Some(60),
        AttendanceProfile::Unlimited => None,
    }
}

impl AttendanceProfile {
    /// The duration in minutes for this profile, unbounded for `Unlimited`.
    pub fn duration_minutes(&self) -> (r: Option<i32>)
        ensures
            r == spec_duration_minutes(*self),
    {
        match self {
            AttendanceProfile::Quick => Some(15),
            AttendanceProfile::Standard => Some(30),
            AttendanceProfile::Extended => Some(60),
            AttendanceProfile::Unlimited => None,
        }
    }
}

/// How often a recurring event repeats.
#[derive(Clone, Copy, Debug, PartialEq, Eq, Structural)]
pub enum RecurrenceFrequency {
    Daily,
    Weekly,
    Monthly,
    Quarterly,
}

/// A day of the week for weekly recurrence.
#[derive(Clone, Copy, Debug, PartialEq, Eq, Structural)]
pub enum DayOfWeek {
    Mon,
    Tue,
    Wed,
    Thu,
    Fri,
    Sat,
    Sun,
}

/// A recurrence rule for repeating events.
#[derive(Clone, Debug)]
pub struct RecurrenceRule {
    pub frequency: RecurrenceFrequency,
    /// Interval of the recurrence: one for every period, two for every other.
    pub interval: Option<u32>,
    /// Days of the week for weekly recurrence.
    pub days_of_week: Option<Vec<DayOfWeek>>,
    /// Instant the recurrence stops.
    pub end_date: Option<i64>,
    /// Number of occurrences.
    pub count: Option<u32>,
}

/// Geofence radius used when an event sets none, in meters.
pub const DEFAULT_GEOFENCE_RADIUS_M: u64 = 100;

/// A physical event. Coordinates are microdegrees; times are seconds.
#[derive(Clone, Debug)]
pub struct Event {
    pub id: i32,
    pub title: String,
    pub description: Option<String>,
    pub category: EventCategory,
    pub status: EventStatus,
    pub visibility: EventVisibility,
    pub host_id: i32,
    pub latitude_microdeg: i64,
    pub longitude_microdeg: i64,
    pub geofence_radius_m: Option<u64>,
    pub attendance_profile: AttendanceProfile,
    pub start_time: i64,
    pub end_time: i64,
    pub created_at: i64,
    pub updated_at: i64,
}

/// An event's times lie in the bounded range every timestamp respects.
pub open spec fn event_times_bounded(e: Event) -> bool {
    &&& 0 <= e.start_time <= MAX_TIME
    &&& 0 <= e.end_time <= MAX_TIME
}

/// Why an event operation failed.
#[derive(Clone, Copy, Debug, PartialEq, Eq, Structural)]
pub enum EventError {
    /// No such event, or its host row is gone.
    NotFound,
    /// The caller is not the host that owns the event.
    Unauthorized,
    /// The event's lifecycle state forbids the operation.
    InvalidState,
}

/// Copies an event, keeping every field.
pub fn clone_event(e: &Event) -> (r: Event)
    ensures
        r == *e,
{
    Event {
        id: e.id,
        title: e.title.clone(),
        description: clone_opt_string(&e.description),
        category: e.category,
        status: e.status,
        visibility: e.visibility,
        host_id: e.host_id,
        latitude_microdeg: e.latitude_microdeg,
        longitude_microdeg: e.longitude_microdeg,
        geofence_radius_m: e.geofence_radius_m,
        attendance_profile: e.attendance_profile,
        start_time: e.start_time,
        end_time: e.end_time,
        created_at: e.created_at,
        updated_at: e.updated_at,
    }
}

/// The store of all events. Row `i` holds the event with id `i + 1`.
pub struct EventStore {
    pub events: Vec<Event>,
}

/// The fields a new event is created from.
pub struct NewEvent {
    pub host_id: i32,
    pub title: String,
    pub description: Option<String>,
    pub category: EventCategory,
    pub visibility: EventVisibility,
    pub start_time: i64,
    pub end_time: i64,
    pub latitude_microdeg: i64,
    pub longitude_microdeg: i64,
    pub geofence_radius_m: Option<u64>,
    pub attendance_profile: AttendanceProfile,
}

/// The stored row a creation request denotes.
pub open spec fn spec_created_event(req: NewEvent, id: i32, now: i64) -> Event {
    Event {
        id,
        title: req.title,
        description: req.description,
        category: req.category,
        status: EventStatus::Scheduled,
        visibility: req.visibility,
        host_id: req.host_id,
        latitude_microdeg: req.latitude_microdeg,
        longitude_microdeg: req.longitude_microdeg,
        geofence_radius_m: req.geofence_radius_m,
        attendance_profile: req.attendance_profile,
        start_time: req.start_time,
        end_time: req.end_time,
        created_at: now,
        updated_at: now,
    }
}

/// The fields an update request may replace; absent fields stay.
pub struct EventUpdate {
    pub title: Option<String>,
    pub description: Option<String>,
    pub category: Option<EventCategory>,
    pub visibility: Option<EventVisibility>,
    pub start_time: Option<i64>,
    pub end_time: Option<i64>,
    pub latitude_microdeg: Option<i64>,
    pub longitude_microdeg: Option<i64>,
    pub geofence_radius_m: Option<u64>,
    pub attendance_profile: Option<AttendanceProfile>,
}

/// An update applied to a stored event: present fields replace stored ones,
/// the update instant is recorded, and id, host, and status stay.
pub open spec fn spec_apply_event_update(e: Event, u: EventUpdate, now: i64) -> Event {
    Event {
        title: if u.title is Some {
            u.title->0
        } else {
            e.title
        },
        description: if u.description is Some {
            u.description
        } else {
            e.description
        },
        category: if u.category is Some {
            u.category->0
        } else {
            e.category
        },
        visibility: if u.visibility is Some {
            u.visibility->0
        } else {
            e.visibility
        },
        start_time: if u.start_time is Some {
            u.start_time->0
        } else {
            e.start_time
        },
        end_time: if u.end_time is Some {
            u.end_time->0
        } else {
            e.end_time
        },
        latitude_microdeg: if u.latitude_microdeg is Some {
            u.latitude_microdeg->0
        } else {
            e.latitude_microdeg
        },
        longitude_microdeg: if u.longitude_microdeg is Some {
            u.longitude_microdeg->0
        } else {
            e.longitude_microdeg
        },
        geofence_radius_m: if u.geofence_radius_m is Some {
            u.geofence_radius_m
        } else {
            e.geofence_radius_m
        },
        attendance_profile: if u.attendance_profile is Some {
            u.attendance_profile->0
        } else {
            e.attendance_profile
        },
        updated_at: now,
        ..e
    }
}

impl EventStore {
    /// Ids are the row positions shifted by one and all times are bounded.
    pub open spec fn well_formed(&self) -> bool {
        &&& self.events@.len() < 0x7fff_ffff
        &&& forall|i: int| 0 <= i < self.events@.len() ==> #[trigger] self.events@[i].id == i + 1
        &&& forall|i: int|
            0 <= i < self.events@.len() ==> event_times_bounded(#[trigger] self.events@[i])
    }

    /// Whether `id` resolves to an event.
    pub open spec fn spec_has_event(&self, id: i32) -> bool {
        1 <= id && id <= self.events@.len()
    }

    /// The event `id` resolves to.
    pub open spec fn spec_event(&self, id: i32) -> Event
        recommends
            self.spec_has_event(id),
    {
        self.events@[id - 1]
    }

    /// An empty store.
    pub fn new() -> (s: EventStore)
        ensures
            s.well_formed(),
            s.events@.len() == 0,
    {
        EventStore { events: Vec::new() }
    }

    /// Looks an event up by id.
    pub fn get_event_by_id(&self, event_id: i32) -> (r: Result<&Event, EventError>)
        requires
            self.well_formed(),
        ensures
            match r {
                Ok(e) => self.spec_has_event(event_id) && *e == self.spec_event(event_id),
                Err(e) => e == EventError::NotFound && !self.spec_has_event(event_id),
            },
    {
        if 1 <= event_id && (event_id as usize) <= self.events.len() {
            Ok(&self.events[(event_id - 1) as usize])
        } else {
            Err(EventError::NotFound)
        }
    }

    /// Creates a physical event for the host: status starts `Scheduled`, the
    /// row gets the next id, and both bookkeeping instants are `now`.
    pub fn create_physical_event(&mut self, req: NewEvent, now: i64) -> (r: Event)
        requires
            old(self).well_formed(),
            old(self).events@.len() + 1 < 0x7fff_ffff,
            0 <= req.start_time <= MAX_TIME,
            0 <= req.end_time <= MAX_TIME,
            0 <= now <= MAX_TIME,
        ensures
            final(self).well_formed(),
            final(self).events@ == old(self).events@.push(
                spec_created_event(req, (old(self).events@.len() + 1) as i32, now),
            ),
            r == spec_created_event(req, (old(self).events@.len() + 1) as i32, now),
    {
        let id = (self.events.len() + 1) as i32;
        let event = Event {
            id,
            title: req.title,
            description: req.description,
            category: req.category,
            status: EventStatus::Scheduled,
            visibility: req.visibility,
            host_id: req.host_id,
            latitude_microdeg: req.latitude_microdeg,
            longitude_microdeg: req.longitude_microdeg,
            geofence_radius_m: req.geofence_radius_m,
            attendance_profile: req.attendance_profile,
            start_time: req.start_time,
            end_time: req.end_time,
            created_at: now,
            updated_at: now,
        };
        let copy = clone_event(&event);
        self.events.push(event);
        copy
    }

    /// Updates an event: only its owning host may, and only the given fields
    /// change; the lifecycle state never changes here.
    pub fn update_event(&mut self, event_id: i32, host_id: i32, update: EventUpdate, now: i64) -> (r:
        Result<Event, EventError>)
        requires
            old(self).well_formed(),
            update.start_time is Some ==> 0 <= update.start_time->0 <= MAX_TIME,
            update.end_time is Some ==> 0 <= update.end_time->0 <= MAX_TIME,
            0 <= now <= MAX_TIME,
        ensures
            final(self).well_formed(),
            match r {
                Ok(e) => {
                    &&& old(self).spec_has_event(event_id)
                    &&& old(self).spec_event(event_id).host_id == host_id
                    &&& e == spec_apply_event_update(old(self).spec_event(event_id), update, now)
                    &&& final(self).events@ == old(self).events@.update(event_id - 1, e)
                },
                Err(e) => {
                    &&& final(self).events@ == old(self).events@
                    &&& e == EventError::NotFound ==> !old(self).spec_has_event(event_id)
                    &&& e == EventError::Unauthorized ==> old(self).spec_has_event(event_id)
                        && old(self).spec_event(event_id).host_id != host_id
                    &&& (e == EventError::NotFound || e == EventError::Unauthorized)
                },
            },
    {
        if !(1 <= event_id && (event_id as usize) <= self.events.len()) {
            return Err(EventError::NotFound);
        }
        let i = (event_id - 1) as usize;
        if self.events[i].host_id != host_id {
            return Err(EventError::Unauthorized);
        }
        let updated = {
            let e = &self.events[i];
            Event {
                id: e.id,
                title: match update.title {
                    Some(t) => t,
                    None => e.title.clone(),
                },
                description: match update.description {
                    Some(d) => Some(d),
                    None => clone_opt_string(&e.description),
                },
                category: match update.category {
                    Some(c) => c,
                    None => e.category,
                },
                status: e.status,
                visibility: match update.visibility {
                    Some(v) => v,
                    None => e.visibility,
                },
                host_id: e.host_id,
                latitude_microdeg: match update.latitude_microdeg {
                    Some(v) => v,
                    None => e.latitude_microdeg,
                },
                longitude_microdeg: match update.longitude_microdeg {
                    Some(v) => v,
                    None => e.longitude_microdeg,
                },
                geofence_radius_m: match update.geofence_radius_m {
                    Some(v) => Some(v),
                    None => e.geofence_radius_m,
                },
                attendance_profile: match update.attendance_profile {
                    Some(p) => p,
                    None => e.attendance_profile,
                },
                start_time: match update.start_time {
                    Some(t) => t,
                    None => e.start_time,
                },
                end_time: match update.end_time {
                    Some(t) => t,
                    None => e.end_time,
                },
                created_at: e.created_at,
                updated_at: now,
            }
        };
        let copy = clone_event(&updated);
        self.events.set(i, updated);
        Ok(copy)
    }

    /// Cancels an event: only its owning host may, never twice; `Cancelled`
    /// is final, so this is the one forward transition the store performs.
    pub fn cancel_event(&mut self, event_id: i32, host_id: i32, now: i64) -> (r: Result<
        Event,
        EventError,
    >)
        requires
            old(self).well_formed(),
            0 <= now <= MAX_TIME,
        ensures
            final(self).well_formed(),
            match r {
                Ok(e) => {
                    &&& old(self).spec_has_event(event_id)
                    &&& old(self).spec_event(event_id).host_id == host_id
                    &&& old(self).spec_event(event_id).status != EventStatus::Cancelled
                    &&& e == (Event {
                        status: EventStatus::Cancelled,
                        updated_at: now,
                        ..old(self).spec_event(event_id)
                    })
                    &&& final(self).events@ == old(self).events@.update(event_id - 1, e)
                },
                Err(e) => {
                    &&& final(self).events@ == old(self).events@
                    &&& e == EventError::NotFound ==> !old(self).spec_has_event(event_id)
                    &&& e == EventError::Unauthorized ==> old(self).spec_has_event(event_id)
                        && old(self).spec_event(event_id).host_id != host_id
                    &&& e == EventError::InvalidState ==> old(self).spec_has_event(event_id)
                        && old(self).spec_event(event_id).host_id == host_id && old(
                        self,
                    ).spec_event(event_id).status == EventStatus::Cancelled
                    &&& (e == EventError::NotFound || e == EventError::Unauthorized || e
                        == EventError::InvalidState)
                },
            },
    {
        if !(1 <= event_id && (event_id as usize) <= self.events.len()) {
            return Err(EventError::NotFound);
        }
        let i = (event_id - 1) as usize;
        if self.events[i].host_id != host_id {
            return Err(EventError::Unauthorized);
        }
        if matches!(self.events[i].status, EventStatus::Cancelled) {
            return Err(EventError::InvalidState);
        }
        let cancelled = {
            let e = &self.events[i];
            Event {
                id: e.id,
                title: e.title.clone(),
                description: clone_opt_string(&e.description),
                category: e.category,
                status: EventStatus::Cancelled,
                visibility: e.visibility,
                host_id: e.host_id,
                latitude_microdeg: e.latitude_microdeg,
                longitude_microdeg: e.longitude_microdeg,
                geofence_radius_m: e.geofence_radius_m,
                attendance_profile: e.attendance_profile,
                start_time: e.start_time,
                end_time: e.end_time,
                created_at: e.created_at,
                updated_at: now,
            }
        };
        let copy = clone_event(&cancelled);
        self.events.set(i, cancelled);
        Ok(copy)
    }
}


/// Route parameters addressing one event.
#[derive(Clone, Copy, Debug)]
pub struct EventPathParams {
    pub event_type: crate::users::EventType,
    pub event_id: i32,
}

/// Query parameters of an event listing.
#[derive(Clone, Debug)]
pub struct ListEventsQuery {
    pub status: Option<String>,
    pub limit: Option<u64>,
    pub offset: Option<u64>,
}

/// Request to cancel an event.
#[derive(Clone, Debug)]
pub struct CancelEventRequest {
    pub reason: Option<String>,
}

/// Acknowledgement of a cancellation.
#[derive(Clone, Debug)]
pub struct CancelEventResponse {
    pub event_id: i32,
    pub status: EventStatus,
    pub message: String,
}

/// Builds the acknowledgement for a cancelled event.
pub fn cancel_event_response(event: &Event) -> (r: CancelEventResponse)
    ensures
        r.event_id == event.id,
        r.status == event.status,
        r.message@ == "Event cancelled successfully"@,
{
    CancelEventResponse {
        event_id: event.id,
        status: event.status,
        message: "Event cancelled successfully".to_owned(),
    }
}

/// The status a listing filter names, if any.
pub open spec fn spec_parse_event_status(s: Seq<char>) -> Option<EventStatus> {
    if s == "scheduled"@ {
        Some(EventStatus::Scheduled)
    } else if s == "ongoing"@ {
        Some(EventStatus::Ongoing)
    } else if s == "completed"@ {
        Some(EventStatus::Completed)
    } else if s == "cancelled"@ {
        Some(EventStatus::Cancelled)
    } else {
        None
    }
}

/// Parses a listing's status filter; an unknown word filters nothing.
pub fn parse_event_status(s: &String) -> (r: Option<EventStatus>)
    ensures
        r == spec_parse_event_status(s@),
{
    if *s == "scheduled".to_owned() {
        Some(EventStatus::Scheduled)
    } else if *s == "ongoing".to_owned() {
        Some(EventStatus::Ongoing)
    } else if *s == "completed".to_owned() {
        Some(EventStatus::Completed)
    } else if *s == "cancelled".to_owned() {
        Some(EventStatus::Cancelled)
    } else {
        None
    }
}

/// Whether an event passes the listing filter.
pub open spec fn spec_event_matches(
    e: Event,
    status: Option<EventStatus>,
    host_id: Option<i32>,
) -> bool {
    &&& (status is Some ==> e.status == status->0)
    &&& (host_id is Some ==> e.host_id == host_id->0)
}

/// The events passing the listing filter, in store order.
pub open spec fn spec_filtered_events(
    s: Seq<Event>,
    status: Option<EventStatus>,
    host_id: Option<i32>,
) -> Seq<Event>
    decreases s.len(),
{
    if s.len() == 0 {
        Seq::empty()
    } else {
        let rest = spec_filtered_events(s.drop_last(), status, host_id);
        if spec_event_matches(s.last(), status, host_id) {
            rest.push(s.last())
        } else {
            rest
        }
    }
}

impl EventStore {
    /// Lists events passing the filter: the page cut by offset and limit, in
    /// store order, together with the total number of matches.
    pub fn list_physical_events(
        &self,
        status: Option<EventStatus>,
        host_id: Option<i32>,
        limit: Option<u64>,
        offset: Option<u64>,
    ) -> (r: (Vec<Event>, u64))
        requires
            self.well_formed(),
        ensures
            ({
                let f = spec_filtered_events(self.events@, status, host_id);
                let start = if offset is Some && offset->0 <= f.len() {
                    offset->0 as int
                } else if offset is Some {
                    f.len() as int
                } else {
                    0int
                };
                let end = if limit is Some && start + limit->0 <= f.len() {
                    start + limit->0
                } else {
                    f.len() as int
                };
                &&& r.1 == f.len()
                &&& r.0@ == f.subrange(start, end)
            }),
    {
        let n = self.events.len();
        let mut filtered: Vec<Event> = Vec::new();
        let mut i: usize = 0;
        while i < n
            invariant
                self.well_formed(),
                n == self.events@.len(),
                i <= n,
                filtered@ == spec_filtered_events(self.events@.take(i as int), status, host_id),
                filtered@.len() <= i,
            decreases n - i,
        {
            proof {
                assert(self.events@.take(i + 1).drop_last() =~= self.events@.take(i as int));
                assert(self.events@.take(i + 1).last() == self.events@[i as int]);
            }
            let e = &self.events[i];
            let status_ok = match status {
                Some(st) => e.status == st,
                None => true,
            };
            let host_ok = match host_id {
                Some(h) => e.host_id == h,
                None => true,
            };
            if status_ok && host_ok {
                filtered.push(clone_event(e));
            }
            i = i + 1;
        }
        proof {
            assert(self.events@.take(n as int) =~= self.events@);
        }
        let total = filtered.len() as u64;
        let start: usize = match offset {
            Some(o) => {
                if o <= filtered.len() as u64 {
                    o as usize
                } else {
                    filtered.len()
                }
            },
            None => 0,
        };
        let end: usize = match limit {
            Some(l) => {
                if l <= (filtered.len() - start) as u64 {
                    start + (l as usize)
                } else {
                    filtered.len()
                }
            },
            None => filtered.len(),
        };
        let mut page: Vec<Event> = Vec::new();
        let mut j: usize = start;
        while j < end
            invariant
                start <= j <= end <= filtered@.len(),
                page@ == filtered@.subrange(start as int, j as int),
            decreases end - j,
        {
            page.push(clone_event(&filtered[j]));
            proof {
                assert(page@ =~= filtered@.subrange(start as int, j + 1));
            }
            j = j + 1;
        }
        proof {
            if start == end {
                assert(page@ =~= filtered@.subrange(start as int, end as int));
            }
        }
        (page, total)
    }
}

/// An event together with the user row of its owning host, which must carry
/// the host sub-record.
pub fn get_event_with_host<'a>(
    events: &'a EventStore,
    dir: &'a UserDirectory,
    event_id: i32,
) -> (r: Result<(&'a Event, &'a User), EventError>)
    requires
        events.well_formed(),
        dir.well_formed(),
    ensures
        match r {
            Ok(p) => {
                &&& events.spec_has_event(event_id)
                &&& *p.0 == events.spec_event(event_id)
                &&& dir.spec_has_user(events.spec_event(event_id).host_id)
                &&& *p.1 == dir.spec_user(events.spec_event(event_id).host_id)
                &&& dir.spec_user(events.spec_event(event_id).host_id).host is Some
            },
            Err(e) => e == EventError::NotFound && (!events.spec_has_event(event_id)
                || !dir.spec_has_user(events.spec_event(event_id).host_id) || dir.spec_user(
                events.spec_event(event_id).host_id,
            ).host is None),
        },
{
    let event = match events.get_event_by_id(event_id) {
        Ok(e) => e,
        Err(_) => {
            return Err(EventError::NotFound);
        },
    };
    match dir.get_host_with_user(event.host_id) {
        Ok((_, user)) => Ok((event, user)),
        Err(_) => Err(EventError::NotFound),
    }
}

/// One event as handed to callers: first-class location and window fields
/// beside the host's name and the attendance counts.
#[derive(Clone, Debug)]
pub struct PhysicalEventResponse {
    pub id: i32,
    pub name: String,
    pub description: Option<String>,
    pub category: EventCategory,
    pub status: EventStatus,
    pub visibility: EventVisibility,
    pub host_id: i32,
    pub host_name: String,
    pub start_time: i64,
    pub end_time: i64,
    pub latitude_microdeg: i64,
    pub longitude_microdeg: i64,
    pub geofence_radius_m: Option<u64>,
    pub attendance_profile: AttendanceProfile,
    pub attendance_window_minutes: Option<i32>,
    pub rsvp_count: i32,
    pub checked_in_count: i32,
    pub created_at: i64,
    pub updated_at: i64,
}

/// A page of events with the total match count.
#[derive(Clone, Debug)]
pub struct PhysicalEventsListResponse {
    pub events: Vec<PhysicalEventResponse>,
    pub total: i64,
}

/// The response an event denotes, given its host's name and the counts.
pub open spec fn spec_event_to_response(
    event: Event,
    host_name: String,
    rsvp_count: i32,
    checked_in_count: i32,
) -> PhysicalEventResponse {
    PhysicalEventResponse {
        id: event.id,
        name: event.title,
        description: event.description,
        category: event.category,
        status: event.status,
        visibility: event.visibility,
        host_id: event.host_id,
        host_name,
        start_time: event.start_time,
        end_time: event.end_time,
        latitude_microdeg: event.latitude_microdeg,
        longitude_microdeg: event.longitude_microdeg,
        geofence_radius_m: event.geofence_radius_m,
        attendance_profile: event.attendance_profile,
        attendance_window_minutes: spec_duration_minutes(event.attendance_profile),
        rsvp_count,
        checked_in_count,
        created_at: event.created_at,
        updated_at: event.updated_at,
    }
}

/// Shapes an event into its response, deriving the window minutes from the
/// profile.
pub fn event_to_response(
    event: &Event,
    host_name: String,
    rsvp_count: i32,
    checked_in_count: i32,
) -> (r: PhysicalEventResponse)
    ensures
        r == spec_event_to_response(*event, host_name, rsvp_count, checked_in_count),
{
    PhysicalEventResponse {
        id: event.id,
        name: event.title.clone(),
        description: clone_opt_string(&event.description),
        category: event.category,
        status: event.status,
        visibility: event.visibility,
        host_id: event.host_id,
        host_name,
        start_time: event.start_time,
        end_time: event.end_time,
        latitude_microdeg: event.latitude_microdeg,
        longitude_microdeg: event.longitude_microdeg,
        geofence_radius_m: event.geofence_radius_m,
        attendance_profile: event.attendance_profile,
        attendance_window_minutes: event.attendance_profile.duration_minutes(),
        rsvp_count,
        checked_in_count,
        created_at: event.created_at,
        updated_at: event.updated_at,
    }
}


/// One event shaped for a caller: the host's name joined in and both counts
/// computed from the book.
pub fn get_event_response(
    events: &EventStore,
    book: &crate::attendance::AttendanceBook,
    dir: &UserDirectory,
    event_id: i32,
) -> (r: Result<PhysicalEventResponse, EventError>)
    requires
        events.well_formed(),
        book.well_formed(),
        dir.well_formed(),
    ensures
        match r {
            Ok(resp) => {
                &&& events.spec_has_event(event_id)
                &&& dir.spec_has_user(events.spec_event(event_id).host_id)
                &&& resp == spec_event_to_response(
                    events.spec_event(event_id),
                    dir.spec_user(events.spec_event(event_id).host_id).username,
                    crate::attendance::spec_count_rsvp(book.records@, event_id) as i32,
                    crate::attendance::spec_count_status(
                        book.records@,
                        event_id,
                        crate::attendance::AttendanceStatus::CheckedIn,
                    ) as i32,
                )
            },
            Err(e) => e == EventError::NotFound && (!events.spec_has_event(event_id)
                || !dir.spec_has_user(events.spec_event(event_id).host_id) || dir.spec_user(
                events.spec_event(event_id).host_id,
            ).host is None),
        },
{
    let (event, host_user) = match get_event_with_host(events, dir, event_id) {
        Ok(p) => p,
        Err(e) => {
            return Err(e);
        },
    };
    let rsvp_count = crate::attendance::count_rsvps(book, event_id);
    let checked_in_count = crate::attendance::count_with_status(
        book,
        event_id,
        crate::attendance::AttendanceStatus::CheckedIn,
    );
    Ok(event_to_response(event, host_user.username.clone(), rsvp_count, checked_in_count))
}

/// The response page a listing denotes: each filtered event shaped with its
/// host's name and counts.
pub open spec fn spec_listed_responses(
    page: Seq<Event>,
    book: crate::attendance::AttendanceBook,
    dir: UserDirectory,
) -> Seq<PhysicalEventResponse>
    decreases page.len(),
{
    if page.len() == 0 {
        Seq::empty()
    } else {
        spec_listed_responses(page.drop_last(), book, dir).push(
            spec_event_to_response(
                page.last(),
                dir.spec_user(page.last().host_id).username,
                crate::attendance::spec_count_rsvp(book.records@, page.last().id) as i32,
                crate::attendance::spec_count_status(
                    book.records@,
                    page.last().id,
                    crate::attendance::AttendanceStatus::CheckedIn,
                ) as i32,
            ),
        )
    }
}

/// A filter never lengthens the sequence.
proof fn lemma_filtered_len(s: Seq<Event>, status: Option<EventStatus>, host_id: Option<i32>)
    ensures
        spec_filtered_events(s, status, host_id).len() <= s.len(),
    decreases s.len(),
{
    if s.len() > 0 {
        lemma_filtered_len(s.drop_last(), status, host_id);
    }
}

/// The status filter a listing query names.
pub open spec fn spec_query_status(q: ListEventsQuery) -> Option<EventStatus> {
    if q.status is Some {
        spec_parse_event_status(q.status->0@)
    } else {
        None
    }
}

/// Where a listing page starts within the filtered sequence.
pub open spec fn spec_page_start(f: Seq<Event>, q: ListEventsQuery) -> int {
    if q.offset is Some && q.offset->0 <= f.len() {
        q.offset->0 as int
    } else if q.offset is Some {
        f.len() as int
    } else {
        0
    }
}

/// Where a listing page ends within the filtered sequence.
pub open spec fn spec_page_end(f: Seq<Event>, q: ListEventsQuery) -> int {
    if q.limit is Some && spec_page_start(f, q) + q.limit->0 <= f.len() {
        spec_page_start(f, q) + q.limit->0
    } else {
        f.len() as int
    }
}

/// The page a listing query cuts from the store.
pub open spec fn spec_list_page(events: EventStore, q: ListEventsQuery) -> Seq<Event> {
    let f = spec_filtered_events(events.events@, spec_query_status(q), None);
    f.subrange(spec_page_start(f, q), spec_page_end(f, q))
}

/// Lists events for callers: parses the status filter, cuts the page, and
/// shapes every event with its host's name and counts. Fails `NotFound` when
/// a listed event's host row is gone.
#[verifier::loop_isolation(false)]
pub fn list_events(
    events: &EventStore,
    book: &crate::attendance::AttendanceBook,
    dir: &UserDirectory,
    query: &ListEventsQuery,
) -> (r: Result<PhysicalEventsListResponse, EventError>)
    requires
        events.well_formed(),
        book.well_formed(),
        dir.well_formed(),
    ensures
        match r {
            Ok(resp) => {
                &&& resp.total == spec_filtered_events(
                    events.events@,
                    spec_query_status(*query),
                    None,
                ).len()
                &&& (forall|k: int|
                    0 <= k < spec_list_page(*events, *query).len() ==> dir.spec_has_user(
                        (#[trigger] spec_list_page(*events, *query)[k]).host_id,
                    ) && dir.spec_user(spec_list_page(*events, *query)[k].host_id).host is Some)
                &&& resp.events@ == spec_listed_responses(
                    spec_list_page(*events, *query),
                    *book,
                    *dir,
                )
            },
            Err(e) => e == EventError::NotFound && exists|k: int|
                0 <= k < spec_list_page(*events, *query).len() && (!dir.spec_has_user(
                    (#[trigger] spec_list_page(*events, *query)[k]).host_id,
                ) || dir.spec_user(spec_list_page(*events, *query)[k].host_id).host is None),
        },
{
    let status = match &query.status {
        Some(s) => parse_event_status(s),
        None => None,
    };
    let (page, total) = events.list_physical_events(status, None, query.limit, query.offset);
    let n = page.len();
    let mut responses: Vec<PhysicalEventResponse> = Vec::new();
    let ghost gpage = page@;
    let mut i: usize = 0;
    while i < n
        invariant
            events.well_formed(),
            book.well_formed(),
            dir.well_formed(),
            n == gpage.len(),
            gpage == page@,
            i <= n,
            forall|k: int|
                0 <= k < i ==> dir.spec_has_user(#[trigger] gpage[k].host_id) && dir.spec_user(
                    gpage[k].host_id,
                ).host is Some,
            responses@ == spec_listed_responses(gpage.take(i as int), *book, *dir),
        decreases n - i,
    {
        proof {
            assert(gpage.take(i + 1).drop_last() =~= gpage.take(i as int));
            assert(gpage.take(i + 1).last() == gpage[i as int]);
        }
        let e = &page[i];
        let host_user = match dir.get_host_with_user(e.host_id) {
            Ok((_, u)) => u,
            Err(_) => {
                proof {
                    assert(gpage == spec_list_page(*events, *query));
                    assert(0 <= i < spec_list_page(*events, *query).len() && (!dir.spec_has_user(
                        spec_list_page(*events, *query)[i as int].host_id,
                    ) || dir.spec_user(
                        spec_list_page(*events, *query)[i as int].host_id,
                    ).host is None));
                }
                return Err(EventError::NotFound);
            },
        };
        let rsvp_count = crate::attendance::count_rsvps(book, e.id);
        let checked_in_count = crate::attendance::count_with_status(
            book,
            e.id,
            crate::attendance::AttendanceStatus::CheckedIn,
        );
        responses.push(event_to_response(e, host_user.username.clone(), rsvp_count, checked_in_count));
        i = i + 1;
    }
    proof {
        assert(gpage.take(n as int) =~= gpage);
        lemma_filtered_len(events.events@, spec_query_status(*query), None);
        assert(gpage == spec_list_page(*events, *query));
    }
    let total_i64 = total as i64;
    Ok(PhysicalEventsListResponse { events: responses, total: total_i64 })
}

} // verus!
