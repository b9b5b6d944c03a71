use attendance_core::attendance::{
    attendance_response, count_rsvps, count_with_status, evaluate_location, evaluate_window,
    get_event_attendance_summary, mark_attendance, rsvp_event, rsvp_response, AttendanceBook,
    AttendanceStatus, EngineError,
};
use attendance_core::credstore::CredStore;
use attendance_core::events::{
    cancel_event_response, event_to_response, get_event_response, list_events,
    parse_event_status, AttendanceProfile, Event, EventCategory, EventError, EventStatus,
    EventStore, EventUpdate, EventVisibility, ListEventsQuery, NewEvent,
};
use attendance_core::users::{SignUp, SignupType, UserDirectory};

/// Great-circle distance in meters between two points given in degrees,
/// by the haversine formula with a 6371 km Earth radius.
fn haversine_m(lat1: f64, lon1: f64, lat2: f64, lon2: f64) -> f64 {
    let earth_radius_km = 6371.0_f64;
    let lat1_rad = lat1.to_radians();
    let lat2_rad = lat2.to_radians();
    let delta_lat = (lat2 - lat1).to_radians();
    let delta_lon = (lon2 - lon1).to_radians();
    let a = (delta_lat / 2.0).sin().powi(2)
        + lat1_rad.cos() * lat2_rad.cos() * (delta_lon / 2.0).sin().powi(2);
    let c = 2.0 * a.sqrt().atan2((1.0 - a).sqrt());
    earth_radius_km * c * 1000.0
}

fn host_dir() -> UserDirectory {
    let mut dir = UserDirectory::new();
    dir.create_user(SignUp {
        username: "hostess".to_string(),
        first_name: None,
        last_name: None,
        email: "host@example.com".to_string(),
        avatar_url: None,
        password: "hosting password".to_string(),
        signup_type: SignupType::Google,
    })
    .unwrap();
    dir
}

fn new_event(profile: AttendanceProfile, start: i64, end: i64) -> NewEvent {
    NewEvent {
        host_id: 1,
        title: "Meetup".to_string(),
        description: Some("In the park".to_string()),
        category: EventCategory::Social,
        visibility: EventVisibility::Public,
        start_time: start,
        end_time: end,
        latitude_microdeg: 0,
        longitude_microdeg: 0,
        geofence_radius_m: Some(100),
        attendance_profile: profile,
    }
}

#[test]
fn rsvp_succeeds_once_then_already_registered() {
    let mut events = EventStore::new();
    events.create_physical_event(new_event(AttendanceProfile::Standard, 10_000, 20_000), 5_000);
    let mut book = AttendanceBook::new();
    let rec = rsvp_event(&events, &mut book, 1, 7, 6_000).unwrap();
    assert_eq!(rec.status, AttendanceStatus::Registered);
    assert_eq!(rec.created_at, 6_000);
    let again = rsvp_event(&events, &mut book, 1, 7, 6_100);
    assert_eq!(again.unwrap_err(), EngineError::AlreadyRegistered);
    assert_eq!(book.records.len(), 1);
}

#[test]
fn rsvp_requires_existing_live_event() {
    let mut events = EventStore::new();
    let mut book = AttendanceBook::new();
    assert_eq!(rsvp_event(&events, &mut book, 1, 7, 6_000).unwrap_err(), EngineError::NotFound);
    events.create_physical_event(new_event(AttendanceProfile::Standard, 10_000, 20_000), 5_000);
    events.cancel_event(1, 1, 5_500).unwrap();
    assert_eq!(
        rsvp_event(&events, &mut book, 1, 7, 6_000).unwrap_err(),
        EngineError::InvalidState
    );
}

#[test]
fn check_in_succeeds_once_then_already_checked_in() {
    let mut events = EventStore::new();
    events.create_physical_event(new_event(AttendanceProfile::Standard, 10_000, 20_000), 5_000);
    let mut book = AttendanceBook::new();
    rsvp_event(&events, &mut book, 1, 7, 6_000).unwrap();
    let (rec, loc, late) = mark_attendance(&events, &mut book, 1, 7, false, None, 10_100).unwrap();
    assert_eq!(rec.status, AttendanceStatus::CheckedIn);
    assert_eq!(rec.updated_at, 10_100);
    assert!(!loc);
    assert!(!late);
    let again = mark_attendance(&events, &mut book, 1, 7, false, None, 10_200);
    assert_eq!(again.unwrap_err(), EngineError::AlreadyCheckedIn);
}

#[test]
fn check_in_requires_rsvp_and_started_event() {
    let mut events = EventStore::new();
    events.create_physical_event(new_event(AttendanceProfile::Standard, 10_000, 20_000), 5_000);
    let mut book = AttendanceBook::new();
    assert_eq!(
        mark_attendance(&events, &mut book, 1, 7, false, None, 10_100).unwrap_err(),
        EngineError::NoRsvp
    );
    rsvp_event(&events, &mut book, 1, 7, 6_000).unwrap();
    assert_eq!(
        mark_attendance(&events, &mut book, 1, 7, false, None, 9_999).unwrap_err(),
        EngineError::NotStarted
    );
    assert_eq!(
        mark_attendance(&events, &mut book, 2, 7, false, None, 10_100).unwrap_err(),
        EngineError::NotFound
    );
}

#[test]
fn geofence_accepts_at_event_point_and_rejects_200km_away() {
    let mut events = EventStore::new();
    events.create_physical_event(new_event(AttendanceProfile::Standard, 10_000, 20_000), 5_000);
    let mut book = AttendanceBook::new();
    rsvp_event(&events, &mut book, 1, 7, 6_000).unwrap();
    rsvp_event(&events, &mut book, 1, 8, 6_000).unwrap();

    let at_event = haversine_m(0.0, 0.0, 0.0, 0.0);
    let (_, loc, _) =
        mark_attendance(&events, &mut book, 1, 7, true, Some(at_event as u64), 10_100).unwrap();
    assert!(loc);

    let far = haversine_m(0.0, 0.0, 1.798, 0.0);
    assert!(far > 199_000.0 && far < 201_000.0);
    let r = mark_attendance(&events, &mut book, 1, 8, true, Some(far as u64), 10_100);
    match r.unwrap_err() {
        EngineError::TooFar(d, limit) => {
            assert!(d > 199_000);
            assert_eq!(limit, 100);
        },
        e => panic!("expected TooFar, got {:?}", e),
    }
}

#[test]
fn geofence_needs_coordinates_and_uses_default_radius() {
    let mut events = EventStore::new();
    let mut req = new_event(AttendanceProfile::Standard, 10_000, 20_000);
    req.geofence_radius_m = None;
    events.create_physical_event(req, 5_000);
    let mut book = AttendanceBook::new();
    rsvp_event(&events, &mut book, 1, 7, 6_000).unwrap();
    assert_eq!(
        mark_attendance(&events, &mut book, 1, 7, true, None, 10_100).unwrap_err(),
        EngineError::MissingCoordinates
    );
    let r = mark_attendance(&events, &mut book, 1, 7, true, Some(101), 10_100);
    assert_eq!(r.unwrap_err(), EngineError::TooFar(101, 100));
    let (_, loc, _) = mark_attendance(&events, &mut book, 1, 7, true, Some(100), 10_100).unwrap();
    assert!(loc);
}

#[test]
fn quick_window_on_time_late_and_closed() {
    let start = 10_000_i64;
    let ten_min = start + 600;
    let twenty_min = start + 1200;

    // On time at T+10min.
    let mut events = EventStore::new();
    events.create_physical_event(new_event(AttendanceProfile::Quick, start, start + 7200), 5_000);
    let mut book = AttendanceBook::new();
    rsvp_event(&events, &mut book, 1, 7, 6_000).unwrap();
    let (_, _, late) = mark_attendance(&events, &mut book, 1, 7, false, None, ten_min).unwrap();
    assert!(!late);

    // Late at T+20min while the event is not completed.
    let mut book2 = AttendanceBook::new();
    rsvp_event(&events, &mut book2, 1, 7, 6_000).unwrap();
    let (_, _, late2) =
        mark_attendance(&events, &mut book2, 1, 7, false, None, twenty_min).unwrap();
    assert!(late2);

    // WindowClosed at T+20min once the event is completed.
    let mut events3 = EventStore::new();
    events3.create_physical_event(new_event(AttendanceProfile::Quick, start, start + 7200), 5_000);
    events3.events[0].status = EventStatus::Completed;
    let mut book3 = AttendanceBook::new();
    book3.records.push(attendance_core::attendance::AttendanceRecord {
        id: 1,
        event_id: 1,
        attendee_id: 7,
        status: AttendanceStatus::Registered,
        created_at: 6_000,
        updated_at: 6_000,
    });
    let r = mark_attendance(&events3, &mut book3, 1, 7, false, None, twenty_min);
    assert_eq!(r.unwrap_err(), EngineError::WindowClosed);
}

#[test]
fn unlimited_window_past_end_is_late_or_ended() {
    let start = 10_000_i64;
    let end = 20_000_i64;
    let mut events = EventStore::new();
    events.create_physical_event(new_event(AttendanceProfile::Unlimited, start, end), 5_000);
    let mut book = AttendanceBook::new();
    rsvp_event(&events, &mut book, 1, 7, 6_000).unwrap();
    let (_, _, late) = mark_attendance(&events, &mut book, 1, 7, false, None, end + 50).unwrap();
    assert!(late);

    events.events[0].status = EventStatus::Completed;
    let mut book2 = AttendanceBook::new();
    book2.records.push(attendance_core::attendance::AttendanceRecord {
        id: 1,
        event_id: 1,
        attendee_id: 7,
        status: AttendanceStatus::Registered,
        created_at: 6_000,
        updated_at: 6_000,
    });
    let r = mark_attendance(&events, &mut book2, 1, 7, false, None, end + 50);
    assert_eq!(r.unwrap_err(), EngineError::EventEnded);
}

#[test]
fn summary_counts_and_rows() {
    let dir = {
        let mut dir = host_dir();
        dir.create_user(SignUp {
            username: "alice".to_string(),
            first_name: Some("Alice".to_string()),
            last_name: None,
            email: "alice@example.com".to_string(),
            avatar_url: None,
            password: "alice password".to_string(),
            signup_type: SignupType::Google,
        })
        .unwrap();
        dir
    };
    let start = 10_000_i64;
    let mut events = EventStore::new();
    events.create_physical_event(new_event(AttendanceProfile::Quick, start, start + 7200), 5_000);
    let mut book = AttendanceBook::new();
    rsvp_event(&events, &mut book, 1, 2, 6_000).unwrap();
    // Attendee 99 has no user row: counted in totals, absent from rows.
    rsvp_event(&events, &mut book, 1, 99, 6_100).unwrap();
    mark_attendance(&events, &mut book, 1, 2, false, None, start + 1200).unwrap();

    let summary = get_event_attendance_summary(&events, &book, &dir, 1, 1).unwrap();
    assert_eq!(summary.event_id, 1);
    assert_eq!(summary.total_rsvp, 2);
    assert_eq!(summary.total_checked_in, 1);
    assert_eq!(summary.total_no_show, 0);
    assert_eq!(summary.total_late, 1);
    assert_eq!(summary.attendees.len(), 1);
    let row = &summary.attendees[0];
    assert_eq!(row.attendee_id, 2);
    assert_eq!(row.username, "alice");
    assert_eq!(row.status, AttendanceStatus::CheckedIn);
    assert_eq!(row.rsvp_time, 6_000);
    assert_eq!(row.check_in_time, Some(start + 1200));
    assert!(row.is_late);
}

#[test]
fn summary_is_host_only() {
    let dir = host_dir();
    let mut events = EventStore::new();
    events.create_physical_event(new_event(AttendanceProfile::Quick, 10_000, 20_000), 5_000);
    let book = AttendanceBook::new();
    let r = get_event_attendance_summary(&events, &book, &dir, 1, 2);
    assert_eq!(r.unwrap_err(), EngineError::Unauthorized);
    let missing = get_event_attendance_summary(&events, &book, &dir, 9, 1);
    assert_eq!(missing.unwrap_err(), EngineError::NotFound);
}

#[test]
fn cancel_event_is_host_only_and_final() {
    let mut events = EventStore::new();
    events.create_physical_event(new_event(AttendanceProfile::Quick, 10_000, 20_000), 5_000);
    assert_eq!(events.cancel_event(1, 2, 5_100).unwrap_err(), EventError::Unauthorized);
    let cancelled = events.cancel_event(1, 1, 5_200).unwrap();
    assert_eq!(cancelled.status, EventStatus::Cancelled);
    assert_eq!(cancelled.updated_at, 5_200);
    assert_eq!(events.cancel_event(1, 1, 5_300).unwrap_err(), EventError::InvalidState);
    let resp = cancel_event_response(&cancelled);
    assert_eq!(resp.event_id, 1);
    assert_eq!(resp.status, EventStatus::Cancelled);
}

#[test]
fn update_event_applies_only_present_fields() {
    let mut events = EventStore::new();
    events.create_physical_event(new_event(AttendanceProfile::Quick, 10_000, 20_000), 5_000);
    let update = EventUpdate {
        title: Some("Renamed".to_string()),
        description: None,
        category: None,
        visibility: None,
        start_time: Some(11_000),
        end_time: None,
        latitude_microdeg: None,
        longitude_microdeg: None,
        geofence_radius_m: Some(250),
        attendance_profile: Some(AttendanceProfile::Extended),
    };
    let updated = events.update_event(1, 1, update, 5_500).unwrap();
    assert_eq!(updated.title, "Renamed");
    assert_eq!(updated.description.as_deref(), Some("In the park"));
    assert_eq!(updated.start_time, 11_000);
    assert_eq!(updated.end_time, 20_000);
    assert_eq!(updated.geofence_radius_m, Some(250));
    assert_eq!(updated.attendance_profile, AttendanceProfile::Extended);
    assert_eq!(updated.updated_at, 5_500);

    let foreign = EventUpdate {
        title: None,
        description: None,
        category: None,
        visibility: None,
        start_time: None,
        end_time: None,
        latitude_microdeg: None,
        longitude_microdeg: None,
        geofence_radius_m: None,
        attendance_profile: None,
    };
    assert_eq!(events.update_event(1, 2, foreign, 5_600).unwrap_err(), EventError::Unauthorized);
}

#[test]
fn counts_track_records() {
    let mut events = EventStore::new();
    events.create_physical_event(new_event(AttendanceProfile::Quick, 10_000, 20_000), 5_000);
    events.create_physical_event(new_event(AttendanceProfile::Quick, 10_000, 20_000), 5_000);
    let mut book = AttendanceBook::new();
    rsvp_event(&events, &mut book, 1, 7, 6_000).unwrap();
    rsvp_event(&events, &mut book, 1, 8, 6_000).unwrap();
    rsvp_event(&events, &mut book, 2, 7, 6_000).unwrap();
    mark_attendance(&events, &mut book, 1, 7, false, None, 10_100).unwrap();
    assert_eq!(count_rsvps(&book, 1), 2);
    assert_eq!(count_rsvps(&book, 2), 1);
    assert_eq!(count_with_status(&book, 1, AttendanceStatus::CheckedIn), 1);
    assert_eq!(count_with_status(&book, 2, AttendanceStatus::CheckedIn), 0);
}

#[test]
fn event_response_carries_first_class_fields() {
    let mut events = EventStore::new();
    events.create_physical_event(new_event(AttendanceProfile::Quick, 10_000, 20_000), 5_000);
    let book = AttendanceBook::new();
    let dir = host_dir();
    let resp = get_event_response(&events, &book, &dir, 1).unwrap();
    assert_eq!(resp.id, 1);
    assert_eq!(resp.name, "Meetup");
    assert_eq!(resp.host_name, "hostess");
    assert_eq!(resp.attendance_window_minutes, Some(15));
    assert_eq!(resp.rsvp_count, 0);
    assert_eq!(resp.geofence_radius_m, Some(100));
    assert!(get_event_response(&events, &book, &dir, 2).is_err());
}

#[test]
fn event_to_response_derives_window_minutes() {
    let mut events = EventStore::new();
    let e: Event =
        events.create_physical_event(new_event(AttendanceProfile::Unlimited, 10_000, 20_000), 5_000);
    let resp = event_to_response(&e, "hostess".to_string(), 3, 2);
    assert_eq!(resp.attendance_window_minutes, None);
    assert_eq!(resp.rsvp_count, 3);
    assert_eq!(resp.checked_in_count, 2);
}

#[test]
fn listing_filters_and_paginates() {
    let dir = host_dir();
    let book = AttendanceBook::new();
    let mut events = EventStore::new();
    for _ in 0..5 {
        events.create_physical_event(new_event(AttendanceProfile::Quick, 10_000, 20_000), 5_000);
    }
    events.cancel_event(2, 1, 5_100).unwrap();

    let all = ListEventsQuery { status: None, limit: None, offset: None };
    let resp = list_events(&events, &book, &dir, &all).unwrap();
    assert_eq!(resp.total, 5);
    assert_eq!(resp.events.len(), 5);

    let scheduled = ListEventsQuery { status: Some("scheduled".to_string()), limit: None, offset: None };
    let resp = list_events(&events, &book, &dir, &scheduled).unwrap();
    assert_eq!(resp.total, 4);

    let cancelled = ListEventsQuery { status: Some("cancelled".to_string()), limit: None, offset: None };
    let resp = list_events(&events, &book, &dir, &cancelled).unwrap();
    assert_eq!(resp.total, 1);
    assert_eq!(resp.events[0].id, 2);

    let page = ListEventsQuery { status: None, limit: Some(2), offset: Some(1) };
    let resp = list_events(&events, &book, &dir, &page).unwrap();
    assert_eq!(resp.total, 5);
    assert_eq!(resp.events.len(), 2);
    assert_eq!(resp.events[0].id, 2);
    assert_eq!(resp.events[1].id, 3);

    let past_end = ListEventsQuery { status: None, limit: Some(3), offset: Some(10) };
    let resp = list_events(&events, &book, &dir, &past_end).unwrap();
    assert_eq!(resp.events.len(), 0);
}

#[test]
fn parse_event_status_accepts_known_words() {
    assert_eq!(parse_event_status(&"scheduled".to_string()), Some(EventStatus::Scheduled));
    assert_eq!(parse_event_status(&"ongoing".to_string()), Some(EventStatus::Ongoing));
    assert_eq!(parse_event_status(&"completed".to_string()), Some(EventStatus::Completed));
    assert_eq!(parse_event_status(&"cancelled".to_string()), Some(EventStatus::Cancelled));
    assert_eq!(parse_event_status(&"other".to_string()), None);
}

#[test]
fn duration_minutes_per_profile() {
    assert_eq!(AttendanceProfile::Quick.duration_minutes(), Some(15));
    assert_eq!(AttendanceProfile::Standard.duration_minutes(), Some(30));
    assert_eq!(AttendanceProfile::Extended.duration_minutes(), Some(60));
    assert_eq!(AttendanceProfile::Unlimited.duration_minutes(), None);
}

#[test]
fn response_builders_carry_record_fields() {
    let rec = attendance_core::attendance::AttendanceRecord {
        id: 3,
        event_id: 1,
        attendee_id: 7,
        status: AttendanceStatus::CheckedIn,
        created_at: 6_000,
        updated_at: 10_100,
    };
    let r = rsvp_response(&rec);
    assert_eq!(r.event_id, 1);
    assert_eq!(r.attendee_id, 7);
    let a = attendance_response(&rec, true, true);
    assert_eq!(a.id, 3);
    assert_eq!(a.checked_in_at, Some(10_100));
    assert!(a.location_verified);
    assert_eq!(a.message, "Checked in successfully (late)");
    let b = attendance_response(&rec, false, false);
    assert_eq!(b.message, "Checked in successfully");
}

#[test]
fn store_listing_filters_by_host() {
    let mut events = EventStore::new();
    events.create_physical_event(new_event(AttendanceProfile::Quick, 10_000, 20_000), 5_000);
    let mut other = new_event(AttendanceProfile::Quick, 10_000, 20_000);
    other.host_id = 2;
    events.create_physical_event(other, 5_000);
    let (page, total) = events.list_physical_events(None, Some(2), None, None);
    assert_eq!(total, 1);
    assert_eq!(page.len(), 1);
    assert_eq!(page[0].id, 2);
    let (_, all) = events.list_physical_events(None, None, None, None);
    assert_eq!(all, 2);
}

#[test]
fn window_and_location_evaluators_are_exact() {
    let start = 10_000_i64;
    assert_eq!(
        evaluate_window(AttendanceProfile::Quick, start, start + 7200, EventStatus::Scheduled, start + 900),
        Ok(false)
    );
    assert_eq!(
        evaluate_window(AttendanceProfile::Quick, start, start + 7200, EventStatus::Scheduled, start + 901),
        Ok(true)
    );
    assert_eq!(
        evaluate_window(AttendanceProfile::Quick, start, start + 7200, EventStatus::Completed, start + 901),
        Err(EngineError::WindowClosed)
    );
    assert_eq!(evaluate_location(false, None, Some(50)), Ok(false));
    assert_eq!(evaluate_location(true, None, Some(50)), Err(EngineError::MissingCoordinates));
    assert_eq!(evaluate_location(true, Some(51), Some(50)), Err(EngineError::TooFar(51, 50)));
    assert_eq!(evaluate_location(true, Some(50), Some(50)), Ok(true));
}
