use vstd::prelude::*;

verus! {

/// A point in time as Outlook gives it: a local date and time, and its time zone.
#[derive(Clone, Debug)]
pub struct DateTimeTimeZone {
    pub date_time: String,
    pub time_zone: Option<String>,
}

/// A name and an email address.
#[derive(Clone, Debug)]
pub struct EmailAddress {
    pub name: Option<String>,
    pub address: Option<String>,
}

/// The organizer of an Outlook event.
#[derive(Clone, Debug)]
pub struct Recipient {
    pub email_address: Option<EmailAddress>,
}

/// How an Outlook event shows its time in the calendar.
#[derive(Clone, Copy, Debug, PartialEq, Eq, Structural)]
pub enum EventShowAs {
    Free,
    Tentative,
    Busy,
    Oof,
    WorkingElsewhere,
    Unknown,
}

/// How an invitee answered an Outlook invitation.
#[derive(Clone, Copy, Debug, PartialEq, Eq, Structural)]
pub enum ResponseType {
    NoResponse,
    Organizer,
    TentativelyAccepted,
    Accepted,
    Declined,
    NotResponded,
}

/// The answer of an Outlook invitee.
#[derive(Clone, Copy, Debug)]
pub struct ResponseStatus {
    pub response: Option<ResponseType>,
}

/// The kind of an Outlook invitee.
#[derive(Clone, Copy, Debug, PartialEq, Eq, Structural)]
pub enum AttendeeType {
    Required,
    Optional,
    Resource,
}

/// An invitee of an Outlook event.
#[derive(Clone, Debug)]
pub struct Attendee {
    pub email_address: Option<EmailAddress>,
    pub status: Option<ResponseStatus>,
    pub type_: Option<AttendeeType>,
}

/// The body of an Outlook event.
#[derive(Clone, Debug)]
pub struct ItemBody {
    pub content: Option<String>,
}

/// Where an Outlook event takes place.
#[derive(Clone, Debug)]
pub struct Location {
    pub display_name: Option<String>,
}

/// The online meeting of an Outlook event.
#[derive(Clone, Debug)]
pub struct OnlineMeetingInfo {
    pub join_url: Option<String>,
}

/// An event of an Outlook calendar, with what the conversion reads of it.
#[derive(Clone, Debug)]
pub struct Event {
    pub id: String,
    pub subject: Option<String>,
    pub body: Option<ItemBody>,
    pub start: Option<DateTimeTimeZone>,
    pub end: Option<DateTimeTimeZone>,
    pub location: Option<Location>,
    pub attendees: Option<Vec<Attendee>>,
    pub organizer: Option<Recipient>,
    pub is_organizer: Option<bool>,
    pub is_all_day: Option<bool>,
    pub is_cancelled: Option<bool>,
    pub show_as: Option<EventShowAs>,
    pub web_link: Option<String>,
    pub online_meeting_url: Option<String>,
    pub online_meeting: Option<OnlineMeetingInfo>,
    pub ical_uid: Option<String>,
    pub series_master_id: Option<String>,
    pub has_recurrence: bool,
}

/// The calendar service an event comes from.
#[derive(Clone, Copy, Debug, PartialEq, Eq, Structural)]
pub enum CalendarProviderType {
    Outlook,
}

/// Whether an event takes place.
#[derive(Clone, Copy, Debug, PartialEq, Eq, Structural)]
pub enum EventStatus {
    Confirmed,
    Tentative,
    Cancelled,
}

/// How an attendee answered.
#[derive(Clone, Copy, Debug, PartialEq, Eq, Structural)]
pub enum AttendeeStatus {
    Pending,
    Accepted,
    Tentative,
    Declined,
}

/// The part an attendee plays.
#[derive(Clone, Copy, Debug, PartialEq, Eq, Structural)]
pub enum AttendeeRole {
    Required,
    Optional,
    NonParticipant,
}

/// A person named by an event.
#[derive(Clone, Debug)]
pub struct EventPerson {
    pub name: Option<String>,
    pub email: Option<String>,
    pub is_current_user: bool,
}

/// An attendee of an event.
#[derive(Clone, Debug)]
pub struct EventAttendee {
    pub name: Option<String>,
    pub email: Option<String>,
    pub is_current_user: bool,
    pub status: AttendeeStatus,
    pub role: AttendeeRole,
}

/// An event in the form shared by all calendar services.
#[derive(Clone, Debug)]
pub struct CalendarEvent {
    pub id: String,
    pub calendar_id: String,
    pub provider: CalendarProviderType,
    pub external_id: String,
    pub title: String,
    pub description: Option<String>,
    pub location: Option<String>,
    pub url: Option<String>,
    pub meeting_link: Option<String>,
    pub started_at: String,
    pub ended_at: String,
    pub timezone: Option<String>,
    pub is_all_day: bool,
    pub status: EventStatus,
    pub organizer: Option<EventPerson>,
    pub attendees: Vec<EventAttendee>,
    pub has_recurrence_rules: bool,
    pub recurring_event_id: Option<String>,
    pub raw: String,
}

pub open spec fn opt_view(o: Option<String>) -> Option<Seq<char>> {
    match o {
        Some(s) => Some(s@),
        None => None,
    }
}

/// The text, or the empty text when there is none.
pub open spec fn text_or_empty(o: Option<String>) -> Seq<char> {
    match o {
        Some(s) => s@,
        None => Seq::empty(),
    }
}

pub open spec fn spec_convert_status(is_cancelled: Option<bool>, show_as: Option<EventShowAs>) -> EventStatus {
    if is_cancelled == Some(true) {
        EventStatus::Cancelled
    } else if show_as == Some(EventShowAs::Tentative) {
        EventStatus::Tentative
    } else {
        EventStatus::Confirmed
    }
}

/// Cancelled events are cancelled; events shown as tentative are tentative; all others
/// are confirmed.
pub fn convert_status(is_cancelled: Option<bool>, show_as: Option<EventShowAs>) -> (s: EventStatus)
    ensures
        s == spec_convert_status(is_cancelled, show_as),
{
    let cancelled = match is_cancelled {
        Some(b) => b,
        None => false,
    };
    if cancelled {
        EventStatus::Cancelled
    } else if matches!(show_as, Some(EventShowAs::Tentative)) {
        EventStatus::Tentative
    } else {
        EventStatus::Confirmed
    }
}

/// A cancelled event is cancelled however it is shown, and only a cancelled event is; an
/// event not cancelled (or not known to be) is tentative exactly when it is shown as
/// tentative, and confirmed otherwise. A missing cancelled flag counts as not cancelled.
pub proof fn law_cancellation_decides_status(is_cancelled: Option<bool>, show_as: Option<EventShowAs>, other: Option<EventShowAs>)
    ensures
        (spec_convert_status(is_cancelled, show_as) == EventStatus::Cancelled) <==> is_cancelled == Some(true),
        is_cancelled == Some(true) ==> spec_convert_status(is_cancelled, show_as) == spec_convert_status(
            is_cancelled,
            other,
        ),
        is_cancelled != Some(true) ==> ((spec_convert_status(is_cancelled, show_as) == EventStatus::Tentative)
            <==> show_as == Some(EventShowAs::Tentative)),
        spec_convert_status(None, show_as) == spec_convert_status(Some(false), show_as),
{
}

/// A converted event is cancelled exactly when the Outlook event is marked cancelled.
pub proof fn law_converted_event_keeps_cancellation(event: Event, calendar_id: Seq<char>, raw: Seq<char>, c: CalendarEvent)
    requires
        event_converted(event, calendar_id, raw, c),
    ensures
        (c.status == EventStatus::Cancelled) <==> event.is_cancelled == Some(true),
{
    law_cancellation_decides_status(event.is_cancelled, event.show_as, event.show_as);
}

pub open spec fn spec_attendee_status(attendee: Attendee) -> AttendeeStatus {
    match attendee.status {
        Some(st) => match st.response {
            Some(ResponseType::Accepted) | Some(ResponseType::Organizer) => AttendeeStatus::Accepted,
            Some(ResponseType::TentativelyAccepted) => AttendeeStatus::Tentative,
            Some(ResponseType::Declined) => AttendeeStatus::Declined,
            _ => AttendeeStatus::Pending,
        },
        None => AttendeeStatus::Pending,
    }
}

/// Accepted (or organizing) invitees have accepted, tentative ones are tentative,
/// declining ones have declined; the rest have not answered.
pub fn convert_attendee_status(attendee: &Attendee) -> (s: AttendeeStatus)
    ensures
        s == spec_attendee_status(*attendee),
{
    let response = match &attendee.status {
        Some(st) => st.response,
        None => None,
    };
    match response {
        Some(ResponseType::Accepted) | Some(ResponseType::Organizer) => AttendeeStatus::Accepted,
        Some(ResponseType::TentativelyAccepted) => AttendeeStatus::Tentative,
        Some(ResponseType::Declined) => AttendeeStatus::Declined,
        _ => AttendeeStatus::Pending,
    }
}

pub open spec fn spec_attendee_role(role: Option<AttendeeType>) -> AttendeeRole {
    match role {
        Some(AttendeeType::Optional) => AttendeeRole::Optional,
        Some(AttendeeType::Resource) => AttendeeRole::NonParticipant,
        _ => AttendeeRole::Required,
    }
}

/// Optional invitees are optional, resources take no part; everyone else is required.
pub fn convert_attendee_role(role: Option<&AttendeeType>) -> (r: AttendeeRole)
    ensures
        r == spec_attendee_role(match role {
            Some(t) => Some(*t),
            None => None,
        }),
{
    match role {
        Some(AttendeeType::Optional) => AttendeeRole::Optional,
        Some(AttendeeType::Resource) => AttendeeRole::NonParticipant,
        _ => AttendeeRole::Required,
    }
}

pub open spec fn email_name(e: Option<EmailAddress>) -> Option<Seq<char>> {
    match e {
        Some(a) => opt_view(a.name),
        None => None,
    }
}

pub open spec fn email_address_of(e: Option<EmailAddress>) -> Option<Seq<char>> {
    match e {
        Some(a) => opt_view(a.address),
        None => None,
    }
}

fn email_name_of(e: &Option<EmailAddress>) -> (r: Option<String>)
    ensures
        opt_view(r) == email_name(*e),
{
    match e {
        Some(a) => a.name.clone(),
        None => None,
    }
}

fn email_addr_of(e: &Option<EmailAddress>) -> (r: Option<String>)
    ensures
        opt_view(r) == email_address_of(*e),
{
    match e {
        Some(a) => a.address.clone(),
        None => None,
    }
}

/// What an attendee of an Outlook event becomes.
pub open spec fn attendee_converted(attendee: Attendee, a: EventAttendee) -> bool {
    &&& opt_view(a.name) == email_name(attendee.email_address)
    &&& opt_view(a.email) == email_address_of(attendee.email_address)
    &&& !a.is_current_user
    &&& a.status == spec_attendee_status(attendee)
    &&& a.role == spec_attendee_role(attendee.type_)
}

/// An Outlook invitee as an attendee: never the current user.
pub fn convert_attendee(attendee: &Attendee) -> (a: EventAttendee)
    ensures
        attendee_converted(*attendee, a),
{
    EventAttendee {
        name: email_name_of(&attendee.email_address),
        email: email_addr_of(&attendee.email_address),
        is_current_user: false,
        status: convert_attendee_status(attendee),
        role: convert_attendee_role(attendee.type_.as_ref()),
    }
}

pub open spec fn start_text(t: Option<DateTimeTimeZone>) -> Seq<char> {
    match t {
        Some(d) => d.date_time@,
        None => Seq::empty(),
    }
}

pub open spec fn start_zone(t: Option<DateTimeTimeZone>) -> Option<Seq<char>> {
    match t {
        Some(d) => opt_view(d.time_zone),
        None => None,
    }
}

pub open spec fn spec_meeting_link(event: Event) -> Option<Seq<char>> {
    match event.online_meeting_url {
        Some(u) => Some(u@),
        None => match event.online_meeting {
            Some(m) => opt_view(m.join_url),
            None => None,
        },
    }
}

pub open spec fn attendee_list(event: Event) -> Seq<Attendee> {
    match event.attendees {
        Some(v) => v@,
        None => Seq::empty(),
    }
}

/// Everything an Outlook event says, in the shared form.
pub open spec fn event_converted(event: Event, calendar_id: Seq<char>, raw: Seq<char>, c: CalendarEvent) -> bool {
    &&& c.id@ == event.id@
    &&& c.calendar_id@ == calendar_id
    &&& c.provider == CalendarProviderType::Outlook
    &&& c.external_id@ == text_or_empty(event.ical_uid)
    &&& c.title@ == text_or_empty(event.subject)
    &&& opt_view(c.description) == match event.body {
        Some(b) => opt_view(b.content),
        None => None,
    }
    &&& opt_view(c.location) == match event.location {
        Some(l) => opt_view(l.display_name),
        None => None,
    }
    &&& opt_view(c.url) == opt_view(event.web_link)
    &&& opt_view(c.meeting_link) == spec_meeting_link(event)
    &&& c.started_at@ == start_text(event.start)
    &&& c.ended_at@ == start_text(event.end)
    &&& opt_view(c.timezone) == start_zone(event.start)
    &&& c.is_all_day == (event.is_all_day == Some(true))
    &&& c.status == spec_convert_status(event.is_cancelled, event.show_as)
    &&& match event.organizer {
        None => c.organizer is None,
        Some(o) => c.organizer matches Some(p) && opt_view(p.name) == email_name(o.email_address)
            && opt_view(p.email) == email_address_of(o.email_address) && p.is_current_user == (
        event.is_organizer == Some(true)),
    }
    &&& c.attendees@.len() == attendee_list(event).len()
    &&& forall|i: int|
        0 <= i < c.attendees@.len() ==> attendee_converted(attendee_list(event)[i], #[trigger] c.attendees@[i])
    &&& c.has_recurrence_rules == (event.has_recurrence || event.series_master_id is Some)
    &&& opt_view(c.recurring_event_id) == opt_view(event.series_master_id)
    &&& c.raw@ == raw
}

fn text_or_default(o: Option<String>) -> (r: String)
    ensures
        r@ == text_or_empty(o),
{
    match o {
        Some(s) => s,
        None => String::new(),
    }
}

fn convert_attendees(attendees: &Option<Vec<Attendee>>) -> (r: Vec<EventAttendee>)
    ensures
        r@.len() == match *attendees {
            Some(v) => v@.len(),
            None => 0,
        },
        forall|i: int|
            0 <= i < r@.len() ==> attendee_converted(
                match *attendees {
                    Some(v) => v@[i],
                    None => arbitrary(),
                },
                #[trigger] r@[i],
            ),
{
    let mut out: Vec<EventAttendee> = Vec::new();
    match attendees {
        Some(list) => {
            let mut i: usize = 0;
            while i < list.len()
                invariant
                    i <= list@.len(),
                    out@.len() == i,
                    forall|j: int| 0 <= j < i ==> attendee_converted(list@[j], #[trigger] out@[j]),
                decreases list@.len() - i,
            {
                let a = convert_attendee(&list[i]);
                out.push(a);
                i = i + 1;
            }
        },
        None => {},
    }
    out
}

fn meeting_link(event: &Event) -> (r: Option<String>)
    ensures
        opt_view(r) == spec_meeting_link(*event),
{
    match &event.online_meeting_url {
        Some(u) => Some(u.clone()),
        None => match &event.online_meeting {
            Some(m) => m.join_url.clone(),
            None => None,
        },
    }
}

/// An Outlook event of the calendar `calendar_id` in the shared form; `raw` is the
/// event's JSON text, kept beside it.
pub fn convert_event(event: Event, calendar_id: &str, raw: String) -> (c: CalendarEvent)
    ensures
        event_converted(event, calendar_id@, raw@, c),
{
    let started_at = match &event.start {
        Some(start) => start.date_time.clone(),
        None => String::new(),
    };
    let ended_at = match &event.end {
        Some(end) => end.date_time.clone(),
        None => String::new(),
    };
    let timezone = match &event.start {
        Some(start) => start.time_zone.clone(),
        None => None,
    };
    let is_current_user = match event.is_organizer {
        Some(b) => b,
        None => false,
    };
    let organizer = match &event.organizer {
        Some(o) => Some(EventPerson {
            name: email_name_of(&o.email_address),
            email: email_addr_of(&o.email_address),
            is_current_user,
        }),
        None => None,
    };
    let attendees = convert_attendees(&event.attendees);
    let link = meeting_link(&event);
    let status = convert_status(event.is_cancelled, event.show_as);
    let is_all_day = match event.is_all_day {
        Some(b) => b,
        None => false,
    };
    let has_recurrence_rules = event.has_recurrence || event.series_master_id.is_some();
    let description = match event.body {
        Some(b) => b.content,
        None => None,
    };
    let location = match event.location {
        Some(l) => l.display_name,
        None => None,
    };
    CalendarEvent {
        id: event.id,
        calendar_id: String::from_str(calendar_id),
        provider: CalendarProviderType::Outlook,
        external_id: text_or_default(event.ical_uid),
        title: text_or_default(event.subject),
        description,
        location,
        url: event.web_link,
        meeting_link: link,
        started_at,
        ended_at,
        timezone,
        is_all_day,
        status,
        organizer,
        attendees,
        has_recurrence_rules,
        recurring_event_id: event.series_master_id,
        raw,
    }
}

/// Outlook events of the calendar `calendar_id` in the shared form, in order; each event
/// comes with its JSON text.
pub fn convert_events(events: Vec<(Event, String)>, calendar_id: &str) -> (r: Vec<CalendarEvent>)
    ensures
        r@.len() == events@.len(),
        forall|i: int|
            0 <= i < r@.len() ==> event_converted(
                events@[i].0,
                calendar_id@,
                events@[i].1@,
                #[trigger] r@[i],
            ),
{
    let ghost evs = events@;
    let n: usize = events.len();
    // Take the events off the back, then off the back again, to visit them front first.
    let mut events = events;
    let mut stack: Vec<(Event, String)> = Vec::new();
    while events.len() > 0
        invariant
            events@.len() + stack@.len() == n,
            n == evs.len(),
            events@ == evs.subrange(0, events@.len() as int),
            forall|k: int| 0 <= k < stack@.len() ==> #[trigger] stack@[k] == evs[n - 1 - k],
        decreases events@.len(),
    {
        let pair = events.pop().unwrap();
        stack.push(pair);
    }
    let mut out: Vec<CalendarEvent> = Vec::new();
    while stack.len() > 0
        invariant
            out@.len() + stack@.len() == n,
            n == evs.len(),
            forall|k: int| 0 <= k < stack@.len() ==> #[trigger] stack@[k] == evs[n - 1 - k],
            forall|j: int|
                0 <= j < out@.len() ==> event_converted(evs[j].0, calendar_id@, evs[j].1@, #[trigger] out@[j]),
        decreases stack@.len(),
    {
        let (e, w) = stack.pop().unwrap();
        let c = convert_event(e, calendar_id, w);
        out.push(c);
    }
    out
}

/// The base URL of the app's API: the one configured when the plugin was built, else the
/// local development server.
pub fn get_api_base_url(configured: Option<&str>) -> (r: String)
    ensures
        r@ == match configured {
            Some(u) => u@,
            None => "http://localhost:3001"@,
        },
{
    match configured {
        Some(u) => String::from_str(u),
        None => String::from_str("http://localhost:3001"),
    }
}

}
