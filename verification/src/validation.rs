//! Events as the HTTP interface receives them, and their checks.
use vstd::prelude::*;
use crate::links::url_parses;
use crate::shared::WithId;
use crate::text::{as_signed, as_unsigned, to_signed, to_unsigned};
use crate::types::Event;

verus! {

/// An event as the HTTP interface receives it; times are Unix timestamps.
#[derive(Clone, Debug)]
pub struct RawEvent {
    pub name: String,
    pub link: String,
    pub max_adults: i64,
    pub max_children: i64,
    pub max_adults_per_reservation: i64,
    pub max_children_per_reservation: i64,
    pub event_start_time: i64,
    pub remind: i64,
    pub adult_ticket_price: i64,
    pub child_ticket_price: i64,
    pub currency: String,
}

/// A change to an event: the fields given replace the current ones.
#[derive(Clone, Debug)]
pub struct OptionalRawEvent {
    pub name: Option<String>,
    pub link: Option<String>,
    pub max_adults: Option<i64>,
    pub max_children: Option<i64>,
    pub max_adults_per_reservation: Option<i64>,
    pub max_children_per_reservation: Option<i64>,
    pub event_start_time: Option<i64>,
    pub remind: Option<i64>,
    pub adult_ticket_price: Option<i64>,
    pub child_ticket_price: Option<i64>,
    pub currency: Option<String>,
}

/// A check an event failed.
#[derive(Clone, Copy, Debug, PartialEq, Eq, Structural)]
pub enum ValidationFailure {
    /// "name": between 5 and 255 characters.
    NameLength,
    /// "link": a valid URL.
    LinkUrl,
    /// "adult_ticket_price": 0 when there are no adult seats.
    AdultTicketPrice,
    /// "child_ticket_price": 0 when there are no child seats.
    ChildTicketPrice,
    /// "max_adults_per_reservation": at most the adult seats.
    MaxAdultsPerReservation,
    /// "max_children_per_reservation": at most the child seats.
    MaxChildrenPerReservation,
}

/// The name of the field a check is about.
pub open spec fn failure_field_spec(f: ValidationFailure) -> Seq<char> {
    match f {
        ValidationFailure::NameLength => "name"@,
        ValidationFailure::LinkUrl => "link"@,
        ValidationFailure::AdultTicketPrice => "adult_ticket_price"@,
        ValidationFailure::ChildTicketPrice => "child_ticket_price"@,
        ValidationFailure::MaxAdultsPerReservation => "max_adults_per_reservation"@,
        ValidationFailure::MaxChildrenPerReservation => "max_children_per_reservation"@,
    }
}

impl ValidationFailure {
    /// The field the check is about.
    pub fn field(&self) -> (r: &'static str)
        ensures
            r@ == failure_field_spec(*self),
    {
        match self {
            ValidationFailure::NameLength => "name",
            ValidationFailure::LinkUrl => "link",
            ValidationFailure::AdultTicketPrice => "adult_ticket_price",
            ValidationFailure::ChildTicketPrice => "child_ticket_price",
            ValidationFailure::MaxAdultsPerReservation => "max_adults_per_reservation",
            ValidationFailure::MaxChildrenPerReservation => "max_children_per_reservation",
        }
    }
}

/// The checks an event failed, in the order they are made.
#[derive(Debug)]
pub struct ValidationError {
    pub failures: Vec<ValidationFailure>,
}

/// Calls `validator::validate_url`. Claimed: the answer is whether
/// `url::Url::parse` accepts the text (`url_parses`), which is what its source
/// asks.
#[verifier::external_body]
fn url_valid(s: &str) -> (r: bool)
    ensures
        r == url_parses(s@),
{
    validator::validate_url(s)
}

/// Calls `validator::validate_length` with lower and upper bounds and no exact
/// length. Claimed, as its source shows for `&str`: the characters are counted
/// and the answer is whether the count lies within the bounds.
#[verifier::external_body]
fn length_within(s: &str, min: u64, max: u64) -> (r: bool)
    ensures
        r == (min <= s@.len() && s@.len() <= max),
{
    validator::validate_length(s, Some(min), Some(max), None)
}

/// Whether an event name has an accepted length (counted in characters).
pub open spec fn name_length_ok(name: Seq<char>) -> bool {
    5 <= name.len() <= 255
}

/// The failure of the name check, if it is made and fails.
pub open spec fn name_failures(name: Option<Seq<char>>) -> Seq<ValidationFailure> {
    if name matches Some(n) && !name_length_ok(n) { seq![ValidationFailure::NameLength] } else { seq![] }
}

/// The failure of the link check, if it is made and fails.
pub open spec fn link_failures(link: Option<Seq<char>>) -> Seq<ValidationFailure> {
    if link matches Some(l) && !url_parses(l) { seq![ValidationFailure::LinkUrl] } else { seq![] }
}

/// The failures among the checks of an event's values, in check order.
pub open spec fn failures_spec(
    name: Option<Seq<char>>,
    link: Option<Seq<char>>,
    max_adults: int,
    max_children: int,
    adult_price: int,
    child_price: int,
    max_adults_per_reservation: int,
    max_children_per_reservation: int,
) -> Seq<ValidationFailure> {
    name_failures(name) + link_failures(link)
    + (if max_adults == 0 && adult_price != 0 { seq![ValidationFailure::AdultTicketPrice] } else { seq![] })
    + (if max_children == 0 && child_price != 0 { seq![ValidationFailure::ChildTicketPrice] } else { seq![] })
    + (if max_adults_per_reservation > max_adults { seq![ValidationFailure::MaxAdultsPerReservation] } else { seq![] })
    + (if max_children_per_reservation > max_children { seq![ValidationFailure::MaxChildrenPerReservation] } else { seq![] })
}

/// The answer to a set of checks: accepted when none failed.
pub open spec fn validation_result_spec(fs: Seq<ValidationFailure>) -> Result<(), Seq<ValidationFailure>> {
    if fs.len() == 0 {
        Ok(())
    } else {
        Err(fs)
    }
}

pub open spec fn validation_view(r: Result<(), ValidationError>) -> Result<(), Seq<ValidationFailure>> {
    match r {
        Ok(()) => Ok(()),
        Err(e) => Err(e.failures@),
    }
}

#[verifier::rlimit(30)]
fn check_values(
    name: Option<&str>,
    link: Option<&str>,
    max_adults: i64,
    max_children: i64,
    adult_price: i64,
    child_price: i64,
    max_adults_per_reservation: i64,
    max_children_per_reservation: i64,
) -> (r: Result<(), ValidationError>)
    ensures
        validation_view(r) == validation_result_spec(failures_spec(
            match name { Some(n) => Some(n@), None => None },
            match link { Some(l) => Some(l@), None => None },
            max_adults as int, max_children as int, adult_price as int, child_price as int,
            max_adults_per_reservation as int, max_children_per_reservation as int)),
{
    let mut failures: Vec<ValidationFailure> = Vec::new();
    match name {
        Some(n) => {
            if !length_within(n, 5, 255) {
                failures.push(ValidationFailure::NameLength);
            }
        },
        None => {},
    }
    let ghost f1 = failures@;
    assert(f1 =~= name_failures(match name { Some(n) => Some(n@), None => None }));
    match link {
        Some(l) => {
            if !url_valid(l) {
                failures.push(ValidationFailure::LinkUrl);
            }
        },
        None => {},
    }
    let ghost f2 = failures@;
    assert(f2 =~= f1 + link_failures(match link { Some(l) => Some(l@), None => None }));
    if max_adults == 0 && adult_price != 0 {
        failures.push(ValidationFailure::AdultTicketPrice);
    }
    let ghost f3 = failures@;
    if max_children == 0 && child_price != 0 {
        failures.push(ValidationFailure::ChildTicketPrice);
    }
    let ghost f4 = failures@;
    if max_adults_per_reservation > max_adults {
        failures.push(ValidationFailure::MaxAdultsPerReservation);
    }
    let ghost f5 = failures@;
    if max_children_per_reservation > max_children {
        failures.push(ValidationFailure::MaxChildrenPerReservation);
    }
    assert(failures@ =~= failures_spec(
        match name { Some(n) => Some(n@), None => None },
        match link { Some(l) => Some(l@), None => None },
        max_adults as int, max_children as int, adult_price as int, child_price as int,
        max_adults_per_reservation as int, max_children_per_reservation as int));
    if failures.len() == 0 {
        Ok(())
    } else {
        Err(ValidationError { failures })
    }
}

impl RawEvent {
    /// Checks a new event: the name has 5 to 255 characters, the link is a URL,
    /// no price without seats, no more seats per reservation than seats.
    pub fn validation(&self) -> (r: Result<(), ValidationError>)
        ensures
            validation_view(r) == validation_result_spec(failures_spec(
                Some(self.name@), Some(self.link@), self.max_adults as int, self.max_children as int,
                self.adult_ticket_price as int, self.child_ticket_price as int,
                self.max_adults_per_reservation as int, self.max_children_per_reservation as int)),
    {
        check_values(Some(self.name.as_str()), Some(self.link.as_str()), self.max_adults, self.max_children,
            self.adult_ticket_price, self.child_ticket_price, self.max_adults_per_reservation,
            self.max_children_per_reservation)
    }
}

/// A given value, or the current one read as a signed number.
pub open spec fn given_or(v: Option<i64>, current: u64) -> int {
    match v {
        Some(x) => x as int,
        None => as_signed(current),
    }
}

fn given_or_current(v: Option<i64>, current: u64) -> (r: i64)
    ensures
        r as int == given_or(v, current),
{
    match v {
        Some(x) => x,
        None => to_signed(current),
    }
}

pub open spec fn opt_str_view(o: Option<String>) -> Option<Seq<char>> {
    match o {
        Some(s) => Some(s@),
        None => None,
    }
}

impl OptionalRawEvent {
    /// Checks a change to `current_event`: the same checks as for a new event,
    /// on the values the event will have; name and link only where given.
    pub fn validation(&self, current_event: &Event) -> (r: Result<(), ValidationError>)
        ensures
            validation_view(r) == validation_result_spec(failures_spec(
                opt_str_view(self.name), opt_str_view(self.link),
                given_or(self.max_adults, current_event.max_adults),
                given_or(self.max_children, current_event.max_children),
                given_or(self.adult_ticket_price, current_event.adult_ticket_price),
                given_or(self.child_ticket_price, current_event.child_ticket_price),
                given_or(self.max_adults_per_reservation, current_event.max_adults_per_reservation),
                given_or(self.max_children_per_reservation, current_event.max_children_per_reservation))),
    {
        let name = match &self.name {
            Some(n) => Some(n.as_str()),
            None => None,
        };
        let link = match &self.link {
            Some(l) => Some(l.as_str()),
            None => None,
        };
        check_values(name, link,
            self.get_max_adults(current_event), self.get_max_children(current_event),
            self.get_adult_ticket_price(current_event), self.get_child_ticket_price(current_event),
            self.get_max_adults_per_reservation(current_event),
            self.get_max_children_per_reservation(current_event))
    }

    fn get_max_adults(&self, current_event: &Event) -> (r: i64)
        ensures
            r as int == given_or(self.max_adults, current_event.max_adults),
    {
        given_or_current(self.max_adults, current_event.max_adults)
    }

    fn get_max_children(&self, current_event: &Event) -> (r: i64)
        ensures
            r as int == given_or(self.max_children, current_event.max_children),
    {
        given_or_current(self.max_children, current_event.max_children)
    }

    fn get_adult_ticket_price(&self, current_event: &Event) -> (r: i64)
        ensures
            r as int == given_or(self.adult_ticket_price, current_event.adult_ticket_price),
    {
        given_or_current(self.adult_ticket_price, current_event.adult_ticket_price)
    }

    fn get_child_ticket_price(&self, current_event: &Event) -> (r: i64)
        ensures
            r as int == given_or(self.child_ticket_price, current_event.child_ticket_price),
    {
        given_or_current(self.child_ticket_price, current_event.child_ticket_price)
    }

    fn get_max_adults_per_reservation(&self, current_event: &Event) -> (r: i64)
        ensures
            r as int == given_or(self.max_adults_per_reservation, current_event.max_adults_per_reservation),
    {
        given_or_current(self.max_adults_per_reservation, current_event.max_adults_per_reservation)
    }

    fn get_max_children_per_reservation(&self, current_event: &Event) -> (r: i64)
        ensures
            r as int == given_or(self.max_children_per_reservation, current_event.max_children_per_reservation),
    {
        given_or_current(self.max_children_per_reservation, current_event.max_children_per_reservation)
    }
}

/// The event a new one becomes: no id yet, numbers read as unsigned.
pub open spec fn raw_event_into_spec(e: RawEvent) -> Event {
    Event {
        id: 0,
        name: e.name,
        link: e.link,
        max_adults: as_unsigned(e.max_adults),
        max_children: as_unsigned(e.max_children),
        max_adults_per_reservation: as_unsigned(e.max_adults_per_reservation),
        max_children_per_reservation: as_unsigned(e.max_children_per_reservation),
        ts: as_unsigned(e.event_start_time),
        remind: as_unsigned(e.remind),
        adult_ticket_price: as_unsigned(e.adult_ticket_price),
        child_ticket_price: as_unsigned(e.child_ticket_price),
        currency: e.currency,
    }
}

impl RawEvent {
    /// The event a new one becomes.
    pub fn into_event(self) -> (r: Event)
        ensures
            r == raw_event_into_spec(self),
    {
        Event {
            id: 0,
            name: self.name,
            link: self.link,
            max_adults: to_unsigned(self.max_adults),
            max_children: to_unsigned(self.max_children),
            max_adults_per_reservation: to_unsigned(self.max_adults_per_reservation),
            max_children_per_reservation: to_unsigned(self.max_children_per_reservation),
            ts: to_unsigned(self.event_start_time),
            remind: to_unsigned(self.remind),
            adult_ticket_price: to_unsigned(self.adult_ticket_price),
            child_ticket_price: to_unsigned(self.child_ticket_price),
            currency: self.currency,
        }
    }
}

/// An event with its id as the HTTP interface sends it.
pub type EventWithId = WithId<u64, RawEvent>;

/// How the HTTP interface shows a stored event.
pub open spec fn event_with_id_spec(e: Event) -> EventWithId {
    WithId {
        id: e.id,
        entity: RawEvent {
            name: e.name,
            link: e.link,
            max_adults: as_signed(e.max_adults) as i64,
            max_children: as_signed(e.max_children) as i64,
            max_adults_per_reservation: as_signed(e.max_adults_per_reservation) as i64,
            max_children_per_reservation: as_signed(e.max_children_per_reservation) as i64,
            event_start_time: as_signed(e.ts) as i64,
            remind: as_signed(e.remind) as i64,
            adult_ticket_price: as_signed(e.adult_ticket_price) as i64,
            child_ticket_price: as_signed(e.child_ticket_price) as i64,
            currency: e.currency,
        },
    }
}

pub fn event_with_id(e: Event) -> (r: EventWithId)
    ensures
        r == event_with_id_spec(e),
{
    WithId {
        id: e.id,
        entity: RawEvent {
            name: e.name,
            link: e.link,
            max_adults: to_signed(e.max_adults),
            max_children: to_signed(e.max_children),
            max_adults_per_reservation: to_signed(e.max_adults_per_reservation),
            max_children_per_reservation: to_signed(e.max_children_per_reservation),
            event_start_time: to_signed(e.ts),
            remind: to_signed(e.remind),
            adult_ticket_price: to_signed(e.adult_ticket_price),
            child_ticket_price: to_signed(e.child_ticket_price),
            currency: e.currency,
        },
    }
}

/// A given value read as unsigned, or the current one.
pub open spec fn merged(v: Option<i64>, current: u64) -> u64 {
    match v {
        Some(x) => as_unsigned(x),
        None => current,
    }
}

fn merge_number(v: Option<i64>, current: u64) -> (r: u64)
    ensures
        r == merged(v, current),
{
    match v {
        Some(x) => to_unsigned(x),
        None => current,
    }
}

fn merge_text(v: &Option<String>, current: &String) -> (r: String)
    ensures
        r@ == match v { Some(x) => x@, None => current@ },
{
    match v {
        Some(x) => x.clone(),
        None => current.clone(),
    }
}

/// The event after a change: the id given; name, link, seat limits and times
/// where given, else the current ones; prices and currency stay.
pub open spec fn updated_event_spec(id: i64, u: OptionalRawEvent, c: Event) -> Event {
    Event {
        id: as_unsigned(id),
        name: match u.name { Some(x) => x, None => c.name },
        link: match u.link { Some(x) => x, None => c.link },
        max_adults: merged(u.max_adults, c.max_adults),
        max_children: merged(u.max_children, c.max_children),
        max_adults_per_reservation: merged(u.max_adults_per_reservation, c.max_adults_per_reservation),
        max_children_per_reservation: merged(u.max_children_per_reservation, c.max_children_per_reservation),
        ts: merged(u.event_start_time, c.ts),
        remind: merged(u.remind, c.remind),
        adult_ticket_price: c.adult_ticket_price,
        child_ticket_price: c.child_ticket_price,
        currency: c.currency,
    }
}

/// The view of an event: every field, texts as character sequences.
pub open spec fn event_fields(e: Event) -> (u64, Seq<char>, Seq<char>, (u64, u64, u64, u64, u64, u64, u64, u64), Seq<char>) {
    (e.id, e.name@, e.link@, (e.max_adults, e.max_children, e.max_adults_per_reservation,
        e.max_children_per_reservation, e.ts, e.remind, e.adult_ticket_price, e.child_ticket_price), e.currency@)
}

/// The event that replaces `current_event` after a change (then stored).
pub fn perform_update_event(id: i64, event_to_update: &OptionalRawEvent, current_event: &Event) -> (r: Event)
    ensures
        event_fields(r) == event_fields(updated_event_spec(id, *event_to_update, *current_event)),
{
    let u = event_to_update;
    let c = current_event;
    Event {
        id: to_unsigned(id),
        name: merge_text(&u.name, &c.name),
        link: merge_text(&u.link, &c.link),
        max_adults: merge_number(u.max_adults, c.max_adults),
        max_children: merge_number(u.max_children, c.max_children),
        max_adults_per_reservation: merge_number(u.max_adults_per_reservation, c.max_adults_per_reservation),
        max_children_per_reservation: merge_number(u.max_children_per_reservation, c.max_children_per_reservation),
        ts: merge_number(u.event_start_time, c.ts),
        remind: merge_number(u.remind, c.remind),
        adult_ticket_price: c.adult_ticket_price,
        child_ticket_price: c.child_ticket_price,
        currency: c.currency.clone(),
    }
}

/// The event after a change through the database service: every field given
/// replaces the current one, prices and currency included.
pub open spec fn applied_update_spec(u: OptionalRawEvent, c: Event) -> Event {
    Event {
        id: c.id,
        name: match u.name { Some(x) => x, None => c.name },
        link: match u.link { Some(x) => x, None => c.link },
        max_adults: merged(u.max_adults, c.max_adults),
        max_children: merged(u.max_children, c.max_children),
        max_adults_per_reservation: merged(u.max_adults_per_reservation, c.max_adults_per_reservation),
        max_children_per_reservation: merged(u.max_children_per_reservation, c.max_children_per_reservation),
        ts: merged(u.event_start_time, c.ts),
        remind: merged(u.remind, c.remind),
        adult_ticket_price: merged(u.adult_ticket_price, c.adult_ticket_price),
        child_ticket_price: merged(u.child_ticket_price, c.child_ticket_price),
        currency: match u.currency { Some(x) => x, None => c.currency },
    }
}

/// The stored event after a change through the database service.
pub fn update_event(current: &Event, raw_event: &OptionalRawEvent) -> (r: Event)
    ensures
        event_fields(r) == event_fields(applied_update_spec(*raw_event, *current)),
{
    let u = raw_event;
    let c = current;
    Event {
        id: c.id,
        name: merge_text(&u.name, &c.name),
        link: merge_text(&u.link, &c.link),
        max_adults: merge_number(u.max_adults, c.max_adults),
        max_children: merge_number(u.max_children, c.max_children),
        max_adults_per_reservation: merge_number(u.max_adults_per_reservation, c.max_adults_per_reservation),
        max_children_per_reservation: merge_number(u.max_children_per_reservation, c.max_children_per_reservation),
        ts: merge_number(u.event_start_time, c.ts),
        remind: merge_number(u.remind, c.remind),
        adult_ticket_price: merge_number(u.adult_ticket_price, c.adult_ticket_price),
        child_ticket_price: merge_number(u.child_ticket_price, c.child_ticket_price),
        currency: merge_text(&u.currency, &c.currency),
    }
}

/// Whether a change gives no field.
pub open spec fn is_empty_change(u: OptionalRawEvent) -> bool {
    &&& u.name is None
    &&& u.link is None
    &&& u.max_adults is None
    &&& u.max_children is None
    &&& u.max_adults_per_reservation is None
    &&& u.max_children_per_reservation is None
    &&& u.event_start_time is None
    &&& u.remind is None
    &&& u.adult_ticket_price is None
    &&& u.child_ticket_price is None
    &&& u.currency is None
}

/// A change that gives no field leaves the event as it was.
pub proof fn lemma_empty_change_keeps_event(u: OptionalRawEvent, c: Event)
    requires
        is_empty_change(u),
    ensures
        event_fields(applied_update_spec(u, c)) == event_fields(c),
{
}

/// Applying the same change twice gives what applying it once gives.
pub proof fn lemma_change_idempotent(u: OptionalRawEvent, c: Event)
    ensures
        event_fields(applied_update_spec(u, applied_update_spec(u, c))) == event_fields(applied_update_spec(u, c)),
{
}

/// A field a change does not give keeps its value; a field it gives takes the
/// given value, whatever the event held before.
pub proof fn lemma_change_fields(u: OptionalRawEvent, c: Event)
    ensures
        u.name is None ==> applied_update_spec(u, c).name@ == c.name@,
        u.name matches Some(n) ==> applied_update_spec(u, c).name@ == n@,
        u.max_adults is None ==> applied_update_spec(u, c).max_adults == c.max_adults,
        (u.max_adults matches Some(m) && m >= 0) ==> applied_update_spec(u, c).max_adults == u.max_adults.unwrap(),
        applied_update_spec(u, c).id == c.id,
{
}

} // verus!
