//! Inline keyboards: which buttons a user is offered.
use vstd::prelude::*;
use crate::callback::CallbackQuery;
use crate::entity::EventState;
use crate::types::{Counter, EventStats};

verus! {

/// What pressing a button does.
#[derive(Clone, Debug)]
pub enum ButtonAction {
    /// Sends this request back to the bot.
    Callback(CallbackQuery),
    /// Opens this address.
    Url(String),
    /// Sends this text back to the bot as it is.
    Data(String),
}

/// An inline button.
#[derive(Clone, Debug)]
pub struct Button {
    pub text: String,
    pub action: ButtonAction,
}

/// What pressing a button does, with texts as character sequences.
pub enum ActionView {
    Callback(CallbackQuery),
    Url(Seq<char>),
    Data(Seq<char>),
}

/// A button, with texts as character sequences.
pub struct ButtonView {
    pub text: Seq<char>,
    pub action: ActionView,
}

pub open spec fn action_view(a: ButtonAction) -> ActionView {
    match a {
        ButtonAction::Callback(q) => ActionView::Callback(q),
        ButtonAction::Url(u) => ActionView::Url(u@),
        ButtonAction::Data(d) => ActionView::Data(d@),
    }
}

pub open spec fn button_view(b: Button) -> ButtonView {
    ButtonView { text: b.text@, action: action_view(b.action) }
}

pub open spec fn row_view(r: Seq<Button>) -> Seq<ButtonView> {
    r.map_values(|b: Button| button_view(b))
}

pub open spec fn keyboard_view(k: Seq<Vec<Button>>) -> Seq<Seq<ButtonView>> {
    k.map_values(|r: Vec<Button>| row_view(r@))
}

/// A button that sends `q` back to the bot.
pub open spec fn callback_button(text: Seq<char>, q: CallbackQuery) -> ButtonView {
    ButtonView { text, action: ActionView::Callback(q) }
}

pub fn new_callback_button(text: &str, q: CallbackQuery) -> (b: Button)
    ensures
        button_view(b) == callback_button(text@, q),
{
    Button { text: String::from_str(text), action: ButtonAction::Callback(q) }
}

/// The label of the button that reserves one seat.
pub open spec fn sign_up_label(no_age_distinction: bool, is_adult: bool) -> Seq<char> {
    if no_age_distinction {
        "Записаться +1"@
    } else if is_adult {
        "Записать взрослого +1"@
    } else {
        "Записать ребёнка +1"@
    }
}

/// The label of the button that puts one seat on the waiting list.
pub open spec fn wait_label(no_age_distinction: bool, is_adult: bool) -> Seq<char> {
    if no_age_distinction {
        "В лист ожидания +1"@
    } else if is_adult {
        "В лист ожидания взрослого +1"@
    } else {
        "В лист ожидания ребёнка +1"@
    }
}

/// The label of the button that gives one seat back.
pub open spec fn cancel_label(no_age_distinction: bool, is_adult: bool) -> Seq<char> {
    if no_age_distinction {
        "Отписаться -1"@
    } else if is_adult {
        "Отписать взрослого -1"@
    } else {
        "Отписать ребёнка -1"@
    }
}

/// The buttons for one age group: reserve a seat while seats are free and the
/// user is under the limit, else join the waiting list while the user is under
/// the limit counting waiting seats too; give a seat back while the user holds one.
pub open spec fn group_row_spec(
    event_id: u64,
    open: bool,
    c: Counter,
    limit: u64,
    free: i64,
    no_age_distinction: bool,
    is_adult: bool,
) -> Seq<ButtonView> {
    let first: Seq<ButtonView> = if open && c.my_reservation < limit {
        if free > 0 {
            seq![callback_button(sign_up_label(no_age_distinction, is_adult),
                CallbackQuery::SignUp { event_id, is_adult, wait: false })]
        } else if c.my_reservation + c.my_waiting < limit {
            seq![callback_button(wait_label(no_age_distinction, is_adult),
                CallbackQuery::SignUp { event_id, is_adult, wait: true })]
        } else {
            seq![]
        }
    } else {
        seq![]
    };
    let second: Seq<ButtonView> = if c.my_reservation > 0 || c.my_waiting > 0 {
        seq![callback_button(cancel_label(no_age_distinction, is_adult),
            CallbackQuery::Cancel { event_id, is_adult })]
    } else {
        seq![]
    };
    first + second
}

/// A sign-up button is offered only while reservations are open and the user is
/// under the limit: for a seat while seats are free, for the waiting list while
/// confirmed and waiting seats together are under the limit.
pub proof fn lemma_sign_up_buttons_within_limits(
    event_id: u64,
    open: bool,
    c: Counter,
    limit: u64,
    free: i64,
    no_age_distinction: bool,
    is_adult: bool,
    i: int,
)
    requires
        0 <= i < group_row_spec(event_id, open, c, limit, free, no_age_distinction, is_adult).len(),
    ensures
        match group_row_spec(event_id, open, c, limit, free, no_age_distinction, is_adult)[i].action {
            ActionView::Callback(CallbackQuery::SignUp { event_id: e, is_adult: a, wait }) =>
                e == event_id && a == is_adult && open && c.my_reservation < limit
                && (if wait { c.my_reservation + c.my_waiting < limit && free <= 0 } else { free > 0 }),
            ActionView::Callback(CallbackQuery::Cancel { event_id: e, is_adult: a }) =>
                e == event_id && a == is_adult && (c.my_reservation > 0 || c.my_waiting > 0),
            _ => false,
        },
{
}

/// Whether anybody holds a confirmed seat.
pub open spec fn has_reservations(s: EventStats) -> bool {
    s.adults.reserved > 0 || s.children.reserved > 0
}

/// The navigation row: back to the list, the waiting list once somebody
/// reserved, and for administrators the presence list and the switch that
/// stops or allows reservations; a group leader gets the presence list too.
pub open spec fn navigation_row_spec(s: EventStats, is_admin: bool, is_group_leader: Option<bool>) -> Seq<ButtonView> {
    let event_id = s.event.id;
    let base = seq![callback_button("Список мероприятий"@, CallbackQuery::EventList { offset: 0 })];
    let waiting = if has_reservations(s) {
        seq![callback_button("Список ожидания"@, CallbackQuery::ShowWaitingList { event_id, offset: 0 })]
    } else {
        seq![]
    };
    let presence = seq![callback_button("Присутствие"@, CallbackQuery::ShowPresenceList { event_id, offset: 0 })];
    let rest = if is_admin {
        (if has_reservations(s) { presence } else { seq![] }) + (if s.state == EventState::Open {
            seq![callback_button("Остановить запись"@, CallbackQuery::ChangeEventState { event_id, state: 1 })]
        } else {
            seq![callback_button("Разрешить запись"@, CallbackQuery::ChangeEventState { event_id, state: 0 })]
        })
    } else if has_reservations(s) && is_group_leader == Some(true) {
        presence
    } else {
        seq![]
    };
    base + waiting + rest
}

/// The controls under an event: the adult row, the child row and the navigation row.
pub open spec fn signup_controls_spec(
    s: EventStats,
    free_adults: i64,
    free_children: i64,
    no_age_distinction: bool,
    is_admin: bool,
    is_group_leader: Option<bool>,
) -> Seq<Seq<ButtonView>> {
    let open = s.state == EventState::Open;
    seq![
        group_row_spec(s.event.id, open, s.adults, s.event.max_adults_per_reservation, free_adults,
            no_age_distinction, true),
        group_row_spec(s.event.id, open, s.children, s.event.max_children_per_reservation, free_children,
            no_age_distinction, false),
        navigation_row_spec(s, is_admin, is_group_leader),
    ]
}

/// Whether a row holds a button that sends `q`.
pub open spec fn row_offers(row: Seq<ButtonView>, q: CallbackQuery) -> bool {
    exists|i: int| 0 <= i < row.len() && #[trigger] row[i].action == ActionView::Callback(q)
}

/// Whether a button sends a change of an event's state.
pub open spec fn is_state_switch(b: ButtonView) -> bool {
    b.action matches ActionView::Callback(CallbackQuery::ChangeEventState { .. })
}

/// The controls have three rows. The last row starts with the way back to the
/// first page of the event list and offers the waiting list exactly when somebody
/// holds a seat. For an administrator it ends with the switch that stops open
/// reservations or allows them again; nobody else is ever offered that switch.
pub proof fn lemma_navigation_row(
    s: EventStats,
    free_adults: i64,
    free_children: i64,
    no_age_distinction: bool,
    is_admin: bool,
    is_group_leader: Option<bool>,
)
    ensures
        ({
            let k = signup_controls_spec(s, free_adults, free_children, no_age_distinction, is_admin,
                is_group_leader);
            &&& k.len() == 3
            &&& k[2].len() > 0
            &&& k[2][0] == callback_button("Список мероприятий"@, CallbackQuery::EventList { offset: 0 })
            &&& row_offers(k[2], CallbackQuery::ShowWaitingList { event_id: s.event.id, offset: 0 })
                <==> has_reservations(s)
            &&& is_admin ==> k[2].last().action == ActionView::Callback(CallbackQuery::ChangeEventState {
                event_id: s.event.id,
                state: if s.state == EventState::Open { 1 } else { 0 },
            })
            &&& !is_admin ==> forall|r: int, i: int| 0 <= r < 3 && 0 <= i < k[r].len()
                ==> !is_state_switch(#[trigger] k[r][i])
        }),
{
    let k = signup_controls_spec(s, free_adults, free_children, no_age_distinction, is_admin,
        is_group_leader);
    let nav = k[2];
    let waiting = CallbackQuery::ShowWaitingList { event_id: s.event.id, offset: 0 };
    if has_reservations(s) {
        assert(nav[1].action == ActionView::Callback(waiting));
    } else {
        assert forall|i: int| 0 <= i < nav.len() implies nav[i].action != ActionView::Callback(waiting) by {
        }
    }
}

/// For one age group the row offers a seat exactly while reservations are open,
/// the user is under the limit and seats are free; the waiting list exactly while
/// reservations are open, the user is under the limit, no seat is free and
/// confirmed and waiting seats together are under the limit; giving a seat back
/// exactly while the user holds a confirmed or waiting seat.
pub proof fn lemma_group_row_offers(
    event_id: u64,
    open: bool,
    c: Counter,
    limit: u64,
    free: i64,
    no_age_distinction: bool,
    is_adult: bool,
)
    ensures
        ({
            let row = group_row_spec(event_id, open, c, limit, free, no_age_distinction, is_adult);
            &&& row_offers(row, CallbackQuery::SignUp { event_id, is_adult, wait: false })
                <==> (open && c.my_reservation < limit && free > 0)
            &&& row_offers(row, CallbackQuery::SignUp { event_id, is_adult, wait: true })
                <==> (open && c.my_reservation < limit && free <= 0
                    && c.my_reservation + c.my_waiting < limit)
            &&& row_offers(row, CallbackQuery::Cancel { event_id, is_adult })
                <==> (c.my_reservation > 0 || c.my_waiting > 0)
        }),
{
    let row = group_row_spec(event_id, open, c, limit, free, no_age_distinction, is_adult);
    let seat = CallbackQuery::SignUp { event_id, is_adult, wait: false };
    let wait = CallbackQuery::SignUp { event_id, is_adult, wait: true };
    let cancel = CallbackQuery::Cancel { event_id, is_adult };
    let first: Seq<ButtonView> = if open && c.my_reservation < limit {
        if free > 0 {
            seq![callback_button(sign_up_label(no_age_distinction, is_adult), seat)]
        } else if c.my_reservation + c.my_waiting < limit {
            seq![callback_button(wait_label(no_age_distinction, is_adult), wait)]
        } else {
            seq![]
        }
    } else {
        seq![]
    };
    let second: Seq<ButtonView> = if c.my_reservation > 0 || c.my_waiting > 0 {
        seq![callback_button(cancel_label(no_age_distinction, is_adult), cancel)]
    } else {
        seq![]
    };
    assert(row == first + second);
    assert forall|q: CallbackQuery| row_offers(row, q) <==> (row_offers(first, q) || row_offers(second, q)) by {
        if row_offers(row, q) {
            let i = choose|i: int| 0 <= i < row.len() && #[trigger] row[i].action == ActionView::Callback(q);
            if i < first.len() {
                assert(first[i].action == ActionView::Callback(q));
            } else {
                assert(second[i - first.len()].action == ActionView::Callback(q));
            }
        }
        if row_offers(first, q) {
            let i = choose|i: int| 0 <= i < first.len() && #[trigger] first[i].action == ActionView::Callback(q);
            assert(row[i].action == ActionView::Callback(q));
        }
        if row_offers(second, q) {
            let i = choose|i: int| 0 <= i < second.len() && #[trigger] second[i].action == ActionView::Callback(q);
            assert(row[first.len() + i].action == ActionView::Callback(q));
        }
    }
    if open && c.my_reservation < limit && free > 0 {
        assert(first[0].action == ActionView::Callback(seat));
    } else if open && c.my_reservation < limit && c.my_reservation + c.my_waiting < limit {
        assert(first[0].action == ActionView::Callback(wait));
    }
    if second.len() > 0 {
        assert(second[0].action == ActionView::Callback(cancel));
    }
}

/// The first row of the controls is the adults' and the second the
/// children's: each offers a seat exactly while reservations are open, the
/// user holds fewer confirmed seats of that age group than one reservation may
/// have and seats of that group are free; the waiting list exactly while
/// reservations are open, none of those seats is free and the user's confirmed
/// and waiting seats of that group are under that limit; giving a seat of that
/// group back exactly while the user holds one, confirmed or waiting.
pub proof fn lemma_controls_by_age_group(
    s: EventStats,
    free_adults: i64,
    free_children: i64,
    no_age_distinction: bool,
    is_admin: bool,
    is_group_leader: Option<bool>,
)
    ensures
        ({
            let k = signup_controls_spec(s, free_adults, free_children, no_age_distinction, is_admin, is_group_leader);
            let open = s.state == EventState::Open;
            let id = s.event.id;
            &&& row_offers(k[0], CallbackQuery::SignUp { event_id: id, is_adult: true, wait: false })
                <==> (open && s.adults.my_reservation < s.event.max_adults_per_reservation && free_adults > 0)
            &&& row_offers(k[1], CallbackQuery::SignUp { event_id: id, is_adult: false, wait: false })
                <==> (open && s.children.my_reservation < s.event.max_children_per_reservation && free_children > 0)
            &&& row_offers(k[0], CallbackQuery::SignUp { event_id: id, is_adult: true, wait: true })
                <==> (open && free_adults <= 0 && s.adults.my_reservation + s.adults.my_waiting
                    < s.event.max_adults_per_reservation)
            &&& row_offers(k[1], CallbackQuery::SignUp { event_id: id, is_adult: false, wait: true })
                <==> (open && free_children <= 0 && s.children.my_reservation + s.children.my_waiting
                    < s.event.max_children_per_reservation)
            &&& row_offers(k[0], CallbackQuery::Cancel { event_id: id, is_adult: true })
                <==> (s.adults.my_reservation > 0 || s.adults.my_waiting > 0)
            &&& row_offers(k[1], CallbackQuery::Cancel { event_id: id, is_adult: false })
                <==> (s.children.my_reservation > 0 || s.children.my_waiting > 0)
        }),
{
    let open = s.state == EventState::Open;
    lemma_group_row_offers(s.event.id, open, s.adults, s.event.max_adults_per_reservation, free_adults,
        no_age_distinction, true);
    lemma_group_row_offers(s.event.id, open, s.children, s.event.max_children_per_reservation, free_children,
        no_age_distinction, false);
}

/// Whether the controls depend on whether the user leads a group at the event.
pub fn needs_group_leader_check(s: &EventStats, is_admin: bool) -> (r: bool)
    ensures
        r == (!is_admin && has_reservations(*s)),
{
    !is_admin && (s.adults.reserved > 0 || s.children.reserved > 0)
}

fn push_button(row: &mut Vec<Button>, text: &str, q: CallbackQuery)
    ensures
        row_view(final(row)@) == row_view(old(row)@).push(callback_button(text@, q)),
{
    let b = new_callback_button(text, q);
    let ghost before = old(row)@;
    row.push(b);
    proof {
        assert(row_view(before.push(b)) =~= row_view(before).push(button_view(b)));
    }
}

fn group_row(
    event_id: u64,
    open: bool,
    c: &Counter,
    limit: u64,
    free: i64,
    no_age_distinction: bool,
    is_adult: bool,
) -> (r: Vec<Button>)
    ensures
        row_view(r@) == group_row_spec(event_id, open, *c, limit, free, no_age_distinction, is_adult),
{
    let mut row: Vec<Button> = Vec::new();
    assert(row_view(row@) =~= Seq::<ButtonView>::empty());
    if open && c.my_reservation < limit {
        if free > 0 {
            let label = if no_age_distinction {
                "Записаться +1"
            } else if is_adult {
                "Записать взрослого +1"
            } else {
                "Записать ребёнка +1"
            };
            push_button(&mut row, label, CallbackQuery::SignUp { event_id, is_adult, wait: false });
        } else if c.my_waiting < limit - c.my_reservation {
            let label = if no_age_distinction {
                "В лист ожидания +1"
            } else if is_adult {
                "В лист ожидания взрослого +1"
            } else {
                "В лист ожидания ребёнка +1"
            };
            push_button(&mut row, label, CallbackQuery::SignUp { event_id, is_adult, wait: true });
        }
    }
    let ghost first = row_view(row@);
    if c.my_reservation > 0 || c.my_waiting > 0 {
        let label = if no_age_distinction {
            "Отписаться -1"
        } else if is_adult {
            "Отписать взрослого -1"
        } else {
            "Отписать ребёнка -1"
        };
        push_button(&mut row, label, CallbackQuery::Cancel { event_id, is_adult });
    }
    assert(row_view(row@) =~= group_row_spec(event_id, open, *c, limit, free, no_age_distinction, is_adult));
    row
}

/// The controls under an event. `is_group_leader` is what the group-leader
/// query returned (`None` where it failed); it matters only where
/// `needs_group_leader_check` says so.
pub fn get_signup_controls(
    s: &EventStats,
    free_adults: i64,
    free_children: i64,
    no_age_distinction: bool,
    is_admin: bool,
    is_group_leader: Option<bool>,
) -> (r: Vec<Vec<Button>>)
    ensures
        keyboard_view(r@) == signup_controls_spec(*s, free_adults, free_children,
            no_age_distinction, is_admin, is_group_leader),
{
    let open = s.state == EventState::Open;
    let mut keyboard: Vec<Vec<Button>> = Vec::new();
    keyboard.push(group_row(s.event.id, open, &s.adults, s.event.max_adults_per_reservation,
        free_adults, no_age_distinction, true));
    keyboard.push(group_row(s.event.id, open, &s.children, s.event.max_children_per_reservation,
        free_children, no_age_distinction, false));

    let event_id = s.event.id;
    let mut row: Vec<Button> = Vec::new();
    assert(row_view(row@) =~= Seq::<ButtonView>::empty());
    push_button(&mut row, "Список мероприятий", CallbackQuery::EventList { offset: 0 });
    let reserved = s.adults.reserved > 0 || s.children.reserved > 0;
    if reserved {
        push_button(&mut row, "Список ожидания", CallbackQuery::ShowWaitingList { event_id, offset: 0 });
    }
    let ghost before_rest = row_view(row@);
    if is_admin {
        if reserved {
            push_button(&mut row, "Присутствие", CallbackQuery::ShowPresenceList { event_id, offset: 0 });
        }
        if s.state == EventState::Open {
            push_button(&mut row, "Остановить запись", CallbackQuery::ChangeEventState { event_id, state: 1 });
        } else {
            push_button(&mut row, "Разрешить запись", CallbackQuery::ChangeEventState { event_id, state: 0 });
        }
    } else {
        if reserved {
            if let Some(check) = is_group_leader {
                if check {
                    push_button(&mut row, "Присутствие", CallbackQuery::ShowPresenceList { event_id, offset: 0 });
                }
            }
        }
    }
    assert(row_view(row@) =~= navigation_row_spec(*s, is_admin, is_group_leader));
    keyboard.push(row);
    assert(keyboard_view(keyboard@) =~= signup_controls_spec(*s, free_adults, free_children,
        no_age_distinction, is_admin, is_group_leader));
    keyboard
}

} // verus!
