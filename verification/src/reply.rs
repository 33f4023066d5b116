//! Replies of the bot: text, keyboard and page links.
use vstd::prelude::*;
use crate::callback::CallbackQuery;
use crate::keyboard::{Button, ButtonView, keyboard_view, row_view, callback_button, new_callback_button};

verus! {

/// Links to the previous and next page of a list, with what the renderer needs
/// to decide which of them to show.
#[derive(Clone, Copy, Debug, PartialEq, Eq, Structural)]
pub struct Paging {
    pub prev: CallbackQuery,
    pub next: CallbackQuery,
    /// Items on the page shown.
    pub len: u64,
    pub page_size: u64,
    pub offset: u64,
}

/// A reply: text, rows of buttons, and page links where the reply is a page.
#[derive(Debug)]
pub struct ReplyMessage {
    pub text: String,
    pub keyboard: Vec<Vec<Button>>,
    pub paging: Option<Paging>,
}

/// A reply, with texts as character sequences.
pub struct ReplyView {
    pub text: Seq<char>,
    pub keyboard: Seq<Seq<ButtonView>>,
    pub paging: Option<Paging>,
}

pub open spec fn reply_view(r: ReplyMessage) -> ReplyView {
    ReplyView { text: r.text@, keyboard: keyboard_view(r.keyboard@), paging: r.paging }
}

/// The page links of a list shown at `offset`: back one page (not below the
/// first) and forward one page.
pub open spec fn paging_spec(
    prev: CallbackQuery,
    next: CallbackQuery,
    len: u64,
    page_size: u64,
    offset: u64,
) -> Paging {
    Paging { prev, next, len, page_size, offset }
}

/// The page before `offset`, not below the first.
pub open spec fn prev_offset(offset: u64) -> u64 {
    if offset > 0 { (offset - 1) as u64 } else { 0 }
}

pub fn prev_page(offset: u64) -> (r: u64)
    ensures
        r == prev_offset(offset),
{
    offset.saturating_sub(1)
}

/// The row of page links under a list: back where the list does not show its
/// first page, forward where the page shown is full.
pub open spec fn paging_row_spec(p: Paging) -> Seq<ButtonView> {
    (if p.offset > 0 { seq![callback_button("⬅️"@, p.prev)] } else { seq![] })
        + (if p.page_size > 0 && p.len >= p.page_size { seq![callback_button("➡️"@, p.next)] } else { seq![] })
}

pub fn paging_row(p: &Paging) -> (r: Vec<Button>)
    ensures
        row_view(r@) == paging_row_spec(*p),
{
    let mut r: Vec<Button> = Vec::new();
    if p.offset > 0 {
        r.push(new_callback_button("⬅️", p.prev));
    }
    if p.page_size > 0 && p.len >= p.page_size {
        let b = new_callback_button("➡️", p.next);
        proof {
            assert(row_view(r@.push(b)) =~= row_view(r@).push(callback_button("➡️"@, p.next)));
        }
        r.push(b);
    }
    assert(row_view(r@) =~= paging_row_spec(*p));
    r
}

} // verus!
