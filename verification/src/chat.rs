//! Chat: messages as they are shown, receipts, and the typing indicator.

use vstd::prelude::*;

use crate::text::{
    blank, non_blank, opt_text, same_text, some_unless_blank, texts, trim_text, trimmed,
};
use crate::time::{chat_time_text, format_chat_time, on_clock, Moment, UtcTime};

verus! {

/// A chat message.
#[derive(Debug, PartialEq, Eq)]
pub struct ChatMessage<T = String, M = UtcTime> {
    pub id: T,
    pub content: T,
    pub sender_id: T,
    pub sent_at: M,
    pub status: T,
}

impl View for ChatMessage<String, UtcTime> {
    type V = ChatMessage<Seq<char>, Moment>;

    open spec fn view(&self) -> ChatMessage<Seq<char>, Moment> {
        ChatMessage {
            id: self.id@,
            content: self.content@,
            sender_id: self.sender_id@,
            sent_at: self.sent_at@,
            status: self.status@,
        }
    }
}

/// A message as it is shown. There are no dividers between days.
#[derive(Debug, PartialEq, Eq)]
pub struct ChatMessageItem<T = String> {
    pub id: T,
    pub content: T,
    pub is_mine: bool,
    pub timestamp: T,
    pub status: T,
    pub show_date_divider: bool,
    pub date_label: T,
}

impl View for ChatMessageItem<String> {
    type V = ChatMessageItem<Seq<char>>;

    open spec fn view(&self) -> ChatMessageItem<Seq<char>> {
        ChatMessageItem {
            id: self.id@,
            content: self.content@,
            is_mine: self.is_mine,
            timestamp: self.timestamp@,
            status: self.status@,
            show_date_divider: self.show_date_divider,
            date_label: self.date_label@,
        }
    }
}

/// The views of a list of messages.
pub open spec fn messages(v: Seq<ChatMessage>) -> Seq<ChatMessage<Seq<char>, Moment>> {
    v.map_values(|m: ChatMessage| m@)
}

/// The views of a list of messages as they are shown.
pub open spec fn items(v: Seq<ChatMessageItem>) -> Seq<ChatMessageItem<Seq<char>>> {
    v.map_values(|m: ChatMessageItem| m@)
}

/// The number of messages that are shown at first.
pub const PAGE: usize = 50;

/// A message as it is shown to the user with an endpoint, with its time as text.
pub open spec fn shown(
    m: ChatMessage<Seq<char>, Moment>,
    our_id: Seq<char>,
    timestamp: Seq<char>,
) -> ChatMessageItem<Seq<char>> {
    ChatMessageItem {
        id: m.id,
        content: m.content,
        is_mine: m.sender_id == our_id,
        timestamp,
        status: m.status,
        show_date_divider: false,
        date_label: blank(),
    }
}

/// Shows a message.
pub fn chat_item(m: &ChatMessage, our_id: &str, timestamp: String) -> (r: ChatMessageItem)
    ensures
        r@ == shown(m@, our_id@, timestamp@),
{
    ChatMessageItem {
        id: m.id.clone(),
        content: m.content.clone(),
        is_mine: same_text(m.sender_id.as_str(), our_id),
        timestamp,
        status: m.status.clone(),
        show_date_divider: false,
        date_label: String::new(),
    }
}

/// A message that we have just sent, as it is shown.
pub fn sent_item(m: &ChatMessage, timestamp: String) -> (r: ChatMessageItem)
    ensures
        r@ == shown(m@, m@.sender_id, timestamp@),
{
    chat_item(m, m.sender_id.as_str(), timestamp)
}

/// A conversation as it is shown: the oldest message first, though the newest is stored first.
/// `times` are the times of the messages, as text.
pub open spec fn conversation(
    stored: Seq<ChatMessage<Seq<char>, Moment>>,
    our_id: Seq<char>,
    times: Seq<Seq<char>>,
) -> Seq<ChatMessageItem<Seq<char>>> {
    Seq::new(
        stored.len(),
        |i: int| shown(stored[stored.len() - 1 - i], our_id, times[stored.len() - 1 - i]),
    )
}

/// Shows a conversation, with the times of its messages as text.
pub fn chat_items_at(stored: &Vec<ChatMessage>, our_id: &str, times: &Vec<String>) -> (r: Vec<
    ChatMessageItem,
>)
    requires
        times@.len() == stored@.len(),
    ensures
        items(r@) == conversation(messages(stored@), our_id@, texts(times@)),
{
    let mut out: Vec<ChatMessageItem> = Vec::new();
    let n: usize = stored.len();
    for i in 0..n
        invariant
            n == stored@.len() == times@.len(),
            out@.len() == i,
            forall|j: int|
                0 <= j < i ==> (#[trigger] out@[j])@ == shown(
                    stored@[n - 1 - j]@,
                    our_id@,
                    times@[n - 1 - j]@,
                ),
    {
        let k: usize = n - 1 - i;
        out.push(chat_item(&stored[k], our_id, times[k].clone()));
    }
    assert(items(out@) =~= conversation(messages(stored@), our_id@, texts(times@)));
    out
}

/// Whether a text can be the time of a message, in some time zone at some time.
pub open spec fn is_chat_time(sent_at: Moment, timestamp: Seq<char>) -> bool {
    exists|offset: int, now: Moment, now_offset: int|
        -86400 < offset < 86400 && -86400 < now_offset < 86400 && on_clock(now) && timestamp
            == #[trigger] chat_time_text(sent_at, offset, now, now_offset)
}

/// Shows a conversation, with times in the machine's time zone.
pub fn chat_items(stored: &Vec<ChatMessage>, our_id: &str) -> (r: Vec<ChatMessageItem>)
    ensures
        exists|times: Seq<Seq<char>>|
            times.len() == stored@.len() && (forall|i: int|
                0 <= i < times.len() ==> is_chat_time(messages(stored@)[i].sent_at, #[trigger] times[i]))
                && items(r@) == #[trigger] conversation(messages(stored@), our_id@, times),
{
    let mut times: Vec<String> = Vec::new();
    for i in 0..stored.len()
        invariant
            times@.len() == i,
            forall|j: int|
                0 <= j < i ==> is_chat_time(stored@[j]@.sent_at, (#[trigger] times@[j])@),
    {
        times.push(format_chat_time(&stored[i].sent_at));
    }
    let out = chat_items_at(stored, our_id, &times);
    proof {
        let shown_times = texts(times@);
        assert forall|i: int| 0 <= i < shown_times.len() implies is_chat_time(
            messages(stored@)[i].sent_at,
            #[trigger] shown_times[i],
        ) by {
            assert(is_chat_time(stored@[i]@.sent_at, times@[i]@));
        }
    }
    out
}

/// Whether there may be more messages than those shown.
pub fn has_more(count: usize) -> (r: bool)
    ensures
        r == (count >= PAGE),
{
    count >= PAGE
}

/// A message with the state that a receipt gives it, where the receipt is for it.
pub open spec fn receipted(
    m: ChatMessageItem<Seq<char>>,
    ids: Seq<Seq<char>>,
    status: Seq<char>,
) -> ChatMessageItem<Seq<char>> {
    if ids.contains(m.id) {
        ChatMessageItem { status, ..m }
    } else {
        m
    }
}

/// The state of a message that a receipt is for: delivered, or read.
pub open spec fn receipt_status(read: bool) -> Seq<char> {
    if read {
        "read"@
    } else {
        "delivered"@
    }
}

fn holds(ids: &Vec<String>, id: &str) -> (r: bool)
    ensures
        r == texts(ids@).contains(id@),
{
    for i in 0..ids.len()
        invariant
            forall|j: int| 0 <= j < i ==> (#[trigger] ids@[j])@ != id@,
    {
        if same_text(ids[i].as_str(), id) {
            assert(texts(ids@)[i as int] == id@);
            return true;
        }
    }
    assert(!texts(ids@).contains(id@)) by {
        if texts(ids@).contains(id@) {
            let j = choose|j: int| 0 <= j < texts(ids@).len() && texts(ids@)[j] == id@;
            assert(ids@[j]@ == id@);
        }
    }
    false
}

/// Shows a receipt for messages: that they were read, or else delivered.
pub fn apply_receipt(shown_items: &Vec<ChatMessageItem>, ids: &Vec<String>, read: bool) -> (r: Vec<
    ChatMessageItem,
>)
    ensures
        items(r@) == items(shown_items@).map_values(
            |m: ChatMessageItem<Seq<char>>| receipted(m, texts(ids@), receipt_status(read)),
        ),
{
    let mut out: Vec<ChatMessageItem> = Vec::new();
    for i in 0..shown_items.len()
        invariant
            out@.len() == i,
            forall|j: int|
                0 <= j < i ==> (#[trigger] out@[j])@ == receipted(
                    shown_items@[j]@,
                    texts(ids@),
                    receipt_status(read),
                ),
    {
        let m = &shown_items[i];
        let status = if holds(ids, m.id.as_str()) {
            if read {
                "read".to_owned()
            } else {
                "delivered".to_owned()
            }
        } else {
            m.status.clone()
        };
        out.push(
            ChatMessageItem {
                id: m.id.clone(),
                content: m.content.clone(),
                is_mine: m.is_mine,
                timestamp: m.timestamp.clone(),
                status,
                show_date_divider: m.show_date_divider,
                date_label: m.date_label.clone(),
            },
        );
    }
    assert(items(out@) =~= items(shown_items@).map_values(
        |m: ChatMessageItem<Seq<char>>| receipted(m, texts(ids@), receipt_status(read)),
    ));
    out
}

// ---------------------------------------------------------------------------
// Sending

/// What is sent of what the user has entered: nothing where it is only white space.
pub fn outgoing_content(content: &str) -> (r: Option<String>)
    ensures
        opt_text(r) == non_blank(trimmed(content@)),
{
    some_unless_blank(trim_text(content).as_str())
}

/// The name under which a conversation is kept.
pub fn chat_peer_name(name: Option<String>) -> (r: String)
    ensures
        r@ == (match opt_text(name) {
            Some(n) => n,
            None => "Unknown"@,
        }),
{
    match name {
        Some(n) => n,
        None => "Unknown".to_owned(),
    }
}

/// Whether the user is typing, by what has been entered.
pub fn is_typing(content: &str) -> (r: bool)
    ensures
        r == (trimmed(content@).len() > 0),
{
    !trim_text(content).as_str().is_empty()
}

/// How long typing is not told again, in nanoseconds.
pub const TYPING_PAUSE: u64 = 1_000_000_000;

/// Whether the typing indicator is told at a time (in nanoseconds) when typing was last told at
/// `last`. That the user has stopped is always told.
pub open spec fn tells_typing(last: Option<u64>, typing: bool, now: u64) -> bool {
    typing ==> (last matches Some(t) ==> now - t >= TYPING_PAUSE)
}

/// When typing was last told, after the indicator has changed.
pub open spec fn typing_after(last: Option<u64>, typing: bool, now: u64) -> Option<u64> {
    if typing && tells_typing(last, typing, now) {
        Some(now)
    } else {
        last
    }
}

/// Whether the typing indicator is told.
pub fn debounce_typing(last: &mut Option<u64>, typing: bool, now: u64) -> (r: bool)
    ensures
        r == tells_typing(*old(last), typing, now),
        *final(last) == typing_after(*old(last), typing, now),
{
    if typing {
        if let Some(t) = *last {
            if now < t || now - t < TYPING_PAUSE {
                return false;
            }
        }
        *last = Some(now);
    }
    true
}

// ---------------------------------------------------------------------------
// Laws

/// Typing is told at most once a second, however often the input changes, and that it has stopped
/// is told at once.
pub proof fn typing_is_told_once_a_second(last: Option<u64>, first: u64, second: u64)
    requires
        tells_typing(last, true, first),
    ensures
        second - first < TYPING_PAUSE ==> !tells_typing(
            typing_after(last, true, first),
            true,
            second,
        ),
        tells_typing(typing_after(last, true, first), false, second),
        typing_after(last, false, first) == last,
{
}

/// A receipt touches the messages that it is for, and of those only the state; a second receipt for
/// the same messages outdoes the first.
pub proof fn receipts_change_states_only(
    m: ChatMessageItem<Seq<char>>,
    ids: Seq<Seq<char>>,
    first: Seq<char>,
    second: Seq<char>,
)
    ensures
        (ChatMessageItem { status: m.status, ..receipted(m, ids, first) }) == m,
        !ids.contains(m.id) ==> receipted(m, ids, first) == m,
        receipted(receipted(m, ids, first), ids, second) == receipted(m, ids, second),
{
}

/// Every message of a conversation is shown once, and the newest stands last.
pub proof fn conversations_run_forward(
    stored: Seq<ChatMessage<Seq<char>, Moment>>,
    our_id: Seq<char>,
    times: Seq<Seq<char>>,
)
    ensures
        conversation(stored, our_id, times).len() == stored.len(),
        forall|i: int|
            0 <= i < stored.len() ==> (#[trigger] conversation(stored, our_id, times)[i]).id
                == stored[stored.len() - 1 - i].id,
        stored.len() > 0 ==> conversation(stored, our_id, times).last() == shown(
            stored[0],
            our_id,
            times[0],
        ),
{
}

/// A message shows as it was stored: its own text, state and identifier, with the time that it is
/// given, as ours just where we have sent it, and without a divider.
pub proof fn messages_show_as_stored(m: ChatMessage, our_id: &str, timestamp: &str, r: ChatMessageItem)
    requires
        r@ == shown(m@, our_id@, timestamp@),
    ensures
        r.id@ == m.id@,
        r.content@ == m.content@,
        r.status@ == m.status@,
        r.timestamp@ == timestamp@,
        r.is_mine <==> m.sender_id@ == our_id@,
        !r.show_date_divider && r.date_label@.len() == 0,
{
}

/// Each message of a conversation stands at its own place, counted from the oldest, with its own
/// text, state and time, and as ours just where we have sent it.
pub proof fn conversations_show_every_message(
    stored: Seq<ChatMessage<Seq<char>, Moment>>,
    our_id: Seq<char>,
    times: Seq<Seq<char>>,
    i: int,
)
    requires
        0 <= i < stored.len(),
    ensures
        conversation(stored, our_id, times).len() == stored.len(),
        conversation(stored, our_id, times)[i].id == stored[stored.len() - 1 - i].id,
        conversation(stored, our_id, times)[i].content == stored[stored.len() - 1 - i].content,
        conversation(stored, our_id, times)[i].status == stored[stored.len() - 1 - i].status,
        conversation(stored, our_id, times)[i].timestamp == times[stored.len() - 1 - i],
        conversation(stored, our_id, times)[i].is_mine <==> stored[stored.len() - 1 - i].sender_id
            == our_id,
        !conversation(stored, our_id, times)[i].show_date_divider,
{
}

/// A receipt gives each message that it is for the state that it tells, read or else delivered.
pub proof fn receipts_set_the_state_they_tell(
    m: ChatMessageItem<Seq<char>>,
    ids: Seq<Seq<char>>,
    read: bool,
)
    ensures
        ids.contains(m.id) && read ==> receipted(m, ids, receipt_status(read)).status == "read"@,
        ids.contains(m.id) && !read ==> receipted(m, ids, receipt_status(read)).status
            == "delivered"@,
        !ids.contains(m.id) ==> receipted(m, ids, receipt_status(read)) == m,
        receipted(m, ids, receipt_status(read)).content == m.content,
        receipted(m, ids, receipt_status(read)).id == m.id,
{
}

/// Typing is told at the first key and then again as soon as a second has gone by since it was last
/// told, and each time that starts the second anew.
pub proof fn typing_is_told_again_after_a_second(last: Option<u64>, now: u64)
    ensures
        last is None ==> tells_typing(last, true, now),
        last matches Some(t) ==> (tells_typing(last, true, now) <==> now >= t + 1_000_000_000),
        tells_typing(last, false, now),
        tells_typing(last, true, now) ==> typing_after(last, true, now) == Some(now),
        !tells_typing(last, true, now) ==> typing_after(last, true, now) == last,
{
}

/// What the user has entered is sent without the white space around it, and only white space is not
/// sent; the user is typing just where there is something to send.
pub proof fn entered_text_is_sent_trimmed(content: Seq<char>)
    ensures
        trimmed(content).len() > 0 ==> non_blank(trimmed(content)) == Some(trimmed(content)),
        (forall|i: int| 0 <= i < content.len() ==> crate::text::is_space_char(#[trigger] content[i]))
            ==> non_blank(trimmed(content)) is None,
        (exists|i: int|
            0 <= i < content.len() && !crate::text::is_space_char(#[trigger] content[i]))
            ==> non_blank(trimmed(content)) is Some,
{
    let cut = crate::text::trimming_takes_white_space_only(content);
    let t = trimmed(content);
    if t.len() > 0 {
        assert(t[0] == content[cut.0]);
    }
}

/// A chat goes by its peer's name where there is one. More is there to load where a page is full, and
/// the user is typing while anything but white space stands there.
pub proof fn chats_show_their_peer(
    name: Option<String>,
    r: String,
    count: usize,
    more: bool,
    content: &str,
    typing: bool,
)
    ensures
        call_ensures(chat_peer_name, (name,), r) ==> r@ == match name {
            Some(n) => n@,
            None => "Unknown"@,
        },
        call_ensures(has_more, (count,), more) ==> more == (count >= 50),
        call_ensures(is_typing, (content,), typing) ==> (typing <==> exists|i: int|
            0 <= i < content@.len() && !crate::text::is_space_char(#[trigger] content@[i])),
{
    let cut = crate::text::trimming_takes_white_space_only(content@);
    if trimmed(content@).len() > 0 {
        assert(trimmed(content@)[0] == content@[cut.0]);
    }
}

/// A receipt goes over the whole conversation: no message is lost or moved, and each has its own
/// state and all else as it was.
pub proof fn receipts_keep_the_conversation(
    shown_items: &Vec<ChatMessageItem>,
    ids: &Vec<String>,
    read: bool,
    r: Vec<ChatMessageItem>,
    i: int,
)
    requires
        call_ensures(apply_receipt, (shown_items, ids, read), r),
        0 <= i < shown_items@.len(),
    ensures
        r@.len() == shown_items@.len(),
        r@[i].id@ == shown_items@[i].id@,
        r@[i].content@ == shown_items@[i].content@,
        r@[i].status@ == if texts(ids@).contains(shown_items@[i].id@) {
            if read {
                "read"@
            } else {
                "delivered"@
            }
        } else {
            shown_items@[i].status@
        },
        shown_items@[i]@ == (ChatMessageItem { status: shown_items@[i]@.status, ..r@[i]@ }),
{
    assert(items(r@).len() == r@.len());
    assert(items(r@)[i] == r@[i]@);
    assert(items(shown_items@)[i] == shown_items@[i]@);
}

} // verus!
