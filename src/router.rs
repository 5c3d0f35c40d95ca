use vstd::prelude::*;

use crate::bot::{BotState, VoteError, VoteRecord};
use crate::fish::RfReportInfo;
use crate::telegram::{
    keyboard_view, TgCallbackQuery, TgChat, TgChatId, TgChosenInlineResult, TgInlineKeyboardButton,
    TgInlineKeyboardMarkup, TgInlineQuery, TgMessageLite, TgResponse, TgUpdate, TgUser,
};
use crate::text::{append_digits, digits, same_text};

verus! {

/// The one way an inbound update is handled.
#[derive(Debug)]
pub enum UpdateRoute {
    /// A user picked an inline result that has an inline message id: only
    /// acknowledged.
    ChosenResult { result_id: String, inline_message_id: String },
    /// A press on a button under a message, with callback data.
    CallbackVote { callback_id: String, from: TgUser, message: TgMessageLite, data: String },
    /// An inline search.
    InlineQuery { query_id: String, from: TgUser, query: String },
    /// Any other shape; handed back whole so that it can be logged.
    Unsupported(TgUpdate),
}

/// The update reports a chosen inline result with an inline message id.
pub open spec fn is_chosen_result(u: TgUpdate) -> bool {
    &&& u.chosen_inline_result is Some
    &&& u.chosen_inline_result->0.inline_message_id is Some
}

/// The update is a button press on a message, with data, and nothing else.
pub open spec fn is_callback_vote(u: TgUpdate) -> bool {
    &&& u.message is None
    &&& u.inline_query is None
    &&& u.callback_query is Some
    &&& u.callback_query->0.message is Some
    &&& u.callback_query->0.data is Some
}

/// The update is an inline query and neither a message nor a button press.
pub open spec fn is_inline_query(u: TgUpdate) -> bool {
    &&& u.message is None
    &&& u.callback_query is None
    &&& u.inline_query is Some
}

/// Sorts an update into exactly one route, testing the shapes in this
/// order: chosen result, button press, inline query; anything else is
/// unsupported.
pub fn classify_update(upd: TgUpdate) -> (r: UpdateRoute)
    ensures
        is_chosen_result(upd) ==> r == (UpdateRoute::ChosenResult {
            result_id: upd.chosen_inline_result->0.result_id,
            inline_message_id: upd.chosen_inline_result->0.inline_message_id->0,
        }),
        !is_chosen_result(upd) && is_callback_vote(upd) ==> r == (UpdateRoute::CallbackVote {
            callback_id: upd.callback_query->0.id,
            from: upd.callback_query->0.from,
            message: upd.callback_query->0.message->0,
            data: upd.callback_query->0.data->0,
        }),
        !is_chosen_result(upd) && !is_callback_vote(upd) && is_inline_query(upd) ==> r == (
        UpdateRoute::InlineQuery {
            query_id: upd.inline_query->0.id,
            from: upd.inline_query->0.from,
            query: upd.inline_query->0.query,
        }),
        !is_chosen_result(upd) && !is_callback_vote(upd) && !is_inline_query(upd) ==> r == (
        UpdateRoute::Unsupported(upd)),
{
    match upd {
        TgUpdate {
            chosen_inline_result: Some(
                TgChosenInlineResult { result_id, inline_message_id: Some(imi), .. },
            ),
            ..
        } => UpdateRoute::ChosenResult { result_id, inline_message_id: imi },
        TgUpdate {
            message: None,
            callback_query: Some(
                TgCallbackQuery { id, from, message: Some(message), data: Some(data) },
            ),
            inline_query: None,
            ..
        } => UpdateRoute::CallbackVote { callback_id: id, from, message, data },
        TgUpdate {
            message: None,
            callback_query: None,
            inline_query: Some(TgInlineQuery { id, from, query, .. }),
            ..
        } => UpdateRoute::InlineQuery { query_id: id, from, query },
        upd => UpdateRoute::Unsupported(upd),
    }
}

/// The callback data of the vote button.
pub const VOTE_DATA: &'static str = "u";

/// A button press counts as a vote when it comes from the configured
/// channel (named `@name` in the configuration, `name` in the chat) and
/// carries the vote button's data.
pub open spec fn accepts_vote(chat: TgChat, data: Seq<char>, channel: Seq<char>) -> bool {
    &&& chat.username is Some
    &&& channel.len() >= 1
    &&& chat.username->0@ == channel.drop_first()
    &&& data == VOTE_DATA@
}

/// Whether a button press from `chat` with `data` is a vote on a report of
/// `channel`; presses from any other chat are ignored.
pub fn vote_accepted(chat: &TgChat, data: &String, channel: &str) -> (r: bool)
    ensures
        r == accepts_vote(*chat, data@, channel@),
{
    match &chat.username {
        None => false,
        Some(name) => {
            let n = channel.unicode_len();
            if n < 1 {
                return false;
            }
            let bare = channel.substring_char(1, n);
            proof {
                assert(bare@ =~= channel@.drop_first());
            }
            same_text(name, bare) && same_text(data, VOTE_DATA)
        },
    }
}

/// The label of the vote button: a thumbs-up and the number of votes.
pub open spec fn vote_label(count: nat) -> Seq<char> {
    "\u{1F44D} "@ + digits(count)
}

/// The keyboard under a published report: the vote button with the current
/// count, and a link to the report on the website.
pub fn make_report_kb(kbdata: &VoteRecord) -> (r: TgInlineKeyboardMarkup)
    ensures
        keyboard_view(r) == seq![
            seq![
                (true, vote_label(kbdata.votes@.len()), VOTE_DATA@),
                (false, "переглянути на вебсайті"@, kbdata.url@),
            ],
        ],
{
    let mut label = String::from_str("\u{1F44D} ");
    append_digits(kbdata.vote_count() as u64, &mut label);
    let vote = TgInlineKeyboardButton::Cb { text: label, callback_data: String::from_str(VOTE_DATA) };
    let link = TgInlineKeyboardButton::Url {
        text: String::from_str("переглянути на вебсайті"),
        url: kbdata.url.clone(),
    };
    let r = TgInlineKeyboardMarkup { inline_keyboard: vec![vec![vote, link]] };
    proof {
        assert(keyboard_view(r)[0] =~= seq![
            (true, vote_label(kbdata.votes@.len()), VOTE_DATA@),
            (false, "переглянути на вебсайті"@, kbdata.url@),
        ]);
        assert(keyboard_view(r) =~= seq![
            seq![
                (true, vote_label(kbdata.votes@.len()), VOTE_DATA@),
                (false, "переглянути на вебсайті"@, kbdata.url@),
            ],
        ]);
    }
    r
}

/// What a voter is told: that the vote counted, or nothing when the message
/// carries no registered report.
pub fn vote_answer(outcome: &Result<VoteRecord, VoteError>) -> (r: Option<String>)
    ensures
        outcome is Ok ==> r is Some && r->0@ == "ваш голос враховано"@,
        outcome is Err ==> r is None,
{
    match outcome {
        Ok(_) => Some(String::from_str("ваш голос враховано")),
        Err(_) => None,
    }
}

/// The channel a callback came from, addressed by `@username`.
pub fn channel_chat_id(username: &String) -> (r: TgChatId)
    ensures
        r matches TgChatId::Username(n) && n@ == "@"@ + username@,
{
    let mut n = String::from_str("@");
    n.append(username.as_str());
    TgChatId::Username(n)
}

/// The outcome an administrative request reports.
#[derive(Clone, Copy, Debug, PartialEq, Eq)]
pub enum AdminStatus {
    Success,
    BadRequest,
    InternalServerError,
}

/// Why a message was not confirmed as sent.
#[derive(Clone, Debug)]
pub enum SendFailure {
    /// The request did not go through or its answer could not be read.
    Transport(String),
    /// The Bot API refused, with its description.
    Api(Option<String>),
    /// The Bot API accepted but named no message.
    NoMessage,
}

/// A Bot API call succeeded: the request went through and the API said ok.
pub open spec fn call_succeeded<R>(resp: Result<TgResponse<R>, String>) -> bool {
    resp is Ok && resp->Ok_0.ok
}

/// The status of an administrative request whose last step was the Bot API
/// call answered by `resp`.
pub fn response_status<R>(resp: &Result<TgResponse<R>, String>) -> (r: AdminStatus)
    ensures
        r == if call_succeeded(*resp) {
            AdminStatus::Success
        } else {
            AdminStatus::InternalServerError
        },
{
    match resp {
        Ok(tr) => if tr.ok {
            AdminStatus::Success
        } else {
            AdminStatus::InternalServerError
        },
        Err(_) => AdminStatus::InternalServerError,
    }
}

/// The id of the message that a send confirmed, or why there is none.
pub fn sent_message_id(resp: Result<TgResponse<TgMessageLite>, String>) -> (r: Result<u64, SendFailure>)
    ensures
        match resp {
            Err(e) => r == Err::<u64, SendFailure>(SendFailure::Transport(e)),
            Ok(tr) => if !tr.ok {
                r == Err::<u64, SendFailure>(SendFailure::Api(tr.description))
            } else {
                match tr.result {
                    Some(m) => r == Ok::<u64, SendFailure>(m.message_id),
                    None => r == Err::<u64, SendFailure>(SendFailure::NoMessage),
                }
            },
        },
{
    match resp {
        Err(e) => Err(SendFailure::Transport(e)),
        Ok(tr) => if !tr.ok {
            Err(SendFailure::Api(tr.description))
        } else {
            match tr.result {
                Some(m) => Ok(m.message_id),
                None => Err(SendFailure::NoMessage),
            }
        },
    }
}

/// After a report was sent: when the send is confirmed with a message id,
/// registers `record` under it unless a record is there already, and
/// returns the id; otherwise leaves the board as it is.
pub fn register_sent_report(
    state: &mut BotState,
    resp: Result<TgResponse<TgMessageLite>, String>,
    record: VoteRecord,
) -> (r: Result<u64, SendFailure>)
    ensures
        old(state).wf() && record.wf() ==> final(state).wf(),
        r is Ok <==> (call_succeeded(resp) && resp->Ok_0.result is Some),
        r is Ok ==> r->Ok_0 == resp->Ok_0.result->0.message_id,
        r is Ok && !old(state).kbdata@.contains_key(r->Ok_0) ==> final(state).kbdata@
            == old(state).kbdata@.insert(r->Ok_0, record),
        r is Ok && old(state).kbdata@.contains_key(r->Ok_0) ==> final(state).kbdata@
            == old(state).kbdata@,
        r is Err ==> final(state).kbdata@ == old(state).kbdata@,
        final(state).places == old(state).places,
        final(state).fishes == old(state).fishes,
        final(state).cache == old(state).cache,
        final(state).top_ids == old(state).top_ids,
{
    match sent_message_id(resp) {
        Ok(id) => {
            state.register_report(id, record);
            Ok(id)
        },
        Err(e) => Err(e),
    }
}

/// The photos to post as an album after a report: its photos' URLs when
/// albums are enabled and it has at least two, else none.
pub fn report_album(report: &RfReportInfo, publish_albums: bool) -> (r: Option<Vec<String>>)
    ensures
        r is Some <==> (publish_albums && report.photos@.len() >= 2),
        r is Some ==> r->0@.len() == report.photos@.len() && forall|i: int|
            0 <= i < report.photos@.len() ==> #[trigger] r->0@[i] == report.photos@[i].medium_url,
{
    if report.photos.len() < 2 || !publish_albums {
        return None;
    }
    let mut urls: Vec<String> = Vec::new();
    let mut i: usize = 0;
    while i < report.photos.len()
        invariant
            i <= report.photos@.len(),
            urls@.len() == i,
            forall|j: int| 0 <= j < i ==> #[trigger] urls@[j] == report.photos@[j].medium_url,
        decreases report.photos@.len() - i,
    {
        urls.push(report.photos[i].medium_url.clone());
        i = i + 1;
    }
    Some(urls)
}

/// The images to post after an announcement: the given ones, unless there
/// are none.
pub fn announcement_album(images: Option<Vec<String>>) -> (r: Option<Vec<String>>)
    ensures
        r is Some <==> (images is Some && images->0@.len() > 0),
        r is Some ==> r == images,
{
    match images {
        Some(is) => if is.len() > 0 {
            Some(is)
        } else {
            None
        },
        None => None,
    }
}

} // verus!
