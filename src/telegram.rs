use vstd::prelude::*;

use crate::text::same_text;

verus! {

/// A chat as the Bot API describes it.
#[derive(Clone, Debug)]
pub struct TgChat {
    pub id: i64,
    pub type_: String,
    pub username: Option<String>,
}

/// The envelope of every Bot API answer.
#[derive(Clone, Debug)]
pub struct TgResponse<R> {
    pub ok: bool,
    pub result: Option<R>,
    pub error_code: Option<i32>,
    pub description: Option<String>,
}

/// A Telegram user.
#[derive(Clone, Debug)]
pub struct TgUser {
    pub id: i64,
    pub first_name: String,
    pub last_name: Option<String>,
    pub username: Option<String>,
}

/// A marked span of a message text (a command, a mention, ...).
#[derive(Clone, Debug)]
pub struct TgMessageEntity {
    pub type_: String,
    pub offset: usize,
    pub length: usize,
}

/// An incoming message.
#[derive(Clone, Debug)]
pub struct TgMessage {
    pub message_id: u64,
    pub from: Option<TgUser>,
    pub date: u64,
    pub chat: TgChat,
    pub text: Option<String>,
    pub entities: Option<Vec<TgMessageEntity>>,
}

/// The identifying part of a message: its id and its chat.
#[derive(Clone, Debug)]
pub struct TgMessageLite {
    pub message_id: u64,
    pub chat: TgChat,
}

/// An inbound update; which of its optional parts are present decides how
/// it is handled.
#[derive(Clone, Debug)]
pub struct TgUpdate {
    pub update_id: u64,
    pub message: Option<TgMessage>,
    pub callback_query: Option<TgCallbackQuery>,
    pub inline_query: Option<TgInlineQuery>,
    pub chosen_inline_result: Option<TgChosenInlineResult>,
}

/// A search typed by a user in inline mode.
#[derive(Clone, Debug)]
pub struct TgInlineQuery {
    pub id: String,
    pub from: TgUser,
    pub query: String,
    pub offset: String,
}

/// A press on a callback button.
#[derive(Clone, Debug)]
pub struct TgCallbackQuery {
    pub id: String,
    pub from: TgUser,
    pub message: Option<TgMessageLite>,
    pub data: Option<String>,
}

/// A chat named by its numeric id or by its `@username`.
#[derive(Clone, Debug)]
pub enum TgChatId {
    Integer(i64),
    Username(String),
}

/// The body of a `sendMessage` call.
#[derive(Debug)]
pub struct TgSendMsg {
    pub chat_id: TgChatId,
    pub text: String,
    pub parse_mode: Option<String>,
    pub reply_to_message_id: Option<u64>,
    pub reply_markup: Option<TgInlineKeyboardMarkup>,
}

/// One photo of an album.
#[derive(Clone, Debug)]
pub struct TgInputMediaPhoto {
    pub type_: String,
    pub media: String,
}

/// The body of a `sendMediaGroup` call.
#[derive(Debug)]
pub struct TgSendMediaGroup {
    pub chat_id: TgChatId,
    pub media: Vec<TgInputMediaPhoto>,
}

/// The body of an `editMessageReplyMarkup` call.
#[derive(Debug)]
pub struct TgEditMsgReplyMarkup {
    pub chat_id: TgChatId,
    pub message_id: u64,
    pub reply_markup: Option<TgInlineKeyboardMarkup>,
}

/// The body of an `answerCallbackQuery` call.
#[derive(Debug)]
pub struct TgAnswerCBQ {
    pub callback_query_id: String,
    pub text: Option<String>,
}

/// Rows of buttons shown under a message.
#[derive(Debug)]
pub struct TgInlineKeyboardMarkup {
    pub inline_keyboard: Vec<Vec<TgInlineKeyboardButton>>,
}

/// A button that either sends callback data or opens a URL.
#[derive(Debug)]
pub enum TgInlineKeyboardButton {
    Cb { text: String, callback_data: String },
    Url { text: String, url: String },
}

/// The body of an `answerInlineQuery` call.
#[derive(Debug)]
pub struct TgAnswerInlineQuery {
    pub inline_query_id: String,
    pub results: Vec<TgInlineQueryResult>,
}

/// One article offered as an answer to an inline query.
#[derive(Debug)]
pub struct TgInlineQueryResult {
    pub type_: String,
    pub id: String,
    pub title: String,
    pub description: String,
    pub url: String,
    pub hide_url: bool,
    pub thumb_url: String,
    pub reply_markup: Option<TgInlineKeyboardMarkup>,
    pub input_message_content: TgInputMessageContent,
}

/// The message that choosing an inline result posts.
#[derive(Debug)]
pub struct TgInputMessageContent {
    pub message_text: String,
    pub parse_mode: String,
    pub disable_web_page_preview: bool,
}

/// Notice that a user picked one of the inline results.
#[derive(Clone, Debug)]
pub struct TgChosenInlineResult {
    pub result_id: String,
    pub from: TgUser,
    pub inline_message_id: Option<String>,
    pub query: String,
}

impl TgChat {
    /// Whether this is a one-to-one chat with a user.
    pub fn is_private(&self) -> (r: bool)
        ensures
            r == (self.type_@ == "private"@),
    {
        same_text(&self.type_, "private")
    }
}

impl TgMessageEntity {
    /// Whether this span is a bot command.
    pub fn is_command(&self) -> (r: bool)
        ensures
            r == (self.type_@ == "bot_command"@),
    {
        same_text(&self.type_, "bot_command")
    }
}

impl TgInputMediaPhoto {
    /// A photo of an album, taken from `url`.
    pub fn new(url: &str) -> (r: Self)
        ensures
            r.type_@ == "photo"@,
            r.media@ == url@,
    {
        TgInputMediaPhoto { type_: String::from_str("photo"), media: String::from_str(url) }
    }
}

impl TgInlineKeyboardMarkup {
    /// A keyboard of one empty row.
    pub fn new() -> (r: Self)
        ensures
            r.inline_keyboard@.len() == 1,
            r.inline_keyboard@[0]@.len() == 0,
    {
        TgInlineKeyboardMarkup { inline_keyboard: vec![Vec::new()] }
    }

    /// A keyboard of one button that opens `url`.
    pub fn url_button(text: String, url: String) -> (r: Self)
        ensures
            r.inline_keyboard@.len() == 1,
            r.inline_keyboard@[0]@ == seq![TgInlineKeyboardButton::Url { text, url }],
            keyboard_view(r) == seq![seq![(false, text@, url@)]],
    {
        let row = vec![TgInlineKeyboardButton::Url { text, url }];
        let r = TgInlineKeyboardMarkup { inline_keyboard: vec![row] };
        proof {
            assert(keyboard_view(r)[0] =~= seq![(false, text@, url@)]);
            assert(keyboard_view(r) =~= seq![seq![(false, text@, url@)]]);
        }
        r
    }
}

/// How a user is named in the log: `@username` when there is one, else the
/// first name and the initial of the last name (`?` when that is empty),
/// else the first name alone.
pub open spec fn display_name(u: TgUser) -> Seq<char> {
    match u.username {
        Some(n) => "@"@ + n@,
        None => match u.last_name {
            Some(l) => u.first_name@ + " "@ + (if l@.len() > 0 {
                seq![l@[0]]
            } else {
                "?"@
            }),
            None => u.first_name@,
        },
    }
}

/// Names a user for the log.
pub fn make_name(user: &TgUser) -> (r: String)
    ensures
        r@ == display_name(*user),
{
    let mut res = String::new();
    match &user.username {
        Some(u) => {
            res.append("@");
            res.append(u.as_str());
        },
        None => {
            res.append(user.first_name.as_str());
            match &user.last_name {
                Some(l) => {
                    res.append(" ");
                    let n = l.as_str().unicode_len();
                    if n > 0 {
                        let initial = l.as_str().substring_char(0, 1);
                        proof {
                            assert(initial@ =~= seq![l@[0]]);
                        }
                        res.append(initial);
                    } else {
                        res.append("?");
                    }
                },
                None => {},
            }
        },
    }
    res
}

/// The Bot API's address.
pub const BASEURL: &'static str = "https://api.telegram.org";

/// The most photos one album may hold.
pub const MAX_ALBUM_SIZE: usize = 10;

/// The address of Bot API method `method` (written with its leading `/`)
/// for the bot with token `token`.
pub fn method_url(token: &str, method: &str) -> (r: String)
    ensures
        r@ == BASEURL@ + "/bot"@ + token@ + method@,
{
    let mut url = String::from_str(BASEURL);
    url.append("/bot");
    url.append(token);
    url.append(method);
    url
}

/// The photos of an album made of `urls`, at most `MAX_ALBUM_SIZE` of them,
/// in order.
pub fn album_media(urls: &Vec<String>) -> (r: Vec<TgInputMediaPhoto>)
    ensures
        r@.len() == if urls@.len() <= MAX_ALBUM_SIZE {
            urls@.len()
        } else {
            MAX_ALBUM_SIZE as nat
        },
        forall|i: int|
            0 <= i < r@.len() ==> (#[trigger] r@[i]).type_@ == "photo"@ && r@[i].media@ == urls@[i]@,
{
    let mut media: Vec<TgInputMediaPhoto> = Vec::new();
    let mut i: usize = 0;
    while i < urls.len() && i < MAX_ALBUM_SIZE
        invariant
            i <= urls@.len(),
            i <= MAX_ALBUM_SIZE,
            media@.len() == i,
            forall|j: int|
                0 <= j < i ==> (#[trigger] media@[j]).type_@ == "photo"@ && media@[j].media@
                    == urls@[j]@,
        decreases urls@.len() - i,
    {
        media.push(TgInputMediaPhoto::new(urls[i].as_str()));
        i = i + 1;
    }
    media
}

/// What a button is: whether it sends callback data, its label, and its
/// callback data or URL.
pub open spec fn button_view(b: TgInlineKeyboardButton) -> (bool, Seq<char>, Seq<char>) {
    match b {
        TgInlineKeyboardButton::Cb { text, callback_data } => (true, text@, callback_data@),
        TgInlineKeyboardButton::Url { text, url } => (false, text@, url@),
    }
}

/// The rows of a keyboard, each button by what it is.
pub open spec fn keyboard_view(k: TgInlineKeyboardMarkup) -> Seq<Seq<(bool, Seq<char>, Seq<char>)>> {
    k.inline_keyboard@.map_values(
        |row: Vec<TgInlineKeyboardButton>| row@.map_values(|b: TgInlineKeyboardButton| button_view(b)),
    )
}

impl TgSendMsg {
    /// A plain-text message.
    pub fn plain(text: String, chat_id: TgChatId) -> (r: Self)
        ensures
            r.text == text,
            r.chat_id == chat_id,
            r.parse_mode is None,
            r.reply_to_message_id is None,
            r.reply_markup is None,
    {
        TgSendMsg { chat_id, text, parse_mode: None, reply_to_message_id: None, reply_markup: None }
    }

    /// A message in HTML, with an optional keyboard.
    pub fn html(text: String, chat_id: TgChatId, kb: Option<TgInlineKeyboardMarkup>) -> (r: Self)
        ensures
            r.text == text,
            r.chat_id == chat_id,
            r.parse_mode is Some && r.parse_mode->0@ == "HTML"@,
            r.reply_to_message_id is None,
            r.reply_markup == kb,
    {
        TgSendMsg {
            chat_id,
            text,
            parse_mode: Some(String::from_str("HTML")),
            reply_to_message_id: None,
            reply_markup: kb,
        }
    }

    /// A message in Markdown, with an optional keyboard.
    pub fn markdown(text: String, chat_id: TgChatId, kb: Option<TgInlineKeyboardMarkup>) -> (r: Self)
        ensures
            r.text == text,
            r.chat_id == chat_id,
            r.parse_mode is Some && r.parse_mode->0@ == "Markdown"@,
            r.reply_to_message_id is None,
            r.reply_markup == kb,
    {
        TgSendMsg {
            chat_id,
            text,
            parse_mode: Some(String::from_str("Markdown")),
            reply_to_message_id: None,
            reply_markup: kb,
        }
    }

    /// A plain-text reply to message `mid`.
    pub fn reply(text: String, mid: u64, chat_id: TgChatId) -> (r: Self)
        ensures
            r.text == text,
            r.chat_id == chat_id,
            r.parse_mode is None,
            r.reply_to_message_id == Some(mid),
            r.reply_markup is None,
    {
        TgSendMsg { chat_id, text, parse_mode: None, reply_to_message_id: Some(mid), reply_markup: None }
    }

    /// A plain-text message with a keyboard.
    pub fn with_keyboard(text: String, kb: TgInlineKeyboardMarkup, chat_id: TgChatId) -> (r: Self)
        ensures
            r.text == text,
            r.chat_id == chat_id,
            r.parse_mode is None,
            r.reply_to_message_id is None,
            r.reply_markup == Some(kb),
    {
        TgSendMsg { chat_id, text, parse_mode: None, reply_to_message_id: None, reply_markup: Some(kb) }
    }
}

impl TgEditMsgReplyMarkup {
    /// Replaces the keyboard of message `message_id`.
    pub fn new(message_id: u64, kb: TgInlineKeyboardMarkup, chat_id: TgChatId) -> (r: Self)
        ensures
            r.message_id == message_id,
            r.chat_id == chat_id,
            r.reply_markup == Some(kb),
    {
        TgEditMsgReplyMarkup { chat_id, message_id, reply_markup: Some(kb) }
    }
}

impl TgAnswerCBQ {
    /// Answers a button press, showing `text` to the user when given.
    pub fn new(callback_query_id: String, text: Option<String>) -> (r: Self)
        ensures
            r.callback_query_id == callback_query_id,
            r.text == text,
    {
        TgAnswerCBQ { callback_query_id, text }
    }
}

impl TgSendMediaGroup {
    /// An album of the photos at `urls`, at most `MAX_ALBUM_SIZE` of them.
    pub fn new(urls: &Vec<String>, chat_id: TgChatId) -> (r: Self)
        ensures
            r.chat_id == chat_id,
            r.media@.len() == if urls@.len() <= MAX_ALBUM_SIZE {
                urls@.len()
            } else {
                MAX_ALBUM_SIZE as nat
            },
            forall|i: int|
                0 <= i < r.media@.len() ==> (#[trigger] r.media@[i]).type_@ == "photo"@
                    && r.media@[i].media@ == urls@[i]@,
    {
        TgSendMediaGroup { chat_id, media: album_media(urls) }
    }
}

} // verus!
