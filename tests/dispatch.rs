use fishbot::bot::{VoteError, VoteRecord};
use fishbot::fish::{RfReportInfo, RfReportPhoto};
use fishbot::router::{
    announcement_album, channel_chat_id, classify_update, make_report_kb, report_album, response_status,
    sent_message_id, vote_accepted, vote_answer, AdminStatus, SendFailure, UpdateRoute,
};
use fishbot::telegram::{
    album_media, make_name, method_url, TgAnswerCBQ, TgCallbackQuery, TgChat, TgChatId,
    TgChosenInlineResult, TgEditMsgReplyMarkup, TgInlineKeyboardButton, TgInlineKeyboardMarkup,
    TgInlineQuery, TgInputMediaPhoto, TgMessage, TgMessageEntity, TgMessageLite, TgResponse,
    TgSendMediaGroup, TgSendMsg, TgUpdate, TgUser,
};

fn user(username: Option<&str>, last: Option<&str>) -> TgUser {
    TgUser {
        id: 7,
        first_name: "Олег".to_string(),
        last_name: last.map(|s| s.to_string()),
        username: username.map(|s| s.to_string()),
    }
}

fn chat(username: Option<&str>) -> TgChat {
    TgChat { id: -100, type_: "channel".to_string(), username: username.map(|s| s.to_string()) }
}

fn empty_update() -> TgUpdate {
    TgUpdate { update_id: 1, message: None, callback_query: None, inline_query: None, chosen_inline_result: None }
}

fn callback(data: Option<&str>, with_message: bool) -> TgCallbackQuery {
    TgCallbackQuery {
        id: "cb1".to_string(),
        from: user(None, None),
        message: if with_message { Some(TgMessageLite { message_id: 99, chat: chat(Some("chan")) }) } else { None },
        data: data.map(|s| s.to_string()),
    }
}

fn inline(query: &str) -> TgInlineQuery {
    TgInlineQuery { id: "iq1".to_string(), from: user(None, None), query: query.to_string(), offset: String::new() }
}

fn chosen(imi: Option<&str>) -> TgChosenInlineResult {
    TgChosenInlineResult {
        result_id: "iqid_1".to_string(),
        from: user(None, None),
        inline_message_id: imi.map(|s| s.to_string()),
        query: "dni".to_string(),
    }
}

fn message() -> TgMessage {
    TgMessage { message_id: 5, from: None, date: 0, chat: chat(None), text: Some("/start".to_string()), entities: None }
}

#[test]
fn chosen_result_wins_over_other_parts() {
    let mut u = empty_update();
    u.chosen_inline_result = Some(chosen(Some("imi9")));
    u.callback_query = Some(callback(Some("u"), true));
    u.inline_query = Some(inline("x"));
    match classify_update(u) {
        UpdateRoute::ChosenResult { result_id, inline_message_id } => {
            assert_eq!(result_id, "iqid_1");
            assert_eq!(inline_message_id, "imi9");
        }
        other => panic!("unexpected route {:?}", other),
    }
}

#[test]
fn callback_before_inline_query() {
    let mut u = empty_update();
    u.chosen_inline_result = Some(chosen(None));
    u.callback_query = Some(callback(Some("u"), true));
    match classify_update(u) {
        UpdateRoute::CallbackVote { callback_id, from, message, data } => {
            assert_eq!(callback_id, "cb1");
            assert_eq!(from.id, 7);
            assert_eq!(message.message_id, 99);
            assert_eq!(data, "u");
        }
        other => panic!("unexpected route {:?}", other),
    }
}

#[test]
fn inline_query_route() {
    let mut u = empty_update();
    u.inline_query = Some(inline("dni"));
    match classify_update(u) {
        UpdateRoute::InlineQuery { query_id, query, .. } => {
            assert_eq!(query_id, "iq1");
            assert_eq!(query, "dni");
        }
        other => panic!("unexpected route {:?}", other),
    }
}

#[test]
fn other_shapes_are_unsupported() {
    assert!(matches!(classify_update(empty_update()), UpdateRoute::Unsupported(_)));
    let mut u = empty_update();
    u.callback_query = Some(callback(None, true));
    assert!(matches!(classify_update(u), UpdateRoute::Unsupported(_)));
    let mut u = empty_update();
    u.callback_query = Some(callback(Some("u"), false));
    assert!(matches!(classify_update(u), UpdateRoute::Unsupported(_)));
    let mut u = empty_update();
    u.message = Some(message());
    u.inline_query = Some(inline("x"));
    assert!(matches!(classify_update(u), UpdateRoute::Unsupported(_)));
    let mut u = empty_update();
    u.callback_query = Some(callback(Some("u"), true));
    u.inline_query = Some(inline("x"));
    match classify_update(u) {
        UpdateRoute::Unsupported(back) => assert_eq!(back.update_id, 1),
        other => panic!("unexpected route {:?}", other),
    }
}

#[test]
fn votes_only_from_configured_channel() {
    assert!(vote_accepted(&chat(Some("chan")), &"u".to_string(), "@chan"));
    assert!(!vote_accepted(&chat(Some("other")), &"u".to_string(), "@chan"));
    assert!(!vote_accepted(&chat(Some("chan")), &"d".to_string(), "@chan"));
    assert!(!vote_accepted(&chat(None), &"u".to_string(), "@chan"));
    assert!(!vote_accepted(&chat(Some("")), &"u".to_string(), ""));
    assert!(vote_accepted(&chat(Some("")), &"u".to_string(), "@"));
}

#[test]
fn report_keyboard_shows_vote_count_and_link() {
    let rec = VoteRecord::from_voters("https://e/r/5".to_string(), &vec![1, 2, 3]);
    let kb = make_report_kb(&rec);
    assert_eq!(kb.inline_keyboard.len(), 1);
    assert_eq!(kb.inline_keyboard[0].len(), 2);
    match &kb.inline_keyboard[0][0] {
        TgInlineKeyboardButton::Cb { text, callback_data } => {
            assert_eq!(text, "\u{1F44D} 3");
            assert_eq!(callback_data, "u");
        }
        _ => panic!("expected the vote button first"),
    }
    match &kb.inline_keyboard[0][1] {
        TgInlineKeyboardButton::Url { text, url } => {
            assert_eq!(text, "переглянути на вебсайті");
            assert_eq!(url, "https://e/r/5");
        }
        _ => panic!("expected the link second"),
    }
    let kb0 = make_report_kb(&VoteRecord::new("x".to_string()));
    assert!(matches!(&kb0.inline_keyboard[0][0], TgInlineKeyboardButton::Cb { text, .. } if text == "\u{1F44D} 0"));
}

#[test]
fn voter_answers() {
    let ok: Result<VoteRecord, VoteError> = Ok(VoteRecord::new("x".to_string()));
    assert_eq!(vote_answer(&ok).as_deref(), Some("ваш голос враховано"));
    let nf: Result<VoteRecord, VoteError> = Err(VoteError::NotFound);
    assert!(vote_answer(&nf).is_none());
    match channel_chat_id(&"chan".to_string()) {
        TgChatId::Username(n) => assert_eq!(n, "@chan"),
        _ => panic!("expected a username"),
    }
}

#[test]
fn statuses_of_api_calls() {
    let ok: Result<TgResponse<bool>, String> =
        Ok(TgResponse { ok: true, result: Some(true), error_code: None, description: None });
    assert_eq!(response_status(&ok), AdminStatus::Success);
    let refused: Result<TgResponse<bool>, String> =
        Ok(TgResponse { ok: false, result: None, error_code: Some(400), description: None });
    assert_eq!(response_status(&refused), AdminStatus::InternalServerError);
    let failed: Result<TgResponse<bool>, String> = Err("down".to_string());
    assert_eq!(response_status(&failed), AdminStatus::InternalServerError);
}

#[test]
fn sent_message_ids() {
    let ok = Ok(TgResponse {
        ok: true,
        result: Some(TgMessageLite { message_id: 31, chat: chat(None) }),
        error_code: None,
        description: None,
    });
    assert!(matches!(sent_message_id(ok), Ok(31)));
    let none = Ok(TgResponse { ok: true, result: None, error_code: None, description: None });
    assert!(matches!(sent_message_id(none), Err(SendFailure::NoMessage)));
}

fn report_with_photos(n: usize) -> RfReportInfo {
    RfReportInfo {
        id: 1,
        title: String::new(),
        short_description: String::new(),
        url: String::new(),
        place: None,
        photos: (0..n).map(|i| RfReportPhoto { medium_url: format!("p{}", i) }).collect(),
        start_at: String::new(),
        rating: None,
        fishing_types: Vec::new(),
        featured_image: None,
        report_fishes: Vec::new(),
    }
}

#[test]
fn albums_after_reports_and_announcements() {
    assert!(report_album(&report_with_photos(1), true).is_none());
    assert!(report_album(&report_with_photos(3), false).is_none());
    assert_eq!(report_album(&report_with_photos(2), true), Some(vec!["p0".to_string(), "p1".to_string()]));
    assert!(announcement_album(None).is_none());
    assert!(announcement_album(Some(Vec::new())).is_none());
    assert_eq!(announcement_album(Some(vec!["a".to_string()])), Some(vec!["a".to_string()]));
}

#[test]
fn album_keeps_at_most_ten_photos() {
    let urls: Vec<String> = (0..12).map(|i| format!("u{}", i)).collect();
    let media = album_media(&urls);
    assert_eq!(media.len(), 10);
    assert_eq!(media[0].type_, "photo");
    assert_eq!(media[9].media, "u9");
    let group = TgSendMediaGroup::new(&urls[..3].to_vec(), TgChatId::Integer(5));
    assert_eq!(group.media.len(), 3);
    assert!(matches!(group.chat_id, TgChatId::Integer(5)));
    let p = TgInputMediaPhoto::new("x.jpg");
    assert_eq!(p.type_, "photo");
    assert_eq!(p.media, "x.jpg");
}

#[test]
fn method_urls() {
    assert_eq!(method_url("123:abc", "/sendMessage"), "https://api.telegram.org/bot123:abc/sendMessage");
}

#[test]
fn message_bodies() {
    let m = TgSendMsg::plain("hi".to_string(), TgChatId::Integer(1));
    assert!(m.parse_mode.is_none() && m.reply_markup.is_none() && m.reply_to_message_id.is_none());
    let m = TgSendMsg::html("hi".to_string(), TgChatId::Integer(1), Some(TgInlineKeyboardMarkup::new()));
    assert_eq!(m.parse_mode.as_deref(), Some("HTML"));
    assert!(m.reply_markup.is_some());
    let m = TgSendMsg::markdown("hi".to_string(), TgChatId::Integer(1), None);
    assert_eq!(m.parse_mode.as_deref(), Some("Markdown"));
    let m = TgSendMsg::reply("hi".to_string(), 4, TgChatId::Integer(1));
    assert_eq!(m.reply_to_message_id, Some(4));
    let m = TgSendMsg::with_keyboard("hi".to_string(), TgInlineKeyboardMarkup::new(), TgChatId::Integer(1));
    assert!(m.reply_markup.is_some());
    let e = TgEditMsgReplyMarkup::new(8, TgInlineKeyboardMarkup::new(), TgChatId::Username("@c".to_string()));
    assert_eq!(e.message_id, 8);
    let a = TgAnswerCBQ::new("cb".to_string(), None);
    assert_eq!(a.callback_query_id, "cb");
    assert!(a.text.is_none());
}

#[test]
fn keyboards() {
    let k = TgInlineKeyboardMarkup::new();
    assert_eq!(k.inline_keyboard.len(), 1);
    assert!(k.inline_keyboard[0].is_empty());
    let k = TgInlineKeyboardMarkup::url_button("go".to_string(), "https://e".to_string());
    assert!(matches!(&k.inline_keyboard[0][0], TgInlineKeyboardButton::Url { text, url } if text == "go" && url == "https://e"));
}

#[test]
fn user_names() {
    assert_eq!(make_name(&user(Some("oleh"), Some("Петренко"))), "@oleh");
    assert_eq!(make_name(&user(None, Some("Петренко"))), "Олег П");
    assert_eq!(make_name(&user(None, Some(""))), "Олег ?");
    assert_eq!(make_name(&user(None, None)), "Олег");
}

#[test]
fn chat_and_entity_kinds() {
    assert!(TgChat { id: 1, type_: "private".to_string(), username: None }.is_private());
    assert!(!chat(None).is_private());
    assert!(TgMessageEntity { type_: "bot_command".to_string(), offset: 0, length: 6 }.is_command());
    assert!(!TgMessageEntity { type_: "mention".to_string(), offset: 0, length: 6 }.is_command());
}
