use fishbot::bot::{BotState, VoteError, VoteRecord};
use fishbot::fish::{RfFish, RfPlace, RfPlaceInfo};
use fishbot::router::{register_sent_report, SendFailure};
use fishbot::telegram::{TgChat, TgMessageLite, TgResponse};

fn info(id: i32, name: &str) -> RfPlaceInfo {
    RfPlaceInfo {
        name: name.to_string(),
        thumbnail: String::new(),
        featured_image: String::new(),
        payment_str: String::new(),
        payment_info: String::new(),
        rating_str: "--".to_string(),
        votes: 0,
        important: None,
        area_str: None,
        hours_str: None,
        update_str: None,
        contact_strs: Vec::new(),
        desc_short: String::new(),
        url: format!("https://example.org/places/{}", id),
        id,
    }
}

fn sent(message_id: u64) -> Result<TgResponse<TgMessageLite>, String> {
    Ok(TgResponse {
        ok: true,
        result: Some(TgMessageLite {
            message_id,
            chat: TgChat { id: -100, type_: "channel".to_string(), username: Some("chan".to_string()) },
        }),
        error_code: None,
        description: None,
    })
}

#[test]
fn toggle_on_empty_board_is_not_found() {
    let mut st = BotState::new();
    let r = st.toggle_vote(42, 7);
    assert!(matches!(r, Err(VoteError::NotFound)));
    assert!(st.kbdata.is_empty());
}

#[test]
fn publish_then_toggle_twice() {
    let mut st = BotState::new();
    let url = "https://example.org/reports/5".to_string();
    let r = register_sent_report(&mut st, sent(99), VoteRecord::new(url.clone()));
    assert!(matches!(r, Ok(99)));
    let rec = st.kbdata.get(&99).unwrap();
    assert_eq!(rec.url, url);
    assert!(rec.votes.is_empty());

    let once = st.toggle_vote(99, 7).unwrap();
    assert_eq!(once.votes, vec![7]);
    assert_eq!(once.url, url);
    assert_eq!(st.kbdata.get(&99).unwrap().votes, vec![7]);

    let twice = st.toggle_vote(99, 7).unwrap();
    assert!(twice.votes.is_empty());
    assert!(st.kbdata.get(&99).unwrap().votes.is_empty());
}

#[test]
fn toggle_keeps_other_voters() {
    let mut st = BotState::new();
    st.register_report(1, VoteRecord::new("u".to_string()));
    st.toggle_vote(1, 10).unwrap();
    st.toggle_vote(1, 20).unwrap();
    st.toggle_vote(1, 30).unwrap();
    let r = st.toggle_vote(1, 20).unwrap();
    let mut v = r.votes.clone();
    v.sort();
    assert_eq!(v, vec![10, 30]);
    assert_eq!(r.vote_count(), 2);
}

#[test]
fn toggle_twice_restores_voters() {
    let mut st = BotState::new();
    st.register_report(3, VoteRecord::from_voters("u".to_string(), &vec![1, 2]));
    st.toggle_vote(3, 2).unwrap();
    let r = st.toggle_vote(3, 2).unwrap();
    let mut v = r.votes.clone();
    v.sort();
    assert_eq!(v, vec![1, 2]);
}

#[test]
fn republish_keeps_votes() {
    let mut st = BotState::new();
    assert!(st.register_report(5, VoteRecord::new("a".to_string())));
    st.toggle_vote(5, 1).unwrap();
    let r = register_sent_report(&mut st, sent(5), VoteRecord::new("b".to_string()));
    assert!(matches!(r, Ok(5)));
    let rec = st.kbdata.get(&5).unwrap();
    assert_eq!(rec.url, "a");
    assert_eq!(rec.votes, vec![1]);
}

#[test]
fn failed_send_registers_nothing() {
    let mut st = BotState::new();
    let refused: Result<TgResponse<TgMessageLite>, String> = Ok(TgResponse {
        ok: false,
        result: None,
        error_code: Some(400),
        description: Some("Bad Request".to_string()),
    });
    let r = register_sent_report(&mut st, refused, VoteRecord::new("a".to_string()));
    assert!(matches!(r, Err(SendFailure::Api(Some(ref d))) if d == "Bad Request"));
    let no_msg: Result<TgResponse<TgMessageLite>, String> =
        Ok(TgResponse { ok: true, result: None, error_code: None, description: None });
    let r = register_sent_report(&mut st, no_msg, VoteRecord::new("a".to_string()));
    assert!(matches!(r, Err(SendFailure::NoMessage)));
    let r = register_sent_report(&mut st, Err("timeout".to_string()), VoteRecord::new("a".to_string()));
    assert!(matches!(r, Err(SendFailure::Transport(ref e)) if e == "timeout"));
    assert!(st.kbdata.is_empty());
}

#[test]
fn reload_clears_fifty_cached_places() {
    let mut st = BotState::new();
    for id in 0..50 {
        st.store_info(id, if id % 2 == 0 { Some(info(id, "x")) } else { None });
    }
    assert_eq!(st.cache.len(), 50);
    st.set_top_ids(vec![4, 2]);
    st.register_report(8, VoteRecord::new("r".to_string()));
    let places = vec![RfPlace { name: "Black River".to_string(), id: 3 }];
    let fishes = vec![RfFish { id: 1, name: "Щука".to_string() }];
    st.reload_places(places, fishes);
    assert!(st.cache.is_empty());
    for id in 0..50 {
        assert!(st.cached_info(id).is_none());
    }
    assert_eq!(st.places.len(), 1);
    assert_eq!(st.places[0].id, 3);
    assert_eq!(st.fishes[0].name, "Щука");
    assert_eq!(st.top_ids, vec![4, 2]);
    assert!(st.kbdata.contains_key(&8));
}

#[test]
fn stored_outcome_is_served_from_cache() {
    let mut st = BotState::new();
    assert!(st.cached_info(7).is_none());
    st.store_info(7, None);
    assert!(matches!(st.cached_info(7), Some(None)));
    st.store_info(8, Some(info(8, "Lake")));
    match st.cached_info(8) {
        Some(Some(p)) => assert_eq!(p.name, "Lake"),
        _ => panic!("place 8 should be cached"),
    }
    assert!(matches!(st.cached_info(7), Some(None)));
}

#[test]
fn load_votes_replaces_board_and_dedups() {
    let mut st = BotState::new();
    st.register_report(1, VoteRecord::new("old".to_string()));
    let entries = vec![
        (10u64, VoteRecord { url: "a".to_string(), votes: vec![1, 2, 1, 3, 2] }),
        (11u64, VoteRecord { url: "b".to_string(), votes: vec![] }),
        (10u64, VoteRecord { url: "c".to_string(), votes: vec![5, 5] }),
    ];
    st.load_votes(&entries);
    assert_eq!(st.kbdata.len(), 2);
    assert!(!st.kbdata.contains_key(&1));
    assert_eq!(st.kbdata.get(&10).unwrap().url, "c");
    assert_eq!(st.kbdata.get(&10).unwrap().votes, vec![5]);
    assert!(st.kbdata.get(&11).unwrap().votes.is_empty());
}

#[test]
fn from_voters_keeps_first_occurrences() {
    let r = VoteRecord::from_voters("x".to_string(), &vec![4, 1, 4, 2, 1]);
    assert_eq!(r.votes, vec![4, 1, 2]);
    assert_eq!(r.vote_count(), 3);
    let d = r.duplicate();
    assert_eq!(d.votes, r.votes);
    assert_eq!(d.url, "x");
}
