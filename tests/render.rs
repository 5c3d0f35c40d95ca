use fishbot::fish::{
    build_fish_entry, get_place_text, get_report_text, iso_date_text, normalize_place_info, RfFish,
    RfFishReport, RfFishingType, RfPlaceContact, RfPlaceInfo, RfPlaceInfoRaw, RfReportInfo, RfReportPhoto,
    TmDate,
};
use fishbot::text::decimal_text;

fn raw() -> RfPlaceInfoRaw {
    RfPlaceInfoRaw {
        name: "Озеро".to_string(),
        url: "https://e/p/1".to_string(),
        notes: None,
        address: None,
        rating_avg: None,
        rating_votes: None,
        place_contacts: Vec::new(),
        thumbnail: None,
        featured_image: None,
        permit: None,
        area: None,
        time_to_fish: None,
        price_notes: None,
        info_updated_at: None,
        id: 1,
    }
}

fn sample_info() -> RfPlaceInfo {
    RfPlaceInfo {
        name: "Озеро".to_string(),
        thumbnail: String::new(),
        featured_image: "https://img/f.jpg".to_string(),
        payment_str: "Платно".to_string(),
        payment_info: "100 грн".to_string(),
        rating_str: "4.5".to_string(),
        votes: 12,
        important: Some("Увага".to_string()),
        area_str: Some("2Га".to_string()),
        hours_str: Some("вдень".to_string()),
        update_str: Some("2018-03-05".to_string()),
        contact_strs: vec!["+380501234567 Іван".to_string()],
        desc_short: String::new(),
        url: "https://e/p/1".to_string(),
        id: 1,
    }
}

#[test]
fn decimal_text_renders_integers() {
    assert_eq!(decimal_text(0), "0");
    assert_eq!(decimal_text(7), "7");
    assert_eq!(decimal_text(1900), "1900");
    assert_eq!(decimal_text(-45), "-45");
    assert_eq!(decimal_text(i64::MIN), "-9223372036854775808");
    assert_eq!(decimal_text(i64::MAX), "9223372036854775807");
}

#[test]
fn normalize_fills_defaults() {
    let p = normalize_place_info(raw());
    assert_eq!(p.name, "Озеро");
    assert_eq!(p.url, "https://e/p/1");
    assert_eq!(p.id, 1);
    assert_eq!(p.thumbnail, "");
    assert_eq!(p.featured_image, "");
    assert_eq!(p.payment_str, "Умови невідомі");
    assert_eq!(p.payment_info, "");
    assert_eq!(p.rating_str, "--");
    assert_eq!(p.votes, 0);
    assert!(p.important.is_none());
    assert!(p.area_str.is_none());
    assert!(p.hours_str.is_none());
    assert!(p.update_str.is_none());
    assert!(p.contact_strs.is_empty());
    assert_eq!(p.desc_short, "");
}

#[test]
fn normalize_puts_fields_into_words() {
    let mut r = raw();
    r.notes = Some("Увага".to_string());
    r.address = Some("Рівне".to_string());
    r.rating_avg = Some("4.5".to_string());
    r.rating_votes = Some(12);
    r.thumbnail = Some("t.jpg".to_string());
    r.featured_image = Some("f.jpg".to_string());
    r.permit = Some("free".to_string());
    r.area = Some("2.5".to_string());
    r.time_to_fish = Some("full_day".to_string());
    r.price_notes = Some("100 грн".to_string());
    r.info_updated_at = Some("2017-10-12T09:52:05.000+03:00".to_string());
    r.place_contacts = vec![
        RfPlaceContact { name: "Іван".to_string(), phone: "380501234567".to_string() },
        RfPlaceContact { name: "Петро".to_string(), phone: "0501234567".to_string() },
    ];
    let p = normalize_place_info(r);
    assert_eq!(p.important.as_deref(), Some("Увага"));
    assert_eq!(p.desc_short, "Рівне");
    assert_eq!(p.rating_str, "4.5");
    assert_eq!(p.votes, 12);
    assert_eq!(p.thumbnail, "t.jpg");
    assert_eq!(p.featured_image, "f.jpg");
    assert_eq!(p.payment_str, "Безкоштовно");
    assert_eq!(p.payment_info, "100 грн");
    assert_eq!(p.area_str.as_deref(), Some("2.5Га"));
    assert_eq!(p.hours_str.as_deref(), Some("цілодобово"));
    assert_eq!(p.update_str.as_deref(), Some("2017-10-12"));
    assert_eq!(p.contact_strs, vec!["+380501234567 Іван".to_string(), "0501234567 Петро".to_string()]);
}

#[test]
fn normalize_permits_and_hours() {
    let cases = [
        ("paid", "Платно"),
        ("free", "Безкоштовно"),
        ("prohibited", "Риболовля заборонена"),
        ("unknown", "Умови невідомі"),
    ];
    for (permit, words) in cases.iter() {
        let mut r = raw();
        r.permit = Some(permit.to_string());
        assert_eq!(normalize_place_info(r).payment_str, *words);
    }
    let mut r = raw();
    r.time_to_fish = Some("day_only".to_string());
    assert_eq!(normalize_place_info(r).hours_str.as_deref(), Some("вдень"));
    let mut r = raw();
    r.time_to_fish = Some("night".to_string());
    assert!(normalize_place_info(r).hours_str.is_none());
}

#[test]
fn normalize_drops_empty_notes_and_bad_dates() {
    let mut r = raw();
    r.notes = Some(String::new());
    r.info_updated_at = Some("yesterday".to_string());
    let p = normalize_place_info(r);
    assert!(p.important.is_none());
    assert!(p.update_str.is_none());
}

#[test]
fn iso_date_pads_month_and_day() {
    let d = TmDate { tm_year: 118, tm_mon: 2, tm_mday: 5, tm_wday: 0 };
    assert_eq!(iso_date_text(d).as_deref(), Some("2018-03-05"));
    let d = TmDate { tm_year: 99, tm_mon: 11, tm_mday: 31, tm_wday: 6 };
    assert_eq!(iso_date_text(d).as_deref(), Some("1999-12-31"));
    let d = TmDate { tm_year: 118, tm_mon: 12, tm_mday: 5, tm_wday: 0 };
    assert!(iso_date_text(d).is_none());
    let d = TmDate { tm_year: 118, tm_mon: 1, tm_mday: 5, tm_wday: 7 };
    assert!(iso_date_text(d).is_none());
    let d = TmDate { tm_year: 2020, tm_mon: 0, tm_mday: -3, tm_wday: 1 };
    assert_eq!(iso_date_text(d).as_deref(), Some("3920-01--3"));
    let d = TmDate { tm_year: i32::MAX, tm_mon: 0, tm_mday: 1, tm_wday: 0 };
    assert!(iso_date_text(d).is_none());
}

#[test]
fn place_text_lays_out_every_line() {
    let expected = "<b>Озеро</b><a href=\"https://img/f.jpg\">&#160;</a>\n\
&#x2B50; 4.5 <a href=\"https://e/p/1/reports\">(звітів: 12)</a>\n\
&#x26A0; Увага\n\n\
&#x25FB; 2Га &#x23F0; вдень &#x1F504; 2018-03-05\n\
&#x1F4DE; +380501234567 Іван\n\n\
&#x1F4B2; Платно\n100 грн";
    assert_eq!(get_place_text(&sample_info()), expected);
}

#[test]
fn place_text_without_optional_parts() {
    let mut p = sample_info();
    p.important = None;
    p.area_str = None;
    p.hours_str = None;
    p.update_str = None;
    p.contact_strs = Vec::new();
    p.payment_info = String::new();
    let expected = "<b>Озеро</b><a href=\"https://img/f.jpg\">&#160;</a>\n\
&#x2B50; 4.5 <a href=\"https://e/p/1/reports\">(звітів: 12)</a>\n\n\n\n\
&#x1F4B2; Платно\n";
    assert_eq!(get_place_text(&p), expected);
}

fn fishes() -> Vec<RfFish> {
    vec![RfFish { id: 1, name: "Короп".to_string() }, RfFish { id: 2, name: "Щука".to_string() }]
}

fn catch(fish_id: u32, qty: Option<u32>, weight: Option<&str>, featured: bool, baits: &[&str]) -> RfFishReport {
    RfFishReport {
        fish_id,
        qty,
        weight: weight.map(|w| w.to_string()),
        featured,
        baits: baits.iter().map(|b| b.to_string()).collect(),
    }
}

#[test]
fn fish_entry_lines() {
    let f = fishes();
    assert_eq!(
        build_fish_entry(&catch(2, Some(3), Some("1.5"), true, &["черв'як", "кукурудза"]), &f),
        "Щука: 3шт, 1.5кг &#x1F3C6 (черв'як, кукурудза)"
    );
    assert_eq!(build_fish_entry(&catch(1, None, None, false, &[]), &f), "Короп");
    assert_eq!(build_fish_entry(&catch(9, Some(1), None, false, &[]), &f), "?: 1шт");
    assert_eq!(build_fish_entry(&catch(1, None, Some("2"), false, &["хліб"]), &f), "Короп: 2кг (хліб)");
}

#[test]
fn report_text_sorts_catches_and_trims_description() {
    let report = RfReportInfo {
        id: 5,
        title: "Улов".to_string(),
        short_description: "  Гарна рибалка \n".to_string(),
        url: "https://e/r/5".to_string(),
        place: None,
        photos: vec![RfReportPhoto { medium_url: "m1".to_string() }],
        start_at: "2018-03-05".to_string(),
        rating: Some(5),
        fishing_types: vec![
            RfFishingType { name: "Спінінг".to_string() },
            RfFishingType { name: "Фідер".to_string() },
        ],
        featured_image: Some("https://img/r.jpg".to_string()),
        report_fishes: vec![
            catch(2, Some(3), Some("1.5"), true, &["черв'як", "кукурудза"]),
            catch(1, None, None, false, &[]),
            catch(9, Some(1), None, false, &[]),
        ],
    };
    let place = sample_info();
    let expected = "<b>Улов</b><a href=\"https://img/r.jpg\">&#160;</a>\n\
<b>Місце:</b> <a href=\"https://e/p/1\">Озеро</a> &#x2B50 4.5\n\
<b>Тип рибалки:</b> Спінінг, Фідер\n\
<b>Спіймана риба:</b>\n&#x2022 ?: 1шт\n&#x2022 Короп\n\
&#x2022 Щука: 3шт, 1.5кг &#x1F3C6 (черв'як, кукурудза)\n\n\
<i>Гарна рибалка</i>";
    assert_eq!(get_report_text(&report, Some(&place), &fishes()), expected);
}

#[test]
fn report_text_without_place_or_catches() {
    let report = RfReportInfo {
        id: 6,
        title: "Порожньо".to_string(),
        short_description: "Нічого".to_string(),
        url: "u".to_string(),
        place: None,
        photos: Vec::new(),
        start_at: String::new(),
        rating: None,
        fishing_types: Vec::new(),
        featured_image: None,
        report_fishes: Vec::new(),
    };
    let expected = "<b>Порожньо</b>\n\n<b>Тип рибалки:</b> \n<b>Спіймана риба:</b>\n\n<i>Нічого</i>";
    assert_eq!(get_report_text(&report, None, &fishes()), expected);
}
