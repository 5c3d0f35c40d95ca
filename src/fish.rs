use vstd::prelude::*;

use crate::text::{
    append_decimal, append_framed, copy_opt, append_framed_opt, append_joined, decimal, framed, framed_opt,
    has_prefix, joined, opt_view, same_text, sort_texts, starts_with_text, text_le, text_or_empty,
    texts, trim_text, trimmed_of,
};

verus! {

/// A photo attached to a fishing report.
#[derive(Clone, Debug)]
pub struct RfReportPhoto {
    pub medium_url: String,
}

/// A kind of fishing (spinning, feeder, ...).
#[derive(Clone, Debug)]
pub struct RfFishingType {
    pub name: String,
}

/// A fish species known to the catalog.
#[derive(Clone, Debug)]
pub struct RfFish {
    pub id: u32,
    pub name: String,
}

/// One catch line of a report. The weight is kept as the decimal text that
/// the upstream number renders to.
#[derive(Clone, Debug)]
pub struct RfFishReport {
    pub fish_id: u32,
    pub qty: Option<u32>,
    pub weight: Option<String>,
    pub featured: bool,
    pub baits: Vec<String>,
}

/// A fishing report as the catalog serves it.
#[derive(Clone, Debug)]
pub struct RfReportInfo {
    pub id: i32,
    pub title: String,
    pub short_description: String,
    pub url: String,
    pub place: Option<RfPlace>,
    pub photos: Vec<RfReportPhoto>,
    pub start_at: String,
    pub rating: Option<u32>,
    pub fishing_types: Vec<RfFishingType>,
    pub featured_image: Option<String>,
    pub report_fishes: Vec<RfFishReport>,
}

/// A catalog entry: a place id and its name.
#[derive(Clone, Debug)]
pub struct RfPlace {
    pub name: String,
    pub id: i32,
}

/// A contact person of a place.
#[derive(Clone, Debug)]
pub struct RfPlaceContact {
    pub name: String,
    pub phone: String,
}

/// A place record as the catalog serves it, before normalization.
#[derive(Clone, Debug)]
pub struct RfPlaceInfoRaw {
    pub name: String,
    pub url: String,
    pub notes: Option<String>,
    pub address: Option<String>,
    pub rating_avg: Option<String>,
    pub rating_votes: Option<i32>,
    pub place_contacts: Vec<RfPlaceContact>,
    pub thumbnail: Option<String>,
    pub featured_image: Option<String>,
    pub permit: Option<String>,
    pub area: Option<String>,
    pub time_to_fish: Option<String>,
    pub price_notes: Option<String>,
    pub info_updated_at: Option<String>,
    pub id: i32,
}

/// A place record ready for display.
#[derive(Clone, Debug)]
pub struct RfPlaceInfo {
    pub name: String,
    pub thumbnail: String,
    pub featured_image: String,
    pub payment_str: String,
    pub payment_info: String,
    pub rating_str: String,
    pub votes: i32,
    pub important: Option<String>,
    pub area_str: Option<String>,
    pub hours_str: Option<String>,
    pub update_str: Option<String>,
    pub contact_strs: Vec<String>,
    pub desc_short: String,
    pub url: String,
    pub id: i32,
}

/// The format of the catalog's update timestamps.
pub const TIMESTAMP_FORMAT: &'static str = "%FT%T.%f%z";

/// The date fields of a parsed timestamp, as `time::Tm` holds them: years
/// since 1900, months since January, day of the month, days since Sunday.
#[derive(Clone, Copy, Debug, PartialEq, Eq)]
pub struct TmDate {
    pub tm_year: i32,
    pub tm_mon: i32,
    pub tm_mday: i32,
    pub tm_wday: i32,
}

/// What `time::strptime` makes of `s` read by `format`: the date fields
/// (years since 1900, months since January, day, weekday) or nothing.
pub uninterp spec fn parsed_time(s: Seq<char>, format: Seq<char>) -> Option<(i32, i32, i32, i32)>;

/// Relies on `time::strptime`: parses `s` by the timestamp format, the
/// outcome depending on the two strings alone; the date fields of the
/// broken-down time are handed on as they are. Only that format is passed:
/// with it the parse does no arithmetic that could overflow.
#[verifier::external_body]
fn strptime_date(s: &str, format: &str) -> (r: Option<TmDate>)
    requires
        format@ == TIMESTAMP_FORMAT@,
    ensures
        match r {
            Some(d) => parsed_time(s@, format@) == Some((d.tm_year, d.tm_mon, d.tm_mday, d.tm_wday)),
            None => parsed_time(s@, format@) is None,
        },
{
    match time::strptime(s, format) {
        Ok(tm) => Some(TmDate { tm_year: tm.tm_year, tm_mon: tm.tm_mon, tm_mday: tm.tm_mday, tm_wday: tm.tm_wday }),
        Err(_) => None,
    }
}

/// The format of a day as `YYYY-MM-DD`.
pub const DATE_FORMAT: &'static str = "%F";

/// A number at least two characters wide, zero-padded on the left.
pub open spec fn two_digits(n: int) -> Seq<char> {
    if 0 <= n < 10 {
        seq!['0'] + decimal(n)
    } else {
        decimal(n)
    }
}

/// A date as `YYYY-MM-DD`: the year (years since 1900, plus 1900), then
/// month and day, each at least two digits wide; none when the month or the
/// weekday is out of range.
pub open spec fn iso_date(d: TmDate) -> Option<Seq<char>> {
    if 0 <= d.tm_wday <= 6 && 0 <= d.tm_mon <= 11 {
        Some(
            decimal(d.tm_year + 1900) + seq!['-'] + two_digits(d.tm_mon + 1) + seq!['-'] + two_digits(
                d.tm_mday as int,
            ),
        )
    } else {
        None
    }
}

/// The day on which a place's record was last updated, from its timestamp.
pub open spec fn update_date_of(stamp: Option<String>) -> Option<Seq<char>> {
    match stamp {
        Some(s) => match parsed_time(s@, TIMESTAMP_FORMAT@) {
            Some(f) => {
                let d = TmDate { tm_year: f.0, tm_mon: f.1, tm_mday: f.2, tm_wday: f.3 };
                if year_fits(d) {
                    iso_date(d)
                } else {
                    None
                }
            },
            None => None,
        },
        None => None,
    }
}

/// Relies on `time::strftime` with the `%F` format: it fails when the
/// weekday or the month is out of range, else writes `tm_year + 1900` with
/// `{}`, `tm_mon + 1` and `tm_mday` with `{:02}`, joined by `-`; no other
/// field is read. The year bound keeps its `tm_year + 1900` from
/// overflowing.
#[verifier::external_body]
fn strftime_date(format: &str, d: TmDate) -> (r: Option<String>)
    requires
        format@ == DATE_FORMAT@,
        d.tm_year <= i32::MAX - 1900,
    ensures
        opt_view(r) == iso_date(d),
{
    let tm = time::Tm {
        tm_sec: 0, tm_min: 0, tm_hour: 0, tm_mday: d.tm_mday, tm_mon: d.tm_mon, tm_year: d.tm_year,
        tm_wday: d.tm_wday, tm_yday: 0, tm_isdst: 0, tm_utcoff: 0, tm_nsec: 0,
    };
    time::strftime(format, &tm).ok()
}

/// The year of `d` can be written: years since 1900 plus 1900 fit an `i32`.
pub open spec fn year_fits(d: TmDate) -> bool {
    d.tm_year <= i32::MAX - 1900
}

/// Renders a date as `YYYY-MM-DD`; none when its year cannot be written.
pub fn iso_date_text(d: TmDate) -> (r: Option<String>)
    ensures
        opt_view(r) == if year_fits(d) {
            iso_date(d)
        } else {
            None
        },
{
    if d.tm_year <= i32::MAX - 1900 {
        strftime_date(DATE_FORMAT, d)
    } else {
        None
    }
}

fn update_date_text(stamp: &Option<String>) -> (r: Option<String>)
    ensures
        opt_view(r) == update_date_of(*stamp),
{
    match stamp {
        Some(s) => match strptime_date(s.as_str(), TIMESTAMP_FORMAT) {
            Some(d) => iso_date_text(d),
            None => None,
        },
        None => None,
    }
}

/// How a place's permit reads: paid, free, fishing prohibited, or unknown
/// conditions.
pub open spec fn payment_of(permit: Option<String>) -> Seq<char> {
    match permit {
        Some(p) => if p@ == "paid"@ {
            "Платно"@
        } else if p@ == "free"@ {
            "Безкоштовно"@
        } else if p@ == "prohibited"@ {
            "Риболовля заборонена"@
        } else {
            "Умови невідомі"@
        },
        None => "Умови невідомі"@,
    }
}

/// When fishing is allowed: round the clock, by day only, or not said.
pub open spec fn hours_of(time_to_fish: Option<String>) -> Option<Seq<char>> {
    match time_to_fish {
        Some(t) => if t@ == "full_day"@ {
            Some("цілодобово"@)
        } else if t@ == "day_only"@ {
            Some("вдень"@)
        } else {
            None
        },
        None => None,
    }
}

/// A contact line: the phone, with `+` before a Ukrainian `380` number,
/// then the person's name.
pub open spec fn contact_text(c: RfPlaceContact) -> Seq<char> {
    (if has_prefix(c.phone@, "380"@) {
        "+"@
    } else {
        Seq::empty()
    }) + c.phone@ + " "@ + c.name@
}

/// The important notice of a place: its notes, unless empty.
pub open spec fn notice_of(notes: Option<String>) -> Option<String> {
    match notes {
        Some(n) => if n@.len() == 0 {
            None
        } else {
            Some(n)
        },
        None => None,
    }
}

/// The area of a place in hectares.
pub open spec fn area_of(area: Option<String>) -> Option<Seq<char>> {
    match area {
        Some(a) => Some(a@ + "Га"@),
        None => None,
    }
}

fn payment_text(permit: &Option<String>) -> (r: String)
    ensures
        r@ == payment_of(*permit),
{
    let lit = match permit {
        Some(p) => if same_text(p, "paid") {
            "Платно"
        } else if same_text(p, "free") {
            "Безкоштовно"
        } else if same_text(p, "prohibited") {
            "Риболовля заборонена"
        } else {
            "Умови невідомі"
        },
        None => "Умови невідомі",
    };
    String::from_str(lit)
}

fn hours_text(time_to_fish: &Option<String>) -> (r: Option<String>)
    ensures
        opt_view(r) == hours_of(*time_to_fish),
{
    match time_to_fish {
        Some(t) => if same_text(t, "full_day") {
            Some(String::from_str("цілодобово"))
        } else if same_text(t, "day_only") {
            Some(String::from_str("вдень"))
        } else {
            None
        },
        None => None,
    }
}

/// Renders one contact line of a place.
pub fn contact_line(c: &RfPlaceContact) -> (r: String)
    ensures
        r@ == contact_text(*c),
{
    let mut r = String::new();
    if starts_with_text(c.phone.as_str(), "380") {
        r.append("+");
    }
    r.append(c.phone.as_str());
    r.append(" ");
    r.append(c.name.as_str());
    r
}

/// Turns a raw catalog record into a display-ready one: absent texts become
/// empty, the rating `--` and the vote count 0; the permit, the fishing
/// hours and the update date are put into words; each contact becomes a
/// line.
pub fn normalize_place_info(pi: RfPlaceInfoRaw) -> (r: RfPlaceInfo)
    ensures
        r.name == pi.name,
        r.url == pi.url,
        r.id == pi.id,
        r.thumbnail@ == text_or_empty(pi.thumbnail),
        r.featured_image@ == text_or_empty(pi.featured_image),
        r.payment_str@ == payment_of(pi.permit),
        r.payment_info@ == text_or_empty(pi.price_notes),
        r.rating_str@ == match pi.rating_avg {
            Some(s) => s@,
            None => "--"@,
        },
        r.votes == match pi.rating_votes {
            Some(v) => v,
            None => 0i32,
        },
        r.important == notice_of(pi.notes),
        opt_view(r.area_str) == area_of(pi.area),
        opt_view(r.hours_str) == hours_of(pi.time_to_fish),
        opt_view(r.update_str) == update_date_of(pi.info_updated_at),
        r.contact_strs@.len() == pi.place_contacts@.len(),
        forall|i: int|
            0 <= i < r.contact_strs@.len() ==> #[trigger] r.contact_strs@[i]@ == contact_text(
                pi.place_contacts@[i],
            ),
        r.desc_short@ == text_or_empty(pi.address),
{
    let payment_str = payment_text(&pi.permit);
    let hours_str = hours_text(&pi.time_to_fish);
    let update_str = update_date_text(&pi.info_updated_at);
    let mut contact_strs: Vec<String> = Vec::new();
    let mut i: usize = 0;
    while i < pi.place_contacts.len()
        invariant
            i <= pi.place_contacts@.len(),
            contact_strs@.len() == i,
            forall|j: int|
                0 <= j < i ==> #[trigger] contact_strs@[j]@ == contact_text(pi.place_contacts@[j]),
        decreases pi.place_contacts@.len() - i,
    {
        contact_strs.push(contact_line(&pi.place_contacts[i]));
        i = i + 1;
    }
    let RfPlaceInfoRaw {
        name,
        url,
        notes,
        address,
        rating_avg,
        rating_votes,
        thumbnail,
        featured_image,
        area,
        price_notes,
        id,
        ..
    } = pi;
    let important = match notes {
        Some(n) => if n.as_str().is_empty() {
            None
        } else {
            Some(n)
        },
        None => None,
    };
    let area_str = match area {
        Some(a) => {
            let mut t = a;
            t.append("Га");
            Some(t)
        },
        None => None,
    };
    RfPlaceInfo {
        name,
        thumbnail: or_empty(thumbnail),
        featured_image: or_empty(featured_image),
        payment_str,
        payment_info: or_empty(price_notes),
        rating_str: match rating_avg {
            Some(s) => s,
            None => String::from_str("--"),
        },
        votes: match rating_votes {
            Some(v) => v,
            None => 0,
        },
        important,
        area_str,
        hours_str,
        update_str,
        contact_strs,
        desc_short: or_empty(address),
        url,
        id,
    }
}

fn or_empty(o: Option<String>) -> (r: String)
    ensures
        r@ == text_or_empty(o),
{
    match o {
        Some(s) => s,
        None => String::new(),
    }
}

/// The message that presents a place: name and picture, rating with a link
/// to its reports, the notice, area, hours and update date when known, the
/// contacts, and the payment conditions.
pub open spec fn place_text(p: RfPlaceInfo) -> Seq<char> {
    "<b>"@ + p.name@ + "</b><a href=\""@ + p.featured_image@ + "\">&#160;</a>\n&#x2B50; "@
        + p.rating_str@ + " <a href=\""@ + p.url@ + "/reports\">(звітів: "@ + decimal(
        p.votes as int,
    ) + ")</a>\n"@ + framed_opt(p.important, "&#x26A0; "@, "\n"@) + "\n"@ + framed_opt(
        p.area_str,
        "&#x25FB; "@,
        " "@,
    ) + framed_opt(p.hours_str, "&#x23F0; "@, " "@) + framed_opt(p.update_str, "&#x1F504; "@, ""@)
        + "\n"@ + framed(texts(p.contact_strs@), "&#x1F4DE; "@, "\n"@) + "\n&#x1F4B2; "@
        + p.payment_str@ + "\n"@ + p.payment_info@
}

/// Renders the message that presents a place, in HTML.
pub fn get_place_text(place: &RfPlaceInfo) -> (r: String)
    ensures
        r@ == place_text(*place),
{
    let mut r = String::new();
    r.append("<b>");
    r.append(place.name.as_str());
    r.append("</b><a href=\"");
    r.append(place.featured_image.as_str());
    r.append("\">&#160;</a>\n&#x2B50; ");
    r.append(place.rating_str.as_str());
    r.append(" <a href=\"");
    r.append(place.url.as_str());
    r.append("/reports\">(звітів: ");
    append_decimal(&mut r, place.votes as i64);
    r.append(")</a>\n");
    append_framed_opt(&mut r, &place.important, "&#x26A0; ", "\n");
    r.append("\n");
    append_framed_opt(&mut r, &place.area_str, "&#x25FB; ", " ");
    append_framed_opt(&mut r, &place.hours_str, "&#x23F0; ", " ");
    append_framed_opt(&mut r, &place.update_str, "&#x1F504; ", "");
    r.append("\n");
    append_framed(&mut r, &place.contact_strs, "&#x1F4DE; ", "\n");
    r.append("\n&#x1F4B2; ");
    r.append(place.payment_str.as_str());
    r.append("\n");
    r.append(place.payment_info.as_str());
    r
}

/// The name of the first fish of `fishes` with id `id`, or `?`.
pub open spec fn fish_name(fishes: Seq<RfFish>, id: u32) -> Seq<char>
    decreases fishes.len(),
{
    if fishes.len() == 0 {
        "?"@
    } else if fishes[0].id == id {
        fishes[0].name@
    } else {
        fish_name(fishes.drop_first(), id)
    }
}

/// The baits of a catch in parentheses, or nothing when there are none.
pub open spec fn baits_text(baits: Seq<String>) -> Seq<char> {
    if baits.len() == 0 {
        Seq::empty()
    } else {
        " ("@ + joined(texts(baits), ", "@) + ")"@
    }
}

/// One catch line: the fish, then its count and weight when known, a cup
/// for a featured catch, and the baits.
pub open spec fn fish_entry_text(x: RfFishReport, fishes: Seq<RfFish>) -> Seq<char> {
    fish_name(fishes, x.fish_id) + (if x.qty is Some || x.weight is Some {
        ":"@
    } else {
        Seq::empty()
    }) + (match x.qty {
        Some(n) => " "@ + decimal(n as int) + "шт"@,
        None => Seq::empty(),
    }) + (if x.qty is Some && x.weight is Some {
        ","@
    } else {
        Seq::empty()
    }) + framed_opt(x.weight, " "@, "кг"@) + (if x.featured {
        " &#x1F3C6"@
    } else {
        Seq::empty()
    }) + baits_text(x.baits@)
}

fn append_fish_name(out: &mut String, fishes: &Vec<RfFish>, id: u32)
    ensures
        final(out)@ == old(out)@ + fish_name(fishes@, id),
{
    let mut i: usize = 0;
    proof {
        assert(fishes@.subrange(0, fishes@.len() as int) =~= fishes@);
    }
    while i < fishes.len()
        invariant
            i <= fishes@.len(),
            out@ == old(out)@,
            fish_name(fishes@.subrange(i as int, fishes@.len() as int), id) == fish_name(fishes@, id),
        decreases fishes@.len() - i,
    {
        let ghost rest = fishes@.subrange(i as int, fishes@.len() as int);
        proof {
            assert(rest.drop_first() =~= fishes@.subrange(i + 1, fishes@.len() as int));
            assert(rest[0] == fishes@[i as int]);
        }
        if fishes[i].id == id {
            out.append(fishes[i].name.as_str());
            return;
        }
        i = i + 1;
    }
    proof {
        assert(fishes@.subrange(i as int, fishes@.len() as int).len() == 0);
    }
    out.append("?");
}

/// Renders one catch line of a report.
pub fn build_fish_entry(x: &RfFishReport, fishes: &Vec<RfFish>) -> (r: String)
    ensures
        r@ == fish_entry_text(*x, fishes@),
{
    let mut r = String::new();
    append_fish_name(&mut r, fishes, x.fish_id);
    if x.qty.is_some() || x.weight.is_some() {
        r.append(":");
    }
    match x.qty {
        Some(n) => {
            r.append(" ");
            append_decimal(&mut r, n as i64);
            r.append("шт");
        },
        None => {},
    }
    if x.qty.is_some() && x.weight.is_some() {
        r.append(",");
    }
    append_framed_opt(&mut r, &x.weight, " ", "кг");
    if x.featured {
        r.append(" &#x1F3C6");
    }
    if x.baits.len() > 0 {
        r.append(" (");
        append_joined(&mut r, &x.baits, ", ");
        r.append(")");
    }
    r
}

/// The names of the kinds of fishing.
pub open spec fn type_names(ts: Seq<RfFishingType>) -> Seq<Seq<char>> {
    ts.map_values(|t: RfFishingType| t.name@)
}

/// The catch lines of a report, in the report's order.
pub open spec fn entries_of(catches: Seq<RfFishReport>, fishes: Seq<RfFish>) -> Seq<Seq<char>> {
    catches.map_values(|x: RfFishReport| fish_entry_text(x, fishes))
}

/// `r` holds the texts of `s`, each as often, in ascending order.
pub open spec fn sorted_permutation_of(r: Seq<Seq<char>>, s: Seq<Seq<char>>) -> bool {
    &&& r.to_multiset() == s.to_multiset()
    &&& forall|i: int, j: int| 0 <= i < j < r.len() ==> text_le(#[trigger] r[i], #[trigger] r[j])
}

/// The line that names the report's place, linked, with its rating.
pub open spec fn place_line(place: Option<&RfPlaceInfo>) -> Seq<char> {
    match place {
        Some(p) => "<b>Місце:</b> <a href=\""@ + p.url@ + "\">"@ + p.name@ + "</a> &#x2B50 "@
            + p.rating_str@,
        None => Seq::empty(),
    }
}

/// The message that publishes a report: title and picture, the place, the
/// kinds of fishing, the catch lines `entries` as bullets, and the trimmed
/// description in italics.
pub open spec fn report_text(report: RfReportInfo, place: Option<&RfPlaceInfo>, entries: Seq<Seq<char>>) -> Seq<char> {
    "<b>"@ + report.title@ + "</b>"@ + framed_opt(
        report.featured_image,
        "<a href=\""@,
        "\">&#160;</a>"@,
    ) + "\n"@ + place_line(place) + "\n<b>Тип рибалки:</b> "@ + joined(
        type_names(report.fishing_types@),
        ", "@,
    ) + "\n<b>Спіймана риба:</b>"@ + framed(entries, "\n&#x2022 "@, ""@) + "\n\n<i>"@
        + trimmed_of(report.short_description@) + "</i>"@
}

fn append_type_names(out: &mut String, ts: &Vec<RfFishingType>)
    ensures
        final(out)@ == old(out)@ + joined(type_names(ts@), ", "@),
{
    let ghost start = out@;
    let mut i: usize = 0;
    while i < ts.len()
        invariant
            i <= ts@.len(),
            out@ == start + joined(type_names(ts@.subrange(0, i as int)), ", "@),
        decreases ts@.len() - i,
    {
        proof {
            assert(type_names(ts@.subrange(0, i + 1)).drop_last() =~= type_names(ts@.subrange(0, i as int)));
            assert(type_names(ts@.subrange(0, i + 1)).last() == ts@[i as int].name@);
            if i == 0 {
                assert(type_names(ts@.subrange(0, 0)) =~= Seq::<Seq<char>>::empty());
            }
        }
        if i > 0 {
            out.append(", ");
        }
        out.append(ts[i].name.as_str());
        i = i + 1;
    }
    proof {
        assert(ts@.subrange(0, ts@.len() as int) =~= ts@);
    }
}

/// Renders a report's message around catch lines given in the order in
/// which they are to appear.
pub fn report_text_with_entries(report: &RfReportInfo, place: Option<&RfPlaceInfo>, entries: &Vec<String>) -> (r: String)
    ensures
        r@ == report_text(*report, place, texts(entries@)),
{
    let mut r = String::new();
    r.append("<b>");
    r.append(report.title.as_str());
    r.append("</b>");
    append_framed_opt(&mut r, &report.featured_image, "<a href=\"", "\">&#160;</a>");
    r.append("\n");
    match place {
        Some(p) => {
            r.append("<b>Місце:</b> <a href=\"");
            r.append(p.url.as_str());
            r.append("\">");
            r.append(p.name.as_str());
            r.append("</a> &#x2B50 ");
            r.append(p.rating_str.as_str());
        },
        None => {},
    }
    r.append("\n<b>Тип рибалки:</b> ");
    append_type_names(&mut r, &report.fishing_types);
    r.append("\n<b>Спіймана риба:</b>");
    append_framed(&mut r, entries, "\n&#x2022 ", "");
    r.append("\n\n<i>");
    r.append(trim_text(report.short_description.as_str()));
    r.append("</i>");
    r
}

/// Renders the message that publishes a report, its catch lines sorted.
pub fn get_report_text(report: &RfReportInfo, place: Option<&RfPlaceInfo>, fishes: &Vec<RfFish>) -> (r: String)
    ensures
        exists|sorted: Seq<Seq<char>>|
            sorted_permutation_of(sorted, entries_of(report.report_fishes@, fishes@)) && r@
                == #[trigger] report_text(*report, place, sorted),
{
    let mut results: Vec<String> = Vec::new();
    let mut i: usize = 0;
    while i < report.report_fishes.len()
        invariant
            i <= report.report_fishes@.len(),
            texts(results@) == entries_of(report.report_fishes@.subrange(0, i as int), fishes@),
        decreases report.report_fishes@.len() - i,
    {
        let e = build_fish_entry(&report.report_fishes[i], fishes);
        let ghost prev = results@;
        results.push(e);
        proof {
            let all = report.report_fishes@;
            assert(texts(results@) =~= texts(prev).push(e@));
            assert(entries_of(all.subrange(0, i + 1), fishes@) =~= entries_of(
                all.subrange(0, i as int),
                fishes@,
            ).push(fish_entry_text(all[i as int], fishes@)));
        }
        i = i + 1;
    }
    proof {
        assert(report.report_fishes@.subrange(0, report.report_fishes@.len() as int) =~= report.report_fishes@);
    }
    sort_texts(&mut results);
    let r = report_text_with_entries(report, place, &results);
    proof {
        assert(sorted_permutation_of(texts(results@), entries_of(report.report_fishes@, fishes@)));
    }
    r
}

/// `a` and `b` hold the same place record.
pub open spec fn same_info(a: RfPlaceInfo, b: RfPlaceInfo) -> bool {
    &&& a.name == b.name
    &&& a.thumbnail == b.thumbnail
    &&& a.featured_image == b.featured_image
    &&& a.payment_str == b.payment_str
    &&& a.payment_info == b.payment_info
    &&& a.rating_str == b.rating_str
    &&& a.votes == b.votes
    &&& a.important == b.important
    &&& a.area_str == b.area_str
    &&& a.hours_str == b.hours_str
    &&& a.update_str == b.update_str
    &&& a.contact_strs@ == b.contact_strs@
    &&& a.desc_short == b.desc_short
    &&& a.url == b.url
    &&& a.id == b.id
}

/// `a` and `b` are both absent, or both hold the same place record.
pub open spec fn same_opt_info(a: Option<RfPlaceInfo>, b: Option<RfPlaceInfo>) -> bool {
    match (a, b) {
        (Some(x), Some(y)) => same_info(x, y),
        (None, None) => true,
        _ => false,
    }
}

fn copy_strings(v: &Vec<String>) -> (r: Vec<String>)
    ensures
        r@ == v@,
{
    let mut r: Vec<String> = Vec::new();
    let mut i: usize = 0;
    while i < v.len()
        invariant
            i <= v@.len(),
            r@ == v@.subrange(0, i as int),
        decreases v@.len() - i,
    {
        r.push(v[i].clone());
        i = i + 1;
        proof {
            assert(r@ =~= v@.subrange(0, i as int));
        }
    }
    proof {
        assert(r@ =~= v@);
    }
    r
}

impl RfPlaceInfo {
    /// A copy of the record.
    pub fn duplicate(&self) -> (r: RfPlaceInfo)
        ensures
            same_info(r, *self),
    {
        RfPlaceInfo {
            name: self.name.clone(),
            thumbnail: self.thumbnail.clone(),
            featured_image: self.featured_image.clone(),
            payment_str: self.payment_str.clone(),
            payment_info: self.payment_info.clone(),
            rating_str: self.rating_str.clone(),
            votes: self.votes,
            important: copy_opt(&self.important),
            area_str: copy_opt(&self.area_str),
            hours_str: copy_opt(&self.hours_str),
            update_str: copy_opt(&self.update_str),
            contact_strs: copy_strings(&self.contact_strs),
            desc_short: self.desc_short.clone(),
            url: self.url.clone(),
            id: self.id,
        }
    }
}

/// A copy of an optional place record.
pub fn duplicate_opt(o: &Option<RfPlaceInfo>) -> (r: Option<RfPlaceInfo>)
    ensures
        same_opt_info(r, *o),
{
    match o {
        Some(p) => Some(p.duplicate()),
        None => None,
    }
}

} // verus!
