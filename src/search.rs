use vstd::prelude::*;

use crate::bot::{cache_lookup, matching_ids, search_candidates_of, BotState, MAX_SEARCH_RESULTS};
use crate::fish::{duplicate_opt, get_place_text, place_text, same_opt_info, RfPlaceInfo};
use crate::telegram::{keyboard_view, TgAnswerInlineQuery, TgInlineKeyboardMarkup, TgInlineQueryResult, TgInputMessageContent};
use crate::fish::RfPlace;
use crate::text::{append_decimal, decimal, is_infix, upper_of};

verus! {

broadcast use vstd::std_specs::hash::group_hash_axioms;

/// The places among `resolved`, in order, the absent ones left out.
pub open spec fn present(resolved: Seq<Option<RfPlaceInfo>>) -> Seq<RfPlaceInfo>
    decreases resolved.len(),
{
    if resolved.len() == 0 {
        Seq::empty()
    } else {
        (match resolved[0] {
            Some(p) => seq![p],
            None => Seq::empty(),
        }) + present(resolved.drop_first())
    }
}

/// The cache holds an outcome for `id`, and `v` holds the same.
pub open spec fn served_by_cache(cache: Map<i32, Option<RfPlaceInfo>>, id: i32, v: Option<RfPlaceInfo>) -> bool {
    &&& cache_lookup(cache, id) is Some
    &&& same_opt_info(v, cache_lookup(cache, id)->0)
}

/// Each outcome that `job` has resolved is what `cache` holds for its
/// candidate.
pub open spec fn agrees_with(job: SearchJob, cache: Map<i32, Option<RfPlaceInfo>>) -> bool {
    forall|k: int|
        0 <= k < job.resolved@.len() ==> served_by_cache(cache, job.candidates@[k], #[trigger] job.resolved@[k])
}

/// A job that resolved more outcomes from `cache` still agrees with it.
proof fn lemma_extends_agreement(before: SearchJob, after: SearchJob, cache: Map<i32, Option<RfPlaceInfo>>)
    requires
        after.candidates == before.candidates,
        before.resolved@.len() <= after.resolved@.len(),
        after.resolved@.subrange(0, before.resolved@.len() as int) == before.resolved@,
        forall|k: int|
            before.resolved@.len() <= k < after.resolved@.len() ==> served_by_cache(
                cache,
                after.candidates@[k],
                #[trigger] after.resolved@[k],
            ),
    ensures
        agrees_with(before, cache) ==> agrees_with(after, cache),
{
    if agrees_with(before, cache) {
        assert forall|k: int| 0 <= k < after.resolved@.len() implies served_by_cache(
            cache,
            after.candidates@[k],
            #[trigger] after.resolved@[k],
        ) by {
            if k < before.resolved@.len() {
                assert(after.resolved@.subrange(0, before.resolved@.len() as int)[k] == after.resolved@[k]);
                assert(served_by_cache(cache, before.candidates@[k], before.resolved@[k]));
            }
        }
    }
}

/// `r` is the article that offers place `pi`: titled with its name and
/// address, showing its thumbnail, posting its message in HTML, with a
/// button to the place's page.
pub open spec fn describes(r: TgInlineQueryResult, pi: RfPlaceInfo) -> bool {
    &&& r.type_@ == "article"@
    &&& r.id@ == "iqid_"@ + decimal(pi.id as int)
    &&& r.title == pi.name
    &&& r.description == pi.desc_short
    &&& r.url == pi.url
    &&& r.hide_url
    &&& r.thumb_url == pi.thumbnail
    &&& r.input_message_content.message_text@ == place_text(pi)
    &&& r.input_message_content.parse_mode@ == "HTML"@
    &&& !r.input_message_content.disable_web_page_preview
    &&& r.reply_markup is Some
    &&& keyboard_view(r.reply_markup->0) == seq![seq![(false, "детальніше на вебсайті"@, pi.url@)]]
}

/// The article that offers place `pi` as an inline result.
pub fn make_inline_result(pi: RfPlaceInfo) -> (r: TgInlineQueryResult)
    ensures
        describes(r, pi),
{
    let txt = get_place_text(&pi);
    let mut id = String::from_str("iqid_");
    append_decimal(&mut id, pi.id as i64);
    let url = pi.url.clone();
    let button = TgInlineKeyboardMarkup::url_button(String::from_str("детальніше на вебсайті"), pi.url.clone());
    TgInlineQueryResult {
        type_: String::from_str("article"),
        id,
        title: pi.name,
        description: pi.desc_short,
        url,
        hide_url: true,
        thumb_url: pi.thumbnail,
        reply_markup: Some(button),
        input_message_content: TgInputMessageContent {
            message_text: txt,
            parse_mode: String::from_str("HTML"),
            disable_web_page_preview: false,
        },
    }
}

/// One inline search in progress: the candidate place ids and the outcomes
/// resolved so far, for a prefix of them.
pub struct SearchJob {
    pub candidates: Vec<i32>,
    pub resolved: Vec<Option<RfPlaceInfo>>,
}

impl SearchJob {
    /// No more outcomes than candidates.
    pub open spec fn wf(&self) -> bool {
        self.resolved@.len() <= self.candidates@.len()
    }

    /// Every candidate is resolved.
    pub open spec fn done(&self) -> bool {
        self.resolved@.len() == self.candidates@.len()
    }

    /// A search for `query` in `state`: its candidates, none resolved yet.
    pub fn new(state: &BotState, query: &str) -> (r: SearchJob)
        ensures
            r.wf(),
            r.candidates@ == search_candidates_of(state.places@, state.top_ids@, query@),
            r.resolved@.len() == 0,
            agrees_with(r, state.cache@),
    {
        SearchJob { candidates: state.search_candidates(query), resolved: Vec::new() }
    }

    /// Resolves the next candidates from the cache, in order, up to the first
    /// one that the cache does not hold. Returns that id, which the caller
    /// fetches and hands to `supply`, or `None` once every candidate is
    /// resolved. A cached id is never fetched again.
    pub fn advance(&mut self, state: &BotState) -> (r: Option<i32>)
        requires
            old(self).wf(),
        ensures
            final(self).wf(),
            final(self).candidates == old(self).candidates,
            old(self).resolved@.len() <= final(self).resolved@.len(),
            final(self).resolved@.subrange(0, old(self).resolved@.len() as int) == old(self).resolved@,
            forall|k: int|
                old(self).resolved@.len() <= k < final(self).resolved@.len() ==> served_by_cache(
                    state.cache@,
                    final(self).candidates@[k],
                    #[trigger] final(self).resolved@[k],
                ),
            agrees_with(*old(self), state.cache@) ==> agrees_with(*final(self), state.cache@),
            match r {
                None => final(self).done(),
                Some(id) => {
                    &&& final(self).resolved@.len() < final(self).candidates@.len()
                    &&& id == final(self).candidates@[final(self).resolved@.len() as int]
                    &&& cache_lookup(state.cache@, id) is None
                },
            },
    {
        let ghost start = self.resolved@;
        while self.resolved.len() < self.candidates.len()
            invariant
                self.wf(),
                self.candidates == old(self).candidates,
                start == old(self).resolved@,
                start.len() <= self.resolved@.len(),
                self.resolved@.subrange(0, start.len() as int) == start,
                forall|k: int|
                    start.len() <= k < self.resolved@.len() ==> served_by_cache(
                        state.cache@,
                        self.candidates@[k],
                        #[trigger] self.resolved@[k],
                    ),
            decreases self.candidates@.len() - self.resolved@.len(),
        {
            let id = self.candidates[self.resolved.len()];
            match state.cached_info(id) {
                None => {
                    proof {
                        lemma_extends_agreement(*old(self), *self, state.cache@);
                    }
                    return Some(id);
                },
                Some(info) => {
                    let copy = duplicate_opt(info);
                    let ghost prev = self.resolved@;
                    self.resolved.push(copy);
                    proof {
                        assert(self.resolved@.subrange(0, start.len() as int) =~= prev.subrange(
                            0,
                            start.len() as int,
                        ));
                        assert(served_by_cache(state.cache@, id, copy));
                        assert forall|k: int|
                            start.len() <= k < self.resolved@.len() implies served_by_cache(
                                state.cache@,
                                self.candidates@[k],
                                #[trigger] self.resolved@[k],
                            ) by {
                            if k < prev.len() {
                                assert(self.resolved@[k] == prev[k]);
                            } else {
                                assert(self.resolved@[k] == copy);
                            }
                        }
                    }
                },
            }
        }
        proof {
            lemma_extends_agreement(*old(self), *self, state.cache@);
        }
        None
    }

    /// Resolves the pending candidate with the outcome of its fetch, and
    /// stores that outcome in the cache, so that the id is not fetched
    /// again. Once every candidate is resolved nothing changes.
    pub fn supply(&mut self, state: &mut BotState, fetched: Option<RfPlaceInfo>)
        requires
            old(self).wf(),
        ensures
            final(self).wf(),
            final(self).candidates == old(self).candidates,
            !old(self).done() ==> {
                let id = old(self).candidates@[old(self).resolved@.len() as int];
                &&& final(state).cache@ == old(state).cache@.insert(id, fetched)
                &&& final(self).resolved@.len() == old(self).resolved@.len() + 1
                &&& final(self).resolved@.drop_last() == old(self).resolved@
                &&& same_opt_info(final(self).resolved@.last(), fetched)
            },
            old(self).done() ==> final(self).resolved == old(self).resolved && final(state).cache
                == old(state).cache,
            !old(self).done() && agrees_with(*old(self), old(state).cache@) && cache_lookup(
                old(state).cache@,
                old(self).candidates@[old(self).resolved@.len() as int],
            ) is None ==> agrees_with(*final(self), final(state).cache@),
            final(state).places == old(state).places,
            final(state).fishes == old(state).fishes,
            final(state).top_ids == old(state).top_ids,
            final(state).kbdata == old(state).kbdata,
    {
        if self.resolved.len() < self.candidates.len() {
            let id = self.candidates[self.resolved.len()];
            let copy = duplicate_opt(&fetched);
            state.store_info(id, fetched);
            let ghost prev = self.resolved@;
            self.resolved.push(copy);
            proof {
                assert(self.resolved@.drop_last() =~= prev);
                if agrees_with(*old(self), old(state).cache@) && cache_lookup(old(state).cache@, id) is None {
                    assert forall|k: int| 0 <= k < self.resolved@.len() implies served_by_cache(
                        state.cache@,
                        self.candidates@[k],
                        #[trigger] self.resolved@[k],
                    ) by {
                        if k < prev.len() {
                            assert(self.resolved@[k] == prev[k]);
                            assert(served_by_cache(old(state).cache@, self.candidates@[k], prev[k]));
                            assert(self.candidates@[k] != id);
                        }
                    }
                }
            }
        }
    }

    /// The answer to inline query `query_id`: one article for each resolved
    /// place, in candidate order; candidates whose fetch gave nothing are
    /// left out.
    pub fn answer(self, query_id: String) -> (r: TgAnswerInlineQuery)
        ensures
            r.inline_query_id == query_id,
            r.results@.len() == present(self.resolved@).len(),
            forall|i: int|
                0 <= i < r.results@.len() ==> describes(#[trigger] r.results@[i], present(self.resolved@)[i]),
    {
        let ghost all = self.resolved@;
        let mut rest = self.resolved;
        let mut results: Vec<TgInlineQueryResult> = Vec::new();
        while rest.len() > 0
            invariant
                present(all).len() == results@.len() + present(rest@).len(),
                forall|i: int|
                    0 <= i < results@.len() ==> describes(#[trigger] results@[i], present(all)[i]),
                forall|i: int|
                    0 <= i < present(rest@).len() ==> present(all)[results@.len() + i] == #[trigger] present(rest@)[i],
            decreases rest@.len(),
        {
            let ghost before = rest@;
            let first = rest.remove(0);
            proof {
                assert(rest@ =~= before.drop_first());
            }
            match first {
                Some(pi) => {
                    proof {
                        assert(present(before)[0] == pi);
                        assert forall|i: int| 0 <= i < present(rest@).len() implies present(all)[results@.len() + 1 + i]
                            == #[trigger] present(rest@)[i] by {
                            assert(present(before)[i + 1] == present(rest@)[i]);
                        }
                    }
                    let item = make_inline_result(pi);
                    let ghost prev = results@;
                    results.push(item);
                    proof {
                        assert forall|i: int| 0 <= i < results@.len() implies describes(#[trigger] results@[i], present(all)[i]) by {
                            if i < prev.len() {
                                assert(results@[i] == prev[i]);
                            } else {
                                assert(present(all)[prev.len() as int] == present(before)[0]);
                            }
                        }
                    }
                },
                None => {
                    proof {
                        assert(present(before) =~= present(rest@));
                    }
                },
            }
        }
        TgAnswerInlineQuery { inline_query_id: query_id, results }
    }
}

/// Leaving out the absent outcomes never makes a sequence longer.
pub proof fn lemma_present_len(resolved: Seq<Option<RfPlaceInfo>>)
    ensures
        present(resolved).len() <= resolved.len(),
    decreases resolved.len(),
{
    if resolved.len() > 0 {
        lemma_present_len(resolved.drop_first());
    }
}

/// A search whose query is empty once upper-cased offers the top places:
/// its candidates are the top list in its order, and its answer, made of
/// the outcomes of those candidates with the absent ones left out, holds no
/// more articles than the top list has ids.
pub proof fn lemma_empty_query_offers_top(
    places: Seq<RfPlace>,
    top_ids: Seq<i32>,
    query: Seq<char>,
    resolved: Seq<Option<RfPlaceInfo>>,
)
    requires
        upper_of(query).len() == 0,
        resolved.len() == search_candidates_of(places, top_ids, query).len(),
    ensures
        search_candidates_of(places, top_ids, query) == top_ids,
        present(resolved).len() <= top_ids.len(),
{
    lemma_present_len(resolved);
}

/// `ids` are ids of catalog places whose upper-cased names contain `q`,
/// taken in catalog order: `idx` gives, for each, the position of its place.
pub open spec fn picks_in_order(ids: Seq<i32>, places: Seq<RfPlace>, q: Seq<char>, idx: Seq<int>) -> bool {
    &&& idx.len() == ids.len()
    &&& forall|i: int|
        0 <= i < ids.len() ==> {
            &&& 0 <= #[trigger] idx[i] < places.len()
            &&& places[idx[i]].id == ids[i]
            &&& is_infix(q, upper_of(places[idx[i]].name@))
        }
    &&& forall|i: int, k: int| 0 <= i < k < ids.len() ==> #[trigger] idx[i] < #[trigger] idx[k]
}

proof fn lemma_matching_in_order(places: Seq<RfPlace>, q: Seq<char>) -> (idx: Seq<int>)
    ensures
        picks_in_order(matching_ids(places, q), places, q, idx),
    decreases places.len(),
{
    if places.len() == 0 {
        Seq::empty()
    } else {
        let rest = places.drop_last();
        let idx0 = lemma_matching_in_order(rest, q);
        let last = places.len() - 1;
        assert forall|i: int| 0 <= i < idx0.len() implies places[#[trigger] idx0[i]] == rest[idx0[i]] by {
        }
        if is_infix(q, upper_of(places.last().name@)) {
            let idx = idx0.push(last);
            assert forall|i: int, k: int| 0 <= i < k < idx.len() implies #[trigger] idx[i] < #[trigger] idx[k] by {
                if k < idx0.len() {
                    assert(idx[i] == idx0[i] && idx[k] == idx0[k]);
                } else {
                    assert(idx[i] == idx0[i]);
                }
            }
            assert forall|i: int| 0 <= i < idx.len() implies {
                &&& 0 <= #[trigger] idx[i] < places.len()
                &&& places[idx[i]].id == matching_ids(places, q)[i]
                &&& is_infix(q, upper_of(places[idx[i]].name@))
            } by {
                if i < idx0.len() {
                    assert(idx[i] == idx0[i]);
                }
            }
            idx
        } else {
            idx0
        }
    }
}

/// A search with a query that is not empty once upper-cased offers at most
/// `MAX_SEARCH_RESULTS` candidates, each the id of a catalog place whose
/// upper-cased name contains the upper-cased query, in catalog order.
pub proof fn lemma_query_matches_in_order(places: Seq<RfPlace>, top_ids: Seq<i32>, query: Seq<char>)
    requires
        upper_of(query).len() > 0,
    ensures
        search_candidates_of(places, top_ids, query).len() <= MAX_SEARCH_RESULTS,
        exists|idx: Seq<int>|
            picks_in_order(search_candidates_of(places, top_ids, query), places, upper_of(query), idx),
{
    let q = upper_of(query);
    let all = matching_ids(places, q);
    let idx = lemma_matching_in_order(places, q);
    if all.len() <= MAX_SEARCH_RESULTS {
        assert(picks_in_order(search_candidates_of(places, top_ids, query), places, q, idx));
    } else {
        let sub = idx.subrange(0, MAX_SEARCH_RESULTS as int);
        let c = search_candidates_of(places, top_ids, query);
        assert(c == all.subrange(0, MAX_SEARCH_RESULTS as int));
        assert forall|i: int| 0 <= i < c.len() implies {
            &&& 0 <= #[trigger] sub[i] < places.len()
            &&& places[sub[i]].id == c[i]
            &&& is_infix(q, upper_of(places[sub[i]].name@))
        } by {
            assert(sub[i] == idx[i]);
        }
        assert forall|i: int, k: int| 0 <= i < k < c.len() implies #[trigger] sub[i] < #[trigger] sub[k] by {
            assert(sub[i] == idx[i] && sub[k] == idx[k]);
        }
        assert(picks_in_order(c, places, q, sub));
    }
}

/// A finished search for a query that is empty once upper-cased answers with
/// the top list resolved through the cache: one outcome per top id, in
/// top-list order, each what the cache holds for that id; the answer (see
/// `SearchJob::answer`) offers the present ones in that order, so no more
/// than the top list has ids.
pub proof fn lemma_empty_query_answer(
    job: SearchJob,
    cache: Map<i32, Option<RfPlaceInfo>>,
    places: Seq<RfPlace>,
    top_ids: Seq<i32>,
    query: Seq<char>,
)
    requires
        upper_of(query).len() == 0,
        job.candidates@ == search_candidates_of(places, top_ids, query),
        job.done(),
        agrees_with(job, cache),
    ensures
        job.resolved@.len() == top_ids.len(),
        forall|k: int|
            0 <= k < top_ids.len() ==> served_by_cache(cache, top_ids[k], #[trigger] job.resolved@[k]),
        present(job.resolved@).len() <= top_ids.len(),
{
    lemma_present_len(job.resolved@);
}

} // verus!
