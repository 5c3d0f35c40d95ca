use std::collections::HashMap;
use vstd::prelude::*;

use crate::fish::{RfFish, RfPlace, RfPlaceInfo};
use crate::text::{is_infix, to_upper, contains_text, upper_of};

verus! {

broadcast use vstd::std_specs::hash::group_hash_axioms;

/// How many catalog matches a non-empty search may return.
pub const MAX_SEARCH_RESULTS: usize = 10;

/// The votes cast on one published report: the report's URL and the users
/// who voted, each at most once.
#[derive(Clone, Debug)]
pub struct VoteRecord {
    pub url: String,
    pub votes: Vec<i64>,
}

/// What a vote record means: its URL and the set of voters.
pub struct VoteRecordView {
    pub url: Seq<char>,
    pub voters: Set<i64>,
}

impl View for VoteRecord {
    type V = VoteRecordView;

    open spec fn view(&self) -> VoteRecordView {
        VoteRecordView { url: self.url@, voters: self.votes@.to_set() }
    }
}

/// The voter set after one press of the vote button by `user`.
pub open spec fn toggled(voters: Set<i64>, user: i64) -> Set<i64> {
    if voters.contains(user) {
        voters.remove(user)
    } else {
        voters.insert(user)
    }
}

/// Why a vote could not be counted.
#[derive(Clone, Copy, Debug, PartialEq, Eq)]
pub enum VoteError {
    /// No report was registered under the message id.
    NotFound,
}

fn position_of(v: &Vec<i64>, x: i64) -> (r: Option<usize>)
    ensures
        match r {
            Some(i) => i < v@.len() && v@[i as int] == x,
            None => !v@.contains(x),
        },
{
    let mut i: usize = 0;
    while i < v.len()
        invariant
            i <= v@.len(),
            forall|j: int| 0 <= j < i ==> v@[j] != x,
        decreases v@.len() - i,
    {
        if v[i] == x {
            return Some(i);
        }
        i = i + 1;
    }
    None
}

fn without(v: &Vec<i64>, x: i64) -> (r: Vec<i64>)
    ensures
        r@.to_set() == v@.to_set().remove(x),
        v@.no_duplicates() ==> r@.no_duplicates(),
{
    let mut r: Vec<i64> = Vec::new();
    let mut i: usize = 0;
    while i < v.len()
        invariant
            i <= v@.len(),
            r@.to_set() == v@.subrange(0, i as int).to_set().remove(x),
            v@.no_duplicates() ==> r@.no_duplicates(),
            forall|j: int| 0 <= j < r@.len() ==> exists|k: int| 0 <= k < i && v@[k] == #[trigger] r@[j],
        decreases v@.len() - i,
    {
        let y = v[i];
        let ghost prev = r@;
        proof {
            assert(v@.subrange(0, i + 1) == v@.subrange(0, i as int).push(y));
            v@.subrange(0, i as int).lemma_push_to_set_commute(y);
        }
        if y != x {
            r.push(y);
            proof {
                prev.lemma_push_to_set_commute(y);
                assert(r@.to_set() =~= v@.subrange(0, i + 1).to_set().remove(x));
                if v@.no_duplicates() {
                    assert forall|j: int, k: int|
                        0 <= j < r@.len() && 0 <= k < r@.len() && j != k implies r@[j] != r@[k] by {
                        if j < prev.len() && k < prev.len() {
                            assert(r@[j] == prev[j] && r@[k] == prev[k]);
                        } else if j == prev.len() {
                            assert(r@[k] == prev[k]);
                            let kk = choose|kk: int| 0 <= kk < i && v@[kk] == #[trigger] prev[k];
                            assert(v@[kk] != v@[i as int]);
                        } else {
                            assert(r@[j] == prev[j]);
                            let kk = choose|kk: int| 0 <= kk < i && v@[kk] == #[trigger] prev[j];
                            assert(v@[kk] != v@[i as int]);
                        }
                    }
                }
                assert forall|j: int| 0 <= j < r@.len() implies exists|k: int| 0 <= k < i + 1 && v@[k] == #[trigger] r@[j] by {
                    if j < prev.len() {
                        assert(r@[j] == prev[j]);
                        let kk = choose|kk: int| 0 <= kk < i && v@[kk] == #[trigger] prev[j];
                        assert(v@[kk] == r@[j]);
                    } else {
                        assert(v@[i as int] == r@[j]);
                    }
                }
            }
        } else {
            proof {
                assert(r@.to_set() =~= v@.subrange(0, i + 1).to_set().remove(x));
            }
        }
        i = i + 1;
    }
    proof {
        assert(v@.subrange(0, v@.len() as int) == v@);
    }
    r
}

impl VoteRecord {
    /// No user appears twice among the voters.
    pub open spec fn wf(&self) -> bool {
        self.votes@.no_duplicates()
    }

    /// A record for a freshly published report: no votes yet.
    pub fn new(url: String) -> (r: VoteRecord)
        ensures
            r.wf(),
            r.url == url,
            r.votes@ == Seq::<i64>::empty(),
    {
        VoteRecord { url, votes: Vec::new() }
    }

    /// A record holding each of `votes` once, in the order of first
    /// appearance.
    pub fn from_voters(url: String, votes: &Vec<i64>) -> (r: VoteRecord)
        ensures
            r.wf(),
            r.url == url,
            r@.voters == votes@.to_set(),
    {
        let mut kept: Vec<i64> = Vec::new();
        let mut i: usize = 0;
        while i < votes.len()
            invariant
                i <= votes@.len(),
                kept@.no_duplicates(),
                kept@.to_set() == votes@.subrange(0, i as int).to_set(),
            decreases votes@.len() - i,
        {
            let x = votes[i];
            proof {
                assert(votes@.subrange(0, i + 1) == votes@.subrange(0, i as int).push(x));
                broadcast use vstd::seq_lib::group_seq_properties;
            }
            if position_of(&kept, x).is_none() {
                let ghost prev = kept@;
                kept.push(x);
                proof {
                    prev.lemma_push_to_set_commute(x);
                    votes@.subrange(0, i as int).lemma_push_to_set_commute(x);
                    assert(kept@.to_set() =~= votes@.subrange(0, i + 1).to_set());
                }
            } else {
                proof {
                    votes@.subrange(0, i as int).lemma_push_to_set_commute(x);
                    assert(kept@.to_set() =~= votes@.subrange(0, i + 1).to_set());
                }
            }
            i = i + 1;
        }
        proof {
            assert(votes@.subrange(0, votes@.len() as int) == votes@);
        }
        VoteRecord { url, votes: kept }
    }

    /// A copy of the record.
    pub fn duplicate(&self) -> (r: VoteRecord)
        ensures
            r.url == self.url,
            r.votes@ == self.votes@,
    {
        let mut votes: Vec<i64> = Vec::new();
        let mut i: usize = 0;
        while i < self.votes.len()
            invariant
                i <= self.votes@.len(),
                votes@ == self.votes@.subrange(0, i as int),
            decreases self.votes@.len() - i,
        {
            votes.push(self.votes[i]);
            i = i + 1;
            proof {
                assert(votes@ =~= self.votes@.subrange(0, i as int));
            }
        }
        proof {
            assert(votes@ =~= self.votes@);
        }
        VoteRecord { url: self.url.clone(), votes }
    }

    /// The number of users who voted.
    pub fn vote_count(&self) -> (r: usize)
        ensures
            r == self.votes@.len(),
            self.wf() ==> r == self@.voters.len(),
    {
        proof {
            if self.wf() {
                self.votes@.unique_seq_to_set();
            }
        }
        self.votes.len()
    }

    /// Casts `user`'s vote, or takes it back when it was already cast.
    pub fn toggle(&mut self, user: i64)
        ensures
            old(self).wf() ==> final(self).wf(),
            final(self).url == old(self).url,
            final(self)@.voters == toggled(old(self)@.voters, user),
    {
        if position_of(&self.votes, user).is_some() {
            self.votes = without(&self.votes, user);
        } else {
            let ghost before = self.votes@;
            self.votes.push(user);
            proof {
                before.lemma_push_to_set_commute(user);
                assert(self.votes@.to_set() =~= before.to_set().insert(user));
                if before.no_duplicates() {
                    assert forall|j: int, k: int|
                        0 <= j < self.votes@.len() && 0 <= k < self.votes@.len() && j != k implies self.votes@[j]
                        != self.votes@[k] by {
                        if j < before.len() && k < before.len() {
                        } else if j == before.len() {
                            assert(before[k] == self.votes@[k]);
                        } else {
                            assert(before[j] == self.votes@[j]);
                        }
                    }
                }
            }
        }
    }
}

/// What the place-info cache answers for `id`: `None` when the id was never
/// fetched, else the stored outcome of its fetch (itself `None` when the
/// upstream gave nothing usable).
pub open spec fn cache_lookup(cache: Map<i32, Option<RfPlaceInfo>>, id: i32) -> Option<
    Option<RfPlaceInfo>,
> {
    if cache.contains_key(id) {
        Some(cache[id])
    } else {
        None
    }
}

/// The ids of the catalog places whose upper-cased name contains `q`, in
/// catalog order.
pub open spec fn matching_ids(places: Seq<RfPlace>, q: Seq<char>) -> Seq<i32>
    decreases places.len(),
{
    if places.len() == 0 {
        Seq::empty()
    } else {
        let rest = matching_ids(places.drop_last(), q);
        if is_infix(q, upper_of(places.last().name@)) {
            rest.push(places.last().id)
        } else {
            rest
        }
    }
}

/// At most the first `n` elements of `s`.
pub open spec fn take_first<T>(s: Seq<T>, n: nat) -> Seq<T> {
    if s.len() <= n {
        s
    } else {
        s.subrange(0, n as int)
    }
}

/// The place ids that a search for `query` resolves: the top list for an
/// empty query, else the first matches of the catalog.
pub open spec fn search_candidates_of(places: Seq<RfPlace>, top_ids: Seq<i32>, query: Seq<char>) -> Seq<i32> {
    let q = upper_of(query);
    if q.len() == 0 {
        top_ids
    } else {
        take_first(matching_ids(places, q), MAX_SEARCH_RESULTS as nat)
    }
}

/// The board after `user` pressed the vote button of message `message_id`.
pub open spec fn board_after_toggle(board: Map<u64, VoteRecordView>, message_id: u64, user: i64) -> Map<u64, VoteRecordView> {
    board.insert(
        message_id,
        VoteRecordView { url: board[message_id].url, voters: toggled(board[message_id].voters, user) },
    )
}

/// `after` is `before` with the catalog and fish list replaced and the
/// cache emptied; the top list and the vote board are kept.
pub open spec fn is_reload_of(after: BotState, before: BotState, places: Vec<RfPlace>, fishes: Vec<RfFish>) -> bool {
    &&& after.places == places
    &&& after.fishes == fishes
    &&& after.cache@ == Map::<i32, Option<RfPlaceInfo>>::empty()
    &&& after.top_ids == before.top_ids
    &&& after.kbdata == before.kbdata
}

/// A place that the cache does not hold costs one fetch: once the outcome
/// of that fetch is stored, a lookup of the id is answered from the cache
/// with that very outcome, and stays so while other ids are stored.
pub proof fn lemma_fetch_once(
    cache: Map<i32, Option<RfPlaceInfo>>,
    id: i32,
    fetched: Option<RfPlaceInfo>,
    other: i32,
    other_fetched: Option<RfPlaceInfo>,
)
    requires
        cache_lookup(cache, id) is None,
    ensures
        cache_lookup(cache.insert(id, fetched), id) == Some(fetched),
        other != id ==> cache_lookup(cache.insert(id, fetched).insert(other, other_fetched), id)
            == Some(fetched),
{
}

/// A catalog reload forgets every cached place: whatever the cache held
/// before, the next lookup of any id after the reload needs a fetch.
pub proof fn lemma_reload_clears_cache(
    before: BotState,
    after: BotState,
    places: Vec<RfPlace>,
    fishes: Vec<RfFish>,
    id: i32,
)
    requires
        is_reload_of(after, before, places, fishes),
    ensures
        cache_lookup(after.cache@, id) is None,
        after.cache@.len() == 0,
{
}

/// Pressing the vote button twice for one user gives back the voters as
/// they were.
pub proof fn lemma_toggle_twice(voters: Set<i64>, user: i64)
    ensures
        toggled(toggled(voters, user), user) == voters,
{
    assert(toggled(toggled(voters, user), user) =~= voters);
}

/// Two presses of one vote button by one user leave the whole vote board
/// as it was.
pub proof fn lemma_toggle_vote_twice(board: Map<u64, VoteRecordView>, message_id: u64, user: i64)
    requires
        board.contains_key(message_id),
    ensures
        board_after_toggle(board_after_toggle(board, message_id, user), message_id, user) == board,
{
    lemma_toggle_twice(board[message_id].voters, user);
    assert(board_after_toggle(board_after_toggle(board, message_id, user), message_id, user) =~= board);
}

/// The matches among a prefix of the catalog are a prefix of the matches
/// among a longer prefix.
proof fn lemma_matching_prefix(places: Seq<RfPlace>, q: Seq<char>, j: int, k: int)
    requires
        0 <= j <= k <= places.len(),
    ensures
        matching_ids(places.subrange(0, j), q).len() <= matching_ids(places.subrange(0, k), q).len(),
        matching_ids(places.subrange(0, j), q) == matching_ids(places.subrange(0, k), q).subrange(
            0,
            matching_ids(places.subrange(0, j), q).len() as int,
        ),
    decreases k - j,
{
    if j < k {
        lemma_matching_prefix(places, q, j, k - 1);
        assert(places.subrange(0, k).drop_last() =~= places.subrange(0, k - 1));
        let a = matching_ids(places.subrange(0, j), q);
        let b = matching_ids(places.subrange(0, k - 1), q);
        let c = matching_ids(places.subrange(0, k), q);
        assert(c.subrange(0, a.len() as int) =~= b.subrange(0, a.len() as int));
    } else {
        let a = matching_ids(places.subrange(0, j), q);
        assert(a.subrange(0, a.len() as int) =~= a);
    }
}

/// The whole state of the bot: the catalog, the top list, the place-info
/// cache and the vote board.
#[derive(Debug)]
pub struct BotState {
    pub places: Vec<RfPlace>,
    pub fishes: Vec<RfFish>,
    pub cache: HashMap<i32, Option<RfPlaceInfo>>,
    pub top_ids: Vec<i32>,
    pub kbdata: HashMap<u64, VoteRecord>,
}

impl BotState {
    /// Every vote record holds each voter once.
    pub open spec fn wf(&self) -> bool {
        forall|m: u64| #[trigger] self.kbdata@.contains_key(m) ==> self.kbdata@[m].wf()
    }

    /// The vote board: for each published message id, its record's meaning.
    pub open spec fn board(&self) -> Map<u64, VoteRecordView> {
        self.kbdata@.map_values(|r: VoteRecord| r@)
    }

    /// An empty state: no catalog, no top list, nothing cached, no votes.
    pub fn new() -> (r: BotState)
        ensures
            r.wf(),
            r.places@ == Seq::<RfPlace>::empty(),
            r.fishes@ == Seq::<RfFish>::empty(),
            r.cache@ == Map::<i32, Option<RfPlaceInfo>>::empty(),
            r.top_ids@ == Seq::<i32>::empty(),
            r.kbdata@ == Map::<u64, VoteRecord>::empty(),
    {
        BotState {
            places: Vec::new(),
            fishes: Vec::new(),
            cache: HashMap::new(),
            top_ids: Vec::new(),
            kbdata: HashMap::new(),
        }
    }

    /// The cached outcome for `id`, if it was ever fetched. A hit needs no
    /// upstream call; a miss is filled with `store_info`.
    pub fn cached_info(&self, id: i32) -> (r: Option<&Option<RfPlaceInfo>>)
        ensures
            match r {
                Some(v) => cache_lookup(self.cache@, id) == Some(*v),
                None => cache_lookup(self.cache@, id) is None,
            },
    {
        self.cache.get(&id)
    }

    /// Records the outcome of fetching `id`, present or not; a later lookup
    /// of `id` answers it without a fetch.
    pub fn store_info(&mut self, id: i32, info: Option<RfPlaceInfo>)
        ensures
            final(self).cache@ == old(self).cache@.insert(id, info),
            final(self).places == old(self).places,
            final(self).fishes == old(self).fishes,
            final(self).top_ids == old(self).top_ids,
            final(self).kbdata == old(self).kbdata,
    {
        self.cache.insert(id, info);
    }

    /// Installs a new catalog and fish list and forgets every cached place.
    pub fn reload_places(&mut self, places: Vec<RfPlace>, fishes: Vec<RfFish>)
        ensures
            is_reload_of(*final(self), *old(self), places, fishes),
    {
        self.places = places;
        self.fishes = fishes;
        self.cache.clear();
    }

    /// Replaces the list of places offered for an empty search.
    pub fn set_top_ids(&mut self, ids: Vec<i32>)
        ensures
            final(self).top_ids == ids,
            final(self).places == old(self).places,
            final(self).fishes == old(self).fishes,
            final(self).cache == old(self).cache,
            final(self).kbdata == old(self).kbdata,
    {
        self.top_ids = ids;
    }

    /// The place ids to resolve for `query`: the top list when the query is
    /// empty once upper-cased, else the ids of the first catalog places whose
    /// upper-cased name contains the upper-cased query.
    pub fn search_candidates(&self, query: &str) -> (r: Vec<i32>)
        ensures
            r@ == search_candidates_of(self.places@, self.top_ids@, query@),
    {
        let q = to_upper(query);
        let mut out: Vec<i32> = Vec::new();
        if q.as_str().is_empty() {
            let mut i: usize = 0;
            while i < self.top_ids.len()
                invariant
                    i <= self.top_ids@.len(),
                    out@ == self.top_ids@.subrange(0, i as int),
                decreases self.top_ids@.len() - i,
            {
                out.push(self.top_ids[i]);
                i = i + 1;
                proof {
                    assert(out@ =~= self.top_ids@.subrange(0, i as int));
                }
            }
            proof {
                assert(out@ =~= self.top_ids@);
            }
            return out;
        }
        let mut i: usize = 0;
        while i < self.places.len() && out.len() < MAX_SEARCH_RESULTS
            invariant
                i <= self.places@.len(),
                out@.len() <= MAX_SEARCH_RESULTS,
                out@ == matching_ids(self.places@.subrange(0, i as int), q@),
            decreases self.places@.len() - i,
        {
            let name = to_upper(self.places[i].name.as_str());
            proof {
                assert(self.places@.subrange(0, i + 1).drop_last() =~= self.places@.subrange(0, i as int));
            }
            if contains_text(name.as_str(), q.as_str()) {
                out.push(self.places[i].id);
            }
            i = i + 1;
        }
        proof {
            lemma_matching_prefix(self.places@, q@, i as int, self.places@.len() as int);
            assert(self.places@.subrange(0, self.places@.len() as int) =~= self.places@);
            let all = matching_ids(self.places@, q@);
            if i < self.places@.len() {
                assert(take_first(all, MAX_SEARCH_RESULTS as nat) =~= out@);
            }
        }
        out
    }

    /// Presses the vote button of message `message_id` for `user_id`: the
    /// user's vote is cast, or taken back when it was cast before. Returns a
    /// copy of the updated record, or `NotFound` when no report was
    /// registered under that message id, in which case nothing changes.
    pub fn toggle_vote(&mut self, message_id: u64, user_id: i64) -> (r: Result<VoteRecord, VoteError>)
        ensures
            old(self).wf() ==> final(self).wf(),
            r is Err <==> !old(self).kbdata@.contains_key(message_id),
            r is Err ==> r == Err::<VoteRecord, VoteError>(VoteError::NotFound),
            r is Err ==> final(self).kbdata@ == old(self).kbdata@,
            r is Ok ==> final(self).board() == board_after_toggle(old(self).board(), message_id, user_id),
            r is Ok ==> r->Ok_0@ == final(self).board()[message_id],
            r is Ok && old(self).wf() ==> r->Ok_0.wf(),
            final(self).places == old(self).places,
            final(self).fishes == old(self).fishes,
            final(self).cache == old(self).cache,
            final(self).top_ids == old(self).top_ids,
    {
        match self.kbdata.remove(&message_id) {
            None => Err(VoteError::NotFound),
            Some(mut rec) => {
                rec.toggle(user_id);
                let copy = rec.duplicate();
                let ghost toggled_rec = rec;
                self.kbdata.insert(message_id, rec);
                proof {
                    assert(self.kbdata@ == old(self).kbdata@.insert(message_id, toggled_rec));
                    assert(self.board() =~= old(self).board().insert(message_id, toggled_rec@));
                }
                Ok(copy)
            },
        }
    }

    /// Registers the vote record of a report just published as message
    /// `message_id`, unless one is there already: a repeated publication
    /// keeps the votes it has. Returns whether the record was added.
    pub fn register_report(&mut self, message_id: u64, record: VoteRecord) -> (r: bool)
        ensures
            old(self).wf() && record.wf() ==> final(self).wf(),
            r == !old(self).kbdata@.contains_key(message_id),
            r ==> final(self).kbdata@ == old(self).kbdata@.insert(message_id, record),
            !r ==> final(self).kbdata@ == old(self).kbdata@,
            final(self).places == old(self).places,
            final(self).fishes == old(self).fishes,
            final(self).cache == old(self).cache,
            final(self).top_ids == old(self).top_ids,
    {
        if self.kbdata.contains_key(&message_id) {
            false
        } else {
            self.kbdata.insert(message_id, record);
            true
        }
    }

    /// Replaces the whole vote board by a snapshot; a voter listed twice in
    /// a record counts once, and of two entries for one message the later
    /// one stands.
    pub fn load_votes(&mut self, entries: &Vec<(u64, VoteRecord)>)
        ensures
            final(self).wf(),
            final(self).board() == board_of(entries@),
            final(self).places == old(self).places,
            final(self).fishes == old(self).fishes,
            final(self).cache == old(self).cache,
            final(self).top_ids == old(self).top_ids,
    {
        let mut board: HashMap<u64, VoteRecord> = HashMap::new();
        let mut i: usize = 0;
        while i < entries.len()
            invariant
                i <= entries@.len(),
                forall|m: u64| #[trigger] board@.contains_key(m) ==> board@[m].wf(),
                board@.map_values(|r: VoteRecord| r@) == board_of(entries@.subrange(0, i as int)),
            decreases entries@.len() - i,
        {
            let rec = VoteRecord::from_voters(entries[i].1.url.clone(), &entries[i].1.votes);
            let ghost prev = board@;
            board.insert(entries[i].0, rec);
            proof {
                let sub = entries@.subrange(0, i + 1);
                assert(sub.drop_last() =~= entries@.subrange(0, i as int));
                assert(board@.map_values(|r: VoteRecord| r@) =~= prev.map_values(
                    |r: VoteRecord| r@,
                ).insert(entries@[i as int].0, rec@));
            }
            i = i + 1;
        }
        proof {
            assert(entries@.subrange(0, entries@.len() as int) =~= entries@);
        }
        self.kbdata = board;
    }
}

/// The vote board that a snapshot describes: each entry's record under its
/// message id, a later entry overriding an earlier one.
pub open spec fn board_of(entries: Seq<(u64, VoteRecord)>) -> Map<u64, VoteRecordView>
    decreases entries.len(),
{
    if entries.len() == 0 {
        Map::empty()
    } else {
        board_of(entries.drop_last()).insert(entries.last().0, entries.last().1@)
    }
}

} // verus!
