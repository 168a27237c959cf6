//! What the database is asked to do when a podcast is synced: each
//! episode of the fetched feed either updates the stored episode with
//! the same address and publication time, or is inserted as a new one.

use vstd::prelude::*;

use crate::text::eq_str;
use crate::types::EpisodeNoId;

verus! {

/// An episode as the database holds it, as far as syncing looks at it.
#[derive(Debug)]
pub struct StoredEpisode {
    pub id: i64,
    pub url: String,
    pub pubdate: Option<i64>,
}

/// What to do with one fetched episode.
#[derive(Debug, Clone, Copy, PartialEq, Eq, Structural)]
pub enum EpisodeAction {
    /// Update the stored episode with this id.
    Update(i64),
    /// Insert the episode.
    Insert,
}

/// The id of the last of the first `n` stored episodes with address
/// `url` and publication time `pubdate` (a later row takes the place of
/// an earlier one with the same address and time).
pub open spec fn last_match(known: Seq<StoredEpisode>, url: Seq<char>, pubdate: Option<i64>, n: int) -> Option<i64>
    decreases n,
{
    if n <= 0 {
        None
    } else if known[n - 1].url@ == url && known[n - 1].pubdate == pubdate {
        Some(known[n - 1].id)
    } else {
        last_match(known, url, pubdate, n - 1)
    }
}

/// What to do with the fetched episode `ep`, given the stored ones.
pub open spec fn action_for_episode(known: Seq<StoredEpisode>, ep: EpisodeNoId) -> EpisodeAction {
    match last_match(known, ep.url@, ep.pubdate, known.len() as int) {
        Some(id) => EpisodeAction::Update(id),
        None => EpisodeAction::Insert,
    }
}

/// The stored episode that a fetched one updates, if any.
fn find_stored(known: &Vec<StoredEpisode>, ep: &EpisodeNoId) -> (res: EpisodeAction)
    ensures
        res == action_for_episode(known@, *ep),
{
    let mut i: usize = known.len();
    while i > 0
        invariant
            i <= known@.len(),
            last_match(known@, ep.url@, ep.pubdate, known@.len() as int) == last_match(
                known@,
                ep.url@,
                ep.pubdate,
                i as int,
            ),
        decreases i,
    {
        let k = &known[i - 1];
        if k.pubdate == ep.pubdate && eq_str(&k.url, ep.url.as_str()) {
            return EpisodeAction::Update(k.id);
        }
        i = i - 1;
    }
    EpisodeAction::Insert
}

/// What to do with each fetched episode, oldest first (the feed lists
/// the newest first, so the actions come in the reverse of its order):
/// an episode with the address and publication time of a stored one
/// updates it; any other is inserted. Every stored and every fetched
/// episode has a publication time.
pub fn update_episodes(known: &Vec<StoredEpisode>, episodes: &Vec<EpisodeNoId>) -> (res: Vec<EpisodeAction>)
    requires
        forall|i: int| 0 <= i < known@.len() ==> (#[trigger] known@[i]).pubdate is Some,
        forall|i: int| 0 <= i < episodes@.len() ==> (#[trigger] episodes@[i]).pubdate is Some,
    ensures
        res@.len() == episodes@.len(),
        forall|i: int|
            0 <= i < res@.len() ==> #[trigger] res@[i] == action_for_episode(
                known@,
                episodes@[episodes@.len() - 1 - i],
            ),
{
    let n = episodes.len();
    let mut res: Vec<EpisodeAction> = Vec::new();
    let mut j: usize = n;
    while j > 0
        invariant
            j <= n,
            n == episodes@.len(),
            res@.len() == n - j,
            forall|i: int|
                0 <= i < res@.len() ==> #[trigger] res@[i] == action_for_episode(
                    known@,
                    episodes@[n - 1 - i],
                ),
        decreases j,
    {
        let a = find_stored(known, &episodes[j - 1]);
        res.push(a);
        j = j - 1;
    }
    res
}

/// The stored episode with the address and time of a fetched one: some
/// stored episode among the first `n` has `url` and `pubdate`.
pub open spec fn stored_among(known: Seq<StoredEpisode>, url: Seq<char>, pubdate: Option<i64>, n: int) -> bool {
    exists|i: int| 0 <= i < n && known[i].url@ == url && known[i].pubdate == pubdate
}

/// What `last_match` finds among the first `n` stored episodes: nothing
/// exactly when no stored episode there has the address and time, and
/// otherwise the id of one that has them, with none after it.
proof fn lemma_last_match(known: Seq<StoredEpisode>, url: Seq<char>, pubdate: Option<i64>, n: int)
    requires
        0 <= n <= known.len(),
    ensures
        last_match(known, url, pubdate, n) is None <==> !stored_among(known, url, pubdate, n),
        last_match(known, url, pubdate, n) matches Some(id) ==> exists|i: int|
            0 <= i < n && known[i].url@ == url && known[i].pubdate == pubdate && known[i].id == id
                && !stored_among(known.skip(i + 1), url, pubdate, n - i - 1),
    decreases n,
{
    if n > 0 {
        lemma_last_match(known, url, pubdate, n - 1);
        if known[n - 1].url@ == url && known[n - 1].pubdate == pubdate {
            assert(stored_among(known, url, pubdate, n));
            assert(!stored_among(known.skip(n), url, pubdate, 0));
        } else {
            if stored_among(known, url, pubdate, n) {
                let i = choose|i: int| 0 <= i < n && known[i].url@ == url && known[i].pubdate == pubdate;
                assert(i < n - 1);
                assert(stored_among(known, url, pubdate, n - 1));
            }
            if let Some(id) = last_match(known, url, pubdate, n) {
                let i = choose|i: int|
                    0 <= i < n - 1 && known[i].url@ == url && known[i].pubdate == pubdate && known[i].id == id
                        && !stored_among(known.skip(i + 1), url, pubdate, n - 1 - i - 1);
                assert(!stored_among(known.skip(i + 1), url, pubdate, n - i - 1)) by {
                    if stored_among(known.skip(i + 1), url, pubdate, n - i - 1) {
                        let rest = known.skip(i + 1);
                        let j = choose|j: int|
                            0 <= j < n - i - 1 && (#[trigger] rest[j]).url@ == url && rest[j].pubdate == pubdate;
                        assert(rest[j] == known[i + 1 + j]);
                        assert(j < n - i - 2);
                        assert(stored_among(known.skip(i + 1), url, pubdate, n - 1 - i - 1));
                    }
                }
            }
        }
    }
}

/// Syncing inserts a fetched episode exactly when no stored episode has
/// its address and publication time, any of them (the first included);
/// otherwise it updates a stored episode that has them, the last one
/// stored with them.
pub proof fn law_update_when_stored(known: Seq<StoredEpisode>, ep: EpisodeNoId)
    ensures
        (action_for_episode(known, ep) == EpisodeAction::Insert) <==> !(exists|i: int|
            0 <= i < known.len() && known[i].url@ == ep.url@ && known[i].pubdate == ep.pubdate),
        action_for_episode(known, ep) matches EpisodeAction::Update(id) ==> exists|i: int|
            0 <= i < known.len() && known[i].url@ == ep.url@ && known[i].pubdate == ep.pubdate
                && known[i].id == id && forall|j: int|
                i < j < known.len() ==> !(known[j].url@ == ep.url@ && known[j].pubdate == ep.pubdate),
{
    lemma_last_match(known, ep.url@, ep.pubdate, known.len() as int);
    if let EpisodeAction::Update(id) = action_for_episode(known, ep) {
        let n = known.len() as int;
        let i = choose|i: int|
            0 <= i < n && known[i].url@ == ep.url@ && known[i].pubdate == ep.pubdate && known[i].id == id
                && !stored_among(known.skip(i + 1), ep.url@, ep.pubdate, n - i - 1);
        assert forall|j: int| i < j < n implies !(known[j].url@ == ep.url@ && known[j].pubdate == ep.pubdate) by {
            if known[j].url@ == ep.url@ && known[j].pubdate == ep.pubdate {
                assert(known.skip(i + 1)[j - i - 1] == known[j]);
                assert(stored_among(known.skip(i + 1), ep.url@, ep.pubdate, n - i - 1));
            }
        }
    }
}

} // verus!
