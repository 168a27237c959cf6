//! The decisions of the main controller: which episodes to download,
//! how syncs and downloads in progress are counted and reported, what
//! messages report the outcome of adding and syncing feeds, and the
//! command that plays an episode.

use vstd::prelude::*;

use crate::downloads::EpData;
use crate::text::{decimal, decimal_chars, push_char, push_chars, push_str};
use crate::types::{Episode, LockVec, NewEpisode, Podcast};

verus! {

broadcast use vstd::std_specs::hash::group_hash_axioms;

/// Messages sent from the main controller to the interface.
#[derive(Debug)]
pub enum MainMessage {
    UiUpdateMenus,
    UiSpawnNotif(String, bool, u64),
    UiSpawnPersistentNotif(String, bool),
    UiClearPersistentNotif,
    UiTearDown,
}

/// What syncing one podcast changed: the episodes added and the ids of
/// those updated.
#[derive(Debug)]
pub struct SyncResult {
    pub added: Vec<NewEpisode>,
    pub updated: Vec<i64>,
}

/// Appends the decimal digits of `n`.
fn push_decimal(out: &mut String, n: usize)
    ensures
        final(out)@ == old(out)@ + decimal(n as nat),
{
    let d = decimal_chars(n as u64);
    push_chars(out, &d);
}

/// `s` when `n` is more than one, else nothing.
pub open spec fn plural(n: nat) -> Seq<char> {
    if n > 1 {
        seq!['s']
    } else {
        Seq::empty()
    }
}

/// Appends `s` when `n` is more than one.
fn push_plural(out: &mut String, n: usize)
    ensures
        final(out)@ == old(out)@ + plural(n as nat),
{
    if n > 1 {
        push_char(out, 's');
    } else {
        assert(old(out)@ + plural(n as nat) =~= old(out)@);
    }
}

/// The message on syncs and downloads in progress: how many podcasts
/// are syncing and how many episodes are downloading, or `None` (the
/// message is cleared) when neither is.
pub open spec fn tracker_text(sync_len: nat, dl_len: nat) -> Option<Seq<char>> {
    if sync_len > 0 && dl_len > 0 {
        Some(
            "Syncing "@ + decimal(sync_len) + " podcast"@ + plural(sync_len) + ", downloading "@
                + decimal(dl_len) + " episode"@ + plural(dl_len) + "..."@,
        )
    } else if sync_len > 0 {
        Some("Syncing "@ + decimal(sync_len) + " podcast"@ + plural(sync_len) + "..."@)
    } else if dl_len > 0 {
        Some("Downloading "@ + decimal(dl_len) + " episode"@ + plural(dl_len) + "..."@)
    } else {
        None
    }
}

/// The total of the episodes added and of those updated by the syncs.
pub open spec fn sync_totals(results: Seq<SyncResult>) -> (nat, nat)
    decreases results.len(),
{
    if results.len() == 0 {
        (0, 0)
    } else {
        let t = sync_totals(results.drop_last());
        (t.0 + results.last().added@.len(), t.1 + results.last().updated@.len())
    }
}

/// The syncs and downloads in progress: how many podcasts are being
/// synced, the results of the syncs finished so far, and the episodes
/// being downloaded.
#[derive(Debug)]
pub struct Progress {
    pub sync_counter: usize,
    pub sync_tracker: Vec<SyncResult>,
    pub download_tracker: std::collections::HashSet<i64>,
}

impl Progress {
    /// Nothing in progress.
    pub fn new() -> (res: Self)
        ensures
            res.sync_counter == 0,
            res.sync_tracker@.len() == 0,
            res.download_tracker@ == Set::<i64>::empty(),
    {
        Progress {
            sync_counter: 0,
            sync_tracker: Vec::new(),
            download_tracker: std::collections::HashSet::new(),
        }
    }

    /// The message on what is in progress (`None`: clear it).
    pub fn update_tracker_notif(&self) -> (res: Option<String>)
        ensures
            match res {
                Some(t) => tracker_text(self.sync_counter as nat, self.download_tracker@.len()) == Some(
                    t@,
                ),
                None => tracker_text(self.sync_counter as nat, self.download_tracker@.len()) is None,
            },
    {
        let sync_len = self.sync_counter;
        let dl_len = self.download_tracker.len();
        if sync_len > 0 && dl_len > 0 {
            let mut t = String::from_str("Syncing ");
            push_decimal(&mut t, sync_len);
            push_str(&mut t, " podcast");
            push_plural(&mut t, sync_len);
            push_str(&mut t, ", downloading ");
            push_decimal(&mut t, dl_len);
            push_str(&mut t, " episode");
            push_plural(&mut t, dl_len);
            push_str(&mut t, "...");
            Some(t)
        } else if sync_len > 0 {
            let mut t = String::from_str("Syncing ");
            push_decimal(&mut t, sync_len);
            push_str(&mut t, " podcast");
            push_plural(&mut t, sync_len);
            push_str(&mut t, "...");
            Some(t)
        } else if dl_len > 0 {
            let mut t = String::from_str("Downloading ");
            push_decimal(&mut t, dl_len);
            push_str(&mut t, " episode");
            push_plural(&mut t, dl_len);
            push_str(&mut t, "...");
            Some(t)
        } else {
            None
        }
    }

    /// Counts one more podcast being synced.
    pub fn begin_sync(&mut self)
        requires
            old(self).sync_counter < usize::MAX,
        ensures
            final(self).sync_counter == old(self).sync_counter + 1,
            final(self).sync_tracker@ == old(self).sync_tracker@,
            final(self).download_tracker@ == old(self).download_tracker@,
    {
        self.sync_counter = self.sync_counter + 1;
    }

    /// Records a finished sync. When it was the last one in progress,
    /// the results are totalled and cleared, and the message reporting
    /// them is given.
    pub fn sync_finished(&mut self, result: SyncResult) -> (res: Option<String>)
        requires
            old(self).sync_counter > 0,
            sync_totals(old(self).sync_tracker@.push(result)).0 <= usize::MAX,
            sync_totals(old(self).sync_tracker@.push(result)).1 <= usize::MAX,
        ensures
            final(self).sync_counter == old(self).sync_counter - 1,
            final(self).download_tracker@ == old(self).download_tracker@,
            old(self).sync_counter > 1 ==> res is None && final(self).sync_tracker@ == old(
                self,
            ).sync_tracker@.push(result),
            old(self).sync_counter == 1 ==> final(self).sync_tracker@.len() == 0,
            old(self).sync_counter == 1 ==> (res matches Some(m) && {
                let t = sync_totals(old(self).sync_tracker@.push(result));
                m@ == "Sync complete: Added "@ + decimal(t.0) + ", updated "@ + decimal(t.1)
                    + " episodes."@
            }),
    {
        self.sync_tracker.push(result);
        self.sync_counter = self.sync_counter - 1;
        if self.sync_counter == 0 {
            let ghost all = self.sync_tracker@;
            let mut added: usize = 0;
            let mut updated: usize = 0;
            let mut i: usize = 0;
            while i < self.sync_tracker.len()
                invariant
                    i <= self.sync_tracker@.len(),
                    all == self.sync_tracker@,
                    sync_totals(all).0 <= usize::MAX,
                    sync_totals(all).1 <= usize::MAX,
                    (added as nat, updated as nat) == sync_totals(all.take(i as int)),
                decreases self.sync_tracker@.len() - i,
            {
                proof {
                    lemma_sync_totals_prefix(all, (i + 1) as nat);
                    assert(all.take(i + 1).drop_last() =~= all.take(i as int));
                }
                added = added + self.sync_tracker[i].added.len();
                updated = updated + self.sync_tracker[i].updated.len();
                i = i + 1;
            }
            assert(all.take(i as int) =~= all);
            self.sync_tracker = Vec::new();
            let mut m = String::from_str("Sync complete: Added ");
            push_decimal(&mut m, added);
            push_str(&mut m, ", updated ");
            push_decimal(&mut m, updated);
            push_str(&mut m, " episodes.");
            Some(m)
        } else {
            None
        }
    }

    /// Records the episodes now being downloaded.
    pub fn begin_downloads(&mut self, eps: &Vec<EpData>)
        ensures
            final(self).download_tracker@ == old(self).download_tracker@ + eps@.map_values(
                |e: EpData| e.id,
            ).to_set(),
            final(self).sync_counter == old(self).sync_counter,
            final(self).sync_tracker@ == old(self).sync_tracker@,
    {
        let mut i: usize = 0;
        while i < eps.len()
            invariant
                i <= eps@.len(),
                self.download_tracker@ == old(self).download_tracker@ + eps@.take(i as int).map_values(
                    |e: EpData| e.id,
                ).to_set(),
                self.sync_counter == old(self).sync_counter,
                self.sync_tracker@ == old(self).sync_tracker@,
            decreases eps.len() - i,
        {
            let ghost before = self.download_tracker@;
            self.download_tracker.insert(eps[i].id);
            proof {
                let ids_i = eps@.take(i as int).map_values(|e: EpData| e.id);
                let ids_n = eps@.take(i + 1).map_values(|e: EpData| e.id);
                assert(ids_n =~= ids_i.push(eps@[i as int].id));
                assert(ids_n.to_set() =~= ids_i.to_set().insert(eps@[i as int].id)) by {
                    assert forall|x: i64| ids_n.to_set().contains(x) <==> ids_i.to_set().insert(
                        eps@[i as int].id,
                    ).contains(x) by {
                        if ids_n.contains(x) && x != eps@[i as int].id {
                            let k = choose|k: int| 0 <= k < ids_n.len() && ids_n[k] == x;
                            assert(ids_i[k] == x);
                        }
                        if ids_i.contains(x) {
                            let k = choose|k: int| 0 <= k < ids_i.len() && ids_i[k] == x;
                            assert(ids_n[k] == x);
                        }
                        if x == eps@[i as int].id {
                            assert(ids_n[i as int] == x);
                        }
                    }
                }
                assert(self.download_tracker@ =~= old(self).download_tracker@ + ids_n.to_set());
            }
            i = i + 1;
        }
        assert(eps@.take(i as int) =~= eps@);
    }

    /// Records a finished download; tells whether no download is left.
    pub fn download_finished(&mut self, id: i64) -> (res: bool)
        ensures
            final(self).download_tracker@ == old(self).download_tracker@.remove(id),
            res == final(self).download_tracker@.is_empty(),
            final(self).sync_counter == old(self).sync_counter,
            final(self).sync_tracker@ == old(self).sync_tracker@,
    {
        self.download_tracker.remove(&id);
        self.download_tracker.is_empty()
    }
}

/// The totals of a prefix extend by the next result.
proof fn lemma_sync_totals_prefix(all: Seq<SyncResult>, n: nat)
    requires
        1 <= n <= all.len(),
    ensures
        sync_totals(all.take(n as int)) == ({
            let t = sync_totals(all.take(n - 1));
            (t.0 + all[n - 1].added@.len(), t.1 + all[n - 1].updated@.len())
        }),
        sync_totals(all.take(n as int)).0 <= sync_totals(all).0,
        sync_totals(all.take(n as int)).1 <= sync_totals(all).1,
    decreases all.len() - n,
{
    assert(all.take(n as int).drop_last() =~= all.take(n - 1));
    if n < all.len() {
        lemma_sync_totals_prefix(all, n + 1);
    } else {
        assert(all.take(n as int) =~= all);
    }
}

/// Whether the totals of the episodes added and updated by the syncs in
/// `tracker` and by `result` fit in a `usize`, as recording `result`
/// with `Progress::sync_finished` needs.
pub fn sync_totals_fit(tracker: &Vec<SyncResult>, result: &SyncResult) -> (res: bool)
    ensures
        res == (sync_totals(tracker@.push(*result)).0 <= usize::MAX
            && sync_totals(tracker@.push(*result)).1 <= usize::MAX),
{
    let ghost all = tracker@.push(*result);
    let n = tracker.len();
    let mut added: usize = 0;
    let mut updated: usize = 0;
    let mut i: usize = 0;
    assert(all.take(0) =~= Seq::<SyncResult>::empty());
    while i < n
        invariant
            n == tracker@.len(),
            i <= n,
            all == tracker@.push(*result),
            (added as nat, updated as nat) == sync_totals(all.take(i as int)),
        decreases n - i,
    {
        proof {
            lemma_sync_totals_prefix(all, (i + 1) as nat);
        }
        assert(all[i as int] == tracker@[i as int]);
        let a = added.checked_add(tracker[i].added.len());
        let u = updated.checked_add(tracker[i].updated.len());
        if a.is_none() || u.is_none() {
            return false;
        }
        added = a.unwrap();
        updated = u.unwrap();
        i = i + 1;
    }
    proof {
        lemma_sync_totals_prefix(all, (n + 1) as nat);
        assert(all.take(n + 1) =~= all);
    }
    added.checked_add(result.added.len()).is_some() && updated.checked_add(result.updated.len()).is_some()
}

/// The episodes to download among `eps`: those not downloaded yet and
/// not being downloaded, in order.
pub open spec fn to_download(eps: Seq<Episode>, in_progress: Set<i64>) -> Seq<Episode> {
    eps.filter(|e: Episode| e.path is None && !in_progress.contains(e.id))
}

/// The episodes to download among the first `i + 1` of `eps`: those
/// among the first `i`, and episode `i` if it is to be downloaded.
proof fn lemma_to_download_step(eps: Seq<Episode>, i: int, in_progress: Set<i64>)
    requires
        0 <= i < eps.len(),
    ensures
        to_download(eps.take(i + 1), in_progress) == if eps[i].path is None && !in_progress.contains(
            eps[i].id,
        ) {
            to_download(eps.take(i), in_progress).push(eps[i])
        } else {
            to_download(eps.take(i), in_progress)
        },
{
    reveal(Seq::filter);
    assert(eps.take(i + 1).drop_last() =~= eps.take(i));
    assert(eps.take(i + 1).last() == eps[i]);
}

/// What a download needs of an episode.
pub open spec fn ep_data_of(e: Episode) -> (i64, i64, Seq<char>, Seq<char>, Option<i64>) {
    (e.id, e.pod_id, e.title@, e.url@, e.pubdate)
}

/// The view of a download request (its file path aside).
pub open spec fn ep_data_view(d: EpData) -> (i64, i64, Seq<char>, Seq<char>, Option<i64>) {
    (d.id, d.pod_id, d.title@, d.url@, d.pubdate)
}

/// What a download needs of an episode, with no file yet.
fn ep_data(ep: &Episode) -> (res: EpData)
    ensures
        ep_data_view(res) == ep_data_of(*ep),
        res.file_path is None,
{
    EpData {
        id: ep.id,
        pod_id: ep.pod_id,
        title: ep.title.clone(),
        url: ep.url.clone(),
        pubdate: ep.pubdate,
        file_path: None,
    }
}

/// The episodes of `podcast` to download: the one given, or all of
/// them, keeping those not downloaded yet and not being downloaded.
pub fn episodes_to_download(podcast: &Podcast, ep_id: Option<i64>, in_progress: &std::collections::HashSet<i64>) -> (res: Vec<EpData>)
    requires
        ep_id matches Some(id) ==> podcast.episodes.map_view().contains_key(id),
    ensures
        res@.map_values(|d: EpData| ep_data_view(d)) == to_download(
            match ep_id {
                Some(id) => seq![podcast.episodes.map_view()[id]],
                None => podcast.episodes.items(),
            },
            in_progress@,
        ).map_values(|e: Episode| ep_data_of(e)),
        forall|i: int| 0 <= i < res@.len() ==> (#[trigger] res@[i]).file_path is None,
{
    let ghost eps = match ep_id {
        Some(id) => seq![podcast.episodes.map_view()[id]],
        None => podcast.episodes.items(),
    };
    let ghost goal = to_download(eps, in_progress@).map_values(|e: Episode| ep_data_of(e));
    let mut res: Vec<EpData> = Vec::new();
    match ep_id {
        Some(id) => {
            let ep = podcast.episodes.clone_episode(id).unwrap();
            proof {
                lemma_to_download_step(eps, 0, in_progress@);
                assert(eps.take(1) =~= eps);
                assert(eps.take(0) =~= Seq::<Episode>::empty());
                reveal(Seq::filter);
            }
            if ep.path.is_none() && !in_progress.contains(&ep.id) {
                res.push(ep_data(&ep));
            }
            assert(res@.map_values(|d: EpData| ep_data_view(d)) =~= goal);
        },
        None => {
            let n = podcast.episodes.len();
            let mut i: usize = 0;
            while i < n
                invariant
                    i <= n,
                    n == podcast.episodes.order_view().len(),
                    eps == podcast.episodes.items(),
                    res@.map_values(|d: EpData| ep_data_view(d)) == to_download(
                        eps.take(i as int),
                        in_progress@,
                    ).map_values(|e: Episode| ep_data_of(e)),
                    forall|k: int| 0 <= k < res@.len() ==> (#[trigger] res@[k]).file_path is None,
                decreases n - i,
            {
                let ep = podcast.episodes.item_at(i);
                proof {
                    lemma_to_download_step(eps, i as int, in_progress@);
                }
                let ghost prev = res@;
                let busy = in_progress.contains(&ep.id);
                assert(busy == in_progress@.contains(ep.id));
                assert(*ep == eps[i as int]);
                if ep.path.is_none() && !busy {
                    let d = ep_data(ep);
                    res.push(d);
                    assert(res@.map_values(|d: EpData| ep_data_view(d)) =~= prev.map_values(
                        |d: EpData| ep_data_view(d),
                    ).push(ep_data_of(eps[i as int])));
                    assert(to_download(eps.take(i as int), in_progress@).push(eps[i as int]).map_values(
                        |e: Episode| ep_data_of(e),
                    ) =~= to_download(eps.take(i as int), in_progress@).map_values(
                        |e: Episode| ep_data_of(e),
                    ).push(ep_data_of(eps[i as int])));
                }
                i = i + 1;
                assert(res@.map_values(|d: EpData| ep_data_view(d)) =~= to_download(
                    eps.take(i as int),
                    in_progress@,
                ).map_values(|e: Episode| ep_data_of(e)));
            }
            assert(eps.take(i as int) =~= eps);
        },
    }
    res
}

/// The message when a feed could not be fetched, naming the podcast
/// when its title is known.
pub fn feed_error_message(title: &Option<String>) -> (res: String)
    ensures
        res@ == match *title {
            Some(t) => "Error retrieving RSS feed for "@ + t@ + "."@,
            None => "Error retrieving RSS feed."@,
        },
{
    match title {
        Some(t) => {
            let mut m = String::from_str("Error retrieving RSS feed for ");
            push_str(&mut m, t.as_str());
            push_str(&mut m, ".");
            m
        },
        None => String::from_str("Error retrieving RSS feed."),
    }
}

/// The message when a feed's data could not be stored: syncing podcast
/// `title` failed, or adding a new podcast did.
pub fn store_error_message(syncing: bool, title: &str) -> (res: String)
    ensures
        res@ == if syncing {
            "Error synchronizing "@ + title@ + "."@
        } else {
            "Error adding podcast to database."@
        },
{
    if syncing {
        let mut m = String::from_str("Error synchronizing ");
        push_str(&mut m, title);
        push_str(&mut m, ".");
        m
    } else {
        String::from_str("Error adding podcast to database.")
    }
}

/// The message when a new podcast was added with its episodes.
pub fn added_message(result: &SyncResult) -> (res: String)
    ensures
        res@ == "Successfully added "@ + decimal(result.added@.len()) + " episodes."@,
{
    let mut m = String::from_str("Successfully added ");
    push_decimal(&mut m, result.added.len());
    push_str(&mut m, " episodes.");
    m
}

/// `cmd` with each `%s` replaced by `q`, from left to right.
pub open spec fn fill_placeholders(cmd: Seq<char>, q: Seq<char>) -> Seq<char>
    decreases cmd.len(),
{
    if cmd.len() == 0 {
        Seq::empty()
    } else if cmd.len() >= 2 && cmd[0] == '%' && cmd[1] == 's' {
        q + fill_placeholders(cmd.skip(2), q)
    } else {
        seq![cmd[0]] + fill_placeholders(cmd.skip(1), q)
    }
}

/// `%s` starts at position `i` of `cmd`.
pub open spec fn placeholder_at(cmd: Seq<char>, i: int) -> bool {
    0 <= i < cmd.len() - 1 && cmd[i] == '%' && cmd[i + 1] == 's'
}

/// `cmd` holds `%s`.
pub open spec fn has_placeholder(cmd: Seq<char>) -> bool {
    exists|i: int| #[trigger] placeholder_at(cmd, i)
}

/// The shell command that plays `path`: the play command with each
/// `%s` replaced by the path in double quotes, or, without `%s`, the
/// play command followed by a space and the path in double quotes.
pub open spec fn spec_play_command(cmd: Seq<char>, path: Seq<char>) -> Seq<char> {
    let q = seq!['"'] + path + seq!['"'];
    if has_placeholder(cmd) {
        fill_placeholders(cmd, q)
    } else {
        cmd + seq![' '] + q
    }
}

/// The shell command that plays `path` with the play command `command`.
pub fn play_command_line(command: &str, path: &str) -> (res: String)
    ensures
        res@ == spec_play_command(command@, path@),
{
    let c = crate::text::chars_of(command);
    let ghost cv = c@;
    let mut q = String::new();
    push_char(&mut q, '"');
    push_str(&mut q, path);
    push_char(&mut q, '"');
    assert(q@ =~= seq!['"'] + path@ + seq!['"']);
    let n = c.len();
    assert(cv.skip(0) =~= cv);
    let mut found = false;
    let mut out = String::new();
    let mut i: usize = 0;
    while i < n
        invariant
            i <= n,
            n == cv.len(),
            cv == c@,
            cv == command@,
            out@ + fill_placeholders(cv.skip(i as int), q@) == fill_placeholders(cv, q@),
            found ==> has_placeholder(cv),
            !found ==> forall|k: int| 0 <= k < i ==> !#[trigger] placeholder_at(cv, k),
            !found ==> out@ == cv.take(i as int),
        decreases n - i,
    {
        let ghost rest = cv.skip(i as int);
        if i + 1 < n && c[i] == '%' && c[i + 1] == 's' {
            assert(placeholder_at(cv, i as int));
            assert(rest.skip(2) =~= cv.skip(i + 2));
            push_str(&mut out, q.as_str());
            found = true;
            i = i + 2;
        } else {
            assert(rest.skip(1) =~= cv.skip(i + 1));
            push_char(&mut out, c[i]);
            assert(!found ==> out@ =~= cv.take(i + 1));
            i = i + 1;
        }
    }
    assert(cv.skip(i as int) =~= Seq::<char>::empty());
    if found {
        out
    } else {
        assert(out@ =~= cv);
        push_char(&mut out, ' ');
        push_str(&mut out, q.as_str());
        out
    }
}

/// What playing an episode opens, and the message if the player cannot
/// be started: the downloaded file when there is one, else the
/// episode's address, streamed.
pub fn play_target(ep: &Episode) -> (res: (String, &'static str))
    ensures
        match ep.path {
            Some(p) => res.0@ == p@ && res.1@ == "Error: Could not play file. Check configuration."@,
            None => res.0@ == ep.url@ && res.1@ == "Error: Could not stream URL."@,
        },
{
    match &ep.path {
        Some(p) => (p.clone(), "Error: Could not play file. Check configuration."),
        None => (ep.url.clone(), "Error: Could not stream URL."),
    }
}

/// `new` is `old` with episode `ep_id` of podcast `pod_id` replaced by
/// `e`: every other podcast, the podcast's other fields and episodes,
/// and all lists of ids stay as they were.
pub open spec fn episode_replaced(old: LockVec<Podcast>, new: LockVec<Podcast>, pod_id: i64, ep_id: i64, e: Episode) -> bool {
    let o = old.map_view()[pod_id];
    let p = new.map_view()[pod_id];
    &&& new.order_view() == old.order_view()
    &&& new.filtered_view() == old.filtered_view()
    &&& new.map_view().dom() == old.map_view().dom()
    &&& forall|k: i64| k != pod_id && old.map_view().contains_key(k) ==> #[trigger] new.map_view()[k] == old.map_view()[k]
    &&& p.id == o.id && p.title == o.title && p.sort_title == o.sort_title && p.url == o.url
    &&& p.description == o.description && p.author == o.author && p.explicit == o.explicit
    &&& p.last_checked == o.last_checked
    &&& p.episodes.map_view() == o.episodes.map_view().insert(ep_id, e)
    &&& p.episodes.order_view() == o.episodes.order_view()
    &&& p.episodes.filtered_view() == o.episodes.filtered_view()
}

/// Puts `e` in place of episode `ep_id` of podcast `pod_id`, when both
/// exist; tells whether they do.
fn replace_episode(podcasts: &mut LockVec<Podcast>, pod_id: i64, ep_id: i64, e: Episode) -> (res: bool)
    ensures
        res == (old(podcasts).map_view().contains_key(pod_id)
            && old(podcasts).map_view()[pod_id].episodes.map_view().contains_key(ep_id)),
        res ==> episode_replaced(*old(podcasts), *final(podcasts), pod_id, ep_id, e),
        !res ==> *final(podcasts) == *old(podcasts),
{
    match podcasts.clone_podcast(pod_id) {
        Some(p) => {
            if p.episodes.clone_episode(ep_id).is_none() {
                return false;
            }
            let mut p = p;
            p.episodes.replace(ep_id, e);
            podcasts.replace(pod_id, p);
            assert(podcasts.map_view().dom() =~= old(podcasts).map_view().dom());
            true
        },
        None => false,
    }
}

/// Marks episode `ep_id` of podcast `pod_id` as played or unplayed;
/// tells whether the episode was found (when it was not, nothing
/// changes).
pub fn set_episode_played(podcasts: &mut LockVec<Podcast>, pod_id: i64, ep_id: i64, played: bool) -> (res: bool)
    ensures
        res == (old(podcasts).map_view().contains_key(pod_id)
            && old(podcasts).map_view()[pod_id].episodes.map_view().contains_key(ep_id)),
        res ==> episode_replaced(*old(podcasts), *final(podcasts), pod_id, ep_id,
            Episode { played: played, ..old(podcasts).map_view()[pod_id].episodes.map_view()[ep_id] }),
        !res ==> *final(podcasts) == *old(podcasts),
{
    match podcasts.clone_episode(pod_id, ep_id) {
        Some(e) => {
            let mut e = e;
            e.played = played;
            replace_episode(podcasts, pod_id, ep_id, e)
        },
        None => false,
    }
}

/// Records where episode `ep_id` of podcast `pod_id` is stored locally
/// (`None`: its file was deleted); tells whether the episode was found
/// (when it was not, nothing changes).
pub fn set_episode_path(podcasts: &mut LockVec<Podcast>, pod_id: i64, ep_id: i64, path: Option<String>) -> (res: bool)
    ensures
        res == (old(podcasts).map_view().contains_key(pod_id)
            && old(podcasts).map_view()[pod_id].episodes.map_view().contains_key(ep_id)),
        res ==> episode_replaced(*old(podcasts), *final(podcasts), pod_id, ep_id,
            Episode { path: path, ..old(podcasts).map_view()[pod_id].episodes.map_view()[ep_id] }),
        !res ==> *final(podcasts) == *old(podcasts),
{
    match podcasts.clone_episode(pod_id, ep_id) {
        Some(e) => {
            let mut e = e;
            e.path = path;
            replace_episode(podcasts, pod_id, ep_id, e)
        },
        None => false,
    }
}

/// Empties the episode list of podcast `pod_id`; tells whether the
/// podcast was found (when it was not, nothing changes). Every other
/// podcast, the podcast's other fields and the lists of podcast ids stay
/// as they were.
pub fn clear_episodes(podcasts: &mut LockVec<Podcast>, pod_id: i64) -> (res: bool)
    ensures
        res == old(podcasts).map_view().contains_key(pod_id),
        !res ==> *final(podcasts) == *old(podcasts),
        res ==> {
            let o = old(podcasts).map_view()[pod_id];
            let p = final(podcasts).map_view()[pod_id];
            &&& final(podcasts).order_view() == old(podcasts).order_view()
            &&& final(podcasts).filtered_view() == old(podcasts).filtered_view()
            &&& final(podcasts).map_view().dom() == old(podcasts).map_view().dom()
            &&& forall|k: i64| k != pod_id && old(podcasts).map_view().contains_key(k)
                ==> #[trigger] final(podcasts).map_view()[k] == old(podcasts).map_view()[k]
            &&& p.id == o.id && p.title == o.title && p.url == o.url
            &&& p.episodes.map_view().len() == 0
            &&& p.episodes.order_view().len() == 0
        },
{
    match podcasts.clone_podcast(pod_id) {
        Some(p) => {
            let mut p = p;
            let empty: Vec<Episode> = Vec::new();
            p.episodes = LockVec::new(empty);
            assert(p.episodes.order_view() =~= Seq::<i64>::empty());
            podcasts.replace(pod_id, p);
            assert(podcasts.map_view().dom() =~= old(podcasts).map_view().dom());
            true
        },
        None => false,
    }
}

/// The directory the episodes of the podcast titled `pod_title` are
/// downloaded to: the title, made safe as a file name, under
/// `download_path`.
pub fn podcast_dir(download_path: &str, pod_title: &str) -> (res: String)
    ensures
        res@ == crate::config::path_join(download_path@, crate::downloads::sanitized(pod_title@)),
{
    let name = crate::downloads::sanitize_name(pod_title);
    crate::config::push_component(String::from_str(download_path), name.as_str())
}

/// Where the configuration file is: the third command-line argument
/// when there are exactly three, else `shellcaster/config.toml` in the
/// system's configuration directory, if it has one.
pub fn get_config_path(args: &Vec<String>, default_config: Option<String>) -> (res: Option<String>)
    ensures
        args@.len() == 3 ==> (res matches Some(p) && p@ == args@[2]@),
        args@.len() != 3 ==> match default_config {
            Some(d) => (res matches Some(p) && p@ == crate::config::path_join(
                crate::config::path_join(d@, "shellcaster"@),
                "config.toml"@,
            )),
            None => res is None,
        },
{
    if args.len() == 3 {
        Some(args[2].clone())
    } else {
        match default_config {
            Some(d) => {
                let dir = crate::config::push_component(d, "shellcaster");
                Some(crate::config::push_component(dir, "config.toml"))
            },
            None => None,
        }
    }
}


/// A play command without `%s` is left as it is by the replacing.
pub proof fn law_fill_without_placeholder(cmd: Seq<char>, q: Seq<char>)
    requires
        !has_placeholder(cmd),
    ensures
        fill_placeholders(cmd, q) == cmd,
    decreases cmd.len(),
{
    if cmd.len() > 0 {
        assert(!placeholder_at(cmd, 0));
        assert forall|i: int| !#[trigger] placeholder_at(cmd.skip(1), i) by {
            if placeholder_at(cmd.skip(1), i) {
                assert(placeholder_at(cmd, i + 1));
            }
        }
        law_fill_without_placeholder(cmd.skip(1), q);
        assert(seq![cmd[0]] + cmd.skip(1) =~= cmd);
    }
}


} // verus!
