//! Podcasts, episodes, and the list that holds them for the menus.
//!
//! Times are kept as Unix timestamps (seconds), and file paths as
//! strings.

use std::cmp::Ordering;

use vstd::prelude::*;
use vstd::string::*;
use unicode_segmentation::UnicodeSegmentation;

use crate::text::{
    decimal,
    decimal_chars,
    fmt_02,
    pad_left,
    push_char,
    push_chars,
    push_fmt_02,
    push_padded_left,
    push_str,
    trunc_div,
};
use crate::downloads::DownloadMsg;
use crate::feeds::FeedMsg;
use crate::ui::UiMsg;

verus! {

/// The grapheme clusters of a string, as the `unicode-segmentation`
/// crate splits it (extended clusters).
pub uninterp spec fn grapheme_clusters(s: Seq<char>) -> Seq<Seq<char>>;

/// The views of a sequence of strings.
pub open spec fn string_views(v: Seq<String>) -> Seq<Seq<char>> {
    v.map_values(|s: String| s@)
}

/// Calls `UnicodeSegmentation::graphemes(s, true)`. Its result is named
/// `grapheme_clusters`; the crate yields consecutive slices of `s`
/// between cluster boundaries, so the clusters are non-empty and,
/// concatenated, give `s` back.
#[verifier::external_body]
fn graphemes(s: &str) -> (res: Vec<String>)
    ensures
        string_views(res@) == grapheme_clusters(s@),
        string_views(res@).flatten() == s@,
        forall|i: int| 0 <= i < res@.len() ==> (#[trigger] res@[i])@.len() > 0,
{
    s.graphemes(true).map(|g| g.to_string()).collect()
}

/// The number of grapheme clusters of `s`.
pub open spec fn grapheme_count(s: Seq<char>) -> nat {
    grapheme_clusters(s).len()
}

/// The clusters of `s` from the `start`-th, at most `length` of them,
/// joined back into a string.
pub open spec fn spec_substr(s: Seq<char>, start: int, length: int) -> Seq<char> {
    let g = grapheme_clusters(s);
    let a = if start < g.len() {
        start
    } else {
        g.len() as int
    };
    let b = if start + length < g.len() {
        start + length
    } else {
        g.len() as int
    };
    g.subrange(a, b).flatten()
}

/// Helper methods for Unicode strings, counting grapheme clusters
/// rather than characters.
pub trait StringUtils {
    /// The clusters from the `start`-th, at most `length` of them.
    fn substr(&self, start: usize, length: usize) -> String;

    /// The number of grapheme clusters.
    fn grapheme_len(&self) -> usize;
}

/// Taking the first `b` of a text's non-empty clusters gives at least
/// `b` characters.
proof fn lemma_cluster_prefix_len(g: Seq<Seq<char>>, b: int)
    requires
        0 <= b <= g.len(),
        forall|i: int| 0 <= i < g.len() ==> (#[trigger] g[i]).len() > 0,
    ensures
        g.take(b).flatten().len() >= b,
    decreases b,
{
    if b > 0 {
        lemma_cluster_prefix_len(g, b - 1);
        assert(g.take(b) =~= g.take(b - 1).push(g[b - 1]));
        g.take(b - 1).lemma_flatten_push(g[b - 1]);
    }
}

/// The first `b` clusters of a text make up its beginning.
proof fn lemma_cluster_prefix(g: Seq<Seq<char>>, b: int)
    requires
        0 <= b <= g.len(),
    ensures
        g.take(b).flatten().len() <= g.flatten().len(),
        g.take(b).flatten() == g.flatten().take(g.take(b).flatten().len() as int),
{
    assert(g =~= g.take(b) + g.skip(b));
    vstd::seq_lib::lemma_flatten_concat(g.take(b), g.skip(b));
    let f = g.take(b).flatten();
    assert(f =~= (f + g.skip(b).flatten()).take(f.len() as int));
}

/// The beginning of `s` cut after `length` clusters: the first
/// characters of `s`, at least `length` of them (all of `s` when it is
/// shorter), when its clusters are non-empty and make up `s`.
proof fn lemma_substr_prefix(s: Seq<char>, length: int)
    requires
        length >= 0,
        grapheme_clusters(s).flatten() == s,
        forall|i: int| 0 <= i < grapheme_clusters(s).len() ==> (#[trigger] grapheme_clusters(s)[i]).len() > 0,
    ensures
        spec_substr(s, 0, length).len() <= s.len(),
        spec_substr(s, 0, length) == s.take(spec_substr(s, 0, length).len() as int),
        spec_substr(s, 0, length).len() >= if length < s.len() {
            length
        } else {
            s.len() as int
        },
{
    let g = grapheme_clusters(s);
    let b = if length < g.len() {
        length
    } else {
        g.len() as int
    };
    assert(g.subrange(0, b) =~= g.take(b));
    lemma_cluster_prefix(g, b);
    lemma_cluster_prefix_len(g, b);
    if b == g.len() {
        assert(g.take(b) =~= g);
    }
}

impl StringUtils for String {
    fn substr(&self, start: usize, length: usize) -> (res: String)
        ensures
            res@ == spec_substr(self@, start as int, length as int),
            start == 0 ==> res@.len() <= self@.len(),
            start == 0 ==> res@ == self@.take(res@.len() as int),
            start == 0 ==> res@.len() >= if (length as int) < self@.len() {
                length as int
            } else {
                self@.len() as int
            },
    {
        let clusters = graphemes(self.as_str());
        let ghost g = grapheme_clusters(self@);
        let n = clusters.len();
        let a: usize = if start < n {
            start
        } else {
            n
        };
        let b: usize = if length <= n - a {
            a + length
        } else {
            n
        };
        let mut res = String::new();
        let mut i: usize = a;
        while i < b
            invariant
                a <= i <= b <= n,
                n == clusters@.len(),
                string_views(clusters@) == g,
                res@ == g.subrange(a as int, i as int).flatten(),
            decreases b - i,
        {
            assert(g.subrange(a as int, i + 1) =~= g.subrange(a as int, i as int).push(g[i as int]));
            proof {
                g.subrange(a as int, i as int).lemma_flatten_push(g[i as int]);
            }
            push_str(&mut res, clusters[i].as_str());
            i = i + 1;
        }
        proof {
            assert forall|k: int| 0 <= k < g.len() implies (#[trigger] g[k]).len() > 0 by {
                assert(g[k] == clusters@[k]@);
            }
            if start == 0 {
                lemma_substr_prefix(self@, length as int);
            }
        }
        res
    }

    fn grapheme_len(&self) -> (res: usize)
        ensures
            res == grapheme_count(self@),
    {
        graphemes(self.as_str()).len()
    }
}

/// A duration in seconds as HH:MM:SS, or `--:--:--` when unknown.
pub open spec fn spec_format_duration(duration: Option<i64>) -> Seq<char> {
    match duration {
        Some(dur) => {
            let hours = trunc_div(dur as int, 3600);
            let rest = dur - hours * 3600;
            let minutes = trunc_div(rest, 60);
            let seconds = rest - minutes * 60;
            fmt_02(hours) + seq![':'] + fmt_02(minutes) + seq![':'] + fmt_02(seconds)
        },
        None => "--:--:--"@,
    }
}

/// A title with extra information right-aligned after it, in a field of
/// `length` columns: ` title meta `, the title cut to the clusters that
/// leave room for the information.
pub open spec fn spec_meta_line(title: Seq<char>, meta: Seq<char>, length: int) -> Seq<char> {
    let out = spec_substr(title, 0, length - meta.len() - 3);
    let width = length - grapheme_count(out) - 3;
    seq![' '] + out + seq![' '] + pad_left(meta, width) + seq![' ']
}

/// The field is wide enough for `spec_meta_line`.
pub open spec fn meta_line_fits(title: Seq<char>, meta: Seq<char>, length: int) -> bool {
    &&& meta.len() + 3 <= length
    &&& grapheme_count(spec_substr(title, 0, length - meta.len() - 3)) + 3 <= length
}

/// A title alone, cut to `length - 2` clusters, between two spaces.
pub open spec fn spec_plain_line(title: Seq<char>, length: int) -> Seq<char> {
    seq![' '] + spec_substr(title, 0, length - 2) + seq![' ']
}

/// Builds `spec_meta_line`.
fn meta_line(title: &String, meta: &String, length: usize) -> (res: String)
    requires
        meta_line_fits(title@, meta@, length as int),
    ensures
        res@ == spec_meta_line(title@, meta@, length as int),
{
    let meta_len = meta.as_str().unicode_len();
    let out = title.substr(0, length - meta_len - 3);
    let width = length - out.grapheme_len() - 3;
    let mut res = String::new();
    push_char(&mut res, ' ');
    push_str(&mut res, out.as_str());
    push_char(&mut res, ' ');
    push_padded_left(&mut res, meta, width);
    push_char(&mut res, ' ');
    assert(res@ =~= spec_meta_line(title@, meta@, length as int));
    res
}

/// Builds `spec_plain_line`.
fn plain_line(title: &String, length: usize) -> (res: String)
    requires
        length >= 2,
    ensures
        res@ == spec_plain_line(title@, length as int),
{
    let out = title.substr(0, length - 2);
    let mut res = String::new();
    push_char(&mut res, ' ');
    push_str(&mut res, out.as_str());
    push_char(&mut res, ' ');
    assert(res@ =~= spec_plain_line(title@, length as int));
    res
}

/// An item shown in a menu: a podcast, an episode, or a new episode
/// offered for download.
pub trait Menuable {
    /// The database id.
    spec fn spec_id(&self) -> i64;

    /// Whether the item counts as played.
    spec fn spec_played(&self) -> bool;

    /// The text shown for the item in a field of `length` columns.
    spec fn spec_title(&self, length: usize) -> Seq<char>;

    /// The field is wide enough for the title to be laid out.
    spec fn title_fits(&self, length: usize) -> bool;

    /// The database id.
    fn get_id(&self) -> (res: i64)
        ensures
            res == self.spec_id(),
    ;

    /// The text shown for the item in a field of `length` columns.
    fn get_title(&self, length: usize) -> (res: String)
        requires
            self.title_fits(length),
        ensures
            res@ == self.spec_title(length),
    ;

    /// Whether `get_title` can lay the item out in `length` columns.
    fn fits(&self, length: usize) -> (res: bool)
        ensures
            res == self.title_fits(length),
    ;

    /// Whether the item counts as played.
    fn is_played(&self) -> (res: bool)
        ensures
            res == self.spec_played(),
    ;
}

/// The title of an item in `length` columns, or `None` when the field is
/// too narrow for it to be laid out.
pub fn checked_title<T: Menuable>(item: &T, length: usize) -> (res: Option<String>)
    ensures
        res matches Some(s) ==> item.title_fits(length) && s@ == item.spec_title(length),
        res is None <==> !item.title_fits(length),
{
    if item.fits(length) {
        Some(item.get_title(length))
    } else {
        None
    }
}

/// A podcast feed and its episodes.
#[derive(Debug)]
pub struct Podcast {
    pub id: i64,
    pub title: String,
    pub sort_title: String,
    pub url: String,
    pub description: Option<String>,
    pub author: Option<String>,
    pub explicit: Option<bool>,
    /// When the feed was last checked (Unix timestamp).
    pub last_checked: i64,
    pub episodes: LockVec<Episode>,
}

/// An episode of a podcast. `path` is the local file, if the episode
/// has been downloaded; `played` whether it has been marked as played.
#[derive(Debug)]
pub struct Episode {
    pub id: i64,
    pub pod_id: i64,
    pub title: String,
    pub url: String,
    pub guid: String,
    pub description: String,
    /// Publication time (Unix timestamp).
    pub pubdate: Option<i64>,
    /// Length in seconds.
    pub duration: Option<i64>,
    pub path: Option<String>,
    pub played: bool,
}

/// A podcast read from a feed, before the database has given it an id.
#[derive(Debug)]
pub struct PodcastNoId {
    pub title: String,
    pub url: String,
    pub description: Option<String>,
    pub author: Option<String>,
    pub explicit: Option<bool>,
    pub last_checked: i64,
    pub episodes: Vec<EpisodeNoId>,
}

/// An episode read from a feed, before the database has given it an id.
#[derive(Debug)]
pub struct EpisodeNoId {
    pub title: String,
    pub url: String,
    pub guid: String,
    pub description: String,
    pub pubdate: Option<i64>,
    pub duration: Option<i64>,
}

/// A message to the main controller: from the interface, from a feed
/// being fetched, or from a download.
#[derive(Debug)]
pub enum Message {
    Ui(UiMsg),
    Feed(FeedMsg),
    Dl(DownloadMsg),
}

/// A new episode offered in the popup that asks which new episodes to
/// download; `selected` whether it is ticked.
#[derive(Debug)]
pub struct NewEpisode {
    pub id: i64,
    pub pod_id: i64,
    pub title: String,
    pub pod_title: String,
    pub selected: bool,
}

impl Clone for Episode {
    fn clone(&self) -> (res: Self)
        ensures
            res == *self,
    {
        Episode {
            id: self.id,
            pod_id: self.pod_id,
            title: self.title.clone(),
            url: self.url.clone(),
            guid: self.guid.clone(),
            description: self.description.clone(),
            pubdate: self.pubdate,
            duration: self.duration,
            path: match &self.path {
                Some(p) => Some(p.clone()),
                None => None,
            },
            played: self.played,
        }
    }
}

impl Clone for NewEpisode {
    fn clone(&self) -> (res: Self)
        ensures
            res == *self,
    {
        NewEpisode {
            id: self.id,
            pod_id: self.pod_id,
            title: self.title.clone(),
            pod_title: self.pod_title.clone(),
            selected: self.selected,
        }
    }
}

/// A copy of an optional string.
fn clone_opt(s: &Option<String>) -> (res: Option<String>)
    ensures
        res == *s,
{
    match s {
        Some(v) => Some(v.clone()),
        None => None,
    }
}

impl Podcast {
    /// Two podcasts hold the same data: equal fields, and episode lists
    /// with the same items, order and filter.
    pub open spec fn same_data(&self, other: &Podcast) -> bool {
        &&& self.id == other.id
        &&& self.title == other.title
        &&& self.sort_title == other.sort_title
        &&& self.url == other.url
        &&& self.description == other.description
        &&& self.author == other.author
        &&& self.explicit == other.explicit
        &&& self.last_checked == other.last_checked
        &&& self.episodes.map_view() == other.episodes.map_view()
        &&& self.episodes.order_view() == other.episodes.order_view()
        &&& self.episodes.filtered_view() == other.episodes.filtered_view()
    }
}

impl Clone for Podcast {
    fn clone(&self) -> (res: Self)
        ensures
            res.same_data(self),
    {
        Podcast {
            id: self.id,
            title: self.title.clone(),
            sort_title: self.sort_title.clone(),
            url: self.url.clone(),
            description: clone_opt(&self.description),
            author: clone_opt(&self.author),
            explicit: self.explicit,
            last_checked: self.last_checked,
            episodes: self.episodes.clone(),
        }
    }
}

impl PartialEq for Podcast {
    fn eq(&self, other: &Self) -> (res: bool) {
        self.sort_title == other.sort_title
    }
}

impl vstd::std_specs::cmp::PartialEqSpecImpl for Podcast {
    open spec fn obeys_eq_spec() -> bool {
        true
    }

    open spec fn eq_spec(&self, other: &Self) -> bool {
        self.sort_title@ == other.sort_title@
    }
}

/// The place of a comparison's sign in the order: below zero `Less`,
/// above zero `Greater`, else `Equal`.
pub open spec fn ordering_of(sign: int) -> Ordering {
    if sign < 0 {
        Ordering::Less
    } else if sign > 0 {
        Ordering::Greater
    } else {
        Ordering::Equal
    }
}

impl PartialOrd for Podcast {
    /// Podcasts are ordered by their sort titles.
    fn partial_cmp(&self, other: &Self) -> (res: Option<Ordering>) {
        let sign = crate::text::lex_compare(self.sort_title.as_str(), other.sort_title.as_str());
        if sign < 0 {
            Some(Ordering::Less)
        } else if sign > 0 {
            Some(Ordering::Greater)
        } else {
            Some(Ordering::Equal)
        }
    }
}

impl vstd::std_specs::cmp::PartialOrdSpecImpl for Podcast {
    open spec fn obeys_partial_cmp_spec() -> bool {
        true
    }

    open spec fn partial_cmp_spec(&self, other: &Self) -> Option<Ordering> {
        Some(ordering_of(crate::text::lex_sign(self.sort_title@, other.sort_title@)))
    }
}

/// The number of unplayed episodes among `eps`.
pub open spec fn count_unplayed(eps: Seq<Episode>) -> nat
    decreases eps.len(),
{
    if eps.len() == 0 {
        0
    } else {
        count_unplayed(eps.drop_last()) + if eps.last().played {
            0nat
        } else {
            1nat
        }
    }
}

/// The `(unplayed/total)` shown after a podcast title.
pub open spec fn podcast_meta(unplayed: nat, total: nat) -> Seq<char> {
    seq!['('] + decimal(unplayed) + seq!['/'] + decimal(total) + seq![')']
}

impl Podcast {
    /// The podcast's episodes, in list order.
    pub open spec fn episode_list(&self) -> Seq<Episode> {
        self.episodes.items()
    }

    /// The number of episodes that have not been played.
    pub fn num_unplayed(&self) -> (res: usize)
        ensures
            res == count_unplayed(self.episode_list()),
    {
        let ghost items = self.episode_list();
        let n = self.episodes.len();
        let mut total: usize = 0;
        let mut i: usize = 0;
        while i < n
            invariant
                n == self.episodes.order_view().len(),
                i <= n,
                items == self.episode_list(),
                items.len() == n,
                total == count_unplayed(items.take(i as int)),
                total <= i,
            decreases n - i,
        {
            assert(items.take(i + 1).drop_last() =~= items.take(i as int));
            let e = self.episodes.item_at(i);
            if !e.is_played() {
                total = total + 1;
            }
            i = i + 1;
        }
        assert(items.take(n as int) =~= items);
        total
    }
}

impl Menuable for Podcast {
    open spec fn spec_id(&self) -> i64 {
        self.id
    }

    open spec fn spec_played(&self) -> bool {
        count_unplayed(self.episode_list()) == 0
    }

    open spec fn spec_title(&self, length: usize) -> Seq<char> {
        if length > crate::config::PODCAST_UNPLAYED_TOTALS_LENGTH {
            spec_meta_line(
                self.title@,
                podcast_meta(count_unplayed(self.episode_list()), self.episode_list().len()),
                length as int,
            )
        } else {
            spec_plain_line(self.title@, length as int)
        }
    }

    open spec fn title_fits(&self, length: usize) -> bool {
        if length > crate::config::PODCAST_UNPLAYED_TOTALS_LENGTH {
            meta_line_fits(
                self.title@,
                podcast_meta(count_unplayed(self.episode_list()), self.episode_list().len()),
                length as int,
            )
        } else {
            length >= 2
        }
    }

    fn get_id(&self) -> (res: i64) {
        self.id
    }

    fn get_title(&self, length: usize) -> (res: String) {
        if length > crate::config::PODCAST_UNPLAYED_TOTALS_LENGTH {
            let meta = self.meta_string();
            meta_line(&self.title, &meta, length)
        } else {
            plain_line(&self.title, length)
        }
    }

    fn fits(&self, length: usize) -> (res: bool) {
        if length > crate::config::PODCAST_UNPLAYED_TOTALS_LENGTH {
            let meta = self.meta_string();
            meta_fits(&self.title, &meta, length)
        } else {
            length >= 2
        }
    }

    fn is_played(&self) -> (res: bool) {
        self.num_unplayed() == 0
    }
}

impl Podcast {
    /// The `(unplayed/total)` string.
    fn meta_string(&self) -> (res: String)
        ensures
            res@ == podcast_meta(count_unplayed(self.episode_list()), self.episode_list().len()),
    {
        let unplayed = self.num_unplayed();
        let total = self.episodes.len();
        let mut meta = String::new();
        push_char(&mut meta, '(');
        let d1 = decimal_chars(unplayed as u64);
        push_chars(&mut meta, &d1);
        push_char(&mut meta, '/');
        let d2 = decimal_chars(total as u64);
        push_chars(&mut meta, &d2);
        push_char(&mut meta, ')');
        assert(meta@ =~= podcast_meta(count_unplayed(self.episode_list()), self.episode_list().len()));
        meta
    }
}

/// Whether a field of `length` columns fits `spec_meta_line`.
fn meta_fits(title: &String, meta: &String, length: usize) -> (res: bool)
    ensures
        res == meta_line_fits(title@, meta@, length as int),
{
    let meta_len = meta.as_str().unicode_len();
    if meta_len > length || length - meta_len < 3 {
        return false;
    }
    let out = title.substr(0, length - meta_len - 3);
    let g = out.grapheme_len();
    g <= length && length - g >= 3
}

impl Episode {
    /// The duration as HH:MM:SS, or `--:--:--` when unknown.
    pub fn format_duration(&self) -> (res: String)
        ensures
            res@ == spec_format_duration(self.duration),
    {
        match self.duration {
            Some(dur) => {
                let mut seconds = dur;
                let hours = seconds / 3600;
                seconds -= hours * 3600;
                let minutes = seconds / 60;
                seconds -= minutes * 60;
                let mut res = String::new();
                push_fmt_02(&mut res, hours);
                push_char(&mut res, ':');
                push_fmt_02(&mut res, minutes);
                push_char(&mut res, ':');
                push_fmt_02(&mut res, seconds);
                assert(res@ =~= spec_format_duration(self.duration));
                res
            },
            None => String::from_str("--:--:--"),
        }
    }
}

/// The formats in which dates are shown: `%F` (`YYYY-MM-DD`), `%B %-d,
/// %Y` (month name, day, year) and `%Y%m%d_%H%M%S` (in file names).
pub open spec fn shown_date_format(fmt: Seq<char>) -> bool {
    fmt == "%F"@ || fmt == "%B %-d, %Y"@ || fmt == "%Y%m%d_%H%M%S"@
}

/// The date of a Unix timestamp as chrono formats it with `fmt`; `None`
/// when the timestamp is outside chrono's range of dates.
pub uninterp spec fn formatted_date(ts: int, fmt: Seq<char>) -> Option<Seq<char>>;

/// Calls `chrono::DateTime::from_timestamp(ts, 0)` and formats the date
/// with `fmt`; the result is named `formatted_date`. Only the formats
/// that the library shows are passed, both of which chrono accepts.
#[verifier::external_body]
pub(crate) fn format_date(ts: i64, fmt: &str) -> (res: Option<String>)
    requires
        shown_date_format(fmt@),
    ensures
        match res {
            Some(s) => formatted_date(ts as int, fmt@) == Some(s@),
            None => formatted_date(ts as int, fmt@) is None,
        },
{
    chrono::DateTime::from_timestamp(ts, 0).map(|d| d.format(fmt).to_string())
}

/// An episode's title with a `[D] ` mark when it has been downloaded,
/// cut to fit `length` columns.
pub open spec fn episode_base(ep: &Episode, length: int) -> Seq<char> {
    match ep.path {
        Some(_) => seq!['[', 'D', ']', ' '] + spec_substr(ep.title@, 0, length - 4),
        None => spec_substr(ep.title@, 0, length),
    }
}

/// `[HH:MM:SS]`, the duration shown after an episode title.
pub open spec fn duration_meta(ep: &Episode) -> Seq<char> {
    seq!['['] + spec_format_duration(ep.duration) + seq![']']
}

/// The information shown after an episode title in a wide field: the
/// publication date, when there is one, and the duration.
pub open spec fn wide_episode_meta(ep: &Episode) -> Seq<char> {
    match ep.pubdate {
        Some(ts) => match formatted_date(ts as int, "%F"@) {
            Some(d) => seq!['('] + d + seq![')', ' '] + duration_meta(ep),
            None => duration_meta(ep),
        },
        None => duration_meta(ep),
    }
}

impl Menuable for Episode {
    open spec fn spec_id(&self) -> i64 {
        self.id
    }

    open spec fn spec_played(&self) -> bool {
        self.played
    }

    open spec fn spec_title(&self, length: usize) -> Seq<char> {
        let out = episode_base(self, length as int);
        if length > crate::config::EPISODE_PUBDATE_LENGTH {
            spec_meta_line(out, wide_episode_meta(self), length as int)
        } else if length > crate::config::EPISODE_DURATION_LENGTH {
            spec_meta_line(out, duration_meta(self), length as int)
        } else {
            spec_plain_line(out, length as int)
        }
    }

    open spec fn title_fits(&self, length: usize) -> bool {
        let out = episode_base(self, length as int);
        &&& (self.path is Some ==> length >= 4)
        &&& if length > crate::config::EPISODE_PUBDATE_LENGTH {
            meta_line_fits(out, wide_episode_meta(self), length as int)
        } else if length > crate::config::EPISODE_DURATION_LENGTH {
            meta_line_fits(out, duration_meta(self), length as int)
        } else {
            length >= 2
        }
    }

    fn get_id(&self) -> (res: i64) {
        self.id
    }

    fn get_title(&self, length: usize) -> (res: String) {
        let out = self.base_title(length);
        if length > crate::config::EPISODE_PUBDATE_LENGTH {
            let meta = self.wide_meta();
            meta_line(&out, &meta, length)
        } else if length > crate::config::EPISODE_DURATION_LENGTH {
            let meta = self.duration_meta_string();
            meta_line(&out, &meta, length)
        } else {
            plain_line(&out, length)
        }
    }

    fn fits(&self, length: usize) -> (res: bool) {
        if self.path.is_some() && length < 4 {
            return false;
        }
        let out = self.base_title(length);
        if length > crate::config::EPISODE_PUBDATE_LENGTH {
            let meta = self.wide_meta();
            meta_fits(&out, &meta, length)
        } else if length > crate::config::EPISODE_DURATION_LENGTH {
            let meta = self.duration_meta_string();
            meta_fits(&out, &meta, length)
        } else {
            length >= 2
        }
    }

    fn is_played(&self) -> (res: bool) {
        self.played
    }
}

impl Episode {
    /// The title, marked and cut as `episode_base` states.
    fn base_title(&self, length: usize) -> (res: String)
        requires
            self.path is Some ==> length >= 4,
        ensures
            res@ == episode_base(self, length as int),
    {
        match &self.path {
            Some(_) => {
                let title = self.title.substr(0, length - 4);
                let mut res = String::new();
                push_char(&mut res, '[');
                push_char(&mut res, 'D');
                push_char(&mut res, ']');
                push_char(&mut res, ' ');
                push_str(&mut res, title.as_str());
                assert(res@ =~= episode_base(self, length as int));
                res
            },
            None => self.title.substr(0, length),
        }
    }

    /// `[HH:MM:SS]`.
    fn duration_meta_string(&self) -> (res: String)
        ensures
            res@ == duration_meta(self),
    {
        let dur = self.format_duration();
        let mut res = String::new();
        push_char(&mut res, '[');
        push_str(&mut res, dur.as_str());
        push_char(&mut res, ']');
        assert(res@ =~= duration_meta(self));
        res
    }

    /// The date and duration shown in a wide field.
    fn wide_meta(&self) -> (res: String)
        ensures
            res@ == wide_episode_meta(self),
    {
        let meta_dur = self.duration_meta_string();
        match self.pubdate {
            Some(ts) => match format_date(ts, "%F") {
                Some(d) => {
                    let mut res = String::new();
                    push_char(&mut res, '(');
                    push_str(&mut res, d.as_str());
                    push_char(&mut res, ')');
                    push_char(&mut res, ' ');
                    push_str(&mut res, meta_dur.as_str());
                    assert(res@ =~= wide_episode_meta(self));
                    res
                },
                None => meta_dur,
            },
            None => meta_dur,
        }
    }
}

/// The line shown for a new episode before it is cut to the field:
/// ` [✓] title (podcast)`, padded with spaces to the field.
pub open spec fn new_episode_line(ep: &NewEpisode, length: int) -> Seq<char> {
    let mark = if ep.selected {
        '✓'
    } else {
        ' '
    };
    let used = grapheme_count(ep.title@) + grapheme_count(ep.pod_title@) + 9;
    let fill = if length > used {
        crate::text::spaces((length - used) as nat)
    } else {
        Seq::empty()
    };
    seq![' ', '[', mark, ']', ' '] + ep.title@ + seq![' ', '('] + ep.pod_title@ + seq![')'] + fill
        + seq![' ']
}

/// A new episode's title, cut to any field of at least three columns,
/// shows the tick `✓` between its brackets exactly when the episode is
/// selected for download (the line's clusters being non-empty and
/// making up the line, as the segmentation gives them).
pub proof fn law_new_episode_tick(ep: NewEpisode, length: usize)
    requires
        length >= 3,
        grapheme_clusters(new_episode_line(&ep, length as int)).flatten() == new_episode_line(
            &ep,
            length as int,
        ),
        forall|i: int|
            0 <= i < grapheme_clusters(new_episode_line(&ep, length as int)).len()
                ==> (#[trigger] grapheme_clusters(new_episode_line(&ep, length as int))[i]).len()
                > 0,
    ensures
        ep.spec_title(length).len() >= 3,
        ep.spec_title(length)[2] == '✓' <==> ep.selected,
{
    let line = new_episode_line(&ep, length as int);
    lemma_substr_prefix(line, length as int);
    let t = ep.spec_title(length);
    assert(line.len() >= 5);
    assert(t == line.take(t.len() as int));
    assert(line.take(t.len() as int)[2] == line[2]);
}

impl Menuable for NewEpisode {
    open spec fn spec_id(&self) -> i64 {
        self.id
    }

    open spec fn spec_played(&self) -> bool {
        true
    }

    open spec fn spec_title(&self, length: usize) -> Seq<char> {
        spec_substr(new_episode_line(self, length as int), 0, length as int)
    }

    open spec fn title_fits(&self, length: usize) -> bool {
        true
    }

    fn get_id(&self) -> (res: i64) {
        self.id
    }

    fn get_title(&self, length: usize) -> (res: String)
        ensures
            length >= 3 ==> res@.len() >= 3 && (res@[2] == '✓' <==> self.selected),
    {
        let title_len = self.title.grapheme_len();
        let pod_title_len = self.pod_title.grapheme_len();
        let used: u128 = (title_len as u128) + (pod_title_len as u128) + 9;
        let mut full = String::new();
        push_char(&mut full, ' ');
        push_char(&mut full, '[');
        if self.selected {
            push_char(&mut full, '✓');
        } else {
            push_char(&mut full, ' ');
        }
        push_char(&mut full, ']');
        push_char(&mut full, ' ');
        push_str(&mut full, self.title.as_str());
        push_char(&mut full, ' ');
        push_char(&mut full, '(');
        push_str(&mut full, self.pod_title.as_str());
        push_char(&mut full, ')');
        if (length as u128) > used {
            crate::text::push_spaces(&mut full, ((length as u128) - used) as usize);
        }
        push_char(&mut full, ' ');
        assert(full@ =~= new_episode_line(self, length as int));
        let res = full.substr(0, length);
        assert(full@[2] == if self.selected {
            '✓'
        } else {
            ' '
        });
        if length >= 3 {
            let ghost head = seq![' ', '[', if self.selected {
                '✓'
            } else {
                ' '
            }, ']', ' '];
            assert(head.len() == 5);
            assert(full@ =~= head + (full@.subrange(5, full@.len() as int)));
            assert(full@.len() >= 5);
            assert(res@.len() >= 3);
            assert(res@ == full@.take(res@.len() as int));
            let ghost t = full@.take(res@.len() as int);
            assert(t.len() == res@.len());
            assert(t[2] == full@[2]);
            assert(res@[2] == full@[2]);
            assert(res@[2] == '✓' <==> self.selected);
        }
        res
    }

    fn fits(&self, length: usize) -> (res: bool) {
        true
    }

    fn is_played(&self) -> (res: bool) {
        true
    }
}

/// A list of podcasts or episodes, reachable both by id (through a map)
/// and by position (through the list of ids in order). `order` holds
/// every item in list order; `filtered_order` the items that the
/// active filter lets through. Every id in either list is in the map.
#[derive(Debug)]
pub struct LockVec<T> {
    data: std::collections::HashMap<i64, T>,
    order: Vec<i64>,
    filtered_order: Vec<i64>,
}

/// The map from id to item built by inserting `items` in order, a later
/// item replacing an earlier one with the same id.
pub open spec fn items_map<T: Menuable>(items: Seq<T>) -> Map<i64, T>
    decreases items.len(),
{
    if items.len() == 0 {
        Map::empty()
    } else {
        items_map(items.drop_last()).insert(items.last().spec_id(), items.last())
    }
}

/// The ids of `items`, in order.
pub open spec fn ids_of<T: Menuable>(items: Seq<T>) -> Seq<i64> {
    items.map_values(|t: T| t.spec_id())
}

impl<T> LockVec<T> {
    /// The items by id.
    pub closed spec fn map_view(&self) -> Map<i64, T> {
        self.data@
    }

    /// The ids of all items, in list order.
    pub closed spec fn order_view(&self) -> Seq<i64> {
        self.order@
    }

    /// The ids of the items the active filter lets through, in order.
    pub closed spec fn filtered_view(&self) -> Seq<i64> {
        self.filtered_order@
    }

    /// All items, in list order.
    pub open spec fn items(&self) -> Seq<T> {
        self.order_view().map_values(|id: i64| self.map_view()[id])
    }

    /// The items the active filter lets through, in order.
    pub open spec fn filtered_items(&self) -> Seq<T> {
        self.filtered_view().map_values(|id: i64| self.map_view()[id])
    }

    #[verifier::type_invariant]
    closed spec fn ids_present(&self) -> bool {
        &&& forall|i: int| 0 <= i < self.order@.len() ==> self.data@.contains_key(#[trigger] self.order@[i])
        &&& forall|i: int|
            0 <= i < self.filtered_order@.len() ==> self.data@.contains_key(
                #[trigger] self.filtered_order@[i],
            )
    }

}

impl<T: Menuable> LockVec<T> {
    /// The item at position `i` of the list.
    pub fn item_at(&self, i: usize) -> (res: &T)
        requires
            i < self.order_view().len(),
        ensures
            *res == self.items()[i as int],
    {
        broadcast use vstd::std_specs::hash::group_hash_axioms;
        proof {
            use_type_invariant(self);
        }
        assert(self.data@.contains_key(self.order@[i as int]));
        self.data.get(&self.order[i]).unwrap()
    }

    /// A list holding `data` in order, with no filter active.
    pub fn new(data: Vec<T>) -> (res: Self)
        ensures
            res.order_view() == ids_of(data@),
            res.filtered_view() == ids_of(data@),
            res.map_view() == items_map(data@),
    {
        broadcast use vstd::std_specs::hash::group_hash_axioms;
        let mut data = data;
        let ghost all = data@;
        let total = data.len();
        let mut hm: std::collections::HashMap<i64, T> = std::collections::HashMap::new();
        let mut order: Vec<i64> = Vec::new();
        let mut n: usize = 0;
        while data.len() > 0
            invariant
                n + data@.len() == all.len(),
                all.len() == total,
                data@ == all.skip(n as int),
                order@ == ids_of(all.take(n as int)),
                hm@ == items_map(all.take(n as int)),
                forall|i: int| 0 <= i < order@.len() ==> hm@.contains_key(#[trigger] order@[i]),
            decreases data@.len(),
        {
            let item = data.remove(0);
            assert(all[n as int] == item);
            let id = item.get_id();
            hm.insert(id, item);
            order.push(id);
            assert(all.take(n + 1).drop_last() =~= all.take(n as int));
            assert(order@ =~= ids_of(all.take(n + 1)));
            n = n + 1;
            assert(data@ =~= all.skip(n as int));
        }
        assert(all.take(n as int) =~= all);
        let filtered = order.clone();
        assert(filtered@ =~= order@);
        LockVec { data: hm, order: order, filtered_order: filtered }
    }

    /// The map from id to item.
    pub fn borrow_map(&self) -> (res: &std::collections::HashMap<i64, T>)
        ensures
            res@ == self.map_view(),
    {
        &self.data
    }

    /// The ids of all items, in order.
    pub fn borrow_order(&self) -> (res: &Vec<i64>)
        ensures
            res@ == self.order_view(),
    {
        &self.order
    }

    /// The ids of the filtered items, in order.
    pub fn borrow_filtered_order(&self) -> (res: &Vec<i64>)
        ensures
            res@ == self.filtered_view(),
    {
        &self.filtered_order
    }

    /// The map and both lists of ids.
    pub fn borrow(&self) -> (res: (&std::collections::HashMap<i64, T>, &Vec<i64>, &Vec<i64>))
        ensures
            res.0@ == self.map_view(),
            res.1@ == self.order_view(),
            res.2@ == self.filtered_view(),
    {
        (&self.data, &self.order, &self.filtered_order)
    }

    /// Stores `t` under `id`, replacing the item stored there; the lists
    /// of ids are unchanged.
    pub fn replace(&mut self, id: i64, t: T)
        ensures
            final(self).map_view() == old(self).map_view().insert(id, t),
            final(self).order_view() == old(self).order_view(),
            final(self).filtered_view() == old(self).filtered_view(),
    {
        broadcast use vstd::std_specs::hash::group_hash_axioms;
        proof {
            use_type_invariant(&*self);
        }
        let mut tmp = LockVec {
            data: std::collections::HashMap::new(),
            order: Vec::new(),
            filtered_order: Vec::new(),
        };
        std::mem::swap(self, &mut tmp);
        let LockVec { data, order, filtered_order } = tmp;
        let mut data = data;
        data.insert(id, t);
        *self = LockVec { data, order, filtered_order };
    }

    /// Empties the list and fills it with `data`, in order, with no
    /// filter active.
    pub fn replace_all(&mut self, data: Vec<T>)
        ensures
            final(self).order_view() == ids_of(data@),
            final(self).filtered_view() == ids_of(data@),
            final(self).map_view() == items_map(data@),
    {
        *self = LockVec::new(data);
    }

    /// The number of items.
    pub fn len(&self) -> (res: usize)
        ensures
            res == self.order_view().len(),
            forall|i: int|
                0 <= i < self.order_view().len() ==> self.map_view().contains_key(
                    #[trigger] self.order_view()[i],
                ),
    {
        proof {
            use_type_invariant(self);
        }
        self.order.len()
    }

    /// Whether there are no items.
    pub fn is_empty(&self) -> (res: bool)
        ensures
            res == (self.order_view().len() == 0),
    {
        self.order.len() == 0
    }

    /// Applies `f` to every item (or, with `filtered`, every item the
    /// filter lets through), in order, and collects the results.
    pub fn map<B, F: Fn(&T) -> B>(&self, f: F, filtered: bool) -> (res: Vec<B>)
        requires
            forall|t: T| call_requires(f, (&t,)),
        ensures
            res@.len() == (if filtered {
                self.filtered_items()
            } else {
                self.items()
            }).len(),
            forall|i: int|
                0 <= i < res@.len() ==> call_ensures(
                    f,
                    (&(if filtered {
                        self.filtered_items()
                    } else {
                        self.items()
                    })[i],),
                    #[trigger] res@[i],
                ),
    {
        broadcast use vstd::std_specs::hash::group_hash_axioms;
        proof {
            use_type_invariant(self);
        }
        let ids = if filtered {
            &self.filtered_order
        } else {
            &self.order
        };
        let ghost items = if filtered {
            self.filtered_items()
        } else {
            self.items()
        };
        let mut res: Vec<B> = Vec::new();
        let mut i: usize = 0;
        while i < ids.len()
            invariant
                i <= ids@.len(),
                items == ids@.map_values(|id: i64| self.data@[id]),
                forall|j: int| 0 <= j < ids@.len() ==> self.data@.contains_key(#[trigger] ids@[j]),
                forall|t: T| call_requires(f, (&t,)),
                res@.len() == i,
                forall|j: int| 0 <= j < i ==> call_ensures(f, (&items[j],), #[trigger] res@[j]),
            decreases ids@.len() - i,
        {
            match self.data.get(&ids[i]) {
                Some(item) => {
                    assert(*item == items[i as int]);
                    res.push(f(item));
                },
                None => {
                    assert(false);
                },
            }
            i = i + 1;
        }
        res
    }

    /// Applies `f` to the item stored under `id`, if there is one.
    pub fn map_single<B, F: FnOnce(&T) -> B>(&self, id: i64, f: F) -> (res: Option<B>)
        requires
            forall|t: T| call_requires(f, (&t,)),
        ensures
            res is Some <==> self.map_view().contains_key(id),
            res matches Some(b) ==> call_ensures(f, (&self.map_view()[id],), b),
    {
        broadcast use vstd::std_specs::hash::group_hash_axioms;
        match self.data.get(&id) {
            Some(item) => Some(f(item)),
            None => None,
        }
    }

    /// Applies `f` to the item at position `index` of the filtered list,
    /// if there is one.
    pub fn map_single_by_index<B, F: FnOnce(&T) -> B>(&self, index: usize, f: F) -> (res: Option<B>)
        requires
            forall|t: T| call_requires(f, (&t,)),
        ensures
            res is Some <==> index < self.filtered_view().len(),
            res matches Some(b) ==> call_ensures(f, (&self.filtered_items()[index as int],), b),
    {
        proof {
            use_type_invariant(self);
        }
        if index < self.filtered_order.len() {
            let id = self.filtered_order[index];
            assert(self.data@.contains_key(self.filtered_order@[index as int]));
            self.map_single(id, f)
        } else {
            None
        }
    }

    /// Applies `f` to every item in list order and keeps the values it
    /// gives (`Some`), in order.
    pub fn filter_map<B, F: Fn(&T) -> Option<B>>(&self, f: F) -> (res: Vec<B>)
        requires
            forall|t: T| call_requires(f, (&t,)),
        ensures
            exists|outs: Seq<Option<B>>|
                {
                    &&& outs.len() == self.items().len()
                    &&& forall|i: int|
                        0 <= i < outs.len() ==> call_ensures(f, (&self.items()[i],), #[trigger] outs[i])
                    &&& res@ == somes(outs)
                },
    {
        broadcast use vstd::std_specs::hash::group_hash_axioms;
        proof {
            use_type_invariant(self);
        }
        let ghost items = self.items();
        let ghost mut outs: Seq<Option<B>> = Seq::empty();
        let mut res: Vec<B> = Vec::new();
        let mut i: usize = 0;
        while i < self.order.len()
            invariant
                i <= self.order@.len(),
                items == self.order@.map_values(|id: i64| self.data@[id]),
                forall|j: int|
                    0 <= j < self.order@.len() ==> self.data@.contains_key(#[trigger] self.order@[j]),
                forall|t: T| call_requires(f, (&t,)),
                outs.len() == i,
                forall|j: int| 0 <= j < i ==> call_ensures(f, (&items[j],), #[trigger] outs[j]),
                res@ == somes(outs),
            decreases self.order@.len() - i,
        {
            match self.data.get(&self.order[i]) {
                Some(item) => {
                    assert(*item == items[i as int]);
                    let out = f(item);
                    let ghost old_outs = outs;
                    proof {
                        outs = outs.push(out);
                    }
                    assert(outs.drop_last() =~= old_outs);
                    match out {
                        Some(b) => {
                            res.push(b);
                        },
                        None => {},
                    }
                },
                None => {
                    assert(false);
                },
            }
            i = i + 1;
        }
        res
    }
}

/// The values of the `Some` entries, in order.
pub open spec fn somes<B>(outs: Seq<Option<B>>) -> Seq<B>
    decreases outs.len(),
{
    if outs.len() == 0 {
        Seq::empty()
    } else {
        match outs.last() {
            Some(b) => somes(outs.drop_last()).push(b),
            None => somes(outs.drop_last()),
        }
    }
}

impl<T: Menuable + Clone> Clone for LockVec<T> {
    fn clone(&self) -> (res: Self)
        ensures
            res.map_view() == self.map_view(),
            res.order_view() == self.order_view(),
            res.filtered_view() == self.filtered_view(),
    {
        proof {
            use_type_invariant(self);
        }
        let data = self.data.clone();
        let order = self.order.clone();
        let filtered_order = self.filtered_order.clone();
        assert(order@ =~= self.order@);
        assert(filtered_order@ =~= self.filtered_order@);
        LockVec { data, order, filtered_order }
    }
}

impl LockVec<Podcast> {
    /// A copy of the podcast stored under `id`, if there is one.
    pub fn clone_podcast(&self, id: i64) -> (res: Option<Podcast>)
        ensures
            res is Some <==> self.map_view().contains_key(id),
            res matches Some(p) ==> p.same_data(&self.map_view()[id]),
    {
        broadcast use vstd::std_specs::hash::group_hash_axioms;
        match self.data.get(&id) {
            Some(p) => Some(p.clone()),
            None => None,
        }
    }

    /// A copy of episode `ep_id` of podcast `pod_id`, if both exist.
    pub fn clone_episode(&self, pod_id: i64, ep_id: i64) -> (res: Option<Episode>)
        ensures
            res is Some <==> (self.map_view().contains_key(pod_id)
                && self.map_view()[pod_id].episodes.map_view().contains_key(ep_id)),
            res matches Some(e) ==> e == self.map_view()[pod_id].episodes.map_view()[ep_id],
    {
        broadcast use vstd::std_specs::hash::group_hash_axioms;
        match self.data.get(&pod_id) {
            Some(p) => p.episodes.clone_episode(ep_id),
            None => None,
        }
    }
}

impl LockVec<Episode> {
    /// A copy of the episode stored under `ep_id`, if there is one.
    pub fn clone_episode(&self, ep_id: i64) -> (res: Option<Episode>)
        ensures
            res is Some <==> self.map_view().contains_key(ep_id),
            res matches Some(e) ==> e == self.map_view()[ep_id],
    {
        broadcast use vstd::std_specs::hash::group_hash_axioms;
        match self.data.get(&ep_id) {
            Some(e) => Some(e.clone()),
            None => None,
        }
    }
}

} // verus!
