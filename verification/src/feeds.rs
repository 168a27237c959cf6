//! Podcast feeds: what is known of a feed before it is fetched, the
//! parsing of episode durations, and the conversion of a fetched RSS
//! channel into a podcast with its episodes.

use vstd::prelude::*;
use vstd::string::*;

use crate::text::{
    all_digits, captures, decimal, digit_char, digits_value, eq_str, fmt_02, groups_view, lowercase, parse_i32,
    regex_captures, spec_digit_value, spec_parse_i32, to_lowercase, trunc_div,
};
use crate::types::{spec_format_duration, EpisodeNoId, PodcastNoId};

verus! {

/// The pattern of an episode duration: HH:MM:SS, MM:SS or SS.
pub const DURATION_PATTERN: &'static str = r"(\d+)(?::(\d+))?(?::(\d+))?";

/// A podcast feed (a subset of what is known of a podcast), passed
/// between the parts of the program that fetch and store feeds.
#[derive(Debug, Clone)]
pub struct PodcastFeed {
    pub id: Option<i64>,
    pub url: String,
    pub title: Option<String>,
}

impl PodcastFeed {
    /// A feed with the given database id, URL and title.
    pub fn new(id: Option<i64>, url: String, title: Option<String>) -> (res: Self)
        ensures
            res.id == id,
            res.url == url,
            res.title == title,
    {
        Self { id: id, url: url, title: title }
    }
}

/// The groups of a match that took part, in order, leaving out group 0
/// (the whole match).
pub open spec fn present_groups(groups: Seq<Option<Seq<char>>>) -> Seq<Seq<char>>
    decreases groups.len(),
{
    if groups.len() <= 1 {
        Seq::empty()
    } else {
        let rest = present_groups(groups.drop_last());
        match groups.last() {
            Some(g) => rest.push(g),
            None => rest,
        }
    }
}

/// `v` as an `i32`, if it fits.
pub open spec fn fit_i32(v: int) -> Option<i32> {
    if i32::MIN <= v <= i32::MAX {
        Some(v as i32)
    } else {
        None
    }
}

/// The duration in seconds that the captured groups of a duration
/// match stand for: three groups are hours, minutes and seconds, two
/// are minutes and seconds, one is seconds. `None` when there is no
/// match, when a group is not a number, or when the total does not fit
/// an `i32`.
pub open spec fn spec_duration(caps: Option<Seq<Option<Seq<char>>>>) -> Option<i32> {
    match caps {
        None => None,
        Some(groups) => {
            let p = present_groups(groups);
            if p.len() == 3 {
                match (spec_parse_i32(p[0]), spec_parse_i32(p[1]), spec_parse_i32(p[2])) {
                    (Some(h), Some(m), Some(s)) => fit_i32(h * 3600 + m * 60 + s),
                    _ => None,
                }
            } else if p.len() == 2 {
                match (spec_parse_i32(p[0]), spec_parse_i32(p[1])) {
                    (Some(m), Some(s)) => fit_i32(m * 60 + s),
                    _ => None,
                }
            } else if p.len() == 1 {
                spec_parse_i32(p[0])
            } else {
                None
            }
        },
    }
}

/// Converts the captured groups of a duration match into a number of
/// seconds, as `spec_duration` states.
pub fn duration_from_captures(caps: Option<Vec<Option<Vec<char>>>>) -> (res: Option<i32>)
    ensures
        res == spec_duration(groups_view(caps)),
{
    let ghost gv = groups_view(caps);
    match caps {
        None => None,
        Some(groups) => {
            let ghost g = gv->0;
            if groups.len() == 0 {
                return None;
            }
            let mut times: Vec<Option<i32>> = Vec::new();
            let mut present: Vec<Vec<char>> = Vec::new();
            let mut i: usize = 1;
            while i < groups.len()
                invariant
                    1 <= i,
                    i <= groups.len(),
                    g == groups@.map_values(
                        |x: Option<Vec<char>>|
                            match x {
                                Some(c) => Some(c@),
                                None => None,
                            },
                    ),
                    present@.map_values(|c: Vec<char>| c@) == present_groups(
                        g.take(i as int),
                    ),
                    times@.len() == present@.len(),
                    forall|j: int|
                        0 <= j < times@.len() ==> #[trigger] times@[j] == spec_parse_i32(
                            present@[j]@,
                        ),
                decreases groups.len() - i,
            {
                assert(g.take(i + 1).drop_last() =~= g.take(i as int));
                match &groups[i] {
                    Some(c) => {
                        let t = parse_i32(c);
                        times.push(t);
                        present.push(c.clone());
                        assert(present@.map_values(|c: Vec<char>| c@) =~= present_groups(
                            g.take(i + 1),
                        ));
                    },
                    None => {
                        assert(present@.map_values(|c: Vec<char>| c@) =~= present_groups(
                            g.take(i + 1),
                        ));
                    },
                }
                i = i + 1;
            }
            assert(g.take(groups.len() as int) =~= g);
            let ghost p = present_groups(g);
            assert(p.len() == times@.len());
            assert(forall|j: int| 0 <= j < times@.len() ==> times@[j] == spec_parse_i32(#[trigger] p[j])) by {
                assert forall|j: int| 0 <= j < times@.len() implies times@[j] == spec_parse_i32(#[trigger] p[j]) by {
                    assert(p[j] == present@.map_values(|c: Vec<char>| c@)[j]);
                }
            }
            if times.len() == 3 {
                match (times[0], times[1], times[2]) {
                    (Some(h), Some(m), Some(s)) => {
                        let total: i64 = (h as i64) * 3600 + (m as i64) * 60 + (s as i64);
                        if -0x8000_0000 <= total && total <= 0x7fff_ffff {
                            Some(total as i32)
                        } else {
                            None
                        }
                    },
                    _ => None,
                }
            } else if times.len() == 2 {
                match (times[0], times[1]) {
                    (Some(m), Some(s)) => {
                        let total: i64 = (m as i64) * 60 + (s as i64);
                        if -0x8000_0000 <= total && total <= 0x7fff_ffff {
                            Some(total as i32)
                        } else {
                            None
                        }
                    },
                    _ => None,
                }
            } else if times.len() == 1 {
                times[0]
            } else {
                None
            }
        },
    }
}

/// Converts an episode duration given as HH:MM:SS, MM:SS or SS into a
/// number of seconds. Gives `None` if there is no duration or it cannot
/// be converted (no number in it, a number too large, and so on).
pub fn duration_to_int(duration: Option<&str>) -> (res: Option<i32>)
    ensures
        res == (match duration {
            Some(dur) => spec_duration(regex_captures(DURATION_PATTERN@, dur@)),
            None => None,
        }),
{
    match duration {
        Some(dur) => {
            let caps = captures(DURATION_PATTERN, dur);
            duration_from_captures(caps)
        },
        None => None,
    }
}


/// What the feed's parser is told of a fetched feed.
#[derive(Debug)]
pub enum FeedMsg {
    NewData(PodcastNoId),
    SyncData((i64, PodcastNoId)),
    Error(PodcastFeed),
}

/// What is read of an item (episode) of an RSS channel: its title, the
/// address of its enclosure (the media file), its guid, description and
/// publication date, and its iTunes duration.
#[derive(Debug)]
pub struct ItemData {
    pub title: Option<String>,
    pub enclosure_url: Option<String>,
    pub guid: Option<String>,
    pub description: Option<String>,
    pub pub_date: Option<String>,
    pub itunes_duration: Option<String>,
}

/// What is read of an RSS channel: its title and description, its
/// iTunes author and explicitness, and its items.
#[derive(Debug)]
pub struct ChannelData {
    pub title: String,
    pub description: String,
    pub itunes_author: Option<String>,
    pub itunes_explicit: Option<String>,
    pub items: Vec<ItemData>,
}

/// The view of an optional string.
pub open spec fn opt_view(s: Option<String>) -> Option<Seq<char>> {
    match s {
        Some(t) => Some(t@),
        None => None,
    }
}

/// The view of an item.
pub type ItemView = (
    Option<Seq<char>>,
    Option<Seq<char>>,
    Option<Seq<char>>,
    Option<Seq<char>>,
    Option<Seq<char>>,
    Option<Seq<char>>,
);

/// The view of an item: its fields in order.
pub open spec fn item_view(i: ItemData) -> ItemView {
    (
        opt_view(i.title),
        opt_view(i.enclosure_url),
        opt_view(i.guid),
        opt_view(i.description),
        opt_view(i.pub_date),
        opt_view(i.itunes_duration),
    )
}

/// The view of a channel.
pub type ChannelView = (Seq<char>, Seq<char>, Option<Seq<char>>, Option<Seq<char>>, Seq<ItemView>);

/// The view of a channel: its fields in order.
pub open spec fn channel_view(c: ChannelData) -> ChannelView {
    (
        c.title@,
        c.description@,
        opt_view(c.itunes_author),
        opt_view(c.itunes_explicit),
        c.items@.map_values(|i: ItemData| item_view(i)),
    )
}

/// Whether `rss::Channel::read_from` reads an RSS channel from `bytes`.
pub uninterp spec fn rss_valid(bytes: Seq<u8>) -> bool;

/// The title, description, iTunes author and iTunes explicitness of the
/// channel `rss::Channel::read_from` reads from `bytes`.
pub uninterp spec fn rss_header(bytes: Seq<u8>) -> (Seq<char>, Seq<char>, Option<Seq<char>>, Option<Seq<char>>);

/// The items of the channel `rss::Channel::read_from` reads from
/// `bytes`, in order.
pub uninterp spec fn rss_items(bytes: Seq<u8>) -> Seq<ItemView>;

/// Calls `rss::Channel::read_from(bytes)` and reads the channel's title,
/// description, iTunes author and iTunes explicitness; `None` when the
/// bytes are not a valid RSS document.
#[verifier::external_body]
fn read_channel_header(bytes: &[u8]) -> (res: Option<(String, String, Option<String>, Option<String>)>)
    ensures
        res is Some <==> rss_valid(bytes@),
        res matches Some(h) ==> (h.0@, h.1@, opt_view(h.2), opt_view(h.3)) == rss_header(bytes@),
{
    let c = rss::Channel::read_from(bytes).ok()?;
    let it = c.itunes_ext();
    let author = it.and_then(|x| x.author()).map(String::from);
    let explicit = it.and_then(|x| x.explicit()).map(String::from);
    Some((c.title().to_string(), c.description().to_string(), author, explicit))
}

/// Calls `rss::Channel::read_from(bytes)` and reads each item's title,
/// enclosure address, guid, description, publication date and iTunes
/// duration; `None` when the bytes are not a valid RSS document.
#[verifier::external_body]
fn read_channel_items(bytes: &[u8]) -> (res: Option<Vec<ItemData>>)
    ensures
        res is Some <==> rss_valid(bytes@),
        res matches Some(v) ==> v@.map_values(|i: ItemData| item_view(i)) == rss_items(bytes@),
{
    let c = rss::Channel::read_from(bytes).ok()?;
    let o = |x: Option<&str>| x.map(String::from);
    Some(c.items().iter().map(|i| ItemData {
        title: o(i.title()),
        enclosure_url: o(i.enclosure().map(|e| e.url())),
        guid: o(i.guid().map(|g| g.value())),
        description: o(i.description()),
        pub_date: o(i.pub_date()),
        itunes_duration: o(i.itunes_ext().and_then(|x| x.duration())),
    }).collect())
}

/// Reads the parts of an RSS channel the program uses from `bytes`.
fn read_channel(bytes: &[u8]) -> (res: Option<ChannelData>)
    ensures
        res is Some <==> rss_valid(bytes@),
        res matches Some(c) ==> {
            let h = rss_header(bytes@);
            channel_view(c) == (h.0, h.1, h.2, h.3, rss_items(bytes@))
        },
{
    let header = read_channel_header(bytes);
    let items = read_channel_items(bytes);
    match (header, items) {
        (Some((title, description, itunes_author, itunes_explicit)), Some(items)) => Some(
            ChannelData { title, description, itunes_author, itunes_explicit, items },
        ),
        _ => None,
    }
}

/// The time (Unix timestamp) `chrono::DateTime::parse_from_rfc2822`
/// reads from `s`, or `None` when it cannot.
pub uninterp spec fn rfc2822_timestamp(s: Seq<char>) -> Option<i64>;

/// Calls `chrono::DateTime::parse_from_rfc2822(s)` and gives the time
/// as a Unix timestamp; the result is named `rfc2822_timestamp`.
#[verifier::external_body]
fn parse_rfc2822(s: &str) -> (res: Option<i64>)
    ensures
        res == rfc2822_timestamp(s@),
{
    chrono::DateTime::parse_from_rfc2822(s).ok().map(|d| d.timestamp())
}

/// The explicitness named by a (lowercased) iTunes value: "yes",
/// "explicit" and "true" mean explicit; "no", "clean" and "false" mean
/// not; anything else is unknown.
pub open spec fn explicit_of(lower: Seq<char>) -> Option<bool> {
    if lower == "yes"@ || lower == "explicit"@ || lower == "true"@ {
        Some(true)
    } else if lower == "no"@ || lower == "clean"@ || lower == "false"@ {
        Some(false)
    } else {
        None
    }
}

/// Reads an iTunes explicitness value, in any case.
pub fn parse_explicit(value: &Option<String>) -> (res: Option<bool>)
    ensures
        res == match *value {
            Some(v) => explicit_of(lowercase(v@)),
            None => None,
        },
{
    match value {
        Some(v) => {
            let lower = to_lowercase(v.as_str());
            if eq_str(&lower, "yes") || eq_str(&lower, "explicit") || eq_str(&lower, "true") {
                Some(true)
            } else if eq_str(&lower, "no") || eq_str(&lower, "clean") || eq_str(&lower, "false") {
                Some(false)
            } else {
                None
            }
        },
        None => None,
    }
}

/// A string, or the empty string.
pub open spec fn or_empty(s: Option<Seq<char>>) -> Seq<char> {
    match s {
        Some(t) => t,
        None => Seq::empty(),
    }
}

/// The episode an item describes: its title, media address, guid and
/// description (empty when missing), its publication time when the date
/// can be read, and its duration in seconds when it can be read.
pub open spec fn episode_of(item: ItemView) -> (Seq<char>, Seq<char>, Seq<char>, Seq<char>, Option<i64>, Option<i64>) {
    (
        or_empty(item.0),
        or_empty(item.1),
        or_empty(item.2),
        or_empty(item.3),
        match item.4 {
            Some(d) => rfc2822_timestamp(d),
            None => None,
        },
        match item.5 {
            Some(d) => match spec_duration(regex_captures(DURATION_PATTERN@, d)) {
                Some(v) => Some(v as i64),
                None => None,
            },
            None => None,
        },
    )
}

/// The view of an episode read from a feed.
pub open spec fn episode_no_id_view(e: EpisodeNoId) -> (Seq<char>, Seq<char>, Seq<char>, Seq<char>, Option<i64>, Option<i64>) {
    (e.title@, e.url@, e.guid@, e.description@, e.pubdate, e.duration)
}

/// A string, or the empty string.
fn string_or_empty(s: &Option<String>) -> (res: String)
    ensures
        res@ == or_empty(opt_view(*s)),
{
    match s {
        Some(t) => t.clone(),
        None => String::new(),
    }
}

/// Reads an episode from an item of a feed.
pub fn parse_episode_data(item: &ItemData) -> (res: EpisodeNoId)
    ensures
        episode_no_id_view(res) == episode_of(item_view(*item)),
{
    let pubdate = match &item.pub_date {
        Some(pd) => parse_rfc2822(pd.as_str()),
        None => None,
    };
    let duration = match &item.itunes_duration {
        Some(d) => match duration_to_int(Some(d.as_str())) {
            Some(dur) => Some(dur as i64),
            None => None,
        },
        None => None,
    };
    EpisodeNoId {
        title: string_or_empty(&item.title),
        url: string_or_empty(&item.enclosure_url),
        guid: string_or_empty(&item.guid),
        description: string_or_empty(&item.description),
        pubdate: pubdate,
        duration: duration,
    }
}

/// Reads a podcast from a channel fetched from `url` at time `now`: its
/// title and description, its iTunes author and explicitness, and an
/// episode for each item, in order.
pub fn parse_feed_data(channel: ChannelData, url: &str, now: i64) -> (res: PodcastNoId)
    ensures
        res.title@ == channel.title@,
        res.url@ == url@,
        res.description matches Some(d) && d@ == channel.description@,
        opt_view(res.author) == opt_view(channel.itunes_author),
        res.explicit == match channel.itunes_explicit {
            Some(v) => explicit_of(lowercase(v@)),
            None => None,
        },
        res.last_checked == now,
        res.episodes@.map_values(|e: EpisodeNoId| episode_no_id_view(e)) == channel.items@.map_values(
            |i: ItemData| episode_of(item_view(i)),
        ),
{
    let explicit = parse_explicit(&channel.itunes_explicit);
    let mut episodes: Vec<EpisodeNoId> = Vec::new();
    let mut i: usize = 0;
    while i < channel.items.len()
        invariant
            i <= channel.items@.len(),
            episodes@.map_values(|e: EpisodeNoId| episode_no_id_view(e)) == channel.items@.take(
                i as int,
            ).map_values(|it: ItemData| episode_of(item_view(it))),
        decreases channel.items.len() - i,
    {
        let e = parse_episode_data(&channel.items[i]);
        assert(episode_no_id_view(e) == episode_of(item_view(channel.items@[i as int])));
        let ghost prev = episodes@;
        episodes.push(e);
        assert(episodes@.map_values(|e: EpisodeNoId| episode_no_id_view(e)) =~= prev.map_values(
            |e: EpisodeNoId| episode_no_id_view(e),
        ).push(episode_of(item_view(channel.items@[i as int]))));
        assert(channel.items@.take(i + 1).map_values(|it: ItemData| episode_of(item_view(it)))
            =~= channel.items@.take(i as int).map_values(|it: ItemData| episode_of(item_view(it))).push(
            episode_of(item_view(channel.items@[i as int])),
        ));
        i = i + 1;
        assert(episodes@.map_values(|e: EpisodeNoId| episode_no_id_view(e)) =~= channel.items@.take(
            i as int,
        ).map_values(|it: ItemData| episode_of(item_view(it))));
    }
    assert(channel.items@.take(i as int) =~= channel.items@);
    PodcastNoId {
        title: channel.title,
        url: String::from_str(url),
        description: Some(channel.description),
        author: channel.itunes_author,
        explicit: explicit,
        last_checked: now,
        episodes: episodes,
    }
}

/// The podcast an RSS document fetched from `url` at time `now`
/// describes, or `None` when it is not a valid RSS document.
pub fn feed_from_bytes(bytes: &[u8], url: &str, now: i64) -> (res: Option<PodcastNoId>)
    ensures
        res is Some <==> rss_valid(bytes@),
        res matches Some(p) ==> {
            let h = rss_header(bytes@);
            let c = (h.0, h.1, h.2, h.3, rss_items(bytes@));
            &&& p.title@ == c.0
            &&& p.url@ == url@
            &&& p.description == Some(p.description->0) && p.description->0@ == c.1
            &&& opt_view(p.author) == c.2
            &&& p.explicit == match c.3 {
                Some(v) => explicit_of(lowercase(v)),
                None => None,
            }
            &&& p.last_checked == now
            &&& p.episodes@.map_values(|e: EpisodeNoId| episode_no_id_view(e)) == c.4.map_values(
                |i: ItemView| episode_of(i),
            )
        },
{
    match read_channel(bytes) {
        Some(channel) => {
            let ghost items = channel.items@;
            let p = parse_feed_data(channel, url, now);
            assert(items.map_values(|i: ItemData| episode_of(item_view(i))) =~= items.map_values(
                |i: ItemData| item_view(i),
            ).map_values(|i: ItemView| episode_of(i)));
            Some(p)
        },
        None => None,
    }
}

/// A digit character has its digit value.
proof fn lemma_digit_char_value(d: nat)
    requires
        d < 10,
    ensures
        spec_digit_value(digit_char(d), 10) == Some(d),
        '0' <= digit_char(d) <= '9',
{
    assert(((d + 48) as u8) as char as int == d + 48);
}

/// The decimal digits of `n` are digits, and they read back as `n`.
pub(crate) proof fn lemma_decimal_reads_back(n: nat)
    ensures
        all_digits(decimal(n), 10),
        digits_value(decimal(n), 10) == n,
        decimal(n).len() > 0,
        '0' <= decimal(n)[0] <= '9',
    decreases n,
{
    if n < 10 {
        lemma_digit_char_value(n);
        let t = seq![digit_char(n)];
        assert(t.drop_last() =~= Seq::<char>::empty());
        assert(digits_value(t.drop_last(), 10) == 0);
        assert(digits_value(t, 10) == digits_value(t.drop_last(), 10) * 10 + spec_digit_value(
            t.last(),
            10,
        ).unwrap_or(0));
    } else {
        lemma_decimal_reads_back(n / 10);
        lemma_digit_char_value(n % 10);
        let d = decimal(n / 10);
        assert(decimal(n).drop_last() =~= d);
        assert(decimal(n).last() == digit_char(n % 10));
        assert(digits_value(decimal(n), 10) == digits_value(d, 10) * 10 + (n % 10));
        assert((n / 10) * 10 + n % 10 == n) by (nonlinear_arith);
        assert forall|i: int| 0 <= i < decimal(n).len() implies (#[trigger] spec_digit_value(
            decimal(n)[i],
            10,
        )) is Some by {
            if i < d.len() {
                assert(decimal(n)[i] == d[i]);
            }
        }
        assert(decimal(n)[0] == d[0]);
    }
}

/// A number from 0 to 99 written as `{:02}` reads back as itself.
proof fn lemma_two_digits_read_back(n: int)
    requires
        0 <= n <= 99,
    ensures
        spec_parse_i32(fmt_02(n)) == Some(n as i32),
{
    lemma_decimal_reads_back(n as nat);
    let t = fmt_02(n);
    if n < 10 {
        lemma_digit_char_value(0);
        assert(decimal(n as nat) =~= seq![digit_char(n as nat)]);
        assert(t =~= seq!['0', digit_char(n as nat)]);
        assert(digit_char(0) == '0');
        assert(t.drop_last() =~= seq!['0']);
        assert(seq!['0'].drop_last() =~= Seq::<char>::empty());
        assert(digits_value(Seq::<char>::empty(), 10) == 0);
        assert(spec_digit_value('0', 10) == Some(0nat));
        assert(digits_value(seq!['0'], 10) == 0);
        assert(t.last() == digit_char(n as nat));
        assert(digits_value(t, 10) == digits_value(seq!['0'], 10) * 10 + n);
        assert(digits_value(t, 10) == n);
        assert forall|i: int| 0 <= i < t.len() implies (#[trigger] spec_digit_value(t[i], 10)) is Some by {}
    } else {
        assert(t == decimal(n as nat));
    }
}

/// A duration written as HH:MM:SS reads back as its number of seconds,
/// and that number is formatted back as the same HH:MM:SS: given the
/// groups a match of `DURATION_PATTERN` captures from `HH:MM:SS` (the
/// whole match, then the hours, minutes and seconds),
/// `duration_from_captures` gives the seconds, and `format_duration`
/// of those seconds gives the text again.
pub proof fn law_duration_round_trip(whole: Seq<char>, h: int, m: int, s: int)
    requires
        0 <= h <= 99,
        0 <= m <= 59,
        0 <= s <= 59,
    ensures
        spec_duration(Some(seq![Some(whole), Some(fmt_02(h)), Some(fmt_02(m)), Some(fmt_02(s))]))
            == Some((h * 3600 + m * 60 + s) as i32),
        spec_format_duration(Some((h * 3600 + m * 60 + s) as i64)) == fmt_02(h) + seq![':'] + fmt_02(m)
            + seq![':'] + fmt_02(s),
{
    lemma_two_digits_read_back(h);
    lemma_two_digits_read_back(m);
    lemma_two_digits_read_back(s);
    let g = seq![Some(whole), Some(fmt_02(h)), Some(fmt_02(m)), Some(fmt_02(s))];
    assert(g.drop_last().drop_last().drop_last() =~= seq![Some(whole)]);
    assert(g.drop_last().drop_last() =~= seq![Some(whole), Some(fmt_02(h))]);
    assert(g.drop_last() =~= seq![Some(whole), Some(fmt_02(h)), Some(fmt_02(m))]);
    assert(present_groups(seq![Some(whole)]) =~= Seq::<Seq<char>>::empty());
    assert(present_groups(g.drop_last().drop_last()) =~= seq![fmt_02(h)]);
    assert(present_groups(g.drop_last()) =~= seq![fmt_02(h), fmt_02(m)]);
    assert(present_groups(g) =~= seq![fmt_02(h), fmt_02(m), fmt_02(s)]);
    let d = h * 3600 + m * 60 + s;
    assert(trunc_div(d, 3600) == h) by (nonlinear_arith)
        requires
            d == h * 3600 + m * 60 + s,
            0 <= h,
            0 <= m <= 59,
            0 <= s <= 59,
    ;
    assert(trunc_div(d - h * 3600, 60) == m) by (nonlinear_arith)
        requires
            d == h * 3600 + m * 60 + s,
            0 <= m <= 59,
            0 <= s <= 59,
    ;
}

} // verus!
