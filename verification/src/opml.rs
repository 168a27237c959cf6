//! Importing and exporting the list of podcast feeds as OPML.

use vstd::prelude::*;
use vstd::string::*;

use crate::feeds::PodcastFeed;
use crate::types::Podcast;

verus! {

/// The attributes of a top-level outline of an OPML document that the
/// import reads.
#[derive(Debug)]
pub struct OutlineData {
    pub text: String,
    pub title: Option<String>,
    pub xml_url: Option<String>,
}

/// An optional string's view.
pub open spec fn opt_view(s: Option<String>) -> Option<Seq<char>> {
    match s {
        Some(v) => Some(v@),
        None => None,
    }
}

/// The view of an outline: (text, title, feed URL).
pub open spec fn outline_view(o: OutlineData) -> (Seq<char>, Option<Seq<char>>, Option<Seq<char>>) {
    (o.text@, opt_view(o.title), opt_view(o.xml_url))
}

/// Why an OPML document could not be read.
#[derive(Debug, Clone, PartialEq, Eq)]
pub enum ImportError {
    /// The body has no outline.
    BodyHasNoOutlines,
    /// The document could not be read.
    Io,
    /// The document's version is not 1.0, 1.1 or 2.0.
    UnsupportedVersion(String),
    /// The document is not valid XML (or not OPML).
    Xml,
}

/// The top-level outlines of the OPML document `xml`, as (text, title,
/// feed URL), when `opml::OPML::from_str` accepts it.
pub uninterp spec fn opml_outlines(xml: Seq<char>) -> Option<Seq<(Seq<char>, Option<Seq<char>>, Option<Seq<char>>)>>;

/// Calls `opml::OPML::from_str(xml)` and keeps the text, title and feed
/// URL of each top-level outline. The outlines are named
/// `opml_outlines`; an accepted document has at least one outline (the
/// crate refuses a body without one). The crate's error is turned into
/// the matching `ImportError`.
#[verifier::external_body]
fn parse_opml(xml: &str) -> (res: Result<Vec<OutlineData>, ImportError>)
    ensures
        res is Ok <==> opml_outlines(xml@) is Some,
        res matches Ok(v) ==> v@.map_values(|o: OutlineData| outline_view(o)) == opml_outlines(
            xml@,
        )->0 && v@.len() > 0,
{
    match opml::OPML::from_str(xml) {
        Ok(doc) => Ok(doc.body.outlines.into_iter().map(|o| OutlineData {
            text: o.text,
            title: o.title,
            xml_url: o.xml_url,
        }).collect()),
        Err(opml::Error::BodyHasNoOutlines) => Err(ImportError::BodyHasNoOutlines),
        Err(opml::Error::IoError(_)) => Err(ImportError::Io),
        Err(opml::Error::UnsupportedVersion(v)) => Err(ImportError::UnsupportedVersion(v)),
        Err(opml::Error::XmlError(_)) => Err(ImportError::Xml),
    }
}

/// The title of an imported feed: the outline's title when it is set and
/// not empty, or else its text when that is not empty.
pub open spec fn outline_title(o: (Seq<char>, Option<Seq<char>>, Option<Seq<char>>)) -> Option<Seq<char>> {
    match o.1 {
        Some(t) if t.len() > 0 => Some(t),
        _ => if o.0.len() == 0 {
            None
        } else {
            Some(o.0)
        },
    }
}

/// The feeds of a list of outlines: one per outline with a feed URL, in
/// order, with no id.
pub open spec fn feeds_of(outlines: Seq<(Seq<char>, Option<Seq<char>>, Option<Seq<char>>)>) -> Seq<(Seq<char>, Option<Seq<char>>)>
    decreases outlines.len(),
{
    if outlines.len() == 0 {
        Seq::empty()
    } else {
        let rest = feeds_of(outlines.drop_last());
        let o = outlines.last();
        match o.2 {
            Some(url) => rest.push((url, outline_title(o))),
            None => rest,
        }
    }
}

/// The view of a feed: (URL, title).
pub open spec fn feed_view(f: PodcastFeed) -> (Seq<char>, Option<Seq<char>>) {
    (f.url@, opt_view(f.title))
}

/// Whether a string is empty.
fn is_empty_string(s: &String) -> (res: bool)
    ensures
        res == (s@.len() == 0),
{
    s.as_str().unicode_len() == 0
}

/// The feeds of the outlines that have a feed URL, in order.
pub fn feeds_from_outlines(outlines: Vec<OutlineData>) -> (res: Vec<PodcastFeed>)
    ensures
        res@.map_values(|f: PodcastFeed| feed_view(f)) == feeds_of(
            outlines@.map_values(|o: OutlineData| outline_view(o)),
        ),
        forall|i: int| 0 <= i < res@.len() ==> (#[trigger] res@[i]).id is None,
{
    let ghost all = outlines@.map_values(|o: OutlineData| outline_view(o));
    let mut outlines = outlines;
    let ghost orig = outlines@;
    let total = outlines.len();
    let mut feeds: Vec<PodcastFeed> = Vec::new();
    let mut n: usize = 0;
    while outlines.len() > 0
        invariant
            n + outlines@.len() == orig.len(),
            orig.len() == total,
            outlines@ == orig.skip(n as int),
            all == orig.map_values(|o: OutlineData| outline_view(o)),
            feeds@.map_values(|f: PodcastFeed| feed_view(f)) == feeds_of(all.take(n as int)),
            forall|i: int| 0 <= i < feeds@.len() ==> (#[trigger] feeds@[i]).id is None,
        decreases outlines@.len(),
    {
        let pod = outlines.remove(0);
        assert(orig[n as int] == pod);
        assert(all.take(n + 1).drop_last() =~= all.take(n as int));
        assert(all[n as int] == outline_view(pod));
        let OutlineData { text, title, xml_url } = pod;
        match xml_url {
            Some(url) => {
                let temp_title = match title {
                    Some(t) => if is_empty_string(&t) {
                        None
                    } else {
                        Some(t)
                    },
                    None => None,
                };
                let title = match temp_title {
                    Some(t) => Some(t),
                    None => {
                        if is_empty_string(&text) {
                            None
                        } else {
                            Some(text)
                        }
                    },
                };
                let ghost before = feeds@;
                feeds.push(PodcastFeed::new(None, url, title));
                assert(feeds@.map_values(|f: PodcastFeed| feed_view(f)) =~= before.map_values(
                    |f: PodcastFeed| feed_view(f),
                ).push(feed_view(feeds@.last())));
            },
            None => {},
        }
        n = n + 1;
        assert(outlines@ =~= orig.skip(n as int));
    }
    assert(all.take(n as int) =~= all);
    feeds
}

/// Reads a list of podcast feeds from an OPML document (versions 1.0,
/// 1.1 and 2.0): one feed per top-level outline with a feed URL.
pub fn import(xml: String) -> (res: Result<Vec<PodcastFeed>, ImportError>)
    ensures
        res is Ok <==> opml_outlines(xml@) is Some,
        res matches Ok(feeds) ==> feeds@.map_values(|f: PodcastFeed| feed_view(f)) == feeds_of(
            opml_outlines(xml@)->0,
        ) && forall|i: int| 0 <= i < feeds@.len() ==> (#[trigger] feeds@[i]).id is None,
{
    match parse_opml(xml.as_str()) {
        Err(err) => Err(err),
        Ok(outlines) => Ok(feeds_from_outlines(outlines)),
    }
}

/// An outline of an exported OPML document.
#[derive(Debug)]
pub struct ExportOutline {
    pub text: String,
    pub kind: String,
    pub xml_url: String,
    pub title: String,
}

/// An OPML document listing podcast feeds.
#[derive(Debug)]
pub struct OpmlExport {
    pub head_title: String,
    pub date_created: String,
    pub outlines: Vec<ExportOutline>,
}

/// The title given to an exported document.
pub open spec fn export_title() -> Seq<char> {
    "Shellcaster Podcast Feeds"@
}

/// Lists the podcasts as an OPML document created at `date_created`:
/// one `rss` outline per podcast, in order, whose text and title are
/// the podcast's title and whose feed URL is the podcast's URL.
pub fn export(podcasts: Vec<Podcast>, date_created: String) -> (res: OpmlExport)
    ensures
        res.head_title@ == export_title(),
        res.date_created == date_created,
        res.outlines@.len() == podcasts@.len(),
        forall|i: int|
            0 <= i < podcasts@.len() ==> {
                &&& (#[trigger] res.outlines@[i]).text@ == podcasts@[i].title@
                &&& res.outlines@[i].kind@ == "rss"@
                &&& res.outlines@[i].xml_url@ == podcasts@[i].url@
                &&& res.outlines@[i].title@ == podcasts@[i].title@
            },
{
    let mut outlines: Vec<ExportOutline> = Vec::new();
    let mut i: usize = 0;
    while i < podcasts.len()
        invariant
            i <= podcasts@.len(),
            outlines@.len() == i,
            forall|j: int|
                0 <= j < i ==> {
                    &&& (#[trigger] outlines@[j]).text@ == podcasts@[j].title@
                    &&& outlines@[j].kind@ == "rss"@
                    &&& outlines@[j].xml_url@ == podcasts@[j].url@
                    &&& outlines@[j].title@ == podcasts@[j].title@
                },
        decreases podcasts@.len() - i,
    {
        let pod = &podcasts[i];
        outlines.push(
            ExportOutline {
                text: pod.title.clone(),
                kind: String::from_str("rss"),
                xml_url: pod.url.clone(),
                title: pod.title.clone(),
            },
        );
        i = i + 1;
    }
    OpmlExport {
        head_title: String::from_str("Shellcaster Podcast Feeds"),
        date_created: date_created,
        outlines: outlines,
    }
}

/// What reading an exported outline back gives: its text, its title
/// and its feed URL, all present.
pub open spec fn exported_outline_view(o: ExportOutline) -> (Seq<char>, Option<Seq<char>>, Option<Seq<char>>) {
    (o.text@, Some(o.title@), Some(o.xml_url@))
}

/// The feed a podcast is listed as: its URL, and its title unless that
/// is empty.
pub open spec fn podcast_feed_view(p: Podcast) -> (Seq<char>, Option<Seq<char>>) {
    (p.url@, if p.title@.len() == 0 {
        None
    } else {
        Some(p.title@)
    })
}

/// Exporting then importing gives back the podcasts' feeds, in order:
/// the outlines `export` makes of `podcasts`, read back, lead to one feed
/// per podcast with its URL and (unless empty) its title.
pub proof fn law_export_then_import(podcasts: Seq<Podcast>, outlines: Seq<ExportOutline>)
    requires
        outlines.len() == podcasts.len(),
        forall|i: int|
            0 <= i < podcasts.len() ==> {
                &&& (#[trigger] outlines[i]).text@ == podcasts[i].title@
                &&& outlines[i].xml_url@ == podcasts[i].url@
                &&& outlines[i].title@ == podcasts[i].title@
            },
    ensures
        feeds_of(outlines.map_values(|o: ExportOutline| exported_outline_view(o))) == podcasts.map_values(
            |p: Podcast| podcast_feed_view(p),
        ),
    decreases podcasts.len(),
{
    let views = outlines.map_values(|o: ExportOutline| exported_outline_view(o));
    let feeds = podcasts.map_values(|p: Podcast| podcast_feed_view(p));
    if podcasts.len() == 0 {
        assert(feeds =~= Seq::<(Seq<char>, Option<Seq<char>>)>::empty());
    } else {
        let n = podcasts.len() - 1;
        law_export_then_import(podcasts.drop_last(), outlines.drop_last());
        assert(views.drop_last() =~= outlines.drop_last().map_values(
            |o: ExportOutline| exported_outline_view(o),
        ));
        assert(feeds.drop_last() =~= podcasts.drop_last().map_values(|p: Podcast| podcast_feed_view(p)));
        assert(outlines[n].text@ == podcasts[n].title@);
        assert(views.last() == exported_outline_view(outlines[n]));
        assert(feeds =~= feeds.drop_last().push(podcast_feed_view(podcasts[n])));
    }
}

} // verus!
