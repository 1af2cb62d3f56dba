//! Results of a remote beatmap search and the archive names they get.

use vstd::prelude::*;
use vstd::string::*;
use crate::download::osz_named;
use crate::download::sanitize_osz_name;
use crate::text::{chars_of, dec_nat, lower_of, push_dec, sanitized, string_of};

verus! {

#[derive(Clone, Copy, Debug, PartialEq, Eq, Structural)]
pub enum BeatmapSource {
    Catboy,
    Nerinyan,
}

pub fn beatmap_source_label(source: &BeatmapSource) -> (r: &'static str)
    ensures
        r@ == match source {
            BeatmapSource::Catboy => "Catboy.best"@,
            BeatmapSource::Nerinyan => "Nerinyan"@,
        },
{
    match source {
        BeatmapSource::Catboy => "Catboy.best",
        BeatmapSource::Nerinyan => "Nerinyan",
    }
}

#[derive(Clone, Debug)]
pub struct BeatmapSearchResult {
    pub id: u64,
    pub title: String,
    pub artist: String,
    pub creator: String,
    pub source: BeatmapSource,
    pub download_url: String,
}

pub open spec fn search_base(r: BeatmapSearchResult) -> Seq<char> {
    r.artist@ + " - "@ + r.title@ + " ("@ + r.creator@ + ")"@
}

/// `"<artist> - <title> (<creator>)"`, sanitised, ending in `.osz`.
pub fn build_osz_name(result: &BeatmapSearchResult) -> (r: String)
    ensures
        r@ == osz_named(sanitized(search_base(*result)), lower_of(sanitized(search_base(*result)))),
{
    let mut name = result.artist.clone();
    name.append(" - ");
    name.append(result.title.as_str());
    name.append(" (");
    name.append(result.creator.as_str());
    name.append(")");
    sanitize_osz_name(name.as_str())
}


/// One beatmap set as a search API reports it.
#[derive(Clone, Debug)]
pub struct ApiBeatmap {
    pub set_id: u64,
    pub title: String,
    pub artist: String,
    pub creator: String,
}

/// A search hit with the URL its archive is downloaded from.
#[derive(Clone, Debug)]
pub struct BeatmapFound {
    pub title: String,
    pub artist: String,
    pub creator: String,
    pub source: BeatmapSource,
    pub download_url: String,
}

pub open spec fn download_prefix(source: BeatmapSource) -> Seq<char> {
    match source {
        BeatmapSource::Catboy => "https://catboy.best/d/"@,
        BeatmapSource::Nerinyan => "https://api.nerinyan.moe/d/"@,
    }
}

pub open spec fn search_prefix(source: BeatmapSource) -> Seq<char> {
    match source {
        BeatmapSource::Catboy => "https://catboy.best/api/v2/search?q="@,
        BeatmapSource::Nerinyan => "https://api.nerinyan.moe/search?q="@,
    }
}

/// The search URL for a query that is already URL-encoded.
pub fn search_url(source: BeatmapSource, encoded_query: &str) -> (r: String)
    ensures
        r@ == search_prefix(source) + encoded_query@,
{
    let mut r = match source {
        BeatmapSource::Catboy => String::from_str("https://catboy.best/api/v2/search?q="),
        BeatmapSource::Nerinyan => String::from_str("https://api.nerinyan.moe/search?q="),
    };
    r.append(encoded_query);
    r
}

pub open spec fn found_matches(f: BeatmapFound, b: ApiBeatmap, source: BeatmapSource) -> bool {
    &&& f.title@ == b.title@
    &&& f.artist@ == b.artist@
    &&& f.creator@ == b.creator@
    &&& f.source == source
    &&& f.download_url@ == download_prefix(source) + dec_nat(b.set_id as nat)
}

/// The records that are kept: Nerinyan's with a positive set id, all of
/// Catboy's.
pub open spec fn kept(source: BeatmapSource, b: ApiBeatmap) -> bool {
    source == BeatmapSource::Catboy || b.set_id > 0
}

pub open spec fn kept_records(source: BeatmapSource, bs: Seq<ApiBeatmap>) -> Seq<ApiBeatmap>
    decreases bs.len(),
{
    if bs.len() == 0 {
        Seq::empty()
    } else if kept(source, bs.last()) {
        kept_records(source, bs.drop_last()).push(bs.last())
    } else {
        kept_records(source, bs.drop_last())
    }
}

/// The search hits of one provider's answer, in order.
pub fn found_from_records(source: BeatmapSource, records: &Vec<ApiBeatmap>) -> (r: Vec<BeatmapFound>)
    ensures
        r@.len() == kept_records(source, records@).len(),
        forall|i: int|
            0 <= i < r@.len() ==> found_matches(
                #[trigger] r@[i],
                kept_records(source, records@)[i],
                source,
            ),
{
    let mut out: Vec<BeatmapFound> = Vec::new();
    let mut i: usize = 0;
    assert(records@.subrange(0, 0) =~= Seq::<ApiBeatmap>::empty());
    while i < records.len()
        invariant
            i <= records@.len(),
            out@.len() == kept_records(source, records@.subrange(0, i as int)).len(),
            forall|j: int|
                0 <= j < out@.len() ==> found_matches(
                    #[trigger] out@[j],
                    kept_records(source, records@.subrange(0, i as int))[j],
                    source,
                ),
        decreases records@.len() - i,
    {
        let b = &records[i];
        let ghost pre = records@.subrange(0, i as int);
        let ghost next = records@.subrange(0, i as int + 1);
        assert(next.drop_last() =~= pre);
        assert(next.last() == *b);
        if source == BeatmapSource::Catboy || b.set_id > 0 {
            let mut url = match source {
                BeatmapSource::Catboy => chars_of("https://catboy.best/d/"),
                BeatmapSource::Nerinyan => chars_of("https://api.nerinyan.moe/d/"),
            };
            push_dec(b.set_id, &mut url);
            let f = BeatmapFound {
                title: b.title.clone(),
                artist: b.artist.clone(),
                creator: b.creator.clone(),
                source,
                download_url: string_of(&url),
            };
            let ghost o0 = out@;
            out.push(f);
            assert forall|j: int| 0 <= j < out@.len() implies found_matches(
                #[trigger] out@[j],
                kept_records(source, next)[j],
                source,
            ) by {
                if j < o0.len() {
                    assert(out@[j] == o0[j]);
                    assert(kept_records(source, next)[j] == kept_records(source, pre)[j]);
                }
            }
        }
        i = i + 1;
    }
    assert(records@.subrange(0, records@.len() as int) =~= records@);
    out
}

} // verus!
