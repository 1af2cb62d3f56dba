//! Reading an archive held in memory: its content hash, the descriptor files
//! it holds, the metadata they give together, and a thumbnail of the
//! background image.

use vstd::prelude::*;
use vstd::utf8::{decode_utf8, valid_utf8};
use crate::errors::ImportError;
use crate::model::BeatmapMetadata;
use crate::paths::{join_path, path_join};
use vstd::string::*;
use crate::osu::{fields_of, parse_osu, parse_text, opt_view, OsuState, ParsedOsu};
use crate::text::{chars_of, contains_exec, contains_seq, ends_with, ends_with_exec};

verus! {

/// `std::io::Cursor`, the in-memory reader the archive reads from.
#[verifier::external_type_specification]
#[verifier::external_body]
#[verifier::reject_recursive_types(T)]
pub struct ExCursor<T>(std::io::Cursor<T>);

/// `zip::ZipArchive`, carried opaque; its entries are named by
/// `archive_names` and `archive_data`.
#[verifier::external_type_specification]
#[verifier::external_body]
#[verifier::reject_recursive_types(R)]
pub struct ExZipArchive<R>(zip::ZipArchive<R>);

/// `zip::result::ZipError`, mapped to `ImportError::ArchiveRead`.
#[verifier::external_type_specification]
#[verifier::external_body]
pub struct ExZipError(zip::result::ZipError);

/// `image::DynamicImage`, carried opaque between decoding and encoding.
#[verifier::external_type_specification]
#[verifier::external_body]
pub struct ExDynamicImage(image::DynamicImage);

/// `image::ImageError`: a background that does not decode or encode gives
/// no thumbnail.
#[verifier::external_type_specification]
#[verifier::external_body]
pub struct ExImageError(image::ImageError);

/// An archive read from bytes in memory.
pub type MemArchive = zip::ZipArchive<std::io::Cursor<Vec<u8>>>;

/// The names of the entries of an archive, in directory order; `None` for
/// a name that does not decode.
pub uninterp spec fn archive_names(a: MemArchive) -> Seq<Option<Seq<char>>>;

/// The uncompressed bytes of the entries of an archive, in directory order;
/// `None` for an entry that cannot be read.
pub uninterp spec fn archive_data(a: MemArchive) -> Seq<Option<Seq<u8>>>;

/// Whether `zip::ZipArchive::new` reads these bytes as an archive.
pub uninterp spec fn zip_opens(bytes: Seq<u8>) -> bool;

/// The entry names of the archive that `zip::ZipArchive::new` reads from
/// these bytes.
pub uninterp spec fn zip_names(bytes: Seq<u8>) -> Seq<Option<Seq<char>>>;

/// The entry contents of the archive that `zip::ZipArchive::new` reads from
/// these bytes.
pub uninterp spec fn zip_data(bytes: Seq<u8>) -> Seq<Option<Seq<u8>>>;

/// Relies on `zip::ZipArchive::new`: reads the central directory of the
/// archive held in `bytes`; what it reads depends on the bytes alone.
#[verifier::external_body]
fn open_archive(bytes: Vec<u8>) -> (r: Result<MemArchive, zip::result::ZipError>)
    ensures
        r is Ok <==> zip_opens(bytes@),
        r is Ok ==> archive_names(r->Ok_0) == zip_names(bytes@) && archive_data(r->Ok_0)
            == zip_data(bytes@),
{
    zip::ZipArchive::new(std::io::Cursor::new(bytes))
}

/// Relies on `zip::ZipArchive::len`: the number of entries.
#[verifier::external_body]
fn archive_len(a: &MemArchive) -> (r: usize)
    ensures
        r == archive_names(*a).len(),
        r == archive_data(*a).len(),
{
    a.len()
}

/// Relies on `zip::ZipArchive::name_for_index`: the decoded name of entry
/// `i`; `None` when the name cannot be decoded.
#[verifier::external_body]
fn entry_name(a: &MemArchive, i: usize) -> (r: Option<String>)
    requires
        i < archive_names(*a).len(),
    ensures
        r is Some <==> archive_names(*a)[i as int] is Some,
        r is Some ==> r->0@ == archive_names(*a)[i as int]->0,
{
    a.name_for_index(i).and_then(|n| n.ok()).map(|n| n.to_string())
}

/// Relies on `zip::ZipArchive::by_index`, read to its end through the
/// `Read` of the entry it returns: the uncompressed bytes of entry `i`.
/// `by_index` seeks to the entry, so earlier reads do not matter.
#[verifier::external_body]
fn entry_bytes(a: &mut MemArchive, i: usize) -> (r: Result<Vec<u8>, zip::result::ZipError>)
    requires
        i < archive_names(*old(a)).len(),
    ensures
        archive_names(*final(a)) == archive_names(*old(a)),
        archive_data(*final(a)) == archive_data(*old(a)),
        r is Ok <==> archive_data(*old(a))[i as int] is Some,
        r is Ok ==> r->Ok_0@ == archive_data(*old(a))[i as int]->0,
{
    let mut f = a.by_index(i)?;
    let mut data = Vec::new();
    std::io::Read::read_to_end(&mut f, &mut data)?;
    Ok(data)
}

/// Relies on `String::from_utf8`: `Some` exactly for valid UTF-8, holding
/// the characters it encodes.
#[verifier::external_body]
fn utf8_text(bytes: Vec<u8>) -> (r: Option<String>)
    ensures
        r is Some <==> valid_utf8(bytes@),
        r is Some ==> r->0@ == decode_utf8(bytes@),
{
    String::from_utf8(bytes).ok()
}

/// What `blake3::hash` returns, as lower-case hexadecimal text.
pub uninterp spec fn blake3_hex_of(data: Seq<u8>) -> Seq<char>;

/// Relies on `blake3::hash` and `Hash::to_hex`: the 32-byte digest of
/// `data` as 64 lower-case hexadecimal digits.
#[verifier::external_body]
pub(crate) fn content_hash(data: &Vec<u8>) -> (r: String)
    ensures
        r@ == blake3_hex_of(data@),
        r@.len() == 64,
{
    blake3::hash(data).to_hex().to_string()
}

/// Whether `image::load_from_memory` decodes these bytes.
pub uninterp spec fn image_decodes(data: Seq<u8>) -> bool;

/// The content hash of an archive: its blake3 digest in hexadecimal.
pub fn hash_archive(data: &Vec<u8>) -> (r: String)
    ensures
        r@ == blake3_hex_of(data@),
        r@.len() == 64,
{
    content_hash(data)
}

/// Relies on `image::load_from_memory`: decodes an image, guessing its
/// format from the bytes alone.
#[verifier::external_body]
fn decode_image(data: &Vec<u8>) -> (r: Result<image::DynamicImage, image::ImageError>)
    ensures
        r is Ok <==> image_decodes(data@),
{
    image::load_from_memory(data)
}

/// Relies on `DynamicImage::thumbnail`: scales down to fit in the bounds,
/// keeping the aspect ratio.
#[verifier::external_body]
fn thumbnail_of(img: &image::DynamicImage, w: u32, h: u32) -> (r: image::DynamicImage) {
    img.thumbnail(w, h)
}

/// Relies on `DynamicImage::write_to` with `ImageFormat::Png`: the PNG
/// encoding of the image, which starts with the 8-byte PNG signature.
#[verifier::external_body]
fn encode_png(img: &image::DynamicImage) -> (r: Result<Vec<u8>, image::ImageError>)
    ensures
        r is Ok ==> r->Ok_0@.len() >= 8,
{
    let mut out = std::io::Cursor::new(Vec::new());
    img.write_to(&mut out, image::ImageFormat::Png)?;
    Ok(out.into_inner())
}

/// Largest width and height of a thumbnail.
pub const THUMBNAIL_SIZE: u32 = 256;

/// PNG bytes of a thumbnail of the image in `data`; `None` when it does not
/// decode or encode.
pub fn make_thumbnail(data: &Vec<u8>) -> (r: Option<Vec<u8>>)
    ensures
        r is Some ==> image_decodes(data@) && r->0@.len() >= 8,
        !image_decodes(data@) ==> r is None,
{
    match decode_image(data) {
        Ok(img) => {
            let t = thumbnail_of(&img, THUMBNAIL_SIZE, THUMBNAIL_SIZE);
            match encode_png(&t) {
                Ok(png) => Some(png),
                Err(_) => None,
            }
        },
        Err(_) => None,
    }
}

pub open spec fn both_empty(st: OsuState) -> bool {
    st.title.len() == 0 && st.artist.len() == 0
}

/// Entry `i` is a descriptor file: its name ends in `.osu`.
pub open spec fn is_descriptor_name(names: Seq<Option<Seq<char>>>, i: int) -> bool {
    names[i] is Some && ends_with(names[i]->0, ".osu"@)
}

/// The text of descriptor `i`.
pub open spec fn descriptor_text(data: Seq<Option<Seq<u8>>>, i: int) -> Seq<char> {
    decode_utf8(data[i]->0)
}

/// Every one of the first `n` entries has a readable name, and every
/// descriptor among them can be read as UTF-8.
pub open spec fn reads_ok(names: Seq<Option<Seq<char>>>, data: Seq<Option<Seq<u8>>>, n: nat) -> bool {
    forall|i: int|
        0 <= i < n ==> (#[trigger] names[i]) is Some && (is_descriptor_name(names, i) ==> data[i]
            is Some && valid_utf8(data[i]->0))
}

/// The parsed descriptors of the first `n` entries: each descriptor file
/// whose text names a title or an artist.
pub open spec fn descriptors(
    names: Seq<Option<Seq<char>>>,
    data: Seq<Option<Seq<u8>>>,
    n: nat,
) -> Seq<OsuState>
    decreases n,
{
    if n == 0 {
        Seq::empty()
    } else {
        let d = descriptors(names, data, (n - 1) as nat);
        let i = n - 1;
        if is_descriptor_name(names, i) && data[i] is Some && valid_utf8(data[i]->0) && !both_empty(
            parse_text(descriptor_text(data, i)),
        ) {
            d.push(fields_of(parse_text(descriptor_text(data, i))))
        } else {
            d
        }
    }
}

pub open spec fn states_of(ps: Seq<ParsedOsu>) -> Seq<OsuState> {
    ps.map_values(|p: ParsedOsu| p.fields())
}

/// Parses every descriptor file of the archive. Fails with `ArchiveRead`
/// exactly when an entry name or a descriptor cannot be read, or a
/// descriptor is not UTF-8.
pub fn read_descriptors(a: &mut MemArchive) -> (r: Result<Vec<ParsedOsu>, ImportError>)
    ensures
        archive_names(*final(a)) == archive_names(*old(a)),
        archive_data(*final(a)) == archive_data(*old(a)),
        r is Ok <==> reads_ok(archive_names(*old(a)), archive_data(*old(a)), archive_names(*old(a)).len()),
        r is Ok ==> states_of(r->Ok_0@) == descriptors(
            archive_names(*old(a)),
            archive_data(*old(a)),
            archive_names(*old(a)).len(),
        ),
        r is Err ==> r->Err_0 == ImportError::ArchiveRead,
{
    let ghost names = archive_names(*a);
    let ghost data = archive_data(*a);
    let n = archive_len(a);
    let ext = chars_of(".osu");
    let mut parsed: Vec<ParsedOsu> = Vec::new();
    let mut i: usize = 0;
    while i < n
        invariant
            i <= n,
            n == names.len(),
            n == data.len(),
            names == archive_names(*old(a)),
            data == archive_data(*old(a)),
            archive_names(*a) == names,
            archive_data(*a) == data,
            ext@ == ".osu"@,
            reads_ok(names, data, i as nat),
            states_of(parsed@) == descriptors(names, data, i as nat),
        decreases n - i,
    {
        let name = match entry_name(a, i) {
            Some(n) => n,
            None => {
                assert(!reads_ok(names, data, n as nat)) by {
                    assert(names[i as int] is None);
                }
                return Err(ImportError::ArchiveRead);
            },
        };
        let ghost p0 = parsed@;
        if ends_with_exec(&chars_of(name.as_str()), &ext) {
            let bytes = match entry_bytes(a, i) {
                Ok(b) => b,
                Err(_) => {
                    assert(!reads_ok(names, data, n as nat)) by {
                        assert(is_descriptor_name(names, i as int));
                    }
                    return Err(ImportError::ArchiveRead);
                },
            };
            let text = match utf8_text(bytes) {
                Some(t) => t,
                None => {
                    assert(!reads_ok(names, data, n as nat)) by {
                        assert(is_descriptor_name(names, i as int));
                        assert(!valid_utf8(data[i as int]->0));
                    }
                    return Err(ImportError::ArchiveRead);
                },
            };
            match parse_osu(text.as_str()) {
                Ok(p) => {
                    parsed.push(p);
                    assert(states_of(parsed@) =~= states_of(p0).push(p.fields()));
                },
                Err(_) => {},
            }
        }
        assert(reads_ok(names, data, (i + 1) as nat)) by {
            assert forall|k: int| 0 <= k < i + 1 implies (#[trigger] names[k]) is Some && (
            is_descriptor_name(names, k) ==> data[k] is Some && valid_utf8(data[k]->0)) by {
                if k < i {
                }
            }
        }
        i = i + 1;
    }
    Ok(parsed)
}

pub open spec fn versions_of(sts: Seq<OsuState>) -> Seq<Seq<char>> {
    sts.map_values(|st: OsuState| st.version)
}

/// The beatmap ids of the descriptors that name one, in order.
pub open spec fn ids_of(sts: Seq<OsuState>) -> Seq<i32>
    decreases sts.len(),
{
    if sts.len() == 0 {
        Seq::empty()
    } else {
        let d = ids_of(sts.drop_last());
        match sts.last().beatmap_id {
            Some(id) => d.push(id),
            None => d,
        }
    }
}

/// `m` is what the descriptors give together: the first one's title,
/// artist, creator, set id, background and audio, every one's version, and
/// the beatmap ids that they name.
pub open spec fn meta_matches(m: BeatmapMetadata, sts: Seq<OsuState>) -> bool {
    &&& sts.len() > 0
    &&& m.title@ == sts[0].title
    &&& m.artist@ == sts[0].artist
    &&& m.creator@ == sts[0].creator
    &&& m.beatmap_set_id == sts[0].set_id
    &&& opt_view(m.background_file) == sts[0].background
    &&& opt_view(m.audio_file) == sts[0].audio
    &&& m.difficulties@.map_values(|d: String| d@) == versions_of(sts)
    &&& m.beatmap_ids@ == ids_of(sts)
}

/// Combines the parsed descriptors of one archive. Fails with
/// `MetadataParse` exactly when there is none.
pub fn aggregate_metadata(parsed: &Vec<ParsedOsu>) -> (r: Result<BeatmapMetadata, ImportError>)
    ensures
        r is Err <==> parsed@.len() == 0,
        r is Err ==> r->Err_0 == ImportError::MetadataParse,
        r is Ok ==> meta_matches(r->Ok_0, states_of(parsed@)),
{
    if parsed.len() == 0 {
        return Err(ImportError::MetadataParse);
    }
    let ghost sts = states_of(parsed@);
    let mut difficulties: Vec<String> = Vec::new();
    let mut ids: Vec<i32> = Vec::new();
    let mut i: usize = 0;
    assert(sts.subrange(0, 0) =~= Seq::<OsuState>::empty());
    while i < parsed.len()
        invariant
            i <= parsed@.len(),
            sts == states_of(parsed@),
            difficulties@.map_values(|d: String| d@) == versions_of(sts.subrange(0, i as int)),
            ids@ == ids_of(sts.subrange(0, i as int)),
        decreases parsed@.len() - i,
    {
        let p = &parsed[i];
        let ghost pre = sts.subrange(0, i as int);
        let ghost next = sts.subrange(0, i as int + 1);
        assert(next.drop_last() =~= pre);
        assert(next.last() == p.fields());
        let ghost d0 = difficulties@;
        difficulties.push(p.version.clone());
        assert(difficulties@.map_values(|d: String| d@) =~= d0.map_values(|d: String| d@).push(
            p.version@,
        ));
        assert(versions_of(next) =~= versions_of(pre).push(p.version@));
        match p.beatmap_id {
            Some(id) => ids.push(id),
            None => {},
        }
        i = i + 1;
    }
    assert(sts.subrange(0, parsed@.len() as int) =~= sts);
    let main = &parsed[0];
    assert(sts[0] == main.fields());
    Ok(
        BeatmapMetadata {
            title: main.title.clone(),
            artist: main.artist.clone(),
            creator: main.creator.clone(),
            difficulties,
            beatmap_set_id: main.beatmap_set_id,
            beatmap_ids: ids,
            background_file: main.background_file.clone(),
            audio_file: main.audio_file.clone(),
        },
    )
}


proof fn lemma_descriptors_named(names: Seq<Option<Seq<char>>>, data: Seq<Option<Seq<u8>>>, n: nat)
    ensures
        forall|k: int|
            0 <= k < descriptors(names, data, n).len() ==> !both_empty(
                #[trigger] descriptors(names, data, n)[k],
            ),
    decreases n,
{
    if n > 0 {
        lemma_descriptors_named(names, data, (n - 1) as nat);
        let d = descriptors(names, data, (n - 1) as nat);
        let i = n - 1;
        if is_descriptor_name(names, i) && data[i] is Some && valid_utf8(data[i]->0) && !both_empty(
            parse_text(descriptor_text(data, i)),
        ) {
            let x = fields_of(parse_text(descriptor_text(data, i)));
            assert forall|k: int| 0 <= k < d.push(x).len() implies !both_empty(
                #[trigger] d.push(x)[k],
            ) by {
                if k < d.len() {
                    assert(d.push(x)[k] == d[k]);
                }
            }
        }
    }
}

/// What reading the metadata of an archive with these entries gives:
/// `ArchiveRead` when an entry cannot be read, `MetadataParse` when no
/// descriptor is usable, else the combined metadata.
pub open spec fn metadata_outcome_ok(names: Seq<Option<Seq<char>>>, data: Seq<Option<Seq<u8>>>) -> bool {
    reads_ok(names, data, names.len()) && descriptors(names, data, names.len()).len() > 0
}

/// The metadata of an open archive: what its descriptors give together.
pub fn metadata_of_archive(a: &mut MemArchive) -> (r: Result<BeatmapMetadata, ImportError>)
    ensures
        ({
            let names = archive_names(*old(a));
            let data = archive_data(*old(a));
            let d = descriptors(names, data, names.len());
            &&& r is Ok <==> metadata_outcome_ok(names, data)
            &&& r is Ok ==> meta_matches(r->Ok_0, d)
            &&& r is Ok ==> !(r->Ok_0.title@.len() == 0 && r->Ok_0.artist@.len() == 0)
            &&& r == Err::<BeatmapMetadata, ImportError>(ImportError::MetadataParse) <==> reads_ok(
                names,
                data,
                names.len(),
            ) && d.len() == 0
            &&& r is Err ==> r->Err_0 == ImportError::ArchiveRead || r->Err_0
                == ImportError::MetadataParse
        }),
{
    let ghost names = archive_names(*a);
    let ghost data = archive_data(*a);
    let parsed = read_descriptors(a)?;
    let r = aggregate_metadata(&parsed);
    proof {
        lemma_descriptors_named(names, data, names.len());
        if r is Ok {
            assert(states_of(parsed@)[0] == parsed@[0].fields());
            assert(!both_empty(states_of(parsed@)[0]));
        }
    }
    r
}

/// What `extract_metadata_from_archive` succeeds on: bytes that open as an
/// archive whose entries read and hold a usable descriptor.
pub open spec fn archive_has_metadata(bytes: Seq<u8>) -> bool {
    zip_opens(bytes) && metadata_outcome_ok(zip_names(bytes), zip_data(bytes))
}

pub open spec fn archive_descriptors(bytes: Seq<u8>) -> Seq<OsuState> {
    descriptors(zip_names(bytes), zip_data(bytes), zip_names(bytes).len())
}

/// The metadata of the archive held in `bytes`: see `metadata_of_archive`.
pub fn extract_metadata_from_archive(bytes: Vec<u8>) -> (r: Result<BeatmapMetadata, ImportError>)
    ensures
        r is Ok <==> archive_has_metadata(bytes@),
        r is Ok ==> meta_matches(r->Ok_0, archive_descriptors(bytes@)),
        r is Ok ==> !(r->Ok_0.title@.len() == 0 && r->Ok_0.artist@.len() == 0),
        r == Err::<BeatmapMetadata, ImportError>(ImportError::MetadataParse) <==> zip_opens(bytes@)
            && reads_ok(zip_names(bytes@), zip_data(bytes@), zip_names(bytes@).len())
            && archive_descriptors(bytes@).len() == 0,
        r is Err ==> r->Err_0 == ImportError::ArchiveRead || r->Err_0 == ImportError::MetadataParse,
{
    let ghost b = bytes@;
    let mut a = match open_archive(bytes) {
        Ok(a) => a,
        Err(_) => return Err(ImportError::ArchiveRead),
    };
    metadata_of_archive(&mut a)
}

/// How a scan of entry names for a text ends.
pub enum Scan {
    /// No name holds it.
    NoHit,
    /// A name that precedes any match cannot be decoded.
    Fail,
    /// The first name that holds it.
    Hit(int),
}

pub open spec fn scan_names(names: Seq<Option<Seq<char>>>, needle: Seq<char>, j: int) -> Scan
    decreases names.len() - j,
{
    if j < 0 || j >= names.len() {
        Scan::NoHit
    } else if names[j] is None {
        Scan::Fail
    } else if contains_seq(names[j]->0, needle) {
        Scan::Hit(j)
    } else {
        scan_names(names, needle, j + 1)
    }
}

/// The bytes of the first entry whose name contains `needle`; `None` when
/// no entry does. Fails when a name before it cannot be decoded or the
/// entry cannot be read.
pub fn find_entry_containing(a: &mut MemArchive, needle: &str) -> (r: Result<
    Option<Vec<u8>>,
    ImportError,
>)
    ensures
        match scan_names(archive_names(*old(a)), needle@, 0) {
            Scan::NoHit => r is Ok && r->Ok_0 is None,
            Scan::Fail => r is Err,
            Scan::Hit(j) => match archive_data(*old(a))[j] {
                Some(d) => r is Ok && r->Ok_0 is Some && r->Ok_0->0@ == d,
                None => r is Err,
            },
        },
        r is Err ==> r->Err_0 == ImportError::ArchiveRead,
{
    let ghost names = archive_names(*a);
    let ghost data = archive_data(*a);
    let n = archive_len(a);
    let nd = chars_of(needle);
    let mut i: usize = 0;
    while i < n
        invariant
            i <= n,
            n == names.len(),
            names == archive_names(*old(a)),
            data == archive_data(*old(a)),
            archive_names(*a) == names,
            archive_data(*a) == data,
            nd@ == needle@,
            scan_names(names, needle@, 0) == scan_names(names, needle@, i as int),
        decreases n - i,
    {
        let name = match entry_name(a, i) {
            Some(n) => n,
            None => return Err(ImportError::ArchiveRead),
        };
        if contains_exec(&chars_of(name.as_str()), &nd) {
            return match entry_bytes(a, i) {
                Ok(bytes) => Ok(Some(bytes)),
                Err(_) => Err(ImportError::ArchiveRead),
            };
        }
        i = i + 1;
    }
    Ok(None)
}

/// What reading an archive gives: its metadata, its thumbnail and its
/// content hash.
#[derive(Debug)]
pub struct OszMetadata {
    pub metadata: BeatmapMetadata,
    pub thumbnail_path: Option<String>,
    pub hash: String,
}

/// A thumbnail to store: PNG bytes and the file they go to.
#[derive(Debug)]
pub struct ThumbnailWrite {
    pub path: String,
    pub png: Vec<u8>,
}

pub open spec fn thumbnail_file(dir: Seq<char>, hash: Seq<char>) -> Seq<char> {
    path_join(dir, hash + ".png"@)
}

/// Reads the archive held in `data`: hashes it and extracts its metadata.
/// `cached_thumbnail` is what the cache holds for the hash, when the caller
/// has looked it up; without one, a thumbnail of the background image is
/// made, to be written under `thumbs_dir`. A thumbnail that cannot be made
/// leaves the entry without one and does not fail the read.
pub fn read_osz_metadata(data: Vec<u8>, cached_thumbnail: Option<String>, thumbs_dir: &str) -> (r: Result<
    (OszMetadata, Option<ThumbnailWrite>),
    ImportError,
>)
    ensures
        r is Ok <==> archive_has_metadata(data@),
        r == Err::<(OszMetadata, Option<ThumbnailWrite>), ImportError>(ImportError::MetadataParse)
            <==> zip_opens(data@) && reads_ok(zip_names(data@), zip_data(data@), zip_names(data@).len())
            && archive_descriptors(data@).len() == 0,
        r is Err ==> r->Err_0 == ImportError::ArchiveRead || r->Err_0 == ImportError::MetadataParse,
        r is Ok ==> ({
            let (m, w) = r->Ok_0;
            &&& m.hash@ == blake3_hex_of(data@)
            &&& meta_matches(m.metadata, archive_descriptors(data@))
            &&& !(m.metadata.title@.len() == 0 && m.metadata.artist@.len() == 0)
            &&& cached_thumbnail is Some ==> w is None && m.thumbnail_path == cached_thumbnail
            &&& w is Some ==> cached_thumbnail is None && w->0.path@ == thumbnail_file(
                thumbs_dir@,
                m.hash@,
            ) && m.thumbnail_path is Some && m.thumbnail_path->0@ == w->0.path@
                && w->0.png@.len() >= 8
            &&& cached_thumbnail is None && w is None ==> m.thumbnail_path is None
        }),
{
    let hash = content_hash(&data);
    let copy = data.clone();
    let metadata = extract_metadata_from_archive(data)?;
    match cached_thumbnail {
        Some(path) => {
            return Ok((OszMetadata { metadata, thumbnail_path: Some(path), hash }, None));
        },
        None => {},
    }
    let bg = match &metadata.background_file {
        Some(b) => b.clone(),
        None => {
            return Ok((OszMetadata { metadata, thumbnail_path: None, hash }, None));
        },
    };
    let png = match open_archive(copy) {
        Ok(mut a) => match find_entry_containing(&mut a, bg.as_str()) {
            Ok(Some(bytes)) => make_thumbnail(&bytes),
            _ => None,
        },
        Err(_) => None,
    };
    match png {
        Some(png) => {
            let mut file = hash.clone();
            file.append(".png");
            let path = join_path(thumbs_dir, file.as_str());
            let tp = path.clone();
            Ok(
                (
                    OszMetadata { metadata, thumbnail_path: Some(tp), hash },
                    Some(ThumbnailWrite { path, png }),
                ),
            )
        },
        None => Ok((OszMetadata { metadata, thumbnail_path: None, hash }, None)),
    }
}

} // verus!
