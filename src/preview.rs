//! Pure parts of the map preview: how the browser is launched, where
//! archive entries are unpacked for the viewer, and how the origin of a
//! preview copy is described.

use vstd::prelude::*;
use vstd::string::*;
use crate::errors::ImportError;
use crate::importer::{entry_components, entry_target, join_all, safe_entry_components};
use crate::text::{
    chars_of, contains_exec, contains_seq, ends_with, ends_with_exec, lower_of, lowercase,
    split_chars, split_on, starts_with, starts_with_exec, string_of, sub_chars,
};
use crate::paths::{file_name_of, file_name_text};

verus! {

/// The local server that serves the viewer and unpacked maps.
#[derive(Clone, Copy, Debug)]
pub struct PreviewServer {
    pub port: u16,
}

/// One way to open the preview: a program with arguments, or the system's
/// default handler for the URL when `program` is `None`.
#[derive(Clone, Debug, PartialEq, Eq)]
pub struct PreviewLaunch {
    pub program: Option<String>,
    pub args: Vec<String>,
}

/// The launch plans where no app-mode browser is tried: the default
/// handler with the URL.
pub fn build_preview_launches(url: &str) -> (r: Vec<PreviewLaunch>)
    ensures
        r@.len() == 1,
        r@[0].program is None,
        r@[0].args@.len() == 1,
        r@[0].args@[0]@ == url@,
{
    let mut plans: Vec<PreviewLaunch> = Vec::new();
    let mut args: Vec<String> = Vec::new();
    args.push(String::from_str(url));
    plans.push(PreviewLaunch { program: None, args });
    plans
}

/// The launch plans where app-mode browsers exist: Edge, then Chrome, each
/// with `--app=<url>`, then the default handler.
pub fn build_preview_launches_with_app_mode(url: &str) -> (r: Vec<PreviewLaunch>)
    ensures
        r@.len() == 3,
        r@[0].program is Some && r@[0].program->0@ == "msedge"@,
        r@[1].program is Some && r@[1].program->0@ == "chrome"@,
        r@[0].args@.len() == 1 && r@[0].args@[0]@ == "--app="@ + url@,
        r@[1].args@.len() == 1 && r@[1].args@[0]@ == "--app="@ + url@,
        r@[2].program is None,
        r@[2].args@.len() == 1 && r@[2].args@[0]@ == url@,
{
    let mut plans: Vec<PreviewLaunch> = Vec::new();
    let mut a = String::from_str("--app=");
    a.append(url);
    let mut args0: Vec<String> = Vec::new();
    args0.push(a.clone());
    plans.push(PreviewLaunch { program: Some(String::from_str("msedge")), args: args0 });
    let mut args1: Vec<String> = Vec::new();
    args1.push(a);
    plans.push(PreviewLaunch { program: Some(String::from_str("chrome")), args: args1 });
    let mut args2: Vec<String> = Vec::new();
    args2.push(String::from_str(url));
    plans.push(PreviewLaunch { program: None, args: args2 });
    plans
}

/// Where an archive entry is unpacked for the viewer, under `base`.
pub fn safe_preview_path(base: &str, inside_zip: &str) -> (r: Result<String, ImportError>)
    ensures
        match r {
            Ok(p) => entry_components(inside_zip@) is Ok && p@ == join_all(
                base@,
                entry_components(inside_zip@)->Ok_0,
            ),
            Err(e) => entry_components(inside_zip@) == Err::<Seq<Seq<char>>, ImportError>(e),
        },
{
    let cs = safe_entry_components(inside_zip)?;
    Ok(entry_target(base, &cs))
}

/// Where the archive of a preview came from.
#[derive(Clone, Debug)]
pub enum PreviewOrigin {
    Cached(String),
    CopiedSource(String),
    ZippedDestination(String),
}

pub fn format_preview_origin(origin: &PreviewOrigin) -> (r: String)
    ensures
        r@ == match origin {
            PreviewOrigin::Cached(p) => "cache ("@ + p@ + ")"@,
            PreviewOrigin::CopiedSource(p) => "fonte ("@ + p@ + ")"@,
            PreviewOrigin::ZippedDestination(p) => "destino ("@ + p@ + ")"@,
        },
{
    let (mut r, p) = match origin {
        PreviewOrigin::Cached(p) => (String::from_str("cache ("), p),
        PreviewOrigin::CopiedSource(p) => (String::from_str("fonte ("), p),
        PreviewOrigin::ZippedDestination(p) => (String::from_str("destino ("), p),
    };
    r.append(p.as_str());
    r.append(")");
    r
}


/// What the preview server answers for a request path.
#[derive(Clone, Debug, PartialEq, Eq)]
pub enum Route {
    /// The viewer's `index.html`.
    Index,
    /// A file under the viewer folder.
    Viewer(String),
    /// A file under the unpacked maps folder.
    Beatmaps(String),
    /// A relative path with `..` in it.
    Forbidden,
    NotFound,
}

/// The route for a request URL: its path is what precedes the first `?`.
pub open spec fn route_matches(r: Route, url: Seq<char>) -> bool {
    let path = split_on(url, '?')[0];
    if path == "/"@ {
        r is Index
    } else if starts_with(path, "/viewer/"@) {
        let rest = path.subrange(8, path.len() as int);
        if contains_seq(rest, ".."@) {
            r is Forbidden
        } else {
            r is Viewer && r->Viewer_0@ == rest
        }
    } else if starts_with(path, "/beatmaps/"@) {
        let rest = path.subrange(10, path.len() as int);
        if contains_seq(rest, ".."@) {
            r is Forbidden
        } else {
            r is Beatmaps && r->Beatmaps_0@ == rest
        }
    } else {
        r is NotFound
    }
}

pub fn route(url: &str) -> (r: Route)
    ensures
        route_matches(r, url@),
{
    let parts = split_chars(&chars_of(url), '?');
    proof {
        crate::text::lemma_split_nonempty(url@, '?');
        reveal_strlit("/viewer/");
        reveal_strlit("/beatmaps/");
    }
    let path = &parts[0];
    if crate::paths::chars_eq(path, &chars_of("/")) {
        return Route::Index;
    }
    let viewer = chars_of("/viewer/");
    let maps = chars_of("/beatmaps/");
    let dots = chars_of("..");
    if starts_with_exec(path, &viewer) {
        let rest = sub_chars(path, 8, path.len());
        if contains_exec(&rest, &dots) {
            return Route::Forbidden;
        }
        return Route::Viewer(string_of(&rest));
    }
    if starts_with_exec(path, &maps) {
        let rest = sub_chars(path, 10, path.len());
        if contains_exec(&rest, &dots) {
            return Route::Forbidden;
        }
        return Route::Beatmaps(string_of(&rest));
    }
    Route::NotFound
}

/// Where the archive for a preview comes from.
#[derive(Clone, Copy, Debug, PartialEq, Eq, Structural)]
pub enum PreviewSource {
    /// A copy is already in the preview cache.
    Cached,
    /// Copy the source archive.
    CopySource,
    /// Pack the imported folder into an archive.
    ZipDestination,
    /// Neither is there.
    Unavailable,
}

pub fn choose_preview_source(cached: bool, source_exists: bool, destination_exists: bool) -> (r: PreviewSource)
    ensures
        r == if cached {
            PreviewSource::Cached
        } else if source_exists {
            PreviewSource::CopySource
        } else if destination_exists {
            PreviewSource::ZipDestination
        } else {
            PreviewSource::Unavailable
        },
{
    if cached {
        PreviewSource::Cached
    } else if source_exists {
        PreviewSource::CopySource
    } else if destination_exists {
        PreviewSource::ZipDestination
    } else {
        PreviewSource::Unavailable
    }
}

/// Whether an archive entry holds the audio file named `target`, both
/// lower-cased: its name ends with the target, or its file name is it.
pub open spec fn audio_match(lower_entry: Seq<char>, lower_file: Seq<char>, lower_target: Seq<char>) -> bool {
    ends_with(lower_entry, lower_target) || lower_file == lower_target
}

pub fn audio_entry_matches_lowered(lower_entry: &str, lower_file: &str, lower_target: &str) -> (r: bool)
    ensures
        r == audio_match(lower_entry@, lower_file@, lower_target@),
{
    ends_with_exec(&chars_of(lower_entry), &chars_of(lower_target)) || crate::text::str_eq(
        lower_file,
        lower_target,
    )
}

/// Whether the archive entry `entry_name` holds the audio file `audio_name`,
/// ignoring case.
pub fn audio_entry_matches(entry_name: &str, audio_name: &str) -> (r: bool)
    ensures
        r == audio_match(
            lower_of(entry_name@),
            lower_of(
                match file_name_of(entry_name@) {
                    Some(n) => n,
                    None => Seq::empty(),
                },
            ),
            lower_of(audio_name@),
        ),
{
    let e = lowercase(entry_name);
    let f = lowercase(file_name_text(entry_name).as_str());
    let t = lowercase(audio_name);
    audio_entry_matches_lowered(e.as_str(), f.as_str(), t.as_str())
}


/// The viewer URL for the unpacked archive of `hash`; the title is already
/// URL-encoded.
pub fn preview_url(port: u16, hash: &str, encoded_title: &str) -> (r: String)
    ensures
        r@ == "http://127.0.0.1:"@ + crate::text::dec_nat(port as nat)
            + "/viewer/index.html?map=/beatmaps/"@ + hash@ + "/beatmap.osz&title="@
            + encoded_title@,
{
    let mut v = chars_of("http://127.0.0.1:");
    crate::text::push_dec(port as u64, &mut v);
    let mut a = chars_of("/viewer/index.html?map=/beatmaps/");
    v.append(&mut a);
    let mut h = chars_of(hash);
    v.append(&mut h);
    let mut b = chars_of("/beatmap.osz&title=");
    v.append(&mut b);
    let mut t = chars_of(encoded_title);
    v.append(&mut t);
    string_of(&v)
}

} // verus!
