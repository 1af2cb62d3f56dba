//! The downloader's own logic: providers and job state, turning a pasted
//! link or id into a download URL, and naming the downloaded file.

use vstd::prelude::*;
use vstd::string::*;
use std::sync::Arc;
use std::sync::atomic::AtomicBool;
use crate::osu::{all_digits, is_digit};
use crate::text::{
    chars_of, contains_exec, contains_seq, occurs_at, occurs_at_exec, starts_with, starts_with_exec,
    string_of, sub_chars, trim, trim_chars, TrimKind, dec_nat, ends_with, ends_with_exec, lower_of,
    lowercase, push_dec, sanitize_path_component, sanitized, split_chars, split_on, view_all,
};
use crate::paths::{file_name_of, join_path, last_dot, path_join};

verus! {

#[derive(Clone, Copy, Debug, PartialEq, Eq, Structural)]
pub enum DownloadProvider {
    Gatari,
    BeatConnect,
}

impl DownloadProvider {
    pub open spec fn name_spec(self) -> Seq<char> {
        match self {
            DownloadProvider::Gatari => "Gatari"@,
            DownloadProvider::BeatConnect => "BeatConnect"@,
        }
    }

    pub fn as_str(&self) -> (r: &'static str)
        ensures
            r@ == self.name_spec(),
    {
        match self {
            DownloadProvider::Gatari => "Gatari",
            DownloadProvider::BeatConnect => "BeatConnect",
        }
    }

    /// Index 1 is BeatConnect; every other index is Gatari.
    pub fn from_index(idx: i32) -> (r: DownloadProvider)
        ensures
            r == if idx == 1 {
                DownloadProvider::BeatConnect
            } else {
                DownloadProvider::Gatari
            },
    {
        match idx {
            1 => DownloadProvider::BeatConnect,
            _ => DownloadProvider::Gatari,
        }
    }

    pub fn to_index(&self) -> (r: i32)
        ensures
            r == match self {
                DownloadProvider::Gatari => 0i32,
                DownloadProvider::BeatConnect => 1i32,
            },
    {
        match self {
            DownloadProvider::Gatari => 0,
            DownloadProvider::BeatConnect => 1,
        }
    }

    /// The provider's name in lower case, used in fallback file names.
    pub fn file_prefix(&self) -> (r: &'static str)
        ensures
            r@ == match self {
                DownloadProvider::Gatari => "gatari"@,
                DownloadProvider::BeatConnect => "beatconnect"@,
            },
    {
        match self {
            DownloadProvider::Gatari => "gatari",
            DownloadProvider::BeatConnect => "beatconnect",
        }
    }
}

#[derive(Clone, Copy, Debug, PartialEq, Eq, Structural)]
pub enum DownloadStatus {
    Pending,
    Resolving,
    Downloading,
    Completed,
    Failed,
    Cancelled,
}

impl DownloadStatus {
    pub open spec fn display_spec(self) -> Seq<char> {
        match self {
            DownloadStatus::Pending => "Na fila"@,
            DownloadStatus::Resolving => "Preparando"@,
            DownloadStatus::Downloading => "Baixando"@,
            DownloadStatus::Completed => "Concluido"@,
            DownloadStatus::Failed => "Falhou"@,
            DownloadStatus::Cancelled => "Cancelado"@,
        }
    }

    pub fn as_display(&self) -> (r: &'static str)
        ensures
            r@ == self.display_spec(),
    {
        match self {
            DownloadStatus::Pending => "Na fila",
            DownloadStatus::Resolving => "Preparando",
            DownloadStatus::Downloading => "Baixando",
            DownloadStatus::Completed => "Concluido",
            DownloadStatus::Failed => "Falhou",
            DownloadStatus::Cancelled => "Cancelado",
        }
    }
}

/// One download, from the pasted input to the file written.
#[derive(Clone, Debug)]
pub struct DownloadJob {
    pub id: u64,
    pub provider: DownloadProvider,
    pub input: String,
    pub final_url: Option<String>,
    pub status: DownloadStatus,
    pub progress_bytes: u64,
    pub total_bytes_opt: Option<u64>,
    pub error_opt: Option<String>,
    pub out_path_opt: Option<String>,
    pub cancel_flag: Arc<AtomicBool>,
}

impl DownloadJob {
    pub fn new(id: u64, provider: DownloadProvider, input: String) -> (r: DownloadJob)
        ensures
            r.id == id,
            r.provider == provider,
            r.input == input,
            r.final_url is None,
            r.status == DownloadStatus::Pending,
            r.progress_bytes == 0,
            r.total_bytes_opt is None,
            r.error_opt is None,
            r.out_path_opt is None,
    {
        DownloadJob {
            id,
            provider,
            input,
            final_url: None,
            status: DownloadStatus::Pending,
            progress_bytes: 0,
            total_bytes_opt: None,
            error_opt: None,
            out_path_opt: None,
            cancel_flag: Arc::new(AtomicBool::new(false)),
        }
    }

    /// The job is resolving its input.
    pub fn start_resolving(&mut self)
        ensures
            final(self).status == DownloadStatus::Resolving,
            final(self).final_url == old(self).final_url,
            final(self).progress_bytes == old(self).progress_bytes,
    {
        self.status = DownloadStatus::Resolving;
    }

    /// The input resolved to a URL.
    pub fn on_resolved(&mut self, resolved: &ResolvedDownload)
        ensures
            final(self).final_url is Some,
            final(self).final_url->0@ == resolved.url@,
            final(self).status == old(self).status,
    {
        self.final_url = Some(resolved.url.clone());
    }

    /// The server answered: the body goes to `target`.
    pub fn on_response(&mut self, total: Option<u64>, target: String)
        ensures
            final(self).total_bytes_opt == total,
            final(self).status == DownloadStatus::Downloading,
            final(self).out_path_opt == Some(target),
            final(self).progress_bytes == old(self).progress_bytes,
    {
        self.total_bytes_opt = total;
        self.status = DownloadStatus::Downloading;
        self.out_path_opt = Some(target);
    }

    /// `read` more bytes were written.
    pub fn on_chunk(&mut self, read: u64)
        requires
            old(self).progress_bytes + read <= u64::MAX,
        ensures
            final(self).progress_bytes == old(self).progress_bytes + read,
            final(self).status == old(self).status,
    {
        self.progress_bytes = self.progress_bytes + read;
    }

    /// The operator cancelled the download.
    pub fn on_cancelled(&mut self)
        ensures
            final(self).status == DownloadStatus::Cancelled,
            final(self).error_opt is None,
            final(self).progress_bytes == old(self).progress_bytes,
    {
        self.status = DownloadStatus::Cancelled;
        self.error_opt = None;
    }

    /// The whole body was written and moved to `target`.
    pub fn on_completed(&mut self, downloaded: u64, target: String)
        ensures
            final(self).status == DownloadStatus::Completed,
            final(self).progress_bytes == downloaded,
            final(self).out_path_opt == Some(target),
    {
        self.status = DownloadStatus::Completed;
        self.progress_bytes = downloaded;
        self.out_path_opt = Some(target);
    }

    /// The download failed with `error`.
    pub fn on_failed(&mut self, error: String)
        ensures
            final(self).status == DownloadStatus::Failed,
            final(self).error_opt == Some(error),
    {
        self.status = DownloadStatus::Failed;
        self.error_opt = Some(error);
    }

    /// `"<provider> <url or input, shortened to 42 characters>"`.
    pub fn title(&self) -> (r: String)
        ensures
            r@ == self.provider.name_spec() + " "@ + shortened(
                match self.final_url {
                    Some(u) => u@,
                    None => self.input@,
                },
                42,
            ),
    {
        let mut r = String::from_str(self.provider.as_str());
        r.append(" ");
        let s = match &self.final_url {
            Some(u) => shorten_middle(u.as_str(), 42),
            None => shorten_middle(self.input.as_str(), 42),
        };
        r.append(s.as_str());
        r
    }
}

/// Text longer than `max` characters keeps its first and last characters
/// around `...`, `max` characters in all (at least the three dots).
pub open spec fn shortened(t: Seq<char>, max: nat) -> Seq<char> {
    if t.len() <= max {
        t
    } else {
        let room: nat = if max >= 3 {
            (max - 3) as nat
        } else {
            0
        };
        let head = room / 2;
        let tail = room - head;
        t.subrange(0, head as int) + "..."@ + t.subrange(t.len() - tail, t.len() as int)
    }
}

pub fn shorten_middle(text: &str, max_len: usize) -> (r: String)
    ensures
        r@ == shortened(text@, max_len as nat),
{
    let v = chars_of(text);
    if v.len() <= max_len {
        return String::from_str(text);
    }
    let room = if max_len >= 3 {
        max_len - 3
    } else {
        0
    };
    let head = room / 2;
    let tail = room - head;
    let mut r = string_of(&sub_chars(&v, 0, head));
    r.append("...");
    let end = string_of(&sub_chars(&v, v.len() - tail, v.len()));
    r.append(end.as_str());
    r
}

/// Where a download comes from, and the set id when the input names one.
#[derive(Clone, Debug, PartialEq, Eq)]
pub struct ResolvedDownload {
    pub url: String,
    pub set_id: Option<String>,
}

/// Number of ASCII digits from position `i` on.
pub open spec fn digit_run(s: Seq<char>, i: int) -> nat
    decreases s.len() - i,
{
    if 0 <= i < s.len() && is_digit(s[i]) {
        1 + digit_run(s, i + 1)
    } else {
        0
    }
}

pub open spec fn digit_at(s: Seq<char>, k: int) -> bool {
    0 <= k < s.len() && is_digit(s[k])
}

/// The digits that start at `i`.
pub open spec fn capture(s: Seq<char>, i: int) -> Seq<char> {
    s.subrange(i, i + digit_run(s, i))
}

/// `lit` at `i`, followed by a digit.
pub open spec fn lit_digits_at(s: Seq<char>, lit: Seq<char>, i: int) -> bool {
    occurs_at(s, lit, i) && digit_at(s, i + lit.len())
}

/// The first position from `i` on where `lit` is followed by a digit.
pub open spec fn find_lit(s: Seq<char>, lit: Seq<char>, i: int) -> Option<int>
    decreases s.len() + 1 - i,
{
    if i < 0 || i > s.len() {
        None
    } else if lit_digits_at(s, lit, i) {
        Some(i)
    } else {
        find_lit(s, lit, i + 1)
    }
}

/// The digits after the first `lit` that digits follow.
pub open spec fn lit_capture(s: Seq<char>, lit: Seq<char>) -> Option<Seq<char>> {
    match find_lit(s, lit, 0) {
        Some(i) => Some(capture(s, i + lit.len())),
        None => None,
    }
}

/// The first run of two or more digits.
pub open spec fn find_two(s: Seq<char>, i: int) -> Option<int>
    decreases s.len() + 1 - i,
{
    if i < 0 || i > s.len() {
        None
    } else if digit_at(s, i) && digit_at(s, i + 1) {
        Some(i)
    } else {
        find_two(s, i + 1)
    }
}

proof fn lemma_digit_run_bound(s: Seq<char>, i: int)
    requires
        0 <= i <= s.len(),
    ensures
        i + digit_run(s, i) <= s.len(),
    decreases s.len() - i,
{
    if i < s.len() && is_digit(s[i]) {
        lemma_digit_run_bound(s, i + 1);
    }
}

fn digit_run_exec(s: &Vec<char>, i: usize) -> (r: usize)
    requires
        i <= s@.len(),
    ensures
        r == digit_run(s@, i as int),
        i + r <= s@.len(),
{
    let mut k: usize = i;
    while k < s.len() && (s[k] as u32) >= 48 && (s[k] as u32) <= 57
        invariant
            i <= k <= s@.len(),
            digit_run(s@, i as int) == (k - i) + digit_run(s@, k as int),
        decreases s@.len() - k,
    {
        k = k + 1;
    }
    k - i
}

fn capture_exec(s: &Vec<char>, i: usize) -> (r: Vec<char>)
    requires
        i <= s@.len(),
    ensures
        r@ == capture(s@, i as int),
{
    let n = digit_run_exec(s, i);
    let len = s.len();
    assert(i + n <= len);
    sub_chars(s, i, i + n)
}

fn digit_at_exec(s: &Vec<char>, k: usize) -> (r: bool)
    ensures
        r == digit_at(s@, k as int),
{
    k < s.len() && (s[k] as u32) >= 48 && (s[k] as u32) <= 57
}

fn find_lit_exec(s: &Vec<char>, lit: &Vec<char>) -> (r: Option<usize>)
    ensures
        match r {
            Some(i) => find_lit(s@, lit@, 0) == Some(i as int) && i + lit@.len() < s@.len(),
            None => find_lit(s@, lit@, 0) is None,
        },
{
    let mut i: usize = 0;
    while i < s.len()
        invariant
            i <= s@.len(),
            find_lit(s@, lit@, 0) == find_lit(s@, lit@, i as int),
        decreases s@.len() - i,
    {
        if lit.len() < s.len() - i && occurs_at_exec(s, lit, i) && digit_at_exec(s, i + lit.len()) {
            return Some(i);
        }
        i = i + 1;
    }
    assert(find_lit(s@, lit@, (s@.len() + 1) as int) is None);
    assert(!digit_at(s@, (s@.len() + lit@.len()) as int));
    None
}

fn find_two_exec(s: &Vec<char>) -> (r: Option<usize>)
    ensures
        match r {
            Some(i) => find_two(s@, 0) == Some(i as int) && i < s@.len(),
            None => find_two(s@, 0) is None,
        },
{
    let mut i: usize = 0;
    while i < s.len()
        invariant
            i <= s@.len(),
            find_two(s@, 0) == find_two(s@, i as int),
        decreases s@.len() - i,
    {
        if digit_at_exec(s, i) && digit_at_exec(s, i + 1) {
            return Some(i);
        }
        i = i + 1;
    }
    assert(find_two(s@, (s@.len() + 1) as int) is None);
    None
}

/// `trim_start_matches("://")`.
pub open spec fn strip_colon_slashes(t: Seq<char>) -> Seq<char>
    decreases t.len(),
{
    if t.len() >= 3 && starts_with(t, "://"@) {
        strip_colon_slashes(t.subrange(3, t.len() as int))
    } else {
        t
    }
}

/// The text as a URL: kept when it starts with `http://` or `https://`,
/// otherwise `https://` before it, without leading `://`.
pub open spec fn with_scheme(t: Seq<char>) -> Seq<char> {
    if starts_with(t, "http://"@) || starts_with(t, "https://"@) {
        t
    } else {
        "https://"@ + strip_colon_slashes(t)
    }
}

pub fn prepend_scheme_if_missing(text: &str) -> (r: String)
    ensures
        r@ == with_scheme(text@),
{
    let v = chars_of(text);
    if starts_with_exec(&v, &chars_of("http://")) || starts_with_exec(&v, &chars_of("https://")) {
        return String::from_str(text);
    }
    let sep = chars_of("://");
    let mut cur = v;
    while cur.len() >= 3 && starts_with_exec(&cur, &sep)
        invariant
            sep@ == "://"@,
            strip_colon_slashes(text@) == strip_colon_slashes(cur@),
        decreases cur@.len(),
    {
        cur = sub_chars(&cur, 3, cur.len());
    }
    let mut r = String::from_str("https://");
    r.append(string_of(&cur).as_str());
    r
}

fn all_ascii_digits(v: &Vec<char>) -> (r: bool)
    ensures
        r == all_digits(v@),
{
    let mut i: usize = 0;
    while i < v.len()
        invariant
            i <= v@.len(),
            forall|j: int| 0 <= j < i ==> is_digit(#[trigger] v@[j]),
        decreases v@.len() - i,
    {
        let u = v[i] as u32;
        if u < 48 || u > 57 {
            assert(!is_digit(v@[i as int]));
            return false;
        }
        i = i + 1;
    }
    true
}

/// The set id that a Gatari input names: the input itself when it is all
/// digits; else, in the input as a URL, the digits after the first `/d/`,
/// then after the first `/s/` or `/beatmapsets/`, then the first run of two
/// or more digits.
pub open spec fn gatari_id(t: Seq<char>) -> Option<Seq<char>> {
    if all_digits(t) {
        Some(t)
    } else {
        let u = with_scheme(t);
        match lit_capture(u, "/d/"@) {
            Some(id) => Some(id),
            None => match generic_capture(u) {
                Some(id) => Some(id),
                None => match find_two(u, 0) {
                    Some(i) => Some(capture(u, i)),
                    None => None,
                },
            },
        }
    }
}

/// The digits after the first `/s/` or `/beatmapsets/` that digits follow.
pub open spec fn generic_capture(u: Seq<char>) -> Option<Seq<char>> {
    match find_generic(u, 0) {
        Some(i) => Some(
            if lit_digits_at(u, "/s/"@, i) {
                capture(u, i + 3)
            } else {
                capture(u, i + 13)
            },
        ),
        None => None,
    }
}

pub open spec fn find_generic(s: Seq<char>, i: int) -> Option<int>
    decreases s.len() + 1 - i,
{
    if i < 0 || i > s.len() {
        None
    } else if lit_digits_at(s, "/s/"@, i) || lit_digits_at(s, "/beatmapsets/"@, i) {
        Some(i)
    } else {
        find_generic(s, i + 1)
    }
}

fn generic_capture_exec(u: &Vec<char>) -> (r: Option<Vec<char>>)
    ensures
        match r {
            Some(c) => generic_capture(u@) == Some(c@),
            None => generic_capture(u@) is None,
        },
{
    let s_lit = chars_of("/s/");
    let b_lit = chars_of("/beatmapsets/");
    proof {
        reveal_strlit("/s/");
        reveal_strlit("/beatmapsets/");
    }
    let mut i: usize = 0;
    while i < u.len()
        invariant
            i <= u@.len(),
            s_lit@ == "/s/"@,
            b_lit@ == "/beatmapsets/"@,
            s_lit@.len() == 3,
            b_lit@.len() == 13,
            find_generic(u@, 0) == find_generic(u@, i as int),
        decreases u@.len() - i,
    {
        if 3 < u.len() - i && occurs_at_exec(u, &s_lit, i) && digit_at_exec(u, i + 3) {
            return Some(capture_exec(u, i + 3));
        }
        if 13 < u.len() - i && occurs_at_exec(u, &b_lit, i) && digit_at_exec(u, i + 13) {
            return Some(capture_exec(u, i + 13));
        }
        i = i + 1;
    }
    assert(find_generic(u@, (u@.len() + 1) as int) is None);
    None
}

fn gatari_id_exec(t: &Vec<char>) -> (r: Option<Vec<char>>)
    ensures
        match r {
            Some(c) => gatari_id(t@) == Some(c@),
            None => gatari_id(t@) is None,
        },
{
    if all_ascii_digits(t) {
        return Some(sub_chars(t, 0, t.len()));
    }
    let u = chars_of(prepend_scheme_if_missing(string_of(t).as_str()).as_str());
    let d = chars_of("/d/");
    match find_lit_exec(&u, &d) {
        Some(i) => {
            return Some(capture_exec(&u, i + d.len()));
        },
        None => {},
    }
    match generic_capture_exec(&u) {
        Some(c) => {
            return Some(c);
        },
        None => {},
    }
    match find_two_exec(&u) {
        Some(i) => Some(capture_exec(&u, i)),
        None => None,
    }
}

pub open spec fn gatari_url(id: Seq<char>) -> Seq<char> {
    "https://osu.gatari.pw/d/"@ + id
}

/// A Gatari download for a set id or a link to one.
pub fn parse_gatari_input(input: &str) -> (r: Result<ResolvedDownload, String>)
    ensures
        match gatari_id(trim(input@, TrimKind::Space)) {
            Some(id) => r is Ok && r->Ok_0.url@ == gatari_url(id) && r->Ok_0.set_id is Some
                && r->Ok_0.set_id->0@ == id,
            None => r is Err && r->Err_0@
                == "Nao foi possivel extrair o BeatmapSetID do link informado"@,
        },
{
    let t = trim_chars(&chars_of(input), TrimKind::Space);
    match gatari_id_exec(&t) {
        Some(id) => {
            let id_s = string_of(&id);
            let mut url = String::from_str("https://osu.gatari.pw/d/");
            url.append(id_s.as_str());
            Ok(ResolvedDownload { url, set_id: Some(id_s) })
        },
        None => Err(String::from_str("Nao foi possivel extrair o BeatmapSetID do link informado")),
    }
}

/// A BeatConnect download: an id becomes a link; a link must point into
/// `beatconnect.io/b/`, and its set id is the digits after the first `/b/`.
pub fn parse_beatconnect_input(input: &str) -> (r: Result<ResolvedDownload, String>)
    ensures
        ({
            let t = trim(input@, TrimKind::Space);
            let u = with_scheme(t);
            if all_digits(t) {
                r is Ok && r->Ok_0.url@ == "https://beatconnect.io/b/"@ + t && r->Ok_0.set_id is Some
                    && r->Ok_0.set_id->0@ == t
            } else if !contains_seq(u, "beatconnect.io/b/"@) {
                r is Err && r->Err_0@ == "Cole um link do BeatConnect ou informe o ID numerico"@
            } else {
                r is Ok && r->Ok_0.url@ == u && match lit_capture(u, "/b/"@) {
                    Some(id) => r->Ok_0.set_id is Some && r->Ok_0.set_id->0@ == id,
                    None => r->Ok_0.set_id is None,
                }
            }
        }),
{
    let t = trim_chars(&chars_of(input), TrimKind::Space);
    let ts = string_of(&t);
    if all_ascii_digits(&t) {
        let mut url = String::from_str("https://beatconnect.io/b/");
        url.append(ts.as_str());
        return Ok(ResolvedDownload { url, set_id: Some(ts) });
    }
    let normalized = prepend_scheme_if_missing(ts.as_str());
    let u = chars_of(normalized.as_str());
    if !contains_exec(&u, &chars_of("beatconnect.io/b/")) {
        return Err(String::from_str("Cole um link do BeatConnect ou informe o ID numerico"));
    }
    let b = chars_of("/b/");
    let set_id = match find_lit_exec(&u, &b) {
        Some(i) => {
            let ulen = u.len();
            let blen = b.len();
            assert(i + blen < ulen);
            Some(string_of(&capture_exec(&u, i + blen)))
        },
        None => None,
    };
    Ok(ResolvedDownload { url: normalized, set_id })
}

pub fn resolve_download(provider: DownloadProvider, input: &str) -> (r: Result<ResolvedDownload, String>)
    ensures
        provider == DownloadProvider::Gatari ==> match gatari_id(trim(input@, TrimKind::Space)) {
            Some(id) => r is Ok && r->Ok_0.url@ == gatari_url(id) && r->Ok_0.set_id is Some
                && r->Ok_0.set_id->0@ == id,
            None => r is Err,
        },
        provider == DownloadProvider::BeatConnect && all_digits(trim(input@, TrimKind::Space))
            ==> r is Ok && r->Ok_0.url@ == "https://beatconnect.io/b/"@ + trim(
            input@,
            TrimKind::Space,
        ),
        provider == DownloadProvider::BeatConnect && !all_digits(trim(input@, TrimKind::Space)) ==> (
        r is Ok <==> contains_seq(with_scheme(trim(input@, TrimKind::Space)), "beatconnect.io/b/"@)),
{
    match provider {
        DownloadProvider::Gatari => parse_gatari_input(input),
        DownloadProvider::BeatConnect => parse_beatconnect_input(input),
    }
}


/// The rest of the first piece that starts, once trimmed, with `prefix`.
pub open spec fn find_prefixed(ps: Seq<Seq<char>>, prefix: Seq<char>) -> Option<Seq<char>>
    decreases ps.len(),
{
    if ps.len() == 0 {
        None
    } else {
        let t = trim(ps[0], TrimKind::Space);
        if starts_with(t, prefix) {
            Some(t.subrange(prefix.len() as int, t.len() as int))
        } else {
            find_prefixed(ps.drop_first(), prefix)
        }
    }
}

/// The file name in a `Content-Disposition` header: `filename=` without
/// quotes, else what follows the last `'` of `filename*=`.
pub open spec fn header_filename(h: Seq<char>) -> Option<Seq<char>> {
    let ps = split_on(h, ';');
    match find_prefixed(ps, "filename="@) {
        Some(v) => Some(trim(v, TrimKind::Quote)),
        None => match find_prefixed(ps, "filename*="@) {
            Some(v) => Some(split_on(v, '\'').last()),
            None => None,
        },
    }
}

fn find_prefixed_exec(ps: &Vec<Vec<char>>, prefix: &str) -> (r: Option<Vec<char>>)
    ensures
        match r {
            Some(v) => find_prefixed(view_all(ps@), prefix@) == Some(v@),
            None => find_prefixed(view_all(ps@), prefix@) is None,
        },
{
    let p = chars_of(prefix);
    let mut i: usize = 0;
    assert(view_all(ps@).subrange(0, ps@.len() as int) =~= view_all(ps@));
    while i < ps.len()
        invariant
            i <= ps@.len(),
            p@ == prefix@,
            find_prefixed(view_all(ps@), prefix@) == find_prefixed(
                view_all(ps@).subrange(i as int, ps@.len() as int),
                prefix@,
            ),
        decreases ps@.len() - i,
    {
        let ghost rest = view_all(ps@).subrange(i as int, ps@.len() as int);
        assert(rest[0] == ps@[i as int]@);
        let t = trim_chars(&ps[i], TrimKind::Space);
        if starts_with_exec(&t, &p) {
            return Some(sub_chars(&t, p.len(), t.len()));
        }
        assert(rest.drop_first() =~= view_all(ps@).subrange(i as int + 1, ps@.len() as int));
        i = i + 1;
    }
    None
}

pub fn extract_filename(header: &str) -> (r: Option<String>)
    ensures
        match r {
            Some(v) => header_filename(header@) == Some(v@),
            None => header_filename(header@) is None,
        },
{
    let ps = split_chars(&chars_of(header), ';');
    match find_prefixed_exec(&ps, "filename=") {
        Some(v) => Some(string_of(&trim_chars(&v, TrimKind::Quote))),
        None => match find_prefixed_exec(&ps, "filename*=") {
            Some(v) => {
                let pieces = split_chars(&v, '\'');
                proof {
                    crate::text::lemma_split_nonempty(v@, '\'');
                }
                Some(string_of(&pieces[pieces.len() - 1]))
            },
            None => None,
        },
    }
}

/// `cleaned`, with `.osz` added unless its lower-case form `lowered`
/// already ends so.
pub open spec fn osz_named(cleaned: Seq<char>, lowered: Seq<char>) -> Seq<char> {
    if ends_with(lowered, ".osz"@) {
        cleaned
    } else {
        cleaned + ".osz"@
    }
}

pub fn with_osz_extension(cleaned: &str, lowered: &str) -> (r: String)
    ensures
        r@ == osz_named(cleaned@, lowered@),
{
    if ends_with_exec(&chars_of(lowered), &chars_of(".osz")) {
        String::from_str(cleaned)
    } else {
        let mut r = String::from_str(cleaned);
        r.append(".osz");
        r
    }
}

/// A sanitised file name that ends in `.osz`, in any case.
pub fn sanitize_osz_name(name: &str) -> (r: String)
    ensures
        r@ == osz_named(sanitized(name@), lower_of(sanitized(name@))),
{
    let cleaned = sanitize_path_component(name);
    let lowered = lowercase(cleaned.as_str());
    with_osz_extension(cleaned.as_str(), lowered.as_str())
}

/// The name for a downloaded file: the one the server gives, sanitised,
/// else `<provider>_<set id or now>.osz`.
pub open spec fn file_name_spec(
    provider: DownloadProvider,
    set_id: Option<Seq<char>>,
    disposition: Option<Seq<char>>,
    now: u64,
) -> Seq<char> {
    let given = match disposition {
        Some(h) => header_filename(h),
        None => None,
    };
    match given {
        Some(raw) => osz_named(sanitized(raw), lower_of(sanitized(raw))),
        None => (match provider {
            DownloadProvider::Gatari => "gatari"@,
            DownloadProvider::BeatConnect => "beatconnect"@,
        }) + "_"@ + match set_id {
            Some(s) => s,
            None => dec_nat(now as nat),
        } + ".osz"@,
    }
}

pub open spec fn opt_str(o: Option<&str>) -> Option<Seq<char>> {
    match o {
        Some(s) => Some(s@),
        None => None,
    }
}

/// `choose_file_name` at the given time, in seconds since the Unix epoch.
pub fn choose_file_name_at(
    provider: DownloadProvider,
    set_id: Option<&str>,
    content_disposition: Option<&str>,
    now: u64,
) -> (r: String)
    ensures
        r@ == file_name_spec(provider, opt_str(set_id), opt_str(content_disposition), now),
{
    let given = match content_disposition {
        Some(h) => extract_filename(h),
        None => None,
    };
    match given {
        Some(raw) => {
            let s = sanitize_osz_name(raw.as_str());
            return s;
        },
        None => {},
    }
    let mut v = chars_of(provider.file_prefix());
    v.push('_');
    match set_id {
        Some(s) => {
            let mut o = chars_of(s);
            v.append(&mut o);
        },
        None => push_dec(now, &mut v),
    }
    let mut o = chars_of(".osz");
    v.append(&mut o);
    proof {
        reveal_strlit("_");
    }
    assert(v@ =~= file_name_spec(provider, opt_str(set_id), opt_str(content_disposition), now));
    string_of(&v)
}

/// Relies on `SystemTime::now` and `duration_since(UNIX_EPOCH)`: the
/// current time in whole seconds, 0 before the epoch.
#[verifier::external_body]
fn unix_ts() -> (r: u64) {
    std::time::SystemTime::now().duration_since(std::time::UNIX_EPOCH).map(|d| d.as_secs()).unwrap_or(
        0,
    )
}

pub fn choose_file_name(
    provider: DownloadProvider,
    set_id: Option<&str>,
    content_disposition: Option<&str>,
) -> (r: String)
    ensures
        exists|now: u64|
            r@ == file_name_spec(provider, opt_str(set_id), opt_str(content_disposition), now),
{
    choose_file_name_at(provider, set_id, content_disposition, unix_ts())
}

/// The file name of a path without its last extension, else `fallback`.
pub open spec fn stem_or(p: Seq<char>, fallback: Seq<char>) -> Seq<char> {
    match file_name_of(p) {
        Some(n) => if last_dot(n) > 0 {
            n.subrange(0, last_dot(n))
        } else {
            n
        },
        None => fallback,
    }
}

/// The extension of the file name of a path, else `fallback`.
pub open spec fn ext_or(p: Seq<char>, fallback: Seq<char>) -> Seq<char> {
    match file_name_of(p) {
        Some(n) => if last_dot(n) > 0 {
            n.subrange(last_dot(n) + 1, n.len() as int)
        } else {
            fallback
        },
        None => fallback,
    }
}

/// The `counter`-th candidate path for a download: the name itself first,
/// then `"<stem> (<counter>).<ext>"` in the same folder.
pub open spec fn candidate_spec(base: Seq<char>, file_name: Seq<char>, counter: u64) -> Seq<char> {
    let first = path_join(base, file_name);
    if counter == 0 {
        first
    } else {
        path_join(
            base,
            stem_or(first, "download"@) + " ("@ + dec_nat(counter as nat) + ")."@ + ext_or(
                first,
                "osz"@,
            ),
        )
    }
}

fn split_name(p: &str) -> (r: Option<(Vec<char>, Option<Vec<char>>)>)
    ensures
        match r {
            None => file_name_of(p@) is None,
            Some((stem, ext)) => file_name_of(p@) is Some && ({
                let n = file_name_of(p@)->0;
                if last_dot(n) > 0 {
                    stem@ == n.subrange(0, last_dot(n)) && ext is Some && ext->0@ == n.subrange(
                        last_dot(n) + 1,
                        n.len() as int,
                    )
                } else {
                    stem@ == n && ext is None
                }
            }),
        },
{
    let name = crate::paths::file_name_text(p);
    if crate::paths::file_name_chars(p).is_none() {
        return None;
    }
    let n = chars_of(name.as_str());
    let j = crate::paths::last_dot_exec(&n);
    if j > 1 {
        Some((sub_chars(&n, 0, j - 1), Some(sub_chars(&n, j, n.len()))))
    } else {
        Some((n, None))
    }
}

pub fn unique_candidate(base_dir: &str, file_name: &str, counter: u64) -> (r: String)
    ensures
        r@ == candidate_spec(base_dir@, file_name@, counter),
{
    let first = join_path(base_dir, file_name);
    if counter == 0 {
        return first;
    }
    let (stem, ext) = match split_name(first.as_str()) {
        Some((s, e)) => (s, e),
        None => (chars_of("download"), None),
    };
    let mut v = stem;
    let mut o = chars_of(" (");
    v.append(&mut o);
    push_dec(counter, &mut v);
    let mut o2 = chars_of(").");
    v.append(&mut o2);
    let mut e = match ext {
        Some(e) => e,
        None => chars_of("osz"),
    };
    v.append(&mut e);
    assert(v@ =~= stem_or(first@, "download"@) + " ("@ + dec_nat(counter as nat) + ")."@ + ext_or(
        first@,
        "osz"@,
    ));
    join_path(base_dir, string_of(&v).as_str())
}

pub open spec fn html_marked(lower_type: Seq<char>, lower_start: Seq<char>) -> bool {
    contains_seq(lower_type, "text/html"@) || contains_seq(lower_start, "<html"@) || contains_seq(
        lower_start,
        "<!doctype html"@,
    )
}

/// Whether a response looks like a web page: by its lower-cased content
/// type, or by the lower-cased start of its body.
pub fn html_markers(lower_type: &str, lower_start: &str) -> (r: bool)
    ensures
        r == html_marked(lower_type@, lower_start@),
{
    let t = chars_of(lower_type);
    let s = chars_of(lower_start);
    contains_exec(&t, &chars_of("text/html")) || contains_exec(&s, &chars_of("<html"))
        || contains_exec(&s, &chars_of("<!doctype html"))
}

/// What `String::from_utf8_lossy` makes of some bytes.
pub uninterp spec fn lossy_text(b: Seq<u8>) -> Seq<char>;

/// Relies on `String::from_utf8_lossy`: the text of the bytes, with each
/// invalid sequence replaced.
#[verifier::external_body]
fn decode_lossy(b: &Vec<u8>) -> (r: String)
    ensures
        r@ == lossy_text(b@),
{
    String::from_utf8_lossy(b).to_string()
}

pub fn looks_like_html(snippet: &Vec<u8>, content_type: &str) -> (r: bool)
    ensures
        r == html_marked(lower_of(content_type@), lower_of(lossy_text(snippet@))),
{
    let t = lowercase(content_type);
    let start = lowercase(decode_lossy(snippet).as_str());
    html_markers(t.as_str(), start.as_str())
}

/// The error for a response that is a web page instead of an archive.
pub fn beatconnect_html_error(provider: DownloadProvider) -> (r: String)
    ensures
        provider == DownloadProvider::BeatConnect ==> r@
            == "Resposta nao parece um .osz. No BeatConnect, cole o link completo de download (/b/<id>/<token>/) se o ID sozinho falhar."@,
        provider == DownloadProvider::Gatari ==> r@ == "Resposta nao parece um .osz."@,
{
    match provider {
        DownloadProvider::BeatConnect => String::from_str(
            "Resposta nao parece um .osz. No BeatConnect, cole o link completo de download (/b/<id>/<token>/) se o ID sozinho falhar.",
        ),
        DownloadProvider::Gatari => String::from_str("Resposta nao parece um .osz."),
    }
}


/// The error for an HTTP status outside 200 to 299:
/// `"HTTP <code> ao baixar <url>"`.
pub fn http_failure(code: u16, url: &str) -> (r: Option<String>)
    ensures
        (200 <= code <= 299) <==> r is None,
        r is Some ==> r->0@ == "HTTP "@ + dec_nat(code as nat) + " ao baixar "@ + url@,
{
    if 200 <= code && code <= 299 {
        return None;
    }
    let mut v = chars_of("HTTP ");
    push_dec(code as u64, &mut v);
    let mut o = chars_of(" ao baixar ");
    v.append(&mut o);
    let mut u = chars_of(url);
    v.append(&mut u);
    Some(string_of(&v))
}

/// The `counter`-th candidate for a search download: the name itself, then
/// `"<stem> (<counter>)"` with the extension kept when there is one.
pub open spec fn search_candidate_spec(base: Seq<char>, file_name: Seq<char>, counter: u64) -> Seq<char> {
    let first = path_join(base, file_name);
    if counter == 0 {
        first
    } else {
        let stem = stem_or(first, "beatmap"@);
        let ext = ext_or(first, Seq::empty());
        path_join(
            base,
            if ext.len() == 0 {
                stem + " ("@ + dec_nat(counter as nat) + ")"@
            } else {
                stem + " ("@ + dec_nat(counter as nat) + ")."@ + ext
            },
        )
    }
}

pub fn search_candidate(base_dir: &str, file_name: &str, counter: u64) -> (r: String)
    ensures
        r@ == search_candidate_spec(base_dir@, file_name@, counter),
{
    let first = join_path(base_dir, file_name);
    if counter == 0 {
        return first;
    }
    let (stem, ext) = match split_name(first.as_str()) {
        Some((s, e)) => (s, e),
        None => (chars_of("beatmap"), None),
    };
    let ext = match ext {
        Some(e) => e,
        None => Vec::new(),
    };
    let mut v = stem;
    let mut o = chars_of(" (");
    v.append(&mut o);
    push_dec(counter, &mut v);
    if ext.len() == 0 {
        let mut c = chars_of(")");
        v.append(&mut c);
    } else {
        let mut c = chars_of(").");
        v.append(&mut c);
        let mut e = ext;
        v.append(&mut e);
    }
    join_path(base_dir, string_of(&v).as_str())
}

} // verus!
