//! The `.osu` descriptor format: `[Section]` headers and `Key: value` lines.
//! Title and artist keep the first non-empty value, creator, version and the
//! ids the last one; the audio file is the first non-empty `AudioFilename`
//! under `[General]`, the background the first image named by a background
//! event under `[Events]`.

use vstd::prelude::*;
use crate::errors::ImportError;
use crate::paths::chars_eq;
use crate::text::{
    chars_of, contains_exec, contains_seq, split_chars, split_on, starts_with, starts_with_exec,
    string_of, sub_chars, trim, trim_chars, trim_start, trim_start_chars, view_all, TrimKind,
};

verus! {

pub open spec fn is_ascii_alpha(c: char) -> bool {
    (65 <= c as u32 && c as u32 <= 90) || (97 <= c as u32 && c as u32 <= 122)
}

pub open spec fn is_digit(c: char) -> bool {
    48 <= c as u32 && c as u32 <= 57
}

/// Number of ASCII letters at the start of `l`.
pub open spec fn alpha_len(l: Seq<char>) -> nat
    decreases l.len(),
{
    if l.len() > 0 && is_ascii_alpha(l[0]) {
        1 + alpha_len(l.drop_first())
    } else {
        0
    }
}

/// A `Key: value` line: a key of ASCII letters, optional whitespace, a
/// colon, and the rest of the line trimmed as the value.
pub open spec fn key_value(l: Seq<char>) -> Option<(Seq<char>, Seq<char>)> {
    let n = alpha_len(l);
    let rest = trim_start(l.subrange(n as int, l.len() as int), TrimKind::Space);
    if n == 0 || rest.len() == 0 || rest[0] != ':' {
        None
    } else {
        Some((l.subrange(0, n as int), trim(rest.drop_first(), TrimKind::Space)))
    }
}

pub open spec fn digits_val(s: Seq<char>) -> int
    decreases s.len(),
{
    if s.len() == 0 {
        0
    } else {
        digits_val(s.drop_last()) * 10 + (s.last() as u32 - 48)
    }
}

pub open spec fn all_digits(s: Seq<char>) -> bool {
    forall|i: int| 0 <= i < s.len() ==> is_digit(#[trigger] s[i])
}

/// `str::parse::<i32>`: an optional sign, then one or more ASCII digits,
/// with the value in range.
pub open spec fn parse_i32(s: Seq<char>) -> Option<i32> {
    let signed = s.len() > 0 && (s[0] == '-' || s[0] == '+');
    let d = if signed {
        s.drop_first()
    } else {
        s
    };
    let v = if s.len() > 0 && s[0] == '-' {
        -digits_val(d)
    } else {
        digits_val(d)
    };
    if d.len() == 0 || !all_digits(d) || v < i32::MIN || v > i32::MAX {
        None
    } else {
        Some(v as i32)
    }
}

/// What the parser has gathered so far.
pub struct OsuState {
    pub section: Seq<char>,
    pub title: Seq<char>,
    pub artist: Seq<char>,
    pub creator: Seq<char>,
    pub version: Seq<char>,
    pub set_id: Option<i32>,
    pub beatmap_id: Option<i32>,
    pub background: Option<Seq<char>>,
    pub audio: Option<Seq<char>>,
}

pub open spec fn initial_state() -> OsuState {
    OsuState {
        section: Seq::empty(),
        title: Seq::empty(),
        artist: Seq::empty(),
        creator: Seq::empty(),
        version: Seq::empty(),
        set_id: None,
        beatmap_id: None,
        background: None,
        audio: None,
    }
}

pub open spec fn metadata_step(st: OsuState, l: Seq<char>) -> OsuState {
    match key_value(l) {
        None => st,
        Some((k, v)) => if (k == "Title"@ || k == "TitleUnicode"@) && st.title.len() == 0 {
            OsuState { title: v, ..st }
        } else if (k == "Artist"@ || k == "ArtistUnicode"@) && st.artist.len() == 0 {
            OsuState { artist: v, ..st }
        } else if k == "Creator"@ {
            OsuState { creator: v, ..st }
        } else if k == "Version"@ {
            OsuState { version: v, ..st }
        } else if k == "BeatmapSetID"@ && parse_i32(v) is Some {
            OsuState { set_id: parse_i32(v), ..st }
        } else if k == "BeatmapID"@ && parse_i32(v) is Some {
            OsuState { beatmap_id: parse_i32(v), ..st }
        } else {
            st
        },
    }
}

pub open spec fn general_step(st: OsuState, l: Seq<char>) -> OsuState {
    match key_value(l) {
        Some((k, v)) => if k == "AudioFilename"@ && st.audio is None && v.len() > 0 {
            OsuState { audio: Some(v), ..st }
        } else {
            st
        },
        None => st,
    }
}

pub open spec fn is_image_part(p: Seq<char>) -> bool {
    contains_seq(p, ".jpg"@) || contains_seq(p, ".png"@)
}

/// The first comma-separated field that names a `.jpg` or `.png` file.
pub open spec fn first_image_part(ps: Seq<Seq<char>>) -> Option<Seq<char>>
    decreases ps.len(),
{
    if ps.len() == 0 {
        None
    } else if is_image_part(ps[0]) {
        Some(ps[0])
    } else {
        first_image_part(ps.drop_first())
    }
}

pub open spec fn events_step(st: OsuState, l: Seq<char>) -> OsuState {
    if st.background is None && (starts_with(l, "0,"@) || starts_with(l, "Background"@)) {
        match first_image_part(split_on(l, ',')) {
            Some(p) => OsuState {
                background: Some(trim(trim(p, TrimKind::Space), TrimKind::Quote)),
                ..st
            },
            None => st,
        }
    } else {
        st
    }
}

pub open spec fn line_step(st: OsuState, raw: Seq<char>) -> OsuState {
    let l = trim(raw, TrimKind::Space);
    if l.len() > 0 && l[0] == '[' && l.last() == ']' {
        OsuState { section: trim(l, TrimKind::Bracket), ..st }
    } else if st.section.len() == 0 || l.len() == 0 || starts_with(l, "//"@) {
        st
    } else if st.section == "Metadata"@ {
        metadata_step(st, l)
    } else if st.section == "General"@ {
        general_step(st, l)
    } else if st.section == "Events"@ {
        events_step(st, l)
    } else {
        st
    }
}

pub open spec fn parse_lines(ls: Seq<Seq<char>>) -> OsuState
    decreases ls.len(),
{
    if ls.len() == 0 {
        initial_state()
    } else {
        line_step(parse_lines(ls.drop_last()), ls.last())
    }
}

/// The state after reading every line of `content`.
pub open spec fn parse_text(content: Seq<char>) -> OsuState {
    parse_lines(split_on(content, '\n'))
}

pub open spec fn opt_view(o: Option<String>) -> Option<Seq<char>> {
    match o {
        Some(s) => Some(s@),
        None => None,
    }
}

/// The fields of one descriptor file.
#[derive(Clone, Debug)]
pub struct ParsedOsu {
    pub title: String,
    pub artist: String,
    pub creator: String,
    pub version: String,
    pub beatmap_set_id: Option<i32>,
    pub beatmap_id: Option<i32>,
    pub background_file: Option<String>,
    pub audio_file: Option<String>,
}

/// The fields of a parser state, without the section it ended in.
pub open spec fn fields_of(st: OsuState) -> OsuState {
    OsuState { section: Seq::empty(), ..st }
}

impl ParsedOsu {
    pub open spec fn fields(&self) -> OsuState {
        OsuState {
            section: Seq::empty(),
            title: self.title@,
            artist: self.artist@,
            creator: self.creator@,
            version: self.version@,
            set_id: self.beatmap_set_id,
            beatmap_id: self.beatmap_id,
            background: opt_view(self.background_file),
            audio: opt_view(self.audio_file),
        }
    }

    pub open spec fn matches(&self, st: OsuState) -> bool {
        &&& self.title@ == st.title
        &&& self.artist@ == st.artist
        &&& self.creator@ == st.creator
        &&& self.version@ == st.version
        &&& self.beatmap_set_id == st.set_id
        &&& self.beatmap_id == st.beatmap_id
        &&& opt_view(self.background_file) == st.background
        &&& opt_view(self.audio_file) == st.audio
    }
}


fn is_ascii_alpha_exec(c: char) -> (r: bool)
    ensures
        r == is_ascii_alpha(c),
{
    let u = c as u32;
    (65 <= u && u <= 90) || (97 <= u && u <= 122)
}

fn key_value_exec(l: &Vec<char>) -> (r: Option<(Vec<char>, Vec<char>)>)
    ensures
        r is None <==> key_value(l@) is None,
        r is Some ==> (r->0).0@ == (key_value(l@)->0).0 && (r->0).1@ == (key_value(l@)->0).1,
{
    let len = l.len();
    let mut n: usize = 0;
    assert(l@.subrange(0, len as int) =~= l@);
    while n < len && is_ascii_alpha_exec(l[n])
        invariant
            len == l@.len(),
            n <= len,
            alpha_len(l@) == n + alpha_len(l@.subrange(n as int, len as int)),
        decreases len - n,
    {
        assert(l@.subrange(n as int, len as int).drop_first() =~= l@.subrange(
            n as int + 1,
            len as int,
        ));
        n = n + 1;
    }
    assert(alpha_len(l@) == n);
    if n == 0 {
        return None;
    }
    let after = sub_chars(l, n, len);
    let rest = trim_start_chars(&after, TrimKind::Space);
    if rest.len() == 0 || rest[0] != ':' {
        return None;
    }
    let tail = sub_chars(&rest, 1, rest.len());
    assert(tail@ =~= rest@.drop_first());
    let key = sub_chars(l, 0, n);
    let val = trim_chars(&tail, TrimKind::Space);
    Some((key, val))
}

proof fn lemma_digits_nonneg(s: Seq<char>)
    requires
        all_digits(s),
    ensures
        digits_val(s) >= 0,
    decreases s.len(),
{
    if s.len() > 0 {
        assert(all_digits(s.drop_last())) by {
            assert forall|i: int| 0 <= i < s.drop_last().len() implies is_digit(
                #[trigger] s.drop_last()[i],
            ) by {
                assert(s.drop_last()[i] == s[i]);
            }
        }
        lemma_digits_nonneg(s.drop_last());
        assert(is_digit(s[s.len() - 1]));
    }
}

/// `str::parse::<i32>` on the characters `s`: see `parse_i32`.
pub fn parse_i32_chars(s: &Vec<char>) -> (r: Option<i32>)
    ensures
        r == parse_i32(s@),
{
    let signed = s.len() > 0 && (s[0] == '-' || s[0] == '+');
    let neg = s.len() > 0 && s[0] == '-';
    let d = if signed {
        sub_chars(s, 1, s.len())
    } else {
        sub_chars(s, 0, s.len())
    };
    assert(signed ==> d@ =~= s@.drop_first());
    assert(!signed ==> d@ =~= s@);
    if d.len() == 0 {
        return None;
    }
    let mut acc: i64 = 0;
    let mut i: usize = 0;
    assert(d@.subrange(0, 0) =~= Seq::<char>::empty());
    while i < d.len()
        invariant
            signed == (s@.len() > 0 && (s@[0] == '-' || s@[0] == '+')),
            signed ==> d@ == s@.drop_first(),
            !signed ==> d@ == s@,
            i <= d@.len(),
            all_digits(d@.subrange(0, i as int)),
            0 <= acc <= 2147483649,
            acc <= 2147483648 ==> acc == digits_val(d@.subrange(0, i as int)),
            acc == 2147483649 ==> digits_val(d@.subrange(0, i as int)) > 2147483648,
        decreases d@.len() - i,
    {
        let c = d[i];
        let u = c as u32;
        if u < 48 || u > 57 {
            assert(!is_digit(d@[i as int]));
            assert(!all_digits(d@));
            return None;
        }
        let ghost pre = d@.subrange(0, i as int);
        let ghost next = d@.subrange(0, i as int + 1);
        assert(next.drop_last() =~= pre);
        assert(next.last() == c);
        assert(all_digits(next)) by {
            assert forall|j: int| 0 <= j < next.len() implies is_digit(#[trigger] next[j]) by {
                if j < i {
                    assert(next[j] == pre[j]);
                }
            }
        }
        proof {
            lemma_digits_nonneg(pre);
        }
        if acc <= 2147483648 {
            let v = acc * 10 + (u - 48) as i64;
            if v > 2147483648 {
                acc = 2147483649;
            } else {
                acc = v;
            }
        }
        i = i + 1;
    }
    assert(d@.subrange(0, d@.len() as int) =~= d@);
    if neg {
        if acc > 2147483648 {
            None
        } else {
            Some((0 - acc) as i32)
        }
    } else {
        if acc > 2147483647 {
            None
        } else {
            Some(acc as i32)
        }
    }
}

/// The parser state with executable fields.
pub struct OsuAcc {
    pub section: Vec<char>,
    pub title: Vec<char>,
    pub artist: Vec<char>,
    pub creator: Vec<char>,
    pub version: Vec<char>,
    pub set_id: Option<i32>,
    pub beatmap_id: Option<i32>,
    pub background: Option<Vec<char>>,
    pub audio: Option<Vec<char>>,
}

pub open spec fn opt_chars(o: Option<Vec<char>>) -> Option<Seq<char>> {
    match o {
        Some(v) => Some(v@),
        None => None,
    }
}

impl View for OsuAcc {
    type V = OsuState;

    open spec fn view(&self) -> OsuState {
        OsuState {
            section: self.section@,
            title: self.title@,
            artist: self.artist@,
            creator: self.creator@,
            version: self.version@,
            set_id: self.set_id,
            beatmap_id: self.beatmap_id,
            background: opt_chars(self.background),
            audio: opt_chars(self.audio),
        }
    }
}

fn is_key(k: &Vec<char>, name: &str) -> (r: bool)
    ensures
        r == (k@ == name@),
{
    chars_eq(k, &chars_of(name))
}

fn metadata_step_exec(st: &mut OsuAcc, l: &Vec<char>)
    ensures
        final(st)@ == metadata_step(old(st)@, l@),
{
    match key_value_exec(l) {
        None => {},
        Some((k, v)) => {
            if (is_key(&k, "Title") || is_key(&k, "TitleUnicode")) && st.title.len() == 0 {
                st.title = v;
            } else if (is_key(&k, "Artist") || is_key(&k, "ArtistUnicode")) && st.artist.len()
                == 0 {
                st.artist = v;
            } else if is_key(&k, "Creator") {
                st.creator = v;
            } else if is_key(&k, "Version") {
                st.version = v;
            } else if is_key(&k, "BeatmapSetID") {
                let id = parse_i32_chars(&v);
                if id.is_some() {
                    st.set_id = id;
                }
            } else if is_key(&k, "BeatmapID") {
                let id = parse_i32_chars(&v);
                if id.is_some() {
                    st.beatmap_id = id;
                }
            }
        },
    }
}

fn general_step_exec(st: &mut OsuAcc, l: &Vec<char>)
    ensures
        final(st)@ == general_step(old(st)@, l@),
{
    match key_value_exec(l) {
        None => {},
        Some((k, v)) => {
            if is_key(&k, "AudioFilename") && st.audio.is_none() && v.len() > 0 {
                st.audio = Some(v);
            }
        },
    }
}

fn first_image_part_exec(ps: &Vec<Vec<char>>) -> (r: Option<usize>)
    ensures
        r is None <==> first_image_part(view_all(ps@)) is None,
        r is Some ==> r->0 < ps@.len() && first_image_part(view_all(ps@)) == Some(
            ps@[r->0 as int]@,
        ),
{
    let jpg = chars_of(".jpg");
    let png = chars_of(".png");
    let mut i: usize = 0;
    assert(view_all(ps@).subrange(0, ps@.len() as int) =~= view_all(ps@));
    while i < ps.len()
        invariant
            i <= ps@.len(),
            jpg@ == ".jpg"@,
            png@ == ".png"@,
            first_image_part(view_all(ps@)) == first_image_part(
                view_all(ps@).subrange(i as int, ps@.len() as int),
            ),
        decreases ps@.len() - i,
    {
        let ghost rest = view_all(ps@).subrange(i as int, ps@.len() as int);
        assert(rest[0] == ps@[i as int]@);
        if contains_exec(&ps[i], &jpg) || contains_exec(&ps[i], &png) {
            return Some(i);
        }
        assert(rest.drop_first() =~= view_all(ps@).subrange(i as int + 1, ps@.len() as int));
        i = i + 1;
    }
    None
}

fn events_step_exec(st: &mut OsuAcc, l: &Vec<char>)
    ensures
        final(st)@ == events_step(old(st)@, l@),
{
    if st.background.is_none() && (starts_with_exec(l, &chars_of("0,")) || starts_with_exec(
        l,
        &chars_of("Background"),
    )) {
        let parts = split_chars(l, ',');
        match first_image_part_exec(&parts) {
            Some(i) => {
                let a = trim_chars(&parts[i], TrimKind::Space);
                let b = trim_chars(&a, TrimKind::Quote);
                st.background = Some(b);
            },
            None => {},
        }
    }
}

fn line_step_exec(st: &mut OsuAcc, raw: &Vec<char>)
    ensures
        final(st)@ == line_step(old(st)@, raw@),
{
    let l = trim_chars(raw, TrimKind::Space);
    if l.len() > 0 && l[0] == '[' && l[l.len() - 1] == ']' {
        st.section = trim_chars(&l, TrimKind::Bracket);
    } else if st.section.len() == 0 || l.len() == 0 || starts_with_exec(&l, &chars_of("//")) {
    } else if is_key(&st.section, "Metadata") {
        metadata_step_exec(st, &l);
    } else if is_key(&st.section, "General") {
        general_step_exec(st, &l);
    } else if is_key(&st.section, "Events") {
        events_step_exec(st, &l);
    }
}

fn opt_string(o: &Option<Vec<char>>) -> (r: Option<String>)
    ensures
        opt_view(r) == opt_chars(*o),
{
    match o {
        Some(v) => Some(string_of(v)),
        None => None,
    }
}

/// Parses one descriptor file. Fails with `MetadataParse` exactly when it
/// names neither a title nor an artist.
pub fn parse_osu(content: &str) -> (r: Result<ParsedOsu, ImportError>)
    ensures
        match r {
            Ok(p) => p.matches(parse_text(content@)) && p.fields() == fields_of(parse_text(content@))
                && !(parse_text(content@).title.len() == 0
                && parse_text(content@).artist.len() == 0),
            Err(e) => e == ImportError::MetadataParse && parse_text(content@).title.len() == 0
                && parse_text(content@).artist.len() == 0,
        },
{
    let text = chars_of(content);
    let lines = split_chars(&text, '\n');
    let mut st = OsuAcc {
        section: Vec::new(),
        title: Vec::new(),
        artist: Vec::new(),
        creator: Vec::new(),
        version: Vec::new(),
        set_id: None,
        beatmap_id: None,
        background: None,
        audio: None,
    };
    let mut i: usize = 0;
    assert(view_all(lines@).subrange(0, 0) =~= Seq::<Seq<char>>::empty());
    assert(st@ == initial_state());
    while i < lines.len()
        invariant
            i <= lines@.len(),
            view_all(lines@) == split_on(content@, '\n'),
            st@ == parse_lines(view_all(lines@).subrange(0, i as int)),
        decreases lines@.len() - i,
    {
        assert(view_all(lines@).subrange(0, i as int + 1).drop_last() =~= view_all(
            lines@,
        ).subrange(0, i as int));
        assert(view_all(lines@).subrange(0, i as int + 1).last() == lines@[i as int]@);
        line_step_exec(&mut st, &lines[i]);
        i = i + 1;
    }
    assert(view_all(lines@).subrange(0, lines@.len() as int) =~= view_all(lines@));
    if st.title.len() == 0 && st.artist.len() == 0 {
        return Err(ImportError::MetadataParse);
    }
    Ok(
        ParsedOsu {
            title: string_of(&st.title),
            artist: string_of(&st.artist),
            creator: string_of(&st.creator),
            version: string_of(&st.version),
            beatmap_set_id: st.set_id,
            beatmap_id: st.beatmap_id,
            background_file: opt_string(&st.background),
            audio_file: opt_string(&st.audio),
        },
    )
}

} // verus!
