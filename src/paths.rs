//! Lexical path reasoning on `/`-separated paths: splitting, normalisation
//! without touching the file system, containment and the check that the
//! downloads and songs folders do not overlap.

use vstd::prelude::*;
use crate::text::{chars_of, split_chars, split_on, string_of, view_all};
use vstd::string::*;

verus! {

/// The pieces of a path between separators, empty ones included.
pub open spec fn pieces(s: Seq<char>) -> Seq<Seq<char>> {
    split_on(s, '/')
}

pub open spec fn is_cur(p: Seq<char>) -> bool {
    p == seq!['.']
}

pub open spec fn is_parent(p: Seq<char>) -> bool {
    p == seq!['.', '.']
}

/// The components of a path after its root: empty pieces and `.` are dropped.
pub open spec fn raw_parts(ps: Seq<Seq<char>>) -> Seq<Seq<char>>
    decreases ps.len(),
{
    if ps.len() == 0 {
        Seq::empty()
    } else {
        let r = raw_parts(ps.drop_last());
        if ps.last().len() == 0 || is_cur(ps.last()) {
            r
        } else {
            r.push(ps.last())
        }
    }
}

/// Components with `..` resolved against what precedes it; a `..` with
/// nothing before it is dropped.
pub open spec fn norm_parts(ps: Seq<Seq<char>>) -> Seq<Seq<char>>
    decreases ps.len(),
{
    if ps.len() == 0 {
        Seq::empty()
    } else {
        let r = norm_parts(ps.drop_last());
        let p = ps.last();
        if p.len() == 0 || is_cur(p) {
            r
        } else if is_parent(p) {
            if r.len() > 0 {
                r.drop_last()
            } else {
                r
            }
        } else {
            r.push(p)
        }
    }
}

/// A path as a list of components, with or without a root.
pub struct PathModel {
    pub rooted: bool,
    pub parts: Seq<Seq<char>>,
}

pub open spec fn is_rooted(s: Seq<char>) -> bool {
    s.len() > 0 && s[0] == '/'
}

/// Lexical normalisation; when nothing is left of a relative path, the path
/// is kept as it was written.
pub open spec fn normalized(s: Seq<char>) -> PathModel {
    let n = norm_parts(pieces(s));
    if !is_rooted(s) && n.len() == 0 {
        PathModel { rooted: false, parts: raw_parts(pieces(s)) }
    } else {
        PathModel { rooted: is_rooted(s), parts: n }
    }
}

/// `base` is a leading part of `p`, component by component.
pub open spec fn model_starts_with(p: PathModel, base: PathModel) -> bool {
    p.rooted == base.rooted && base.parts.len() <= p.parts.len() && p.parts.subrange(
        0,
        base.parts.len() as int,
    ) == base.parts
}

pub open spec fn within_dir(base: Seq<char>, candidate: Seq<char>) -> bool {
    model_starts_with(normalized(candidate), normalized(base))
}

pub fn chars_eq(a: &Vec<char>, b: &Vec<char>) -> (r: bool)
    ensures
        r == (a@ == b@),
{
    if a.len() != b.len() {
        return false;
    }
    let mut i: usize = 0;
    while i < a.len()
        invariant
            a@.len() == b@.len(),
            i <= a@.len(),
            forall|k: int| 0 <= k < i ==> a@[k] == b@[k],
        decreases a@.len() - i,
    {
        if a[i] != b[i] {
            return false;
        }
        i = i + 1;
    }
    assert(a@ =~= b@);
    true
}

fn is_cur_exec(p: &Vec<char>) -> (r: bool)
    ensures
        r == is_cur(p@),
{
    let r = p.len() == 1 && p[0] == '.';
    assert(r ==> p@ =~= seq!['.']);
    r
}

fn is_parent_exec(p: &Vec<char>) -> (r: bool)
    ensures
        r == is_parent(p@),
{
    let r = p.len() == 2 && p[0] == '.' && p[1] == '.';
    assert(r ==> p@ =~= seq!['.', '.']);
    r
}

/// A normalised path: root flag and components.
pub struct NormPath {
    pub rooted: bool,
    pub parts: Vec<Vec<char>>,
}

impl View for NormPath {
    type V = PathModel;

    open spec fn view(&self) -> PathModel {
        PathModel { rooted: self.rooted, parts: view_all(self.parts@) }
    }
}

fn fold_parts(ps: &Vec<Vec<char>>, resolve: bool) -> (r: Vec<Vec<char>>)
    ensures
        view_all(r@) == if resolve {
            norm_parts(view_all(ps@))
        } else {
            raw_parts(view_all(ps@))
        },
{
    let mut r: Vec<Vec<char>> = Vec::new();
    let mut i: usize = 0;
    assert(view_all(ps@).subrange(0, 0) =~= Seq::<Seq<char>>::empty());
    while i < ps.len()
        invariant
            i <= ps@.len(),
            view_all(r@) == if resolve {
                norm_parts(view_all(ps@).subrange(0, i as int))
            } else {
                raw_parts(view_all(ps@).subrange(0, i as int))
            },
        decreases ps@.len() - i,
    {
        let p = &ps[i];
        let ghost pre = view_all(ps@).subrange(0, i as int);
        assert(view_all(ps@).subrange(0, i as int + 1).drop_last() =~= pre);
        assert(view_all(ps@).subrange(0, i as int + 1).last() == p@);
        let ghost r0 = r@;
        if p.len() == 0 || is_cur_exec(p) {
        } else if resolve && is_parent_exec(p) {
            if r.len() > 0 {
                r.pop();
                assert(view_all(r@) =~= view_all(r0).drop_last());
            }
        } else {
            r.push(p.clone());
            assert(view_all(r@) =~= view_all(r0).push(p@));
        }
        i = i + 1;
    }
    assert(view_all(ps@).subrange(0, ps@.len() as int) =~= view_all(ps@));
    r
}

/// Normalises `path` without touching the file system: see `normalized`.
pub fn normalize_path(path: &str) -> (r: NormPath)
    ensures
        r@ == normalized(path@),
{
    let v = chars_of(path);
    let ps = split_chars(&v, '/');
    let rooted = v.len() > 0 && v[0] == '/';
    let n = fold_parts(&ps, true);
    if !rooted && n.len() == 0 {
        NormPath { rooted: false, parts: fold_parts(&ps, false) }
    } else {
        NormPath { rooted, parts: n }
    }
}

fn parts_prefix(base: &Vec<Vec<char>>, p: &Vec<Vec<char>>) -> (r: bool)
    ensures
        r == (base@.len() <= p@.len() && view_all(p@).subrange(0, base@.len() as int) == view_all(
            base@,
        )),
{
    if base.len() > p.len() {
        return false;
    }
    let mut i: usize = 0;
    while i < base.len()
        invariant
            base@.len() <= p@.len(),
            i <= base@.len(),
            forall|k: int| 0 <= k < i ==> base@[k]@ == p@[k]@,
        decreases base@.len() - i,
    {
        if !chars_eq(&base[i], &p[i]) {
            assert(view_all(p@).subrange(0, base@.len() as int)[i as int] != view_all(base@)[i as int]);
            return false;
        }
        i = i + 1;
    }
    assert(view_all(p@).subrange(0, base@.len() as int) =~= view_all(base@));
    true
}

fn starts_with_exec(p: &NormPath, base: &NormPath) -> (r: bool)
    ensures
        r == model_starts_with(p@, base@),
{
    p.rooted == base.rooted && parts_prefix(&base.parts, &p.parts)
}

/// True when `candidate` is `base` or lies under it, compared lexically.
pub fn is_within_dir(base: &str, candidate: &str) -> (r: bool)
    ensures
        r == within_dir(base@, candidate@),
{
    let b = normalize_path(base);
    let c = normalize_path(candidate);
    starts_with_exec(&c, &b)
}


/// How the downloads and songs folders overlap.
pub enum Overlap {
    Same,
    SongsInsideDownloads,
    DownloadsInsideSongs,
}

pub open spec fn overlap(downloads: Seq<char>, songs: Seq<char>) -> Option<Overlap> {
    let d = normalized(downloads);
    let s = normalized(songs);
    if d == s {
        Some(Overlap::Same)
    } else if model_starts_with(s, d) {
        Some(Overlap::SongsInsideDownloads)
    } else if model_starts_with(d, s) {
        Some(Overlap::DownloadsInsideSongs)
    } else {
        None
    }
}

pub open spec fn overlap_message(k: Overlap) -> Seq<char> {
    match k {
        Overlap::Same => "Downloads e Songs apontam para a mesma pasta. "@ + GUIDANCE@,
        Overlap::SongsInsideDownloads => "A pasta Songs esta dentro da pasta de Downloads. "@
            + GUIDANCE@,
        Overlap::DownloadsInsideSongs =>
            "A pasta de Downloads esta dentro da pasta Songs; se mover ou limpar, voce perde mapas. "@
            + GUIDANCE@,
    }
}

pub const GUIDANCE: &'static str =
    "Escolha uma pasta Songs diferente via Steam > McOsu > Gerenciar > Procurar arquivos locais.";

fn models_equal(a: &NormPath, b: &NormPath) -> (r: bool)
    ensures
        r == (a@ == b@),
{
    if a.rooted != b.rooted {
        return false;
    }
    if a.parts.len() != b.parts.len() {
        assert(view_all(a.parts@).len() != view_all(b.parts@).len());
        return false;
    }
    let r = parts_prefix(&a.parts, &b.parts);
    assert(view_all(b.parts@).subrange(0, a.parts@.len() as int) =~= view_all(b.parts@));
    r
}

/// Warns when the songs folder is the downloads folder, lies inside it, or
/// contains it; `None` when they are apart.
pub fn downloads_songs_conflict(downloads: &str, songs: &str) -> (r: Option<String>)
    ensures
        r is None <==> overlap(downloads@, songs@) is None,
        r is Some ==> r->0@ == overlap_message(overlap(downloads@, songs@)->0),
{
    let d = normalize_path(downloads);
    let s = normalize_path(songs);
    let mut msg;
    if models_equal(&d, &s) {
        msg = String::from_str("Downloads e Songs apontam para a mesma pasta. ");
    } else if starts_with_exec(&s, &d) {
        msg = String::from_str("A pasta Songs esta dentro da pasta de Downloads. ");
    } else if starts_with_exec(&d, &s) {
        msg = String::from_str(
            "A pasta de Downloads esta dentro da pasta Songs; se mover ou limpar, voce perde mapas. ",
        );
    } else {
        return None;
    }
    msg.append(GUIDANCE);
    Some(msg)
}

/// `Err` with the warning of `downloads_songs_conflict` when the folders overlap.
pub fn validate_songs_choice(downloads: &str, songs: &str) -> (r: Result<(), String>)
    ensures
        r is Ok <==> overlap(downloads@, songs@) is None,
        r is Err ==> r->Err_0@ == overlap_message(overlap(downloads@, songs@)->0),
{
    match downloads_songs_conflict(downloads, songs) {
        Some(msg) => Err(msg),
        None => Ok(()),
    }
}

/// A source file may be deleted only when the folders do not overlap and it
/// lies inside the downloads folder.
pub fn can_delete_source(downloads: &str, songs: &str, source: &str) -> (r: bool)
    ensures
        r == (overlap(downloads@, songs@) is None && within_dir(downloads@, source@)),
{
    if downloads_songs_conflict(downloads, songs).is_some() {
        return false;
    }
    is_within_dir(downloads, source)
}

/// `PathBuf::push` on a `/`-separated path: an absolute `b` replaces `a`,
/// otherwise a separator is put between them when `a` lacks one at its end.
pub open spec fn path_join(a: Seq<char>, b: Seq<char>) -> Seq<char> {
    if is_rooted(b) {
        b
    } else if a.len() == 0 || a.last() == '/' {
        a + b
    } else {
        a + seq!['/'] + b
    }
}

pub fn join_path(a: &str, b: &str) -> (r: String)
    ensures
        r@ == path_join(a@, b@),
{
    let av = chars_of(a);
    let bv = chars_of(b);
    if bv.len() > 0 && bv[0] == '/' {
        return String::from_str(b);
    }
    let mut r = String::from_str(a);
    if av.len() > 0 && av[av.len() - 1] != '/' {
        r.append("/");
        proof {
            reveal_strlit("/");
        }
    }
    r.append(b);
    r
}

/// The last component of a path, unless it is `..` or there is none.
pub open spec fn file_name_of(s: Seq<char>) -> Option<Seq<char>> {
    let r = raw_parts(pieces(s));
    if r.len() == 0 || is_parent(r.last()) {
        None
    } else {
        Some(r.last())
    }
}

pub open spec fn last_dot(s: Seq<char>) -> int
    decreases s.len(),
{
    if s.len() == 0 {
        -1
    } else if s.last() == '.' {
        s.len() - 1
    } else {
        last_dot(s.drop_last())
    }
}

/// `Path::file_stem`: the file name without its last extension; a name whose
/// only dot leads it is kept whole.
pub open spec fn file_stem_of(s: Seq<char>) -> Option<Seq<char>> {
    match file_name_of(s) {
        None => None,
        Some(n) => if last_dot(n) > 0 {
            Some(n.subrange(0, last_dot(n)))
        } else {
            Some(n)
        },
    }
}

pub fn file_name_chars(path: &str) -> (r: Option<Vec<char>>)
    ensures
        r is None <==> file_name_of(path@) is None,
        r is Some ==> r->0@ == file_name_of(path@)->0,
{
    let v = chars_of(path);
    let ps = split_chars(&v, '/');
    let raw = fold_parts(&ps, false);
    if raw.len() == 0 {
        return None;
    }
    let last = raw[raw.len() - 1].clone();
    if is_parent_exec(&last) {
        None
    } else {
        Some(last)
    }
}

/// `Path::file_name` as text; empty when there is none.
pub fn file_name_text(path: &str) -> (r: String)
    ensures
        r@ == match file_name_of(path@) {
            Some(n) => n,
            None => Seq::empty(),
        },
{
    match file_name_chars(path) {
        Some(n) => string_of(&n),
        None => String::new(),
    }
}

pub fn last_dot_exec(v: &Vec<char>) -> (r: usize)
    ensures
        r <= v@.len(),
        r == 0 ==> last_dot(v@) == -1,
        r > 0 ==> last_dot(v@) == r - 1,
{
    let mut j: usize = v.len();
    assert(v@.subrange(0, j as int) =~= v@);
    while j > 0 && v[j - 1] != '.'
        invariant
            j <= v@.len(),
            last_dot(v@) == last_dot(v@.subrange(0, j as int)),
        decreases j,
    {
        assert(v@.subrange(0, j as int).drop_last() =~= v@.subrange(0, j as int - 1));
        j = j - 1;
    }
    if j == 0 {
        assert(v@.subrange(0, 0) =~= Seq::<char>::empty());
    }
    j
}

/// `Path::file_stem` as characters.
pub fn file_stem_chars(path: &str) -> (r: Option<Vec<char>>)
    ensures
        r is None <==> file_stem_of(path@) is None,
        r is Some ==> r->0@ == file_stem_of(path@)->0,
{
    match file_name_chars(path) {
        None => None,
        Some(n) => {
            let j = last_dot_exec(&n);
            if j > 1 {
                let k = j - 1;
                let mut r: Vec<char> = Vec::new();
                let mut i: usize = 0;
                while i < k
                    invariant
                        k < n@.len(),
                        i <= k,
                        r@ == n@.subrange(0, i as int),
                    decreases k - i,
                {
                    r.push(n[i]);
                    assert(r@ =~= n@.subrange(0, i as int + 1));
                    i = i + 1;
                }
                Some(r)
            } else {
                Some(n)
            }
        },
    }
}

} // verus!
