//! Decisions of the safe archive importer: the destination folder name, the
//! duplicate policy, and the validation of every entry path before anything
//! is written.

use vstd::prelude::*;
use crate::errors::ImportError;
use crate::model::BeatmapMetadata;
use crate::paths::{
    file_stem_chars, file_stem_of, is_cur, is_parent, is_rooted, join_path, norm_parts, path_join,
    pieces, within_dir,
};
use crate::text::{
    chars_of, dec_int, is_illegal, lemma_sanitized_is_clean, push_int, sanitize_chars, sanitized,
    lemma_split_nonempty, split_chars, split_on, string_of, view_all, MAX_COMPONENT_LEN,
};

verus! {

/// Where an import went, and whether the folder was already there.
#[derive(Clone, Debug)]
pub struct ImportResult {
    pub destination: String,
    pub duplicated: bool,
}

/// `"<artist> - <title> (<creator>)"`, then `" [<set id>]"` when there is one.
pub open spec fn folder_base(m: BeatmapMetadata) -> Seq<char> {
    let base = m.artist@ + " - "@ + m.title@ + " ("@ + m.creator@ + ")"@;
    match m.beatmap_set_id {
        Some(id) => base + " ["@ + dec_int(id as int) + "]"@,
        None => base,
    }
}

/// The sanitised base name, or the sanitised file stem of the archive when
/// nothing of the base name is left.
pub open spec fn folder_name(m: BeatmapMetadata, osz_path: Seq<char>) -> Seq<char> {
    let s = sanitized(folder_base(m));
    if s.len() > 0 {
        s
    } else {
        sanitized(
            match file_stem_of(osz_path) {
                Some(t) => t,
                None => Seq::empty(),
            },
        )
    }
}

fn push_str(v: &mut Vec<char>, s: &str)
    ensures
        final(v)@ == old(v)@ + s@,
{
    let mut o = chars_of(s);
    v.append(&mut o);
}

/// The destination folder name for an archive: see `folder_name`.
pub fn build_folder_name(meta: &BeatmapMetadata, osz_path: &str) -> (r: String)
    ensures
        r@ == folder_name(*meta, osz_path@),
{
    let mut base: Vec<char> = Vec::new();
    push_str(&mut base, meta.artist.as_str());
    push_str(&mut base, " - ");
    push_str(&mut base, meta.title.as_str());
    push_str(&mut base, " (");
    push_str(&mut base, meta.creator.as_str());
    push_str(&mut base, ")");
    match meta.beatmap_set_id {
        Some(id) => {
            push_str(&mut base, " [");
            push_int(id, &mut base);
            push_str(&mut base, "]");
        },
        None => {},
    }
    assert(base@ =~= folder_base(*meta));
    let s = sanitize_chars(&base);
    if s.len() > 0 {
        return string_of(&s);
    }
    let stem = match file_stem_chars(osz_path) {
        Some(t) => t,
        None => Vec::new(),
    };
    string_of(&sanitize_chars(&stem))
}

/// The destination folder of an archive under the songs folder.
pub fn destination_for(meta: &BeatmapMetadata, osz_path: &str, songs_dir: &str) -> (r: String)
    ensures
        r@ == path_join(songs_dir@, folder_name(*meta, osz_path@)),
{
    let name = build_folder_name(meta, osz_path);
    join_path(songs_dir, name.as_str())
}

/// What to do about the destination folder before extracting.
#[derive(Clone, Copy, Debug, PartialEq, Eq, Structural)]
pub enum ImportPlan {
    /// The folder exists and no overwrite was asked: report a duplicate and
    /// touch nothing.
    ReportDuplicate,
    /// The folder exists and an overwrite was asked: delete it, then extract.
    ReplaceThenExtract,
    /// The folder does not exist: extract.
    Extract,
}

pub open spec fn plan_spec(dest_exists: bool, force: bool) -> ImportPlan {
    if dest_exists && !force {
        ImportPlan::ReportDuplicate
    } else if dest_exists {
        ImportPlan::ReplaceThenExtract
    } else {
        ImportPlan::Extract
    }
}

pub fn plan_import(dest_exists: bool, force: bool) -> (r: ImportPlan)
    ensures
        r == plan_spec(dest_exists, force),
{
    if dest_exists && !force {
        ImportPlan::ReportDuplicate
    } else if dest_exists {
        ImportPlan::ReplaceThenExtract
    } else {
        ImportPlan::Extract
    }
}

/// The folder an archive is imported into.
pub open spec fn import_destination(
    meta: BeatmapMetadata,
    osz_path: Seq<char>,
    songs_dir: Seq<char>,
) -> Seq<char> {
    path_join(songs_dir, folder_name(meta, osz_path))
}

/// Where an import goes and what to do about the folder there.
pub fn prepare_import(
    meta: &BeatmapMetadata,
    osz_path: &str,
    songs_dir: &str,
    dest_exists: bool,
    force: bool,
) -> (r: (String, ImportPlan))
    ensures
        r.0@ == import_destination(*meta, osz_path@, songs_dir@),
        r.1 == plan_spec(dest_exists, force),
{
    (destination_for(meta, osz_path, songs_dir), plan_import(dest_exists, force))
}

/// The result of an import that extracts nothing: `Some` exactly when the
/// plan reports a duplicate.
pub fn duplicate_result(destination: String, plan: ImportPlan) -> (r: Option<ImportResult>)
    ensures
        r is Some <==> plan == ImportPlan::ReportDuplicate,
        r is Some ==> r->0.destination == destination && r->0.duplicated,
{
    match plan {
        ImportPlan::ReportDuplicate => Some(ImportResult { destination, duplicated: true }),
        _ => None,
    }
}

/// Without forcing, an import never deletes a folder; once the first import
/// has created the folder, every later one is reported as a duplicate, to
/// which `duplicate_result` gives `duplicated` and the same destination,
/// with nothing extracted.
pub proof fn lemma_second_import_is_duplicate()
    ensures
        plan_spec(true, false) == ImportPlan::ReportDuplicate,
        forall|dest_exists: bool| #[trigger] plan_spec(dest_exists, false)
            != ImportPlan::ReplaceThenExtract,
{
}

/// A piece that is `..`, or that sanitises to `.` or `..`.
pub open spec fn is_traversal_piece(p: Seq<char>) -> bool {
    is_parent(p) || (p.len() > 0 && !is_cur(p) && (is_parent(sanitized(p)) || is_cur(
        sanitized(p),
    )))
}

pub open spec fn has_parent_piece(ps: Seq<Seq<char>>) -> bool {
    exists|i: int| 0 <= i < ps.len() && is_traversal_piece(#[trigger] ps[i])
}

/// The sanitised components of an entry name: empty pieces and `.` are
/// skipped, and so is a component that sanitises to nothing.
pub open spec fn clean_components(ps: Seq<Seq<char>>) -> Seq<Seq<char>>
    decreases ps.len(),
{
    if ps.len() == 0 {
        Seq::empty()
    } else {
        let r = clean_components(ps.drop_last());
        let p = ps.last();
        if p.len() == 0 || is_cur(p) || sanitized(p).len() == 0 {
            r
        } else {
            r.push(sanitized(p))
        }
    }
}

/// How an archive entry name is placed under the destination folder.
pub open spec fn entry_components(name: Seq<char>) -> Result<Seq<Seq<char>>, ImportError> {
    let ps = split_on(name, '/');
    if is_rooted(name) || has_parent_piece(ps) {
        Err(ImportError::PathTraversal)
    } else if clean_components(ps).len() == 0 {
        Err(ImportError::EmptyEntryName)
    } else {
        Ok(clean_components(ps))
    }
}

/// A component that names one item inside its folder.
pub open spec fn is_clean_component(c: Seq<char>) -> bool {
    &&& c.len() > 0
    &&& c.len() <= MAX_COMPONENT_LEN
    &&& !is_cur(c)
    &&& !is_parent(c)
    &&& forall|i: int| 0 <= i < c.len() ==> !is_illegal(#[trigger] c[i])
}

proof fn lemma_clean_components_are_clean(ps: Seq<Seq<char>>)
    requires
        !has_parent_piece(ps),
    ensures
        forall|i: int|
            0 <= i < clean_components(ps).len() ==> is_clean_component(
                #[trigger] clean_components(ps)[i],
            ),
    decreases ps.len(),
{
    if ps.len() > 0 {
        let q = ps.drop_last();
        assert(!has_parent_piece(q)) by {
            if has_parent_piece(q) {
                let j = choose|j: int| 0 <= j < q.len() && is_traversal_piece(#[trigger] q[j]);
                assert(ps[j] == q[j]);
            }
        }
        lemma_clean_components_are_clean(q);
        let p = ps.last();
        assert(!is_traversal_piece(ps[ps.len() - 1]));
        lemma_sanitized_is_clean(p);
        let r = clean_components(q);
        let c = sanitized(p);
        if !(p.len() == 0 || is_cur(p) || c.len() == 0) {
            assert(is_clean_component(c));
            assert forall|i: int| 0 <= i < r.push(c).len() implies is_clean_component(
                #[trigger] r.push(c)[i],
            ) by {
                if i < r.len() {
                    assert(r.push(c)[i] == r[i]);
                }
            }
        }
    }
}

/// An entry whose name holds a `..` component (or one that sanitises to
/// `.` or `..`), or starts at the root, is rejected as a traversal; an accepted entry is placed by components that
/// each name one item inside its folder, so it stays under the destination.
pub proof fn lemma_traversal_rejected(name: Seq<char>)
    ensures
        (is_rooted(name) || has_parent_piece(split_on(name, '/'))) ==> entry_components(name)
            == Err::<Seq<Seq<char>>, ImportError>(ImportError::PathTraversal),
        entry_components(name) is Ok ==> forall|i: int|
            0 <= i < entry_components(name)->Ok_0.len() ==> is_clean_component(
                #[trigger] entry_components(name)->Ok_0[i],
            ),
{
    if !is_rooted(name) && !has_parent_piece(split_on(name, '/')) {
        lemma_clean_components_are_clean(split_on(name, '/'));
    }
}

fn is_dotdot(p: &Vec<char>) -> (r: bool)
    ensures
        r == is_parent(p@),
{
    let r = p.len() == 2 && p[0] == '.' && p[1] == '.';
    assert(r ==> p@ =~= seq!['.', '.']);
    r
}

/// Validates one archive entry name: see `entry_components`.
pub fn safe_entry_components(name: &str) -> (r: Result<Vec<String>, ImportError>)
    ensures
        match r {
            Ok(cs) => entry_components(name@) is Ok && cs@.map_values(|c: String| c@)
                == entry_components(name@)->Ok_0,
            Err(e) => entry_components(name@) == Err::<Seq<Seq<char>>, ImportError>(e),
        },
{
    let v = chars_of(name);
    if v.len() > 0 && v[0] == '/' {
        return Err(ImportError::PathTraversal);
    }
    let ps = split_chars(&v, '/');
    let mut out: Vec<String> = Vec::new();
    let mut i: usize = 0;
    assert(view_all(ps@).subrange(0, 0) =~= Seq::<Seq<char>>::empty());
    while i < ps.len()
        invariant
            i <= ps@.len(),
            view_all(ps@) == split_on(name@, '/'),
            !has_parent_piece(view_all(ps@).subrange(0, i as int)),
            out@.map_values(|c: String| c@) == clean_components(
                view_all(ps@).subrange(0, i as int),
            ),
        decreases ps@.len() - i,
    {
        let p = &ps[i];
        let ghost pre = view_all(ps@).subrange(0, i as int);
        let ghost next = view_all(ps@).subrange(0, i as int + 1);
        assert(next.drop_last() =~= pre);
        assert(next.last() == p@);
        let is_dot = p.len() == 1 && p[0] == '.';
        assert(is_dot == is_cur(p@)) by {
            if is_dot {
                assert(p@ =~= seq!['.']);
            }
        }
        let s = sanitize_chars(p);
        if is_dotdot(p) || (p.len() > 0 && !is_dot && (is_dotdot(&s) || (s.len() == 1 && s[0]
            == '.'))) {
            assert(s.len() == 1 && s[0] == '.' ==> s@ =~= seq!['.']);
            assert(is_traversal_piece(p@));
            assert(view_all(ps@)[i as int] == p@);
            return Err(ImportError::PathTraversal);
        }
        assert(s@ =~= seq!['.'] ==> s.len() == 1 && s[0] == '.');
        assert(!is_traversal_piece(p@));
        assert(!has_parent_piece(next)) by {
            if has_parent_piece(next) {
                let j = choose|j: int|
                    0 <= j < next.len() && is_traversal_piece(#[trigger] next[j]);
                if j < i {
                    assert(next[j] == pre[j]);
                }
            }
        }
        let ghost o0 = out@;
        if p.len() > 0 && !is_dot {
            if s.len() > 0 {
                out.push(string_of(&s));
                assert(out@.map_values(|c: String| c@) =~= o0.map_values(|c: String| c@).push(
                    s@,
                ));
            }
        }
        i = i + 1;
    }
    assert(view_all(ps@).subrange(0, ps@.len() as int) =~= view_all(ps@));
    if out.len() == 0 {
        return Err(ImportError::EmptyEntryName);
    }
    Ok(out)
}

/// Validates every entry name of an archive before anything is written:
/// the first invalid name fails the whole import.
pub fn validate_entry_names(names: &Vec<String>) -> (r: Result<Vec<Vec<String>>, ImportError>)
    ensures
        match r {
            Ok(all) => all@.len() == names@.len() && forall|i: int|
                0 <= i < names@.len() ==> entry_components(#[trigger] names@[i]@) is Ok
                    && all@[i]@.map_values(|c: String| c@) == entry_components(names@[i]@)->Ok_0,
            Err(e) => exists|i: int|
                0 <= i < names@.len() && entry_components(#[trigger] names@[i]@) == Err::<
                    Seq<Seq<char>>,
                    ImportError,
                >(e),
        },
{
    let mut all: Vec<Vec<String>> = Vec::new();
    let mut i: usize = 0;
    while i < names.len()
        invariant
            i <= names@.len(),
            all@.len() == i,
            forall|j: int|
                0 <= j < i ==> entry_components(#[trigger] names@[j]@) is Ok && all@[j]@.map_values(
                    |c: String| c@,
                ) == entry_components(names@[j]@)->Ok_0,
        decreases names@.len() - i,
    {
        match safe_entry_components(names[i].as_str()) {
            Ok(cs) => {
                all.push(cs);
            },
            Err(e) => {
                return Err(e);
            },
        }
        i = i + 1;
    }
    Ok(all)
}

/// The output path of an entry under `dest`, from its validated components.
pub fn entry_target(dest: &str, components: &Vec<String>) -> (r: String)
    ensures
        r@ == join_all(dest@, components@.map_values(|c: String| c@)),
{
    let mut r = String::from_str(dest);
    let mut i: usize = 0;
    assert(components@.map_values(|c: String| c@).subrange(0, 0) =~= Seq::<Seq<char>>::empty());
    while i < components.len()
        invariant
            i <= components@.len(),
            r@ == join_all(dest@, components@.map_values(|c: String| c@).subrange(0, i as int)),
        decreases components@.len() - i,
    {
        let ghost cs = components@.map_values(|c: String| c@);
        assert(cs.subrange(0, i as int + 1).drop_last() =~= cs.subrange(0, i as int));
        r = join_path(r.as_str(), components[i].as_str());
        i = i + 1;
    }
    assert(components@.map_values(|c: String| c@).subrange(0, components@.len() as int)
        =~= components@.map_values(|c: String| c@));
    r
}

/// `dest` joined with each component in turn.
pub open spec fn join_all(dest: Seq<char>, cs: Seq<Seq<char>>) -> Seq<char>
    decreases cs.len(),
{
    if cs.len() == 0 {
        dest
    } else {
        path_join(join_all(dest, cs.drop_last()), cs.last())
    }
}


/// Appending text without separators extends the last piece.
proof fn lemma_split_append(x: Seq<char>, y: Seq<char>, sep: char)
    requires
        forall|i: int| 0 <= i < y.len() ==> y[i] != sep,
    ensures
        split_on(x + y, sep) == split_on(x, sep).update(
            split_on(x, sep).len() - 1,
            split_on(x, sep).last() + y,
        ),
    decreases y.len(),
{
    lemma_split_nonempty(x, sep);
    let p = split_on(x, sep);
    if y.len() == 0 {
        assert(x + y =~= x);
        assert(p.last() + y =~= p.last());
        assert(p.update(p.len() - 1, p.last()) =~= p);
    } else {
        let y0 = y.drop_last();
        lemma_split_append(x, y0, sep);
        assert((x + y).drop_last() =~= x + y0);
        assert((x + y).last() == y.last());
        let q = split_on(x + y0, sep);
        assert((p.last() + y0).push(y.last()) =~= p.last() + y);
        assert(q.update(q.len() - 1, q.last().push(y.last())) =~= p.update(
            p.len() - 1,
            p.last() + y,
        ));
    }
}

proof fn lemma_norm_push_clean(ps: Seq<Seq<char>>, c: Seq<char>)
    requires
        is_clean_component(c),
    ensures
        norm_parts(ps.push(c)) == norm_parts(ps).push(c),
{
    assert(ps.push(c).drop_last() =~= ps);
}

/// Joining a clean component adds it to the normalised components and keeps
/// the root.
proof fn lemma_join_clean(a: Seq<char>, c: Seq<char>)
    requires
        is_clean_component(c),
    ensures
        norm_parts(pieces(path_join(a, c))) == norm_parts(pieces(a)).push(c),
        is_rooted(path_join(a, c)) == is_rooted(a),
{
    assert forall|i: int| 0 <= i < c.len() implies c[i] != '/' by {
        assert(!is_illegal(c[i]));
    }
    assert(!is_rooted(c));
    lemma_split_nonempty(a, '/');
    if a.len() == 0 {
        assert(path_join(a, c) == a + c);
        lemma_split_append(a, c, '/');
        let p = split_on(a, '/');
        assert(p =~= seq![Seq::<char>::empty()]);
        assert(p.last() + c =~= c);
        assert(p.update(0, c) =~= Seq::<Seq<char>>::empty().push(c));
        lemma_norm_push_clean(Seq::<Seq<char>>::empty(), c);
        assert(norm_parts(p) == norm_parts(p.drop_last()));
        assert(p.drop_last() =~= Seq::<Seq<char>>::empty());
        assert((a + c)[0] == c[0]);
    } else if a.last() == '/' {
        assert(path_join(a, c) == a + c);
        lemma_split_append(a, c, '/');
        let p = split_on(a, '/');
        assert(p == split_on(a.drop_last(), '/').push(Seq::<char>::empty()));
        assert(p.last().len() == 0);
        assert(p.last() + c =~= c);
        assert(p.update(p.len() - 1, c) =~= p.drop_last().push(c));
        lemma_norm_push_clean(p.drop_last(), c);
        assert(norm_parts(p) == norm_parts(p.drop_last()));
        assert((a + c)[0] == a[0]);
    } else {
        let a1 = a + seq!['/'];
        assert(path_join(a, c) == a1 + c);
        assert(a1.drop_last() =~= a);
        assert(split_on(a1, '/') == split_on(a, '/').push(Seq::<char>::empty()));
        lemma_split_append(a1, c, '/');
        let p = split_on(a, '/');
        let p1 = p.push(Seq::<char>::empty());
        assert(p1.last() + c =~= c);
        assert(p1.update(p1.len() - 1, c) =~= p.push(c));
        lemma_norm_push_clean(p, c);
        assert((a1 + c)[0] == a[0]);
    }
}

proof fn lemma_join_all_clean(dest: Seq<char>, cs: Seq<Seq<char>>)
    requires
        forall|i: int| 0 <= i < cs.len() ==> is_clean_component(#[trigger] cs[i]),
    ensures
        norm_parts(pieces(join_all(dest, cs))) == norm_parts(pieces(dest)) + cs,
        is_rooted(join_all(dest, cs)) == is_rooted(dest),
    decreases cs.len(),
{
    if cs.len() == 0 {
        assert(norm_parts(pieces(dest)) + cs =~= norm_parts(pieces(dest)));
    } else {
        let c0 = cs.drop_last();
        assert forall|i: int| 0 <= i < c0.len() implies is_clean_component(#[trigger] c0[i]) by {
            assert(c0[i] == cs[i]);
        }
        lemma_join_all_clean(dest, c0);
        assert(is_clean_component(cs[cs.len() - 1]));
        lemma_join_clean(join_all(dest, c0), cs.last());
        assert((norm_parts(pieces(dest)) + c0).push(cs.last()) =~= norm_parts(pieces(dest))
            + cs);
    }
}

/// Every accepted archive entry lands inside the destination folder: its
/// output path, the destination joined with the entry's components, lies
/// under the destination, compared lexically. The destination is an
/// absolute path or names at least one folder.
pub proof fn lemma_extraction_stays_inside(dest: Seq<char>, name: Seq<char>)
    requires
        is_rooted(dest) || norm_parts(pieces(dest)).len() > 0,
        entry_components(name) is Ok,
    ensures
        within_dir(dest, join_all(dest, entry_components(name)->Ok_0)),
{
    let cs = entry_components(name)->Ok_0;
    lemma_traversal_rejected(name);
    lemma_join_all_clean(dest, cs);
    let n = norm_parts(pieces(dest));
    let out = join_all(dest, cs);
    assert(norm_parts(pieces(out)) == n + cs);
    assert((n + cs).len() > 0);
    assert((n + cs).subrange(0, n.len() as int) =~= n);
}

} // verus!
