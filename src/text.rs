//! Character-level helpers: conversions between `String` and `Vec<char>`,
//! whitespace and trimming as `str::trim` does it, path-component
//! sanitisation and decimal formatting.

use vstd::prelude::*;

verus! {

/// Relies on `str::chars` collected into a `Vec`: one element per character, in order.
#[verifier::external_body]
pub(crate) fn chars_of(s: &str) -> (r: Vec<char>)
    ensures
        r@ == s@,
{
    s.chars().collect()
}

/// Relies on `String: FromIterator<char>`: the string holds exactly these characters.
#[verifier::external_body]
pub(crate) fn string_of(v: &Vec<char>) -> (r: String)
    ensures
        r@ == v@,
{
    v.iter().collect()
}

/// Unicode `White_Space`, the set that `char::is_whitespace` and `str::trim` use.
pub open spec fn is_ws(c: char) -> bool {
    let u = c as u32;
    (0x9 <= u && u <= 0xd) || u == 0x20 || u == 0x85 || u == 0xa0 || u == 0x1680 || (0x2000 <= u
        && u <= 0x200a) || u == 0x2028 || u == 0x2029 || u == 0x202f || u == 0x205f || u == 0x3000
}

pub fn is_ws_exec(c: char) -> (r: bool)
    ensures
        r == is_ws(c),
{
    let u = c as u32;
    (0x9 <= u && u <= 0xd) || u == 0x20 || u == 0x85 || u == 0xa0 || u == 0x1680 || (0x2000 <= u
        && u <= 0x200a) || u == 0x2028 || u == 0x2029 || u == 0x202f || u == 0x205f || u == 0x3000
}

/// What a trim removes.
#[derive(Clone, Copy)]
pub enum TrimKind {
    Space,
    DotOrSpace,
    Bracket,
    Quote,
}

pub open spec fn trim_target(c: char, kind: TrimKind) -> bool {
    match kind {
        TrimKind::Space => is_ws(c),
        TrimKind::DotOrSpace => c == '.' || is_ws(c),
        TrimKind::Bracket => c == '[' || c == ']',
        TrimKind::Quote => c == '"',
    }
}

fn trim_target_exec(c: char, kind: TrimKind) -> (r: bool)
    ensures
        r == trim_target(c, kind),
{
    match kind {
        TrimKind::Space => is_ws_exec(c),
        TrimKind::DotOrSpace => c == '.' || is_ws_exec(c),
        TrimKind::Bracket => c == '[' || c == ']',
        TrimKind::Quote => c == '"',
    }
}

pub open spec fn trim_start(s: Seq<char>, kind: TrimKind) -> Seq<char>
    decreases s.len(),
{
    if s.len() > 0 && trim_target(s[0], kind) {
        trim_start(s.drop_first(), kind)
    } else {
        s
    }
}

pub open spec fn trim_end(s: Seq<char>, kind: TrimKind) -> Seq<char>
    decreases s.len(),
{
    if s.len() > 0 && trim_target(s.last(), kind) {
        trim_end(s.drop_last(), kind)
    } else {
        s
    }
}

/// `str::trim`, or `str::trim_matches` with the characters of `kind`.
pub open spec fn trim(s: Seq<char>, kind: TrimKind) -> Seq<char> {
    trim_end(trim_start(s, kind), kind)
}

pub proof fn lemma_trim_start_is_suffix(s: Seq<char>, kind: TrimKind)
    ensures
        exists|k: int| 0 <= k <= s.len() && trim_start(s, kind) == s.subrange(k, s.len() as int),
    decreases s.len(),
{
    if s.len() > 0 && trim_target(s[0], kind) {
        lemma_trim_start_is_suffix(s.drop_first(), kind);
        let k = choose|k: int|
            0 <= k <= s.drop_first().len() && trim_start(s.drop_first(), kind)
                == s.drop_first().subrange(k, s.drop_first().len() as int);
        assert(s.drop_first().subrange(k, s.drop_first().len() as int) =~= s.subrange(
            k + 1,
            s.len() as int,
        ));
    } else {
        assert(s.subrange(0, s.len() as int) =~= s);
    }
}

pub proof fn lemma_trim_end_is_prefix(s: Seq<char>, kind: TrimKind)
    ensures
        exists|k: int| 0 <= k <= s.len() && trim_end(s, kind) == s.subrange(0, k),
    decreases s.len(),
{
    if s.len() > 0 && trim_target(s.last(), kind) {
        lemma_trim_end_is_prefix(s.drop_last(), kind);
        let k = choose|k: int|
            0 <= k <= s.drop_last().len() && trim_end(s.drop_last(), kind)
                == s.drop_last().subrange(0, k);
        assert(s.drop_last().subrange(0, k) =~= s.subrange(0, k));
    } else {
        assert(s.subrange(0, s.len() as int) =~= s);
    }
}

/// A trim keeps a contiguous part of its input.
pub proof fn lemma_trim_is_slice(s: Seq<char>, kind: TrimKind)
    ensures
        exists|a: int, b: int| 0 <= a <= b <= s.len() && trim(s, kind) == s.subrange(a, b),
{
    lemma_trim_start_is_suffix(s, kind);
    let a = choose|a: int| 0 <= a <= s.len() && trim_start(s, kind) == s.subrange(a, s.len() as int);
    let t = trim_start(s, kind);
    lemma_trim_end_is_prefix(t, kind);
    let k = choose|k: int| 0 <= k <= t.len() && trim_end(t, kind) == t.subrange(0, k);
    assert(t.subrange(0, k) =~= s.subrange(a, a + k));
}

/// Removes the leading and trailing characters that `trim_target` selects.
pub fn trim_chars(v: &Vec<char>, kind: TrimKind) -> (r: Vec<char>)
    ensures
        r@ == trim(v@, kind),
{
    let n = v.len();
    let mut i: usize = 0;
    assert(v@.subrange(0, n as int) =~= v@);
    while i < n && trim_target_exec(v[i], kind)
        invariant
            n == v@.len(),
            i <= n,
            trim_start(v@, kind) == trim_start(v@.subrange(i as int, n as int), kind),
        decreases n - i,
    {
        assert(v@.subrange(i as int, n as int).drop_first() =~= v@.subrange(
            i as int + 1,
            n as int,
        ));
        i = i + 1;
    }
    assert(trim_start(v@, kind) == v@.subrange(i as int, n as int));
    let mut j: usize = n;
    while j > i && trim_target_exec(v[j - 1], kind)
        invariant
            n == v@.len(),
            i <= j <= n,
            trim(v@, kind) == trim_end(v@.subrange(i as int, j as int), kind),
        decreases j,
    {
        assert(v@.subrange(i as int, j as int).drop_last() =~= v@.subrange(
            i as int,
            j as int - 1,
        ));
        j = j - 1;
    }
    let mut r: Vec<char> = Vec::new();
    let mut k: usize = i;
    while k < j
        invariant
            i <= k <= j <= n,
            n == v@.len(),
            r@ == v@.subrange(i as int, k as int),
        decreases j - k,
    {
        r.push(v[k]);
        assert(r@ =~= v@.subrange(i as int, k as int + 1));
        k = k + 1;
    }
    r
}


/// Characters that cannot stand in a file or folder name on common file systems.
pub open spec fn is_illegal(c: char) -> bool {
    c == ':' || c == '*' || c == '?' || c == '"' || c == '<' || c == '>' || c == '|' || c == '\\'
        || c == '/'
}

fn is_illegal_exec(c: char) -> (r: bool)
    ensures
        r == is_illegal(c),
{
    c == ':' || c == '*' || c == '?' || c == '"' || c == '<' || c == '>' || c == '|' || c == '\\'
        || c == '/'
}

/// Longest name, in characters, that sanitisation keeps before trimming.
pub const MAX_COMPONENT_LEN: usize = 100;

pub open spec fn replace_illegal(s: Seq<char>) -> Seq<char> {
    Seq::new(s.len(), |i: int| if is_illegal(s[i]) { '_' } else { s[i] })
}

pub open spec fn truncated(s: Seq<char>, n: nat) -> Seq<char> {
    if s.len() > n {
        s.subrange(0, n as int)
    } else {
        s
    }
}

/// Illegal characters become `_`, the name is cut to `MAX_COMPONENT_LEN`
/// characters, then dots and whitespace are trimmed from both ends until
/// neither end holds one.
pub open spec fn sanitized(s: Seq<char>) -> Seq<char> {
    trim(truncated(replace_illegal(s), MAX_COMPONENT_LEN as nat), TrimKind::DotOrSpace)
}

pub fn sanitize_chars(v: &Vec<char>) -> (r: Vec<char>)
    ensures
        r@ == sanitized(v@),
{
    let mut w: Vec<char> = Vec::new();
    let mut i: usize = 0;
    while i < v.len() && i < MAX_COMPONENT_LEN
        invariant
            i <= v@.len(),
            i <= MAX_COMPONENT_LEN,
            w@ == replace_illegal(v@).subrange(0, i as int),
        decreases v@.len() - i,
    {
        let c = v[i];
        let d = if is_illegal_exec(c) {
            '_'
        } else {
            c
        };
        w.push(d);
        assert(w@ =~= replace_illegal(v@).subrange(0, i as int + 1));
        i = i + 1;
    }
    assert(w@ =~= truncated(replace_illegal(v@), MAX_COMPONENT_LEN as nat));
    trim_chars(&w, TrimKind::DotOrSpace)
}

/// Makes `name` usable as one file or folder name: see `sanitized`.
pub fn sanitize_path_component(name: &str) -> (r: String)
    ensures
        r@ == sanitized(name@),
{
    let v = chars_of(name);
    let w = sanitize_chars(&v);
    string_of(&w)
}

proof fn lemma_trim_start_edge(s: Seq<char>, kind: TrimKind)
    ensures
        trim_start(s, kind).len() > 0 ==> !trim_target(trim_start(s, kind)[0], kind),
    decreases s.len(),
{
    if s.len() > 0 && trim_target(s[0], kind) {
        lemma_trim_start_edge(s.drop_first(), kind);
    }
}

proof fn lemma_trim_end_edge(s: Seq<char>, kind: TrimKind)
    ensures
        trim_end(s, kind).len() > 0 ==> !trim_target(trim_end(s, kind).last(), kind),
        trim_end(s, kind).len() > 0 && s.len() > 0 ==> trim_end(s, kind)[0] == s[0],
    decreases s.len(),
{
    if s.len() > 0 && trim_target(s.last(), kind) {
        lemma_trim_end_edge(s.drop_last(), kind);
    }
}

/// A trim leaves no selected character at either end.
pub proof fn lemma_trim_edges(s: Seq<char>, kind: TrimKind)
    ensures
        trim(s, kind).len() > 0 ==> !trim_target(trim(s, kind)[0], kind) && !trim_target(
            trim(s, kind).last(),
            kind,
        ),
{
    lemma_trim_start_edge(s, kind);
    lemma_trim_end_edge(trim_start(s, kind), kind);
}

/// A sanitised name holds no illegal character, is at most
/// `MAX_COMPONENT_LEN` characters long, and neither starts nor ends with a
/// dot or whitespace, whatever the input.
pub proof fn lemma_sanitized_is_clean(s: Seq<char>)
    ensures
        sanitized(s).len() <= MAX_COMPONENT_LEN,
        forall|i: int| 0 <= i < sanitized(s).len() ==> !is_illegal(#[trigger] sanitized(s)[i]),
        sanitized(s).len() > 0 ==> sanitized(s)[0] != '.' && !is_ws(sanitized(s)[0])
            && sanitized(s).last() != '.' && !is_ws(sanitized(s).last()),
{
    let t0 = truncated(replace_illegal(s), MAX_COMPONENT_LEN as nat);
    assert forall|i: int| 0 <= i < t0.len() implies !is_illegal(#[trigger] t0[i]) by {}
    let t1 = trim(t0, TrimKind::DotOrSpace);
    lemma_trim_is_slice(t0, TrimKind::DotOrSpace);
    lemma_trim_edges(t0, TrimKind::DotOrSpace);
    assert forall|i: int| 0 <= i < t1.len() implies !is_illegal(#[trigger] t1[i]) by {
        let (a, b) = choose|a: int, b: int| 0 <= a <= b <= t0.len() && t1 == t0.subrange(a, b);
        assert(t1[i] == t0[a + i]);
    }
}


pub open spec fn digit_char(d: nat) -> char {
    ((48 + d) as u8) as char
}

/// Decimal digits of `n`, most significant first, without leading zeros.
pub open spec fn dec_nat(n: nat) -> Seq<char>
    decreases n,
{
    if n < 10 {
        seq![digit_char(n)]
    } else {
        dec_nat(n / 10).push(digit_char(n % 10))
    }
}

/// `i32`'s `Display`: a minus sign before negative numbers.
pub open spec fn dec_int(i: int) -> Seq<char> {
    if i < 0 {
        seq!['-'] + dec_nat((-i) as nat)
    } else {
        dec_nat(i as nat)
    }
}

pub fn push_dec(n: u64, out: &mut Vec<char>)
    ensures
        final(out)@ == old(out)@ + dec_nat(n as nat),
    decreases n,
{
    if n >= 10 {
        push_dec(n / 10, out);
    }
    let d = (n % 10) as u8;
    out.push((48u8 + d) as char);
    assert(dec_nat(n as nat) == if n < 10 {
        seq![digit_char(n as nat)]
    } else {
        dec_nat((n / 10) as nat).push(digit_char((n % 10) as nat))
    });
}

/// Appends the decimal form of `i` to `out`.
pub fn push_int(i: i32, out: &mut Vec<char>)
    ensures
        final(out)@ == old(out)@ + dec_int(i as int),
{
    if i < 0 {
        out.push('-');
        let m = (0 - (i as i64)) as u64;
        push_dec(m, out);
    } else {
        push_dec(i as u64, out);
    }
}

/// What `str::to_lowercase` returns for these characters.
pub uninterp spec fn lower_of(s: Seq<char>) -> Seq<char>;

/// Relies on `str::to_lowercase`: the Unicode lower-case mapping, which
/// depends on the characters alone.
#[verifier::external_body]
pub(crate) fn lowercase(s: &str) -> (r: String)
    ensures
        r@ == lower_of(s@),
{
    s.to_lowercase()
}

pub open spec fn ends_with(s: Seq<char>, suffix: Seq<char>) -> bool {
    suffix.len() <= s.len() && s.subrange(s.len() - suffix.len(), s.len() as int) == suffix
}

pub open spec fn starts_with(s: Seq<char>, prefix: Seq<char>) -> bool {
    prefix.len() <= s.len() && s.subrange(0, prefix.len() as int) == prefix
}

/// `t` occurs in `s` at position `i`.
pub open spec fn occurs_at(s: Seq<char>, t: Seq<char>, i: int) -> bool {
    0 <= i && i + t.len() <= s.len() && s.subrange(i, i + t.len()) == t
}

pub open spec fn contains_seq(s: Seq<char>, t: Seq<char>) -> bool {
    exists|i: int| occurs_at(s, t, i)
}

pub fn occurs_at_exec(s: &Vec<char>, t: &Vec<char>, i: usize) -> (r: bool)
    ensures
        r == occurs_at(s@, t@, i as int),
{
    if i > s.len() || t.len() > s.len() - i {
        return false;
    }
    let mut k: usize = 0;
    while k < t.len()
        invariant
            i + t@.len() <= s@.len(),
            s@.len() <= usize::MAX,
            k <= t@.len(),
            forall|m: int| 0 <= m < k ==> s@[i + m] == t@[m],
        decreases t@.len() - k,
    {
        if s[i + k] != t[k] {
            assert(s@.subrange(i as int, i + t@.len())[k as int] != t@[k as int]);
            return false;
        }
        k = k + 1;
    }
    assert(s@.subrange(i as int, i + t@.len()) =~= t@);
    true
}

pub fn ends_with_exec(s: &Vec<char>, suffix: &Vec<char>) -> (r: bool)
    ensures
        r == ends_with(s@, suffix@),
{
    if suffix.len() > s.len() {
        return false;
    }
    occurs_at_exec(s, suffix, s.len() - suffix.len())
}

pub fn starts_with_exec(s: &Vec<char>, prefix: &Vec<char>) -> (r: bool)
    ensures
        r == starts_with(s@, prefix@),
{
    occurs_at_exec(s, prefix, 0)
}

pub fn contains_exec(s: &Vec<char>, t: &Vec<char>) -> (r: bool)
    ensures
        r == contains_seq(s@, t@),
{
    if t.len() > s.len() {
        assert forall|i: int| !occurs_at(s@, t@, i) by {}
        return false;
    }
    let last = s.len() - t.len();
    let mut i: usize = 0;
    while i < last
        invariant
            last == s@.len() - t@.len(),
            i <= last,
            forall|j: int| 0 <= j < i ==> !occurs_at(s@, t@, j),
        decreases last - i,
    {
        if occurs_at_exec(s, t, i) {
            return true;
        }
        i = i + 1;
    }
    if occurs_at_exec(s, t, last) {
        return true;
    }
    assert forall|j: int| !occurs_at(s@, t@, j) by {
        if 0 <= j < i {
        }
    }
    false
}

/// `s` contains the text `t`.
pub fn str_contains(s: &str, t: &str) -> (r: bool)
    ensures
        r == contains_seq(s@, t@),
{
    contains_exec(&chars_of(s), &chars_of(t))
}


/// The pieces of `s` between occurrences of `sep`, empty ones included.
pub open spec fn split_on(s: Seq<char>, sep: char) -> Seq<Seq<char>>
    decreases s.len(),
{
    if s.len() == 0 {
        seq![Seq::<char>::empty()]
    } else {
        let p = split_on(s.drop_last(), sep);
        if s.last() == sep {
            p.push(Seq::<char>::empty())
        } else {
            p.update(p.len() - 1, p.last().push(s.last()))
        }
    }
}

pub proof fn lemma_split_nonempty(s: Seq<char>, sep: char)
    ensures
        split_on(s, sep).len() >= 1,
    decreases s.len(),
{
    if s.len() > 0 {
        lemma_split_nonempty(s.drop_last(), sep);
    }
}

pub open spec fn view_all(v: Seq<Vec<char>>) -> Seq<Seq<char>> {
    v.map_values(|p: Vec<char>| p@)
}

pub fn split_chars(v: &Vec<char>, sep: char) -> (r: Vec<Vec<char>>)
    ensures
        view_all(r@) == split_on(v@, sep),
{
    let mut r: Vec<Vec<char>> = Vec::new();
    let mut cur: Vec<char> = Vec::new();
    let mut i: usize = 0;
    assert(v@.subrange(0, 0) =~= Seq::<char>::empty());
    while i < v.len()
        invariant
            i <= v@.len(),
            view_all(r@).push(cur@) == split_on(v@.subrange(0, i as int), sep),
        decreases v@.len() - i,
    {
        let c = v[i];
        let ghost before = v@.subrange(0, i as int);
        assert(v@.subrange(0, i as int + 1).drop_last() =~= before);
        if c == sep {
            let ghost r0 = r@;
            let ghost d = cur@;
            r.push(cur);
            cur = Vec::new();
            assert(view_all(r@) =~= view_all(r0).push(d));
            assert(view_all(r@).push(cur@) =~= split_on(before, sep).push(Seq::<char>::empty()));
        } else {
            cur.push(c);
            let ghost p = split_on(before, sep);
            assert(view_all(r@).push(cur@) =~= p.update(p.len() - 1, p.last().push(c)));
        }
        i = i + 1;
    }
    assert(v@.subrange(0, v@.len() as int) =~= v@);
    let ghost r0 = r@;
    let ghost d = cur@;
    r.push(cur);
    assert(view_all(r@) =~= view_all(r0).push(d));
    r
}


/// A copy of `v[a..b]`.
pub fn sub_chars(v: &Vec<char>, a: usize, b: usize) -> (r: Vec<char>)
    requires
        a <= b <= v@.len(),
    ensures
        r@ == v@.subrange(a as int, b as int),
{
    let mut r: Vec<char> = Vec::new();
    let mut k: usize = a;
    while k < b
        invariant
            a <= k <= b <= v@.len(),
            r@ == v@.subrange(a as int, k as int),
        decreases b - k,
    {
        r.push(v[k]);
        assert(r@ =~= v@.subrange(a as int, k as int + 1));
        k = k + 1;
    }
    r
}

/// Removes the leading characters that `trim_target` selects.
pub fn trim_start_chars(v: &Vec<char>, kind: TrimKind) -> (r: Vec<char>)
    ensures
        r@ == trim_start(v@, kind),
{
    let n = v.len();
    let mut i: usize = 0;
    assert(v@.subrange(0, n as int) =~= v@);
    while i < n && trim_target_exec(v[i], kind)
        invariant
            n == v@.len(),
            i <= n,
            trim_start(v@, kind) == trim_start(v@.subrange(i as int, n as int), kind),
        decreases n - i,
    {
        assert(v@.subrange(i as int, n as int).drop_first() =~= v@.subrange(
            i as int + 1,
            n as int,
        ));
        i = i + 1;
    }
    sub_chars(v, i, n)
}


/// The two texts hold the same characters.
pub fn str_eq(a: &str, b: &str) -> (r: bool)
    ensures
        r == (a@ == b@),
{
    crate::paths::chars_eq(&chars_of(a), &chars_of(b))
}


} // verus!
