//! Character-level text operations on which the formatting and parsing code rests.
//!
//! Every operation is specified over `Seq<char>`, the view of a `str` or a `String`.
use vstd::prelude::*;
use vstd::string::StringExecFns;

verus! {

broadcast use vstd::string::group_string_axioms;

// ---------------------------------------------------------------------------
// Building strings
// ---------------------------------------------------------------------------

/// The views of a sequence of strings.
pub open spec fn views(v: Seq<String>) -> Seq<Seq<char>> {
    Seq::new(v.len(), |i: int| v[i]@)
}

/// Appends one character to a `String` (`String::push`).
#[verifier::external_body]
pub(crate) fn push_char(s: &mut String, c: char)
    ensures
        final(s)@ == old(s)@.push(c),
{
    s.push(c);
}

/// Appends a string slice to a `String`.
pub(crate) fn push_str(s: &mut String, t: &str)
    ensures
        final(s)@ == old(s)@ + t@,
{
    s.append(t);
}

/// Copies a string slice into an owned `String`.
pub(crate) fn to_owned_string(s: &str) -> (r: String)
    ensures
        r@ == s@,
{
    s.to_owned()
}

/// The characters of a string slice, in order.
pub fn chars_of(s: &str) -> (v: Vec<char>)
    ensures
        v@ == s@,
{
    let mut v: Vec<char> = Vec::new();
    for c in it: s.chars()
        invariant
            it.seq() == s@,
            v@ == s@.take(it.index()),
    {
        v.push(c);
        assert(s@.take(it.index() + 1) == s@.take(it.index()).push(c));
    }
    assert(s@.take(s@.len() as int) == s@);
    v
}

/// The string made of the characters `v[from..to]`.
pub fn string_from_range(v: &Vec<char>, from: usize, to: usize) -> (r: String)
    requires
        from <= to <= v.len(),
    ensures
        r@ == v@.subrange(from as int, to as int),
{
    let mut r = String::new();
    let mut i = from;
    while i < to
        invariant
            from <= i <= to <= v.len(),
            r@ == v@.subrange(from as int, i as int),
        decreases to - i,
    {
        push_char(&mut r, v[i]);
        assert(v@.subrange(from as int, i + 1) == v@.subrange(from as int, i as int).push(v@[i as int]));
        i += 1;
    }
    r
}

/// The string made of all the characters of `v`.
pub fn string_from_chars(v: &Vec<char>) -> (r: String)
    ensures
        r@ == v@,
{
    let r = string_from_range(v, 0, v.len());
    assert(v@.subrange(0, v@.len() as int) == v@);
    r
}

/// Copies a `String`.
pub fn copy_string(s: &String) -> (r: String)
    ensures
        r@ == s@,
{
    s.clone()
}

/// Copies an optional `String`.
pub fn copy_opt_string(s: &Option<String>) -> (r: Option<String>)
    ensures
        opt_view(r) == opt_view(*s),
{
    match s {
        Some(x) => Some(x.clone()),
        None => None,
    }
}

/// The view of an optional string.
pub open spec fn opt_view(o: Option<String>) -> Option<Seq<char>> {
    match o {
        Some(s) => Some(s@),
        None => None,
    }
}

/// The view of an optional string slice.
pub open spec fn opt_str_view(o: Option<&str>) -> Option<Seq<char>> {
    match o {
        Some(s) => Some(s@),
        None => None,
    }
}

/// `o.unwrap_or_default()` on an optional string, as a sequence of characters.
pub open spec fn or_empty(o: Option<Seq<char>>) -> Seq<char> {
    match o {
        Some(s) => s,
        None => Seq::empty(),
    }
}

/// `o.clone().unwrap_or_default()`.
pub fn opt_or_empty(o: &Option<String>) -> (r: String)
    ensures
        r@ == or_empty(opt_view(*o)),
{
    match o {
        Some(x) => x.clone(),
        None => String::new(),
    }
}

// ---------------------------------------------------------------------------
// Comparisons
// ---------------------------------------------------------------------------

/// Equality of two string slices.
pub fn str_eq(a: &str, b: &str) -> (r: bool)
    ensures
        r == (a@ == b@),
{
    let va = chars_of(a);
    let vb = chars_of(b);
    if va.len() != vb.len() {
        return false;
    }
    let mut i: usize = 0;
    while i < va.len()
        invariant
            va@ == a@,
            vb@ == b@,
            va.len() == vb.len(),
            i <= va.len(),
            forall|j: int| 0 <= j < i ==> va@[j] == vb@[j],
        decreases va.len() - i,
    {
        if va[i] != vb[i] {
            return false;
        }
        i += 1;
    }
    assert(va@ =~= vb@);
    true
}

/// `s` begins with `p`.
pub open spec fn starts_with(s: Seq<char>, p: Seq<char>) -> bool {
    p.len() <= s.len() && s.subrange(0, p.len() as int) == p
}

/// `s` ends with `p`.
pub open spec fn ends_with(s: Seq<char>, p: Seq<char>) -> bool {
    p.len() <= s.len() && s.subrange(s.len() - p.len(), s.len() as int) == p
}

/// `p` occurs in `s` at position `i`.
pub open spec fn occurs_at(s: Seq<char>, p: Seq<char>, i: int) -> bool {
    0 <= i && i + p.len() <= s.len() && s.subrange(i, i + p.len()) == p
}

/// `p` occurs somewhere in `s`.
pub open spec fn contains(s: Seq<char>, p: Seq<char>) -> bool {
    exists|i: int| occurs_at(s, p, i)
}

fn matches_at(v: &Vec<char>, p: &Vec<char>, i: usize) -> (r: bool)
    requires
        i + p.len() <= v.len(),
    ensures
        r == (v@.subrange(i as int, i + p.len()) == p@),
{
    let mut k: usize = 0;
    while k < p.len()
        invariant
            i + p.len() <= v.len(),
            k <= p.len(),
            forall|j: int| 0 <= j < k ==> v@[i + j] == p@[j],
        decreases p.len() - k,
    {
        if v[i + k] != p[k] {
            assert(v@.subrange(i as int, i + p.len())[k as int] != p@[k as int]);
            return false;
        }
        k += 1;
    }
    assert(v@.subrange(i as int, i + p.len()) =~= p@);
    true
}

/// `str::starts_with` with a string pattern.
pub fn str_starts_with(s: &str, p: &str) -> (r: bool)
    ensures
        r == starts_with(s@, p@),
{
    let v = chars_of(s);
    let pv = chars_of(p);
    if pv.len() > v.len() {
        return false;
    }
    matches_at(&v, &pv, 0)
}

/// `str::ends_with` with a string pattern.
pub fn str_ends_with(s: &str, p: &str) -> (r: bool)
    ensures
        r == ends_with(s@, p@),
{
    let v = chars_of(s);
    let pv = chars_of(p);
    if pv.len() > v.len() {
        return false;
    }
    matches_at(&v, &pv, v.len() - pv.len())
}

/// `str::contains` with a string pattern.
pub fn str_contains(s: &str, p: &str) -> (r: bool)
    ensures
        r == contains(s@, p@),
{
    let v = chars_of(s);
    let pv = chars_of(p);
    if pv.len() > v.len() {
        assert forall|i: int| !occurs_at(s@, p@, i) by {}
        return false;
    }
    if pv.len() == 0 {
        assert(s@.subrange(0, 0) =~= p@);
        assert(occurs_at(s@, p@, 0));
        return true;
    }
    let positions = v.len() - pv.len() + 1;
    let mut i: usize = 0;
    while i < positions
        invariant
            v@ == s@,
            pv@ == p@,
            1 <= pv.len() <= v.len(),
            positions == v.len() - pv.len() + 1,
            i <= positions,
            forall|j: int| 0 <= j < i ==> !occurs_at(s@, p@, j),
        decreases positions - i,
    {
        if matches_at(&v, &pv, i) {
            assert(occurs_at(s@, p@, i as int));
            return true;
        }
        i += 1;
    }
    assert forall|j: int| !occurs_at(s@, p@, j) by {
        if 0 <= j && j + p@.len() <= s@.len() {
            assert(j < i);
        }
    }
    false
}

// ---------------------------------------------------------------------------
// Whitespace and trimming
// ---------------------------------------------------------------------------

/// The Unicode `White_Space` property, which `char::is_whitespace` tests.
pub open spec fn is_ws(c: char) -> bool {
    let u = c as u32;
    ||| 0x9 <= u <= 0xD
    ||| u == 0x20
    ||| u == 0x85
    ||| u == 0xA0
    ||| u == 0x1680
    ||| 0x2000 <= u <= 0x200A
    ||| u == 0x2028
    ||| u == 0x2029
    ||| u == 0x202F
    ||| u == 0x205F
    ||| u == 0x3000
}

/// `char::is_whitespace`.
pub fn is_whitespace(c: char) -> (r: bool)
    ensures
        r == is_ws(c),
{
    let u = c as u32;
    (0x9 <= u && u <= 0xD) || u == 0x20 || u == 0x85 || u == 0xA0 || u == 0x1680 || (0x2000 <= u
        && u <= 0x200A) || u == 0x2028 || u == 0x2029 || u == 0x202F || u == 0x205F || u == 0x3000
}

/// `s` with its leading whitespace removed.
pub open spec fn trim_start(s: Seq<char>) -> Seq<char>
    decreases s.len(),
{
    if s.len() > 0 && is_ws(s[0]) {
        trim_start(s.drop_first())
    } else {
        s
    }
}

/// `s` with its trailing whitespace removed.
pub open spec fn trim_end(s: Seq<char>) -> Seq<char>
    decreases s.len(),
{
    if s.len() > 0 && is_ws(s.last()) {
        trim_end(s.drop_last())
    } else {
        s
    }
}

/// `str::trim`: `s` without leading and trailing whitespace.
pub open spec fn trim(s: Seq<char>) -> Seq<char> {
    trim_end(trim_start(s))
}

/// The bounds `[i, j)` of the trimmed part of `v`.
fn trim_bounds(v: &Vec<char>) -> (r: (usize, usize))
    ensures
        r.0 <= r.1 <= v.len(),
        v@.subrange(r.0 as int, r.1 as int) == trim(v@),
{
    let n = v.len();
    let mut i: usize = 0;
    assert(v@.subrange(0, n as int) == v@);
    while i < n && is_whitespace(v[i])
        invariant
            n == v.len(),
            i <= n,
            trim_start(v@) == trim_start(v@.subrange(i as int, n as int)),
        decreases n - i,
    {
        assert(v@.subrange(i as int, n as int).drop_first() == v@.subrange(i + 1, n as int));
        i += 1;
    }
    assert(trim_start(v@) == v@.subrange(i as int, n as int));
    let mut j: usize = n;
    while j > i && is_whitespace(v[j - 1])
        invariant
            n == v.len(),
            i <= j <= n,
            trim_start(v@) == v@.subrange(i as int, n as int),
            trim_end(v@.subrange(i as int, n as int)) == trim_end(v@.subrange(i as int, j as int)),
        decreases j,
    {
        assert(v@.subrange(i as int, j as int).drop_last() == v@.subrange(i as int, j - 1));
        j -= 1;
    }
    (i, j)
}

/// `str::trim`.
pub fn trim_str(s: &str) -> (r: String)
    ensures
        r@ == trim(s@),
{
    let v = chars_of(s);
    let (i, j) = trim_bounds(&v);
    string_from_range(&v, i, j)
}

// ---------------------------------------------------------------------------
// Splitting and joining
// ---------------------------------------------------------------------------

/// `str::split(sep)` with a character separator: the pieces between the
/// occurrences of `sep`. There is always at least one piece.
pub open spec fn split_on(s: Seq<char>, sep: char) -> Seq<Seq<char>>
    decreases s.len(),
{
    if s.len() == 0 {
        seq![Seq::empty()]
    } else {
        let p = split_on(s.drop_last(), sep);
        if s.last() == sep {
            p.push(Seq::empty())
        } else {
            p.update(p.len() - 1, p.last().push(s.last()))
        }
    }
}

/// `split_on` always yields at least one piece.
pub proof fn lemma_split_on_nonempty(s: Seq<char>, sep: char)
    ensures
        split_on(s, sep).len() >= 1,
    decreases s.len(),
{
    if s.len() > 0 {
        lemma_split_on_nonempty(s.drop_last(), sep);
    }
}

/// `str::split` with a character separator.
pub fn split_char(s: &str, sep: char) -> (r: Vec<String>)
    ensures
        views(r@) == split_on(s@, sep),
{
    let v = chars_of(s);
    let mut pieces: Vec<String> = Vec::new();
    let mut cur = String::new();
    let mut k: usize = 0;
    assert(v@.take(0) =~= Seq::<char>::empty());
    assert(views(pieces@).push(cur@) =~= split_on(v@.take(0), sep));
    while k < v.len()
        invariant
            v@ == s@,
            k <= v.len(),
            views(pieces@).push(cur@) == split_on(v@.take(k as int), sep),
        decreases v.len() - k,
    {
        let c = v[k];
        assert(v@.take(k + 1).drop_last() =~= v@.take(k as int));
        assert(v@.take(k + 1).last() == c);
        let ghost before = split_on(v@.take(k as int), sep);
        if c == sep {
            let done = cur;
            pieces.push(done);
            cur = String::new();
            assert(views(pieces@).push(cur@) =~= before.push(Seq::empty()));
        } else {
            push_char(&mut cur, c);
            assert(views(pieces@).push(cur@) =~= before.update(before.len() - 1, before.last().push(c)));
        }
        k += 1;
    }
    assert(v@.take(v.len() as int) =~= v@);
    pieces.push(cur);
    pieces
}

/// `str::split_whitespace`: the maximal runs of non-whitespace characters.
pub open spec fn words(s: Seq<char>) -> Seq<Seq<char>>
    decreases s.len(),
{
    if s.len() == 0 {
        Seq::empty()
    } else {
        let w = words(s.drop_last());
        let c = s.last();
        if is_ws(c) {
            w
        } else if s.len() >= 2 && !is_ws(s[s.len() - 2]) {
            w.update(w.len() - 1, w.last().push(c))
        } else {
            w.push(seq![c])
        }
    }
}

/// `str::split_whitespace`.
pub fn split_words(s: &str) -> (r: Vec<String>)
    ensures
        views(r@) == words(s@),
{
    let v = chars_of(s);
    let mut done: Vec<String> = Vec::new();
    let mut cur = String::new();
    let mut in_word = false;
    let mut k: usize = 0;
    assert(v@.take(0) =~= Seq::<char>::empty());
    while k < v.len()
        invariant
            v@ == s@,
            k <= v.len(),
            in_word == (k > 0 && !is_ws(v@[k - 1])),
            in_word ==> views(done@).push(cur@) == words(v@.take(k as int)),
            !in_word ==> views(done@) == words(v@.take(k as int)),
        decreases v.len() - k,
    {
        let c = v[k];
        let ghost t = v@.take(k + 1);
        assert(t.drop_last() =~= v@.take(k as int));
        assert(t.last() == c);
        assert(k >= 1 ==> t[t.len() - 2] == v@[k - 1]);
        let ghost before = words(v@.take(k as int));
        if is_whitespace(c) {
            if in_word {
                let w = cur;
                done.push(w);
                cur = String::new();
            }
            in_word = false;
        } else if in_word {
            push_char(&mut cur, c);
            assert(views(done@).push(cur@) =~= before.update(before.len() - 1, before.last().push(c)));
        } else {
            cur = String::new();
            push_char(&mut cur, c);
            assert(cur@ =~= seq![c]);
            assert(views(done@).push(cur@) =~= before.push(seq![c]));
            in_word = true;
        }
        k += 1;
    }
    assert(v@.take(v.len() as int) =~= v@);
    if in_word {
        done.push(cur);
    }
    done
}

/// `[T]::join(sep)` for strings.
pub open spec fn join(pieces: Seq<Seq<char>>, sep: Seq<char>) -> Seq<char>
    decreases pieces.len(),
{
    if pieces.len() == 0 {
        Seq::empty()
    } else if pieces.len() == 1 {
        pieces[0]
    } else {
        join(pieces.drop_last(), sep) + sep + pieces.last()
    }
}

/// Joins `v[..n]` with `sep` between consecutive pieces.
pub fn join_prefix(v: &Vec<String>, n: usize, sep: &str) -> (r: String)
    requires
        n <= v.len(),
    ensures
        r@ == join(views(v@).take(n as int), sep@),
{
    let mut r = String::new();
    let mut i: usize = 0;
    assert(views(v@).take(0) =~= Seq::<Seq<char>>::empty());
    while i < n
        invariant
            n <= v.len(),
            i <= n,
            r@ == join(views(v@).take(i as int), sep@),
        decreases n - i,
    {
        let ghost t = views(v@).take(i + 1);
        assert(t.drop_last() =~= views(v@).take(i as int));
        if i > 0 {
            push_str(&mut r, sep);
        }
        push_str(&mut r, v[i].as_str());
        if i == 0 {
            assert(r@ =~= t[0]);
        }
        i += 1;
    }
    r
}

/// `[T]::join(sep)` for strings.
pub fn join_all(v: &Vec<String>, sep: &str) -> (r: String)
    ensures
        r@ == join(views(v@), sep@),
{
    let r = join_prefix(v, v.len(), sep);
    assert(views(v@).take(v.len() as int) =~= views(v@));
    r
}

/// The first character of each piece that has one, in order.
pub open spec fn initials(ws: Seq<Seq<char>>) -> Seq<char>
    decreases ws.len(),
{
    if ws.len() == 0 {
        Seq::empty()
    } else {
        initials(ws.drop_last()) + (if ws.last().len() > 0 {
            seq![ws.last()[0]]
        } else {
            Seq::empty()
        })
    }
}

/// The first character of each of `v[..n]`, skipping empty pieces.
pub fn initials_of(v: &Vec<String>, n: usize) -> (r: String)
    requires
        n <= v.len(),
    ensures
        r@ == initials(views(v@).take(n as int)),
{
    let mut r = String::new();
    let mut i: usize = 0;
    assert(views(v@).take(0) =~= Seq::<Seq<char>>::empty());
    while i < n
        invariant
            n <= v.len(),
            i <= n,
            r@ == initials(views(v@).take(i as int)),
        decreases n - i,
    {
        let ghost t = views(v@).take(i + 1);
        assert(t.drop_last() =~= views(v@).take(i as int));
        let w = chars_of(v[i].as_str());
        if w.len() > 0 {
            push_char(&mut r, w[0]);
            assert(r@ =~= initials(t));
        } else {
            assert(r@ =~= initials(t));
        }
        i += 1;
    }
    r
}

// ---------------------------------------------------------------------------
// UTF-8 byte lengths
// ---------------------------------------------------------------------------

/// The number of bytes of the UTF-8 encoding of `c`.
pub open spec fn char_utf8_len(c: char) -> nat {
    let u = c as u32;
    if u <= 0x7F {
        1
    } else if u <= 0x7FF {
        2
    } else if u <= 0xFFFF {
        3
    } else {
        4
    }
}

/// The number of bytes of the UTF-8 encoding of `s`, which `str::len` returns.
pub open spec fn utf8_len(s: Seq<char>) -> nat
    decreases s.len(),
{
    if s.len() == 0 {
        0
    } else {
        char_utf8_len(s[0]) + utf8_len(s.drop_first())
    }
}

/// The longest prefix of `s` whose encoding takes at most `n` bytes.
pub open spec fn byte_prefix(s: Seq<char>, n: int) -> Seq<char>
    decreases s.len(),
{
    if s.len() == 0 || char_utf8_len(s[0]) > n {
        Seq::empty()
    } else {
        seq![s[0]] + byte_prefix(s.drop_first(), n - char_utf8_len(s[0]))
    }
}

/// Byte offset `n` falls on a character boundary of `s`, so that `&s[..n]` does not panic.
pub open spec fn is_boundary(s: Seq<char>, n: int) -> bool {
    utf8_len(byte_prefix(s, n)) == n
}

proof fn lemma_encode_len(s: Seq<char>)
    ensures
        vstd::utf8::encode_utf8(s).len() == utf8_len(s),
    decreases s.len(),
{
    broadcast use vstd::utf8::char_is_scalar;

    if s.len() > 0 {
        lemma_encode_len(s.drop_first());
        let c = s[0];
        vstd::utf8::char_is_scalar(c);
        assert(vstd::utf8::encode_scalar(c as u32).len() == char_utf8_len(c));
    }
}

/// The UTF-8 length in bytes of `s` (`str::len`).
pub fn byte_len(s: &str) -> (r: usize)
    ensures
        r == utf8_len(s@),
{
    proof {
        lemma_encode_len(s@);
    }
    let b = s.as_bytes();
    b.len()
}

/// The number of bytes of the UTF-8 encoding of `c` (`char::len_utf8`).
pub fn char_byte_len(c: char) -> (r: usize)
    ensures
        r == char_utf8_len(c),
{
    let u = c as u32;
    if u <= 0x7F {
        1
    } else if u <= 0x7FF {
        2
    } else if u <= 0xFFFF {
        3
    } else {
        4
    }
}

proof fn lemma_byte_prefix_step(s: Seq<char>, k: int, n: int, used: int)
    requires
        0 <= k < s.len(),
        used + char_utf8_len(s[k]) <= n,
        byte_prefix(s, n) == s.take(k) + byte_prefix(s.skip(k), n - used),
    ensures
        byte_prefix(s, n) == s.take(k + 1) + byte_prefix(s.skip(k + 1), n - used - char_utf8_len(s[k])),
{
    let t = s.skip(k);
    assert(t[0] == s[k]);
    assert(t.drop_first() =~= s.skip(k + 1));
    assert(s.take(k + 1) =~= s.take(k) + seq![s[k]]);
}

proof fn lemma_utf8_len_single(c: char)
    ensures
        utf8_len(seq![c]) == char_utf8_len(c),
{
    let one = seq![c];
    assert(one.drop_first() =~= Seq::<char>::empty());
    assert(utf8_len(one.drop_first()) == 0);
}

proof fn lemma_utf8_len_append(a: Seq<char>, b: Seq<char>)
    ensures
        utf8_len(a + b) == utf8_len(a) + utf8_len(b),
    decreases a.len(),
{
    if a.len() > 0 {
        assert((a + b).drop_first() =~= a.drop_first() + b);
        lemma_utf8_len_append(a.drop_first(), b);
    } else {
        assert(a + b =~= b);
    }
}

/// The characters of `&s[..n]`: the longest prefix of `s` that fits in `n` bytes,
/// together with its length in bytes.
pub fn prefix_within_bytes(s: &str, n: usize) -> (r: (String, usize))
    ensures
        r.0@ == byte_prefix(s@, n as int),
        r.1 == utf8_len(r.0@),
{
    let v = chars_of(s);
    let mut used: usize = 0;
    let mut k: usize = 0;
    assert(s@.skip(0) =~= s@);
    assert(s@.take(0) =~= Seq::<char>::empty());
    while k < v.len() && char_byte_len(v[k]) <= n - used
        invariant
            v@ == s@,
            k <= v.len(),
            used <= n,
            byte_prefix(s@, n as int) == s@.take(k as int) + byte_prefix(s@.skip(k as int), n - used),
            used == utf8_len(s@.take(k as int)),
        decreases v.len() - k,
    {
        let cl = char_byte_len(v[k]);
        proof {
            lemma_byte_prefix_step(s@, k as int, n as int, used as int);
            assert(s@.take(k + 1) =~= s@.take(k as int) + seq![s@[k as int]]);
            lemma_utf8_len_append(s@.take(k as int), seq![s@[k as int]]);
            lemma_utf8_len_single(s@[k as int]);
        }
        used = used + cl;
        k += 1;
    }
    proof {
        let t = s@.skip(k as int);
        if k < v.len() {
            assert(t[0] == s@[k as int]);
        }
        assert(byte_prefix(t, n - used) =~= Seq::<char>::empty());
        assert(s@.take(k as int) + Seq::<char>::empty() =~= s@.take(k as int));
    }
    (string_from_range(&v, 0, k), used)
}

// ---------------------------------------------------------------------------
// Replacing
// ---------------------------------------------------------------------------

/// `s` with every occurrence of the character `c` replaced by `with`.
pub open spec fn replace_char(s: Seq<char>, c: char, with: Seq<char>) -> Seq<char>
    decreases s.len(),
{
    if s.len() == 0 {
        Seq::empty()
    } else {
        replace_char(s.drop_last(), c, with) + (if s.last() == c {
            with
        } else {
            seq![s.last()]
        })
    }
}

/// `str::replace` with a character pattern.
pub fn replace_char_str(s: &str, c: char, with: &str) -> (r: String)
    ensures
        r@ == replace_char(s@, c, with@),
{
    let v = chars_of(s);
    let mut r = String::new();
    let mut k: usize = 0;
    assert(v@.take(0) =~= Seq::<char>::empty());
    while k < v.len()
        invariant
            v@ == s@,
            k <= v.len(),
            r@ == replace_char(v@.take(k as int), c, with@),
        decreases v.len() - k,
    {
        let ghost t = v@.take(k + 1);
        assert(t.drop_last() =~= v@.take(k as int));
        if v[k] == c {
            push_str(&mut r, with);
        } else {
            push_char(&mut r, v[k]);
        }
        k += 1;
    }
    assert(v@.take(v.len() as int) =~= v@);
    r
}

/// `str::replace` with a non-empty string pattern: the occurrences of `pat` are
/// found from left to right without overlapping and each is replaced by `with`.
pub open spec fn replace_str(s: Seq<char>, pat: Seq<char>, with: Seq<char>) -> Seq<char>
    recommends
        pat.len() > 0,
    decreases s.len(),
{
    if s.len() == 0 || pat.len() == 0 {
        s
    } else if starts_with(s, pat) {
        with + replace_str(s.skip(pat.len() as int), pat, with)
    } else {
        seq![s[0]] + replace_str(s.drop_first(), pat, with)
    }
}

/// `str::replace` with a non-empty string pattern.
pub fn replace_str_str(s: &str, pat: &str, with: &str) -> (r: String)
    requires
        pat@.len() > 0,
    ensures
        r@ == replace_str(s@, pat@, with@),
{
    let v = chars_of(s);
    let pv = chars_of(pat);
    let mut r = String::new();
    let mut i: usize = 0;
    assert(v@.skip(0) =~= v@);
    while i < v.len()
        invariant
            v@ == s@,
            pv@ == pat@,
            pv.len() > 0,
            i <= v.len(),
            replace_str(s@, pat@, with@) == r@ + replace_str(v@.skip(i as int), pat@, with@),
        decreases v.len() - i,
    {
        let ghost t = v@.skip(i as int);
        if pv.len() <= v.len() - i && matches_at(&v, &pv, i) {
            assert(t.subrange(0, pat@.len() as int) =~= v@.subrange(i as int, i + pv.len()));
            assert(t.skip(pat@.len() as int) =~= v@.skip(i + pv.len()));
            assert(r@ + (with@ + replace_str(t.skip(pat@.len() as int), pat@, with@)) =~= (r@ + with@)
                + replace_str(t.skip(pat@.len() as int), pat@, with@));
            push_str(&mut r, with);
            i = i + pv.len();
        } else {
            assert(!starts_with(t, pat@)) by {
                if pat@.len() <= t.len() {
                    assert(t.subrange(0, pat@.len() as int) =~= v@.subrange(i as int, i + pv.len()));
                }
            }
            assert(t[0] == v@[i as int]);
            assert(t.drop_first() =~= v@.skip(i + 1));
            assert(r@ + (seq![v@[i as int]] + replace_str(t.drop_first(), pat@, with@)) =~= r@.push(
                v@[i as int],
            ) + replace_str(t.drop_first(), pat@, with@));
            push_char(&mut r, v[i]);
            i += 1;
        }
    }
    assert(v@.skip(i as int) =~= Seq::<char>::empty());
    assert(r@ + Seq::<char>::empty() =~= r@);
    r
}

/// `s` padded on the left with `'0'` up to `width` characters (`format!("{:0>2}")` for width 2).
pub open spec fn zero_pad(s: Seq<char>, width: nat) -> Seq<char> {
    if s.len() >= width {
        s
    } else {
        Seq::new((width - s.len()) as nat, |i: int| '0') + s
    }
}

/// Pads `s` on the left with `'0'` up to two characters.
pub fn zero_pad2(s: &str) -> (r: String)
    ensures
        r@ == zero_pad(s@, 2),
{
    let v = chars_of(s);
    if v.len() >= 2 {
        return to_owned_string(s);
    }
    let mut r = String::new();
    let mut k = v.len();
    while k < 2
        invariant
            v@ == s@,
            v.len() <= k <= 2,
            r@ == Seq::new((k - v.len()) as nat, |i: int| '0'),
        decreases 2 - k,
    {
        push_char(&mut r, '0');
        assert(r@ =~= Seq::new((k + 1 - v.len()) as nat, |i: int| '0'));
        k += 1;
    }
    push_str(&mut r, s);
    r
}

// ---------------------------------------------------------------------------
// Case
// ---------------------------------------------------------------------------

/// The ASCII lowercase of `c`; other characters are unchanged.
pub open spec fn ascii_lower(c: char) -> char {
    if 'A' <= c <= 'Z' {
        ((c as u32) + 32) as char
    } else {
        c
    }
}

fn ascii_lower_char(c: char) -> (r: char)
    ensures
        r == ascii_lower(c),
{
    if 'A' <= c && c <= 'Z' {
        let b: u8 = (c as u32) as u8;
        let r = (b + 32) as char;
        assert(r == ((c as u32) + 32) as char);
        r
    } else {
        c
    }
}

/// `str::eq_ignore_ascii_case`: equal up to ASCII case.
pub open spec fn eq_ignore_ascii_case(a: Seq<char>, b: Seq<char>) -> bool {
    a.len() == b.len() && forall|i: int| 0 <= i < a.len() ==> ascii_lower(#[trigger] a[i]) == ascii_lower(b[i])
}

/// `str::eq_ignore_ascii_case`.
pub fn str_eq_ignore_ascii_case(a: &str, b: &str) -> (r: bool)
    ensures
        r == eq_ignore_ascii_case(a@, b@),
{
    let va = chars_of(a);
    let vb = chars_of(b);
    if va.len() != vb.len() {
        return false;
    }
    let mut i: usize = 0;
    while i < va.len()
        invariant
            va@ == a@,
            vb@ == b@,
            va.len() == vb.len(),
            i <= va.len(),
            forall|j: int| 0 <= j < i ==> ascii_lower(#[trigger] va@[j]) == ascii_lower(vb@[j]),
        decreases va.len() - i,
    {
        if ascii_lower_char(va[i]) != ascii_lower_char(vb[i]) {
            return false;
        }
        i += 1;
    }
    true
}

/// What `str::to_lowercase` returns for `s` (Unicode lowercase mapping).
pub uninterp spec fn lowercase(s: Seq<char>) -> Seq<char>;

/// What `str::to_uppercase` returns for `s` (Unicode uppercase mapping).
pub uninterp spec fn uppercase(s: Seq<char>) -> Seq<char>;

/// What `char::is_alphanumeric` returns for `c` (Unicode Alphabetic or Numeric).
pub uninterp spec fn alphanumeric(c: char) -> bool;

/// What `char::is_numeric` returns for `c` (Unicode general categories Nd, Nl, No).
pub uninterp spec fn numeric(c: char) -> bool;

/// `str::to_lowercase`. The contract names the result: the Unicode lowercase
/// mapping of the characters, which is a function of the argument alone.
#[verifier::external_body]
pub(crate) fn to_lowercase(s: &str) -> (r: String)
    ensures
        r@ == lowercase(s@),
{
    s.to_lowercase()
}

/// `str::to_uppercase`. The contract names the result: the Unicode uppercase
/// mapping of the characters, which is a function of the argument alone.
#[verifier::external_body]
pub(crate) fn to_uppercase(s: &str) -> (r: String)
    ensures
        r@ == uppercase(s@),
{
    s.to_uppercase()
}

/// `char::is_alphanumeric`, named by its result.
#[verifier::external_body]
pub(crate) fn is_alphanumeric(c: char) -> (r: bool)
    ensures
        r == alphanumeric(c),
{
    c.is_alphanumeric()
}

/// `char::is_numeric`, named by its result.
#[verifier::external_body]
pub(crate) fn is_numeric(c: char) -> (r: bool)
    ensures
        r == numeric(c),
{
    c.is_numeric()
}

/// What `format!("{:?}", o)` writes for an optional string: `None`, or
/// `Some(` and the string quoted and escaped as `Debug` does, then `)`.
pub uninterp spec fn debug_option_text(o: Option<Seq<char>>) -> Seq<char>;

/// `format!("{:?}", o)` for an optional string. The contract names the result,
/// a function of the argument alone, and states the case of `None`; the
/// escaping of a present string is left to the name.
#[verifier::external_body]
pub(crate) fn debug_option(o: &Option<String>) -> (r: String)
    ensures
        r@ == debug_option_text(opt_view(*o)),
        o.is_none() ==> r@ == "None"@,
{
    format!("{:?}", o)
}

// ---------------------------------------------------------------------------
// Decimal numbers
// ---------------------------------------------------------------------------

/// The decimal digit for `d < 10`.
pub open spec fn digit_char(d: nat) -> char {
    if d == 0 {
        '0'
    } else if d == 1 {
        '1'
    } else if d == 2 {
        '2'
    } else if d == 3 {
        '3'
    } else if d == 4 {
        '4'
    } else if d == 5 {
        '5'
    } else if d == 6 {
        '6'
    } else if d == 7 {
        '7'
    } else if d == 8 {
        '8'
    } else {
        '9'
    }
}

/// The decimal representation of `n`, without leading zeros (`to_string` on an integer).
pub open spec fn decimal(n: nat) -> Seq<char>
    decreases n,
{
    if n < 10 {
        seq![digit_char(n)]
    } else {
        decimal(n / 10).push(digit_char(n % 10))
    }
}

fn digit(d: u64) -> (c: char)
    requires
        d < 10,
    ensures
        c == digit_char(d as nat),
{
    if d == 0 {
        '0'
    } else if d == 1 {
        '1'
    } else if d == 2 {
        '2'
    } else if d == 3 {
        '3'
    } else if d == 4 {
        '4'
    } else if d == 5 {
        '5'
    } else if d == 6 {
        '6'
    } else if d == 7 {
        '7'
    } else if d == 8 {
        '8'
    } else {
        '9'
    }
}

/// `u64::to_string`.
pub fn u64_to_decimal(n: u64) -> (r: String)
    ensures
        r@ == decimal(n as nat),
{
    let mut rev: Vec<char> = Vec::new();
    let mut m = n;
    while m >= 10
        invariant
            decimal(n as nat) == decimal(m as nat) + rev@.reverse(),
        decreases m,
    {
        let d = digit(m % 10);
        proof {
            assert(rev@.push(d).reverse() =~= seq![d] + rev@.reverse());
            assert(decimal(m as nat) == decimal((m / 10) as nat).push(d));
            assert(decimal((m / 10) as nat).push(d) + rev@.reverse() =~= decimal((m / 10) as nat) + (
            seq![d] + rev@.reverse()));
        }
        rev.push(d);
        m = m / 10;
    }
    let mut r = String::new();
    push_char(&mut r, digit(m));
    assert(r@ =~= decimal(m as nat));
    let mut k = rev.len();
    while k > 0
        invariant
            k <= rev.len(),
            decimal(n as nat) == decimal(m as nat) + rev@.reverse(),
            r@ == decimal(m as nat) + rev@.reverse().take((rev.len() - k) as int),
        decreases k,
    {
        proof {
            let rr = rev@.reverse();
            assert(rr[(rev.len() - k) as int] == rev@[k - 1]);
            assert(rr.take((rev.len() - k + 1) as int) =~= rr.take((rev.len() - k) as int).push(rev@[k - 1]));
        }
        push_char(&mut r, rev[k - 1]);
        k -= 1;
    }
    assert(rev@.reverse().take(rev.len() as int) =~= rev@.reverse());
    r
}

/// `usize::to_string`.
pub fn usize_to_decimal(n: usize) -> (r: String)
    ensures
        r@ == decimal(n as nat),
{
    u64_to_decimal(n as u64)
}

/// The decimal representation of a signed integer (`i64::to_string`).
pub open spec fn signed_decimal(n: int) -> Seq<char> {
    if n < 0 {
        seq!['-'] + decimal((-n) as nat)
    } else {
        decimal(n as nat)
    }
}

/// `i64::to_string`.
pub fn i64_to_decimal(n: i64) -> (r: String)
    ensures
        r@ == signed_decimal(n as int),
{
    if n < 0 {
        let mag: u64 = ((-(n + 1)) as u64) + 1;
        let mut r = String::new();
        push_char(&mut r, '-');
        let d = u64_to_decimal(mag);
        push_str(&mut r, d.as_str());
        r
    } else {
        u64_to_decimal(n as u64)
    }
}

// ---------------------------------------------------------------------------
// Percent-encoding
// ---------------------------------------------------------------------------

/// The bytes that `urlencoding::encode` leaves as they are.
pub open spec fn url_safe_byte(b: u8) -> bool {
    (0x30 <= b <= 0x39) || (0x41 <= b <= 0x5A) || (0x61 <= b <= 0x7A) || b == 0x2D || b == 0x2E
        || b == 0x5F || b == 0x7E
}

/// The uppercase hexadecimal digit for `d < 16`.
pub open spec fn hex_digit(d: u8) -> char {
    if d < 10 {
        ((0x30 + d) as u32) as char
    } else {
        ((0x41 + d - 10) as u32) as char
    }
}

/// Percent-encoding of a byte sequence: safe bytes stand for themselves, every
/// other byte becomes `%` and two uppercase hexadecimal digits.
pub open spec fn percent_encode(bytes: Seq<u8>) -> Seq<char>
    decreases bytes.len(),
{
    if bytes.len() == 0 {
        Seq::empty()
    } else {
        let b = bytes[0];
        (if url_safe_byte(b) {
            seq![(b as u32) as char]
        } else {
            seq!['%', hex_digit(b / 16), hex_digit(b % 16)]
        }) + percent_encode(bytes.drop_first())
    }
}

/// What `urlencoding::encode` returns: the percent-encoding of the UTF-8 bytes of `s`.
pub open spec fn url_encoded(s: Seq<char>) -> Seq<char> {
    percent_encode(vstd::utf8::encode_utf8(s))
}

/// `urlencoding::encode`: percent-encodes every UTF-8 byte of `s` except ASCII
/// letters, digits and `-`, `.`, `_`, `~`, with uppercase hexadecimal digits.
#[verifier::external_body]
pub(crate) fn url_encode(s: &str) -> (r: String)
    ensures
        r@ == url_encoded(s@),
{
    urlencoding::encode(s).into_owned()
}

} // verus!
