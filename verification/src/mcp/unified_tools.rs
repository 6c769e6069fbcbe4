//! Unified tool handlers with smart source selection.
//!
//! Each handler decides here which sources to ask, in which order, and what
//! to answer; the requests themselves are made by the caller.
use vstd::prelude::*;
use crate::models::{Paper, PaperView, paper_views};
use crate::utils::cite::{CitationStyle, format_citation};
use crate::sources::{
    SourceDescriptor, SourceCapabilities, first_selected, find_source_index, opt_index, no_caps,
};
use crate::utils::text::{
    to_lowercase, to_uppercase, lowercase, uppercase, numeric, is_numeric, starts_with,
    str_starts_with, utf8_len, byte_len, byte_prefix, is_boundary, prefix_within_bytes, str_eq,
    chars_of, to_owned_string, push_str, opt_str_view, opt_view,
};

verus! {

broadcast use vstd::string::group_string_axioms;

/// The first `min(9, len)` characters are digits or dots.
pub open spec fn leading_numeric(pid: Seq<char>) -> bool {
    forall|i: int| 0 <= i < pid.len() && i < 9 ==> numeric(#[trigger] pid[i]) || pid[i] == '.'
}

/// The identifier looks like an arXiv identifier.
pub open spec fn looks_arxiv(pid: Seq<char>) -> bool {
    starts_with(lowercase(pid), "arxiv:"@) || (utf8_len(pid) > 4 && leading_numeric(pid))
}

/// The first bytes of `pid`, as many as `prefix` has, are `prefix` once uppercased.
pub open spec fn upper_start(pid: Seq<char>, prefix: Seq<char>) -> bool {
    if utf8_len(pid) < utf8_len(prefix) {
        false
    } else {
        uppercase(byte_prefix(pid, utf8_len(prefix) as int)) == prefix
    }
}

/// `pid` can be cut after as many bytes as `prefix` has (which `&pid[..prefix.len()]` needs).
pub open spec fn upper_start_defined(pid: Seq<char>, prefix: Seq<char>) -> bool {
    utf8_len(pid) >= utf8_len(prefix) ==> is_boundary(pid, utf8_len(prefix) as int)
}

/// The number of occurrences of `c` in `s`.
pub open spec fn count_char(s: Seq<char>, c: char) -> nat
    decreases s.len(),
{
    if s.len() == 0 {
        0
    } else {
        count_char(s.drop_last(), c) + (if s.last() == c {
            1nat
        } else {
            0
        })
    }
}

/// The source with identifier `id`, or the error `msg`.
pub open spec fn found_or(o: Option<int>, msg: Seq<char>) -> Result<int, Seq<char>> {
    match o {
        Some(i) => Ok(i),
        None => Err(msg),
    }
}

/// A capability requirement of nothing but DOI lookup.
pub open spec fn doi_caps() -> SourceCapabilities {
    SourceCapabilities { doi_lookup: true, ..no_caps() }
}

/// Which source an identifier belongs to: arXiv identifiers, PMC identifiers,
/// HAL identifiers and IACR identifiers go to their source; DOIs go to
/// Semantic Scholar or else the first source that looks up DOIs; anything else
/// goes to arXiv, or else to Semantic Scholar.
pub open spec fn detect(srcs: Seq<SourceDescriptor>, pid: Seq<char>) -> Result<int, Seq<char>> {
    if looks_arxiv(pid) {
        found_or(first_selected(srcs, Some("arxiv"@), no_caps()), "arXiv source not available"@)
    } else if upper_start(pid, "PMC"@) {
        found_or(first_selected(srcs, Some("pmc"@), no_caps()), "PMC source not available"@)
    } else if starts_with(lowercase(pid), "hal-"@) {
        found_or(first_selected(srcs, Some("hal"@), no_caps()), "HAL source not available"@)
    } else if count_char(pid, '/') == 1 {
        found_or(first_selected(srcs, Some("iacr"@), no_caps()), "IACR source not available"@)
    } else {
        let by_doi = if starts_with(pid, "10."@) {
            match first_selected(srcs, Some("semantic"@), doi_caps()) {
                Some(i) => Some(i),
                None => first_selected(srcs, None, doi_caps()),
            }
        } else {
            None
        };
        match by_doi {
            Some(i) => Ok(i),
            None => match first_selected(srcs, Some("arxiv"@), no_caps()) {
                Some(i) => Ok(i),
                None => match first_selected(srcs, Some("semantic"@), no_caps()) {
                    Some(i) => Ok(i),
                    None => Err("Could not auto-detect source. Please specify source explicitly."@),
                },
            },
        }
    }
}

/// The identifier can be examined without cutting a character in two.
pub open spec fn detect_defined(pid: Seq<char>) -> bool {
    !looks_arxiv(pid) ==> upper_start_defined(pid, "PMC"@)
}

/// PMC identifiers are recognised whatever the case of their prefix: an
/// identifier that is not arXiv-like and whose first three bytes, uppercased,
/// are `PMC` goes to the first source with identifier `pmc`, or gets the error
/// `PMC source not available`.
pub proof fn lemma_detect_pmc(srcs: Seq<SourceDescriptor>, pid: Seq<char>)
    requires
        !looks_arxiv(pid),
        utf8_len(pid) >= 3,
        uppercase(byte_prefix(pid, 3)) == "PMC"@,
    ensures
        detect(srcs, pid) == found_or(first_selected(srcs, Some("pmc"@), no_caps()), "PMC source not available"@),
{
    reveal_strlit("PMC");
    reveal_with_fuel(utf8_len, 4);
    assert(utf8_len("PMC"@) == 3);
    assert(upper_start(pid, "PMC"@));
}

/// A result of positions and messages as integers and character sequences.
pub open spec fn result_view(r: Result<usize, String>) -> Result<int, Seq<char>> {
    match r {
        Ok(i) => Ok(i as int),
        Err(e) => Err(e@),
    }
}

fn count_slashes(s: &str) -> (r: usize)
    ensures
        r == count_char(s@, '/'),
{
    let v = chars_of(s);
    let mut n: usize = 0;
    let mut k: usize = 0;
    assert(v@.take(0) =~= Seq::<char>::empty());
    while k < v.len()
        invariant
            v@ == s@,
            k <= v.len(),
            n == count_char(v@.take(k as int), '/'),
            n <= k,
        decreases v.len() - k,
    {
        assert(v@.take(k + 1).drop_last() =~= v@.take(k as int));
        if v[k] == '/' {
            n += 1;
        }
        k += 1;
    }
    assert(v@.take(v.len() as int) =~= v@);
    n
}

fn leading_numeric_check(s: &str) -> (r: bool)
    ensures
        r == leading_numeric(s@),
{
    let v = chars_of(s);
    let mut k: usize = 0;
    while k < v.len() && k < 9
        invariant
            v@ == s@,
            k <= v.len(),
            forall|i: int| 0 <= i < k ==> numeric(#[trigger] s@[i]) || s@[i] == '.',
        decreases v.len() - k,
    {
        if !(is_numeric(v[k]) || v[k] == '.') {
            return false;
        }
        k += 1;
    }
    true
}

/// The identifier starts with `prefix`, ignoring case: its first bytes, as many
/// as `prefix` has, uppercased, are `prefix`.
pub fn paper_id_upper_start(paper_id: &str, prefix: &str) -> (r: bool)
    requires
        upper_start_defined(paper_id@, prefix@),
    ensures
        r == upper_start(paper_id@, prefix@),
{
    let n = byte_len(prefix);
    if byte_len(paper_id) < n {
        return false;
    }
    let (head, _) = prefix_within_bytes(paper_id, n);
    let up = to_uppercase(head.as_str());
    str_eq(up.as_str(), prefix)
}

fn found_or_err(o: Option<usize>, msg: &str) -> (r: Result<usize, String>)
    ensures
        result_view(r) == found_or(opt_index(o), msg@),
        r matches Ok(i) ==> o == Some(i),
{
    match o {
        Some(i) => Ok(i),
        None => Err(to_owned_string(msg)),
    }
}

/// The position of the source that a paper identifier belongs to.
pub fn auto_detect_source(sources: &Vec<SourceDescriptor>, paper_id: &str) -> (r: Result<usize, String>)
    requires
        detect_defined(paper_id@),
    ensures
        result_view(r) == detect(sources@, paper_id@),
        r matches Ok(i) ==> i < sources.len(),
{
    let lower = to_lowercase(paper_id);
    let arxiv = str_starts_with(lower.as_str(), "arxiv:") || (byte_len(paper_id) > 4
        && leading_numeric_check(paper_id));
    if arxiv {
        return found_or_err(
            find_source_index(sources, Some("arxiv"), SourceCapabilities::empty()),
            "arXiv source not available",
        );
    }
    if paper_id_upper_start(paper_id, "PMC") {
        return found_or_err(
            find_source_index(sources, Some("pmc"), SourceCapabilities::empty()),
            "PMC source not available",
        );
    }
    if str_starts_with(lower.as_str(), "hal-") {
        return found_or_err(
            find_source_index(sources, Some("hal"), SourceCapabilities::empty()),
            "HAL source not available",
        );
    }
    if count_slashes(paper_id) == 1 {
        return found_or_err(
            find_source_index(sources, Some("iacr"), SourceCapabilities::empty()),
            "IACR source not available",
        );
    }
    if str_starts_with(paper_id, "10.") {
        if let Some(i) = find_source_index(sources, Some("semantic"), SourceCapabilities::doi_lookup()) {
            return Ok(i);
        }
        if let Some(i) = find_source_index(sources, None, SourceCapabilities::doi_lookup()) {
            return Ok(i);
        }
    }
    if let Some(i) = find_source_index(sources, Some("arxiv"), SourceCapabilities::empty()) {
        return Ok(i);
    }
    if let Some(i) = find_source_index(sources, Some("semantic"), SourceCapabilities::empty()) {
        return Ok(i);
    }
    Err(to_owned_string("Could not auto-detect source. Please specify source explicitly."))
}

/// Whether auto-detection can examine `paper_id` (see [`detect_defined`]).
pub fn detect_is_defined(paper_id: &str) -> (r: bool)
    ensures
        r == detect_defined(paper_id@),
{
    let lower = to_lowercase(paper_id);
    let arxiv = str_starts_with(lower.as_str(), "arxiv:") || (byte_len(paper_id) > 4
        && leading_numeric_check(paper_id));
    if arxiv {
        return true;
    }
    let n = byte_len("PMC");
    if byte_len(paper_id) < n {
        return true;
    }
    let (_, used) = prefix_within_bytes(paper_id, n);
    used == n
}

/// The position of the source that a paper identifier belongs to, or an
/// error naming the identifier when it cannot be examined (its third byte is
/// inside a character, where cutting it would fail).
pub fn detect_source_checked(sources: &Vec<SourceDescriptor>, paper_id: &str) -> (r: Result<usize, String>)
    ensures
        detect_defined(paper_id@) ==> result_view(r) == detect(sources@, paper_id@),
        !detect_defined(paper_id@) ==> result_view(r) == Err::<int, Seq<char>>(
            "Invalid paper identifier: "@ + paper_id@,
        ),
        r matches Ok(i) ==> i < sources.len(),
{
    if detect_is_defined(paper_id) {
        auto_detect_source(sources, paper_id)
    } else {
        let mut m = to_owned_string("Invalid paper identifier: ");
        push_str(&mut m, paper_id);
        Err(m)
    }
}

// ---------------------------------------------------------------------------
// Tool arguments
// ---------------------------------------------------------------------------

/// One argument of a tool call, as far as the tools read it.
pub enum ArgValue {
    /// A string.
    Str(String),
    /// A non-negative integer that fits in 64 bits.
    UInt(u64),
    /// An array; each element is kept when it is a string.
    Array(Vec<Option<String>>),
    /// Anything else.
    Other,
}

/// The named arguments of a tool call, in order; a name that occurs twice
/// stands for its first occurrence.
pub struct ToolArgs {
    pub entries: Vec<(String, ArgValue)>,
}

/// The position of the first argument named `key`.
pub open spec fn first_key(entries: Seq<(String, ArgValue)>, key: Seq<char>) -> Option<int>
    decreases entries.len(),
{
    if entries.len() == 0 {
        None
    } else if entries[0].0@ == key {
        Some(0)
    } else {
        match first_key(entries.drop_first(), key) {
            Some(i) => Some(i + 1),
            None => None,
        }
    }
}

proof fn lemma_first_key(entries: Seq<(String, ArgValue)>, key: Seq<char>, i: int)
    requires
        0 <= i <= entries.len(),
        forall|j: int| 0 <= j < i ==> (#[trigger] entries[j]).0@ != key,
        i < entries.len() ==> entries[i].0@ == key,
    ensures
        first_key(entries, key) == (if i < entries.len() {
            Some(i)
        } else {
            None::<int>
        }),
    decreases i,
{
    if i > 0 {
        let t = entries.drop_first();
        assert forall|j: int| 0 <= j < i - 1 implies (#[trigger] t[j]).0@ != key by {
            assert(t[j] == entries[j + 1]);
        }
        if i - 1 < t.len() {
            assert(t[i - 1] == entries[i]);
        }
        lemma_first_key(t, key, i - 1);
    }
}

/// Adding an argument at the end changes the first position of a name only
/// when the name was missing before and is the added one.
proof fn lemma_first_key_push(entries: Seq<(String, ArgValue)>, added: (String, ArgValue), key: Seq<char>)
    ensures
        first_key(entries.push(added), key) == match first_key(entries, key) {
            Some(i) => Some(i),
            None => if added.0@ == key {
                Some(entries.len() as int)
            } else {
                None
            },
        },
    decreases entries.len(),
{
    let p = entries.push(added);
    assert(p[0] == (if entries.len() > 0 {
        entries[0]
    } else {
        added
    }));
    if entries.len() > 0 {
        assert(p.drop_first() =~= entries.drop_first().push(added));
        lemma_first_key_push(entries.drop_first(), added, key);
    } else {
        assert(p.drop_first() =~= Seq::<(String, ArgValue)>::empty());
        assert(first_key(p.drop_first(), key) is None);
        assert(first_key(entries, key) is None);
    }
}

/// A read gives back what a write wrote: after adding `key` with `value`,
/// the argument `key` is `value`, unless `key` was already given (the first
/// occurrence counts); every other argument is unchanged.
pub proof fn lemma_with_reads_back(args: ToolArgs, r: ToolArgs, key: Seq<char>, value: ArgValue, other: Seq<char>)
    requires
        r.entries@.len() == args.entries@.len() + 1,
        forall|j: int| 0 <= j < args.entries@.len() ==> r.entries@[j] == args.entries@[j],
        r.entries@.last().0@ == key,
        r.entries@.last().1 == value,
    ensures
        arg(r, key) == (match arg(args, key) {
            Some(v) => Some(v),
            None => Some(value),
        }),
        other != key ==> arg(r, other) == arg(args, other),
{
    assert(r.entries@ =~= args.entries@.push(r.entries@.last()));
    lemma_first_key_push(args.entries@, r.entries@.last(), key);
    lemma_first_key_push(args.entries@, r.entries@.last(), other);
    lemma_first_key_bounds(args.entries@, key);
    lemma_first_key_bounds(args.entries@, other);
}

/// The first position of a name is a position of the list.
proof fn lemma_first_key_bounds(entries: Seq<(String, ArgValue)>, key: Seq<char>)
    ensures
        first_key(entries, key) matches Some(i) ==> 0 <= i < entries.len(),
    decreases entries.len(),
{
    if entries.len() > 0 {
        lemma_first_key_bounds(entries.drop_first(), key);
    }
}

/// The value of the argument named `key`, if there is one.
pub open spec fn arg(args: ToolArgs, key: Seq<char>) -> Option<ArgValue> {
    match first_key(args.entries@, key) {
        Some(i) => Some(args.entries@[i].1),
        None => None,
    }
}

/// The argument named `key` as a string (`args.get(key).and_then(|v| v.as_str())`).
pub open spec fn arg_str(args: ToolArgs, key: Seq<char>) -> Option<Seq<char>> {
    match arg(args, key) {
        Some(ArgValue::Str(s)) => Some(s@),
        _ => None,
    }
}

/// The argument named `key` as an integer (`args.get(key).and_then(|v| v.as_u64())`).
pub open spec fn arg_u64(args: ToolArgs, key: Seq<char>) -> Option<u64> {
    match arg(args, key) {
        Some(ArgValue::UInt(n)) => Some(n),
        _ => None,
    }
}

/// The argument named `key` as an integer, or `default`, as a `usize`.
pub open spec fn arg_usize_or(args: ToolArgs, key: Seq<char>, default: u64) -> usize {
    match arg_u64(args, key) {
        Some(n) => n as usize,
        None => default as usize,
    }
}

impl ToolArgs {
    /// An empty argument list.
    pub fn new() -> (r: ToolArgs)
        ensures
            r.entries@.len() == 0,
    {
        ToolArgs { entries: Vec::new() }
    }

    /// Adds an argument.
    pub fn with(self, key: &str, value: ArgValue) -> (r: ToolArgs)
        ensures
            r.entries@.len() == self.entries@.len() + 1,
            forall|j: int| 0 <= j < self.entries@.len() ==> r.entries@[j] == self.entries@[j],
            r.entries@.last().0@ == key@,
            r.entries@.last().1 == value,
    {
        let mut a = self;
        a.entries.push((to_owned_string(key), value));
        a
    }

    fn position(&self, key: &str) -> (r: Option<usize>)
        ensures
            opt_index(r) == first_key(self.entries@, key@),
            r matches Some(i) ==> i < self.entries.len(),
    {
        let mut i: usize = 0;
        while i < self.entries.len()
            invariant
                i <= self.entries.len(),
                forall|j: int| 0 <= j < i ==> (#[trigger] self.entries@[j]).0@ != key@,
            decreases self.entries.len() - i,
        {
            if str_eq(self.entries[i].0.as_str(), key) {
                proof {
                    lemma_first_key(self.entries@, key@, i as int);
                }
                return Some(i);
            }
            i += 1;
        }
        proof {
            lemma_first_key(self.entries@, key@, i as int);
        }
        None
    }

    /// The argument named `key` as a string.
    pub fn get_str(&self, key: &str) -> (r: Option<&str>)
        ensures
            opt_str_view(r) == arg_str(*self, key@),
    {
        match self.position(key) {
            Some(i) => match &self.entries[i].1 {
                ArgValue::Str(s) => Some(s.as_str()),
                _ => None,
            },
            None => None,
        }
    }

    /// The argument named `key` as an integer.
    pub fn get_u64(&self, key: &str) -> (r: Option<u64>)
        ensures
            r == arg_u64(*self, key@),
    {
        match self.position(key) {
            Some(i) => match &self.entries[i].1 {
                ArgValue::UInt(n) => Some(*n),
                _ => None,
            },
            None => None,
        }
    }

    /// The argument named `key` as an array.
    pub fn get_array(&self, key: &str) -> (r: Option<&Vec<Option<String>>>)
        ensures
            match arg(*self, key@) {
                Some(ArgValue::Array(v)) => r == Some(&v),
                _ => r.is_none(),
            },
    {
        match self.position(key) {
            Some(i) => match &self.entries[i].1 {
                ArgValue::Array(v) => Some(v),
                _ => None,
            },
            None => None,
        }
    }

    /// The argument named `key` as an integer, or `default`.
    pub fn get_usize_or(&self, key: &str, default: u64) -> (r: usize)
        ensures
            r == arg_usize_or(*self, key@, default),
    {
        match self.get_u64(key) {
            Some(n) => n as usize,
            None => default as usize,
        }
    }
}

/// An optional string as an owned optional string.
fn opt_owned(o: Option<&str>) -> (r: Option<String>)
    ensures
        crate::utils::text::opt_view(r) == opt_str_view(o),
{
    match o {
        Some(s) => Some(to_owned_string(s)),
        None => None,
    }
}

/// The required string argument `key`, or the message `Missing '<key>' parameter`.
pub open spec fn required_str(args: ToolArgs, key: Seq<char>) -> Result<Seq<char>, Seq<char>> {
    match arg_str(args, key) {
        Some(s) => Ok(s),
        None => Err("Missing '"@ + key + "' parameter"@),
    }
}

fn require_str(args: &ToolArgs, key: &str) -> (r: Result<String, String>)
    ensures
        match (r, required_str(*args, key@)) {
            (Ok(a), Ok(b)) => a@ == b,
            (Err(a), Err(b)) => a@ == b,
            _ => false,
        },
{
    match args.get_str(key) {
        Some(s) => Ok(to_owned_string(s)),
        None => {
            let mut m = to_owned_string("Missing '");
            push_str(&mut m, key);
            push_str(&mut m, "' parameter");
            Err(m)
        },
    }
}

// ---------------------------------------------------------------------------
// Choosing sources
// ---------------------------------------------------------------------------

/// The positions of all the sources selected by `id` (if given) and `need`, in order.
pub open spec fn all_selected(srcs: Seq<SourceDescriptor>, id: Option<Seq<char>>, need: SourceCapabilities) -> Seq<int>
    decreases srcs.len(),
{
    if srcs.len() == 0 {
        Seq::empty()
    } else {
        let p = all_selected(srcs.drop_last(), id, need);
        if crate::sources::selects(srcs.last(), id, need) {
            p.push(srcs.len() - 1)
        } else {
            p
        }
    }
}

/// Positions as integers.
pub open spec fn positions(v: Seq<usize>) -> Seq<int> {
    Seq::new(v.len(), |i: int| v[i] as int)
}

/// The positions of the sources selected by `id` (if given) and `need`.
pub fn select_all(srcs: &Vec<SourceDescriptor>, id: Option<&str>, need: SourceCapabilities) -> (r: Vec<usize>)
    ensures
        positions(r@) == all_selected(srcs@, opt_str_view(id), need),
        forall|j: int| 0 <= j < r.len() ==> r@[j] < srcs.len(),
{
    let ghost want = opt_str_view(id);
    let mut r: Vec<usize> = Vec::new();
    let mut k: usize = 0;
    assert(srcs@.take(0) =~= Seq::<SourceDescriptor>::empty());
    assert(positions(r@) =~= Seq::<int>::empty());
    while k < srcs.len()
        invariant
            k <= srcs.len(),
            want == opt_str_view(id),
            positions(r@) == all_selected(srcs@.take(k as int), want, need),
            forall|j: int| 0 <= j < r.len() ==> r@[j] < k,
        decreases srcs.len() - k,
    {
        let ghost t = srcs@.take(k + 1);
        assert(t.drop_last() =~= srcs@.take(k as int));
        assert(t.last() == srcs@[k as int]);
        let s = &srcs[k];
        let id_ok = match id {
            Some(x) => str_eq(s.id.as_str(), x),
            None => true,
        };
        if id_ok && s.capabilities.contains(need) {
            r.push(k);
            assert(positions(r@) =~= all_selected(srcs@.take(k as int), want, need).push(k as int));
        }
        k += 1;
    }
    assert(srcs@.take(srcs.len() as int) =~= srcs@);
    r
}

/// `Source '<id>' not found`.
pub open spec fn not_found_message(id: Seq<char>) -> Seq<char> {
    "Source '"@ + id + "' not found"@
}

fn not_found_error(id: &str) -> (r: String)
    ensures
        r@ == not_found_message(id@),
{
    let mut m = to_owned_string("Source '");
    push_str(&mut m, id);
    push_str(&mut m, "' not found");
    m
}

/// The source named by `source_override`, or else the one the identifier belongs to.
pub open spec fn chosen_source(
    srcs: Seq<SourceDescriptor>,
    paper_id: Seq<char>,
    source_override: Option<Seq<char>>,
) -> Result<int, Seq<char>> {
    match source_override {
        Some(id) => found_or(first_selected(srcs, Some(id), no_caps()), not_found_message(id)),
        None => detect(srcs, paper_id),
    }
}

fn find_source_for(
    sources: &Vec<SourceDescriptor>,
    paper_id: &str,
    source_override: Option<&str>,
) -> (r: Result<usize, String>)
    requires
        source_override.is_none() ==> detect_defined(paper_id@),
    ensures
        result_view(r) == chosen_source(sources@, paper_id@, opt_str_view(source_override)),
        r matches Ok(i) ==> i < sources.len(),
{
    match source_override {
        Some(id) => {
            let m = not_found_error(id);
            match find_source_index(sources, Some(id), SourceCapabilities::empty()) {
                Some(i) => Ok(i),
                None => Err(m),
            }
        },
        None => auto_detect_source(sources, paper_id),
    }
}

/// The source that citation tools use: the one named by `source_override`, or
/// else the first that offers citations, or else `semantic`; it must exist and
/// offer citations, or the answer is an error that names `what` is missing.
pub open spec fn citation_source(
    srcs: Seq<SourceDescriptor>,
    source_override: Option<Seq<char>>,
    what: Seq<char>,
) -> Result<int, Seq<char>> {
    let citing = SourceCapabilities { citations: true, ..no_caps() };
    let id = match source_override {
        Some(id) => id,
        None => match first_selected(srcs, None, citing) {
            Some(i) => srcs[i].id@,
            None => "semantic"@,
        },
    };
    match first_selected(srcs, Some(id), no_caps()) {
        None => Err(not_found_message(id)),
        Some(i) => if srcs[i].capabilities.citations {
            Ok(i)
        } else {
            Err("Source '"@ + id + "' does not support "@ + what)
        },
    }
}

fn select_citation_source(
    sources: &Vec<SourceDescriptor>,
    source_override: Option<&str>,
    what: &str,
) -> (r: Result<usize, String>)
    ensures
        result_view(r) == citation_source(sources@, opt_str_view(source_override), what@),
        r matches Ok(i) ==> i < sources.len(),
{
    let id: &str = match source_override {
        Some(id) => id,
        None => match find_source_index(sources, None, SourceCapabilities::citations()) {
            Some(i) => sources[i].id.as_str(),
            None => "semantic",
        },
    };
    match find_source_index(sources, Some(id), SourceCapabilities::empty()) {
        None => Err(not_found_error(id)),
        Some(i) => {
            if sources[i].capabilities.citations {
                Ok(i)
            } else {
                let mut m = to_owned_string("Source '");
                push_str(&mut m, id);
                push_str(&mut m, "' does not support ");
                push_str(&mut m, what);
                Err(m)
            }
        },
    }
}

// ---------------------------------------------------------------------------
// The handlers
// ---------------------------------------------------------------------------

/// The arguments of a search: a query and optional restrictions.
pub struct SearchRequest {
    pub query: String,
    pub max_results: usize,
    pub year: Option<String>,
    pub category: Option<String>,
    pub source: Option<String>,
}

/// Searches every source that can search, or only the one named.
pub struct SearchPapersHandler {
    pub sources: Vec<SourceDescriptor>,
}

impl SearchPapersHandler {
    /// Reads `query` (required), `max_results` (10), `year`, `category` and `source`.
    pub fn parse_args(args: &ToolArgs) -> (r: Result<SearchRequest, String>)
        ensures
            match (r, required_str(*args, "query"@)) {
                (Ok(q), Ok(query)) => q.query@ == query && q.max_results == arg_usize_or(
                    *args,
                    "max_results"@,
                    10,
                ) && crate::utils::text::opt_view(q.year) == arg_str(*args, "year"@)
                    && crate::utils::text::opt_view(q.category) == arg_str(*args, "category"@)
                    && crate::utils::text::opt_view(q.source) == arg_str(*args, "source"@),
                (Err(m), Err(n)) => m@ == n,
                _ => false,
            },
    {
        let query = require_str(args, "query")?;
        Ok(
            SearchRequest {
                query,
                max_results: args.get_usize_or("max_results", 10),
                year: opt_owned(args.get_str("year")),
                category: opt_owned(args.get_str("category")),
                source: opt_owned(args.get_str("source")),
            },
        )
    }

    /// The sources to search: those that can search and, when `source_filter`
    /// is given, have that identifier.
    pub fn targets(&self, source_filter: Option<&str>) -> (r: Vec<usize>)
        ensures
            positions(r@) == all_selected(
                self.sources@,
                opt_str_view(source_filter),
                SourceCapabilities { search: true, ..no_caps() },
            ),
    {
        select_all(&self.sources, source_filter, SourceCapabilities::search())
    }
}

/// The arguments of a search by author.
pub struct AuthorRequest {
    pub author: String,
    pub max_results: usize,
    pub year: Option<String>,
    pub source: Option<String>,
}

/// Searches every source that can search by author, or only the one named.
pub struct SearchByAuthorHandler {
    pub sources: Vec<SourceDescriptor>,
}

impl SearchByAuthorHandler {
    /// Reads `author` (required), `max_results` (10), `year` and `source`.
    pub fn parse_args(args: &ToolArgs) -> (r: Result<AuthorRequest, String>)
        ensures
            match (r, required_str(*args, "author"@)) {
                (Ok(q), Ok(author)) => q.author@ == author && q.max_results == arg_usize_or(
                    *args,
                    "max_results"@,
                    10,
                ) && crate::utils::text::opt_view(q.year) == arg_str(*args, "year"@)
                    && crate::utils::text::opt_view(q.source) == arg_str(*args, "source"@),
                (Err(m), Err(n)) => m@ == n,
                _ => false,
            },
    {
        let author = require_str(args, "author")?;
        Ok(
            AuthorRequest {
                author,
                max_results: args.get_usize_or("max_results", 10),
                year: opt_owned(args.get_str("year")),
                source: opt_owned(args.get_str("source")),
            },
        )
    }

    /// The sources to ask: those that can search by author and, when
    /// `source_filter` is given, have that identifier.
    pub fn targets(&self, source_filter: Option<&str>) -> (r: Vec<usize>)
        ensures
            positions(r@) == all_selected(
                self.sources@,
                opt_str_view(source_filter),
                SourceCapabilities { author_search: true, ..no_caps() },
            ),
    {
        select_all(&self.sources, source_filter, SourceCapabilities::author_search())
    }
}

/// The arguments of a tool about one paper.
pub struct PaperRequest {
    pub paper_id: String,
    pub source: Option<String>,
}

/// Reads `paper_id` (required) and `source`.
pub fn parse_paper_request(args: &ToolArgs) -> (r: Result<PaperRequest, String>)
    ensures
        match (r, required_str(*args, "paper_id"@)) {
            (Ok(q), Ok(id)) => q.paper_id@ == id && crate::utils::text::opt_view(q.source) == arg_str(
                *args,
                "source"@,
            ),
            (Err(m), Err(n)) => m@ == n,
            _ => false,
        },
{
    let paper_id = require_str(args, "paper_id")?;
    Ok(PaperRequest { paper_id, source: opt_owned(args.get_str("source")) })
}

/// What to do after a lookup step of [`GetPaperHandler`] failed.
#[derive(Clone, Copy, PartialEq, Eq, Structural, Debug)]
pub enum LookupStep {
    /// Look the paper up by its identifier.
    ById,
    /// Look the paper up by DOI.
    ByDoi,
    /// Search for the identifier and take the first result.
    Search,
}

/// Fetches one paper: by identifier, then by DOI for DOIs, then by search.
pub struct GetPaperHandler {
    pub sources: Vec<SourceDescriptor>,
}

impl GetPaperHandler {
    /// The source to ask: the one named by `source_override`, or the one the
    /// identifier belongs to.
    pub fn find_source(&self, paper_id: &str, source_override: Option<&str>) -> (r: Result<usize, String>)
        requires
            source_override.is_none() ==> detect_defined(paper_id@),
        ensures
            result_view(r) == chosen_source(self.sources@, paper_id@, opt_str_view(source_override)),
            r matches Ok(i) ==> i < self.sources.len(),
    {
        find_source_for(&self.sources, paper_id, source_override)
    }

    /// The step after `failed` did not find the paper: a DOI lookup when the
    /// identifier starts with `10.`, then a search.
    pub fn next_step(paper_id: &str, failed: LookupStep) -> (r: Option<LookupStep>)
        ensures
            r == match failed {
                LookupStep::ById => if starts_with(paper_id@, "10."@) {
                    Some(LookupStep::ByDoi)
                } else {
                    Some(LookupStep::Search)
                },
                LookupStep::ByDoi => Some(LookupStep::Search),
                LookupStep::Search => None,
            },
    {
        match failed {
            LookupStep::ById => if str_starts_with(paper_id, "10.") {
                Some(LookupStep::ByDoi)
            } else {
                Some(LookupStep::Search)
            },
            LookupStep::ByDoi => Some(LookupStep::Search),
            LookupStep::Search => None,
        }
    }

    /// `Paper '<id>' not found in <source>`: the answer when the search found nothing.
    pub fn not_found(paper_id: &str, source_id: &str) -> (r: String)
        ensures
            r@ == "Paper '"@ + paper_id@ + "' not found in "@ + source_id@,
    {
        let mut m = to_owned_string("Paper '");
        push_str(&mut m, paper_id);
        push_str(&mut m, "' not found in ");
        push_str(&mut m, source_id);
        m
    }
}

/// The arguments of a download.
pub struct DownloadArgs {
    pub paper_id: String,
    pub source: Option<String>,
    pub output_path: String,
}

/// The sources, in order, that a failed download falls back to.
pub open spec fn fallback_ids() -> Seq<Seq<char>> {
    seq!["openaire"@, "core"@, "europe_pmc"@, "pmc"@, "unpaywall"@]
}

/// Downloads a paper, falling back to open-access sources.
pub struct DownloadPaperHandler {
    pub sources: Vec<SourceDescriptor>,
}

impl DownloadPaperHandler {
    /// Reads `paper_id` (required), `source` and `output_path` (`./downloads`).
    pub fn parse_args(args: &ToolArgs) -> (r: Result<DownloadArgs, String>)
        ensures
            match (r, required_str(*args, "paper_id"@)) {
                (Ok(q), Ok(id)) => q.paper_id@ == id && crate::utils::text::opt_view(q.source)
                    == arg_str(*args, "source"@) && q.output_path@ == match arg_str(
                    *args,
                    "output_path"@,
                ) {
                    Some(p) => p,
                    None => "./downloads"@,
                },
                (Err(m), Err(n)) => m@ == n,
                _ => false,
            },
    {
        let paper_id = require_str(args, "paper_id")?;
        let output_path = match args.get_str("output_path") {
            Some(p) => to_owned_string(p),
            None => to_owned_string("./downloads"),
        };
        Ok(DownloadArgs { paper_id, source: opt_owned(args.get_str("source")), output_path })
    }

    /// The source to ask first.
    pub fn find_source(&self, paper_id: &str, source_override: Option<&str>) -> (r: Result<usize, String>)
        requires
            source_override.is_none() ==> detect_defined(paper_id@),
        ensures
            result_view(r) == chosen_source(self.sources@, paper_id@, opt_str_view(source_override)),
            r matches Ok(i) ==> i < self.sources.len(),
    {
        find_source_for(&self.sources, paper_id, source_override)
    }

    /// The fallback sources after `primary` failed, in order: for each of
    /// `openaire`, `core`, `europe_pmc`, `pmc`, `unpaywall` other than the
    /// primary's identifier, the first source with that identifier that can
    /// download, if any.
    pub fn fallbacks(&self, primary: usize) -> (r: Vec<usize>)
        requires
            primary < self.sources.len(),
        ensures
            positions(r@) == fallback_positions(self.sources@, self.sources@[primary as int].id@, 5),
    {
        let ids: [&str; 5] = ["openaire", "core", "europe_pmc", "pmc", "unpaywall"];
        proof {
            reveal_strlit("openaire");
            reveal_strlit("core");
            reveal_strlit("europe_pmc");
            reveal_strlit("pmc");
            reveal_strlit("unpaywall");
        }
        assert(ids@.map_values(|s: &str| s@) =~= fallback_ids());
        let mut r: Vec<usize> = Vec::new();
        let mut k: usize = 0;
        assert(positions(r@) =~= Seq::<int>::empty());
        while k < 5
            invariant
                k <= 5,
                primary < self.sources.len(),
                ids@.map_values(|s: &str| s@) == fallback_ids(),
                positions(r@) == fallback_positions(self.sources@, self.sources@[primary as int].id@, k as int),
            decreases 5 - k,
        {
            let id = ids[k];
            assert(id@ == fallback_ids()[k as int]);
            if !str_eq(self.sources[primary].id.as_str(), id) {
                if let Some(i) = find_source_index(&self.sources, Some(id), SourceCapabilities::download()) {
                    r.push(i);
                    assert(positions(r@) =~= positions(r@.drop_last()).push(i as int));
                }
            }
            k += 1;
        }
        r
    }

    /// The answer when every source failed.
    pub fn failure_message(paper_id: &str, source_id: &str) -> (r: String)
        ensures
            r@ == "Failed to download '"@ + paper_id@ + "' from any source (tried "@ + source_id@
                + " and OA fallbacks: openaire, core, europe_pmc, pmc, unpaywall)"@,
    {
        let mut m = to_owned_string("Failed to download '");
        push_str(&mut m, paper_id);
        push_str(&mut m, "' from any source (tried ");
        push_str(&mut m, source_id);
        push_str(&mut m, " and OA fallbacks: openaire, core, europe_pmc, pmc, unpaywall)");
        m
    }
}

/// The fallback positions chosen from the first `k` fallback identifiers.
pub open spec fn fallback_positions(srcs: Seq<SourceDescriptor>, primary_id: Seq<char>, k: int) -> Seq<int>
    decreases k,
{
    if k <= 0 {
        Seq::empty()
    } else {
        let p = fallback_positions(srcs, primary_id, k - 1);
        let id = fallback_ids()[k - 1];
        if primary_id == id {
            p
        } else {
            match first_selected(srcs, Some(id), SourceCapabilities { download: true, ..no_caps() }) {
                Some(i) => p.push(i),
                None => p,
            }
        }
    }
}

/// Reads a paper's full text from one source.
pub struct ReadPaperHandler {
    pub sources: Vec<SourceDescriptor>,
}

impl ReadPaperHandler {
    /// The source to ask.
    pub fn find_source(&self, paper_id: &str, source_override: Option<&str>) -> (r: Result<usize, String>)
        requires
            source_override.is_none() ==> detect_defined(paper_id@),
        ensures
            result_view(r) == chosen_source(self.sources@, paper_id@, opt_str_view(source_override)),
            r matches Ok(i) ==> i < self.sources.len(),
    {
        find_source_for(&self.sources, paper_id, source_override)
    }
}

/// The arguments of a tool about the papers related to one paper.
pub struct CitationArgs {
    pub paper_id: String,
    pub source: Option<String>,
    pub max_results: usize,
}

/// Reads `paper_id` (required), `source` and `max_results` (20).
pub fn parse_citation_args(args: &ToolArgs) -> (r: Result<CitationArgs, String>)
    ensures
        match (r, required_str(*args, "paper_id"@)) {
            (Ok(q), Ok(id)) => q.paper_id@ == id && crate::utils::text::opt_view(q.source) == arg_str(
                *args,
                "source"@,
            ) && q.max_results == arg_usize_or(*args, "max_results"@, 20),
            (Err(m), Err(n)) => m@ == n,
            _ => false,
        },
{
    let paper_id = require_str(args, "paper_id")?;
    Ok(
        CitationArgs {
            paper_id,
            source: opt_owned(args.get_str("source")),
            max_results: args.get_usize_or("max_results", 20),
        },
    )
}

/// Lists the papers that cite a paper.
pub struct GetCitationsHandler {
    pub sources: Vec<SourceDescriptor>,
}

impl GetCitationsHandler {
    /// The source to ask, or why there is none.
    pub fn select_source(&self, source_override: Option<&str>) -> (r: Result<usize, String>)
        ensures
            result_view(r) == citation_source(self.sources@, opt_str_view(source_override), "citations"@),
            r matches Ok(i) ==> i < self.sources.len(),
    {
        select_citation_source(&self.sources, source_override, "citations")
    }
}

/// Lists the papers that a paper cites.
pub struct GetReferencesHandler {
    pub sources: Vec<SourceDescriptor>,
}

impl GetReferencesHandler {
    /// The source to ask, or why there is none.
    pub fn select_source(&self, source_override: Option<&str>) -> (r: Result<usize, String>)
        ensures
            result_view(r) == citation_source(self.sources@, opt_str_view(source_override), "references"@),
            r matches Ok(i) ==> i < self.sources.len(),
    {
        select_citation_source(&self.sources, source_override, "references")
    }
}

/// Asks for citations and references of a paper together.
pub struct CitationGraphHandler {
    pub sources: Vec<SourceDescriptor>,
}

impl CitationGraphHandler {
    /// The source to ask, or why there is none.
    pub fn select_source(&self, source_override: Option<&str>) -> (r: Result<usize, String>)
        ensures
            result_view(r) == citation_source(self.sources@, opt_str_view(source_override), "citations"@),
            r matches Ok(i) ==> i < self.sources.len(),
    {
        select_citation_source(&self.sources, source_override, "citations")
    }
}

/// The arguments of a DOI lookup.
pub struct DoiArgs {
    pub doi: String,
    pub source: Option<String>,
}

/// Looks a DOI up in the sources that can, in order, until one finds it.
pub struct LookupByDoiHandler {
    pub sources: Vec<SourceDescriptor>,
}

impl LookupByDoiHandler {
    /// Reads `doi` (required) and `source`.
    pub fn parse_args(args: &ToolArgs) -> (r: Result<DoiArgs, String>)
        ensures
            match (r, required_str(*args, "doi"@)) {
                (Ok(q), Ok(doi)) => q.doi@ == doi && crate::utils::text::opt_view(q.source) == arg_str(
                    *args,
                    "source"@,
                ),
                (Err(m), Err(n)) => m@ == n,
                _ => false,
            },
    {
        let doi = require_str(args, "doi")?;
        Ok(DoiArgs { doi, source: opt_owned(args.get_str("source")) })
    }

    /// The sources to ask, in order: those that look up DOIs and, when
    /// `source_filter` is given, have that identifier.
    pub fn candidates(&self, source_filter: Option<&str>) -> (r: Vec<usize>)
        ensures
            positions(r@) == all_selected(self.sources@, opt_str_view(source_filter), doi_caps()),
    {
        select_all(&self.sources, source_filter, SourceCapabilities::doi_lookup())
    }

    /// `Paper with DOI '<doi>' not found`.
    pub fn not_found(doi: &str) -> (r: String)
        ensures
            r@ == "Paper with DOI '"@ + doi@ + "' not found"@,
    {
        let mut m = to_owned_string("Paper with DOI '");
        push_str(&mut m, doi);
        push_str(&mut m, "' not found");
        m
    }
}

/// Which duplicate to keep.
#[derive(Clone, Copy, PartialEq, Eq, Structural, Debug)]
pub enum DuplicateStrategy {
    First,
    Last,
    Mark,
}

/// Removes duplicate papers from a list.
pub struct DeduplicatePapersHandler;

impl DeduplicatePapersHandler {
    /// `last` and `mark` name their strategies; anything else, or nothing, means `First`.
    pub fn strategy(name: Option<&str>) -> (r: DuplicateStrategy)
        ensures
            r == match opt_str_view(name) {
                Some(n) => if n == "last"@ {
                    DuplicateStrategy::Last
                } else if n == "mark"@ {
                    DuplicateStrategy::Mark
                } else {
                    DuplicateStrategy::First
                },
                None => DuplicateStrategy::First,
            },
    {
        match name {
            Some(n) => if str_eq(n, "last") {
                DuplicateStrategy::Last
            } else if str_eq(n, "mark") {
                DuplicateStrategy::Mark
            } else {
                DuplicateStrategy::First
            },
            None => DuplicateStrategy::First,
        }
    }
}

/// Lists the papers related to a paper.
pub struct GetRelatedPapersHandler {
    pub sources: Vec<SourceDescriptor>,
}

impl GetRelatedPapersHandler {
    /// The source named by `source_override`, or else `semantic`.
    pub fn select_source(&self, source_override: Option<&str>) -> (r: Result<usize, String>)
        ensures
            ({
                let id = match opt_str_view(source_override) {
                    Some(id) => id,
                    None => "semantic"@,
                };
                result_view(r) == found_or(first_selected(self.sources@, Some(id), no_caps()), not_found_message(id))
            }),
            r matches Ok(i) ==> i < self.sources.len(),
    {
        let id: &str = match source_override {
            Some(id) => id,
            None => "semantic",
        };
        let m = not_found_error(id);
        match find_source_index(&self.sources, Some(id), SourceCapabilities::empty()) {
            Some(i) => Ok(i),
            None => Err(m),
        }
    }
}

/// Asks Semantic Scholar, then Connected Papers, then OpenAlex for recommendations.
pub struct RecommendPapersHandler {
    pub sources: Vec<SourceDescriptor>,
}

/// The recommendation sources, in the order they are asked.
pub open spec fn recommendation_ids() -> Seq<Seq<char>> {
    seq!["semantic"@, "connected_papers"@, "openalex"@]
}

/// For each of the first `k` recommendation identifiers, the first source with it, if any.
pub open spec fn recommendation_positions(srcs: Seq<SourceDescriptor>, k: int) -> Seq<(int, Seq<char>)>
    decreases k,
{
    if k <= 0 {
        Seq::empty()
    } else {
        let p = recommendation_positions(srcs, k - 1);
        let id = recommendation_ids()[k - 1];
        match first_selected(srcs, Some(id), no_caps()) {
            Some(i) => p.push((i, id)),
            None => p,
        }
    }
}

impl RecommendPapersHandler {
    /// Reads `paper_id` (required) and `max_results` (20).
    pub fn parse_args(args: &ToolArgs) -> (r: Result<(String, usize), String>)
        ensures
            match (r, required_str(*args, "paper_id"@)) {
                (Ok(q), Ok(id)) => q.0@ == id && q.1 == arg_usize_or(*args, "max_results"@, 20),
                (Err(m), Err(n)) => m@ == n,
                _ => false,
            },
    {
        let paper_id = require_str(args, "paper_id")?;
        Ok((paper_id, args.get_usize_or("max_results", 20)))
    }

    /// The sources to ask, in order, each with the identifier it answers as.
    pub fn candidates(&self) -> (r: Vec<(usize, String)>)
        ensures
            r@.len() == recommendation_positions(self.sources@, 3).len(),
            forall|j: int| 0 <= j < r@.len() ==> (#[trigger] r@[j]).0 as int == recommendation_positions(self.sources@, 3)[j].0
                && r@[j].1@ == recommendation_positions(self.sources@, 3)[j].1,
    {
        let ids: [&str; 3] = ["semantic", "connected_papers", "openalex"];
        proof {
            reveal_strlit("semantic");
            reveal_strlit("connected_papers");
            reveal_strlit("openalex");
        }
        assert(ids@.map_values(|s: &str| s@) =~= recommendation_ids());
        let mut r: Vec<(usize, String)> = Vec::new();
        let mut k: usize = 0;
        while k < 3
            invariant
                k <= 3,
                ids@.map_values(|s: &str| s@) == recommendation_ids(),
                r@.len() == recommendation_positions(self.sources@, k as int).len(),
                forall|j: int| 0 <= j < r@.len() ==> (#[trigger] r@[j]).0 as int == recommendation_positions(self.sources@, k as int)[j].0
                    && r@[j].1@ == recommendation_positions(self.sources@, k as int)[j].1,
            decreases 3 - k,
        {
            let id = ids[k];
            assert(id@ == recommendation_ids()[k as int]);
            if let Some(i) = find_source_index(&self.sources, Some(id), SourceCapabilities::empty()) {
                r.push((i, to_owned_string(id)));
            }
            k += 1;
        }
        r
    }

    /// The answer when no source recommended anything.
    pub fn failure_message(paper_id: &str) -> (r: String)
        ensures
            r@ == "Could not find recommendations for '"@ + paper_id@ + "' from any source"@,
    {
        let mut m = to_owned_string("Could not find recommendations for '");
        push_str(&mut m, paper_id);
        push_str(&mut m, "' from any source");
        m
    }
}

/// Saves paper metadata to the local library.
pub struct WritePaperHandler;

impl WritePaperHandler {
    /// The `notes` argument, or nothing.
    pub fn notes(args: &ToolArgs) -> (r: String)
        ensures
            r@ == match arg_str(*args, "notes"@) {
                Some(n) => n,
                None => Seq::empty(),
            },
    {
        match args.get_str("notes") {
            Some(n) => to_owned_string(n),
            None => String::new(),
        }
    }
}

/// The data directory of the user (`dirs::data_dir`). It depends on the
/// platform and the environment, so nothing is stated of the result. A
/// directory whose name is not valid UTF-8 comes back converted lossily
/// (`to_string_lossy`), since a `String` cannot hold it.
#[verifier::external_body]
fn data_dir() -> Option<String> {
    match dirs::data_dir() {
        Some(p) => Some(p.to_string_lossy().into_owned()),
        None => None,
    }
}

/// The library file inside a data directory: `research-master/library.json`.
pub open spec fn library_file(data_dir: Seq<char>) -> Seq<char> {
    crate::utils::history::join_path(crate::utils::history::join_path(data_dir, "research-master"@), "library.json"@)
}

/// The library file of a data directory, or an error when there is none.
pub fn library_path_in(data_dir: Option<&str>) -> (r: Result<String, String>)
    ensures
        match (r, opt_str_view(data_dir)) {
            (Ok(p), Some(d)) => p@ == library_file(d),
            (Err(m), None) => m@ == "Could not determine data directory"@,
            _ => false,
        },
{
    match data_dir {
        Some(d) => {
            let dir = crate::utils::history::path_join(d, "research-master");
            Ok(crate::utils::history::path_join(dir.as_str(), "library.json"))
        },
        None => Err(to_owned_string("Could not determine data directory")),
    }
}

/// The library file in the user's data directory.
pub fn get_library_path() -> (r: Result<String, String>)
    ensures
        match r {
            Ok(p) => exists|d: Seq<char>| p@ == #[trigger] library_file(d),
            Err(m) => m@ == "Could not determine data directory"@,
        },
{
    let dir = data_dir();
    let d: Option<&str> = match &dir {
        Some(x) => Some(x.as_str()),
        None => None,
    };
    let r = library_path_in(d);
    proof {
        if r is Ok {
            assert(r->Ok_0@ == library_file(opt_view(dir).unwrap()));
        }
    }
    r
}

/// Searches the web when the paper sources are not enough.
pub struct WebSearchHandler;

impl WebSearchHandler {
    /// Reads `query` (required) and `max_results` (5).
    pub fn parse_args(args: &ToolArgs) -> (r: Result<(String, usize), String>)
        ensures
            match (r, required_str(*args, "query"@)) {
                (Ok(q), Ok(query)) => q.0@ == query && q.1 == arg_usize_or(*args, "max_results"@, 5),
                (Err(m), Err(n)) => m@ == n,
                _ => false,
            },
    {
        let query = require_str(args, "query")?;
        Ok((query, args.get_usize_or("max_results", 5)))
    }

    /// The number of results to ask the web search for: at most ten.
    pub fn result_count(max_results: usize) -> (r: usize)
        ensures
            r == if max_results < 10 {
                max_results
            } else {
                10
            },
    {
        if max_results < 10 {
            max_results
        } else {
            10
        }
    }
}

/// A field of a web search result, as the response gives it.
pub enum JsonText {
    /// The field is not there.
    Missing,
    /// A string.
    Text(String),
    /// Any other value.
    Other,
}

/// A result of the Exa web search, as the response gives it.
pub struct ExaResult {
    pub title: JsonText,
    pub url: JsonText,
    pub text: JsonText,
    pub snippet: JsonText,
}

/// A web search result in the answer.
pub struct WebResult {
    pub title: String,
    pub url: String,
    pub snippet: String,
    pub source: String,
}

/// The answer to a web search.
pub struct WebSearchOutput {
    pub query: String,
    pub source: String,
    pub total_results: usize,
    pub results: Vec<WebResult>,
}

/// The string a field holds, or the empty string.
pub open spec fn text_or_empty(t: JsonText) -> Seq<char> {
    match t {
        JsonText::Text(s) => s@,
        _ => Seq::empty(),
    }
}

/// The snippet of a result: its `text` field when present (empty unless a
/// string), else its `snippet` field.
pub open spec fn snippet_of(r: ExaResult) -> Seq<char> {
    match r.text {
        JsonText::Missing => text_or_empty(r.snippet),
        t => text_or_empty(t),
    }
}

/// The string a field holds, or the empty string.
fn field_text(t: &JsonText) -> (r: String)
    ensures
        r@ == text_or_empty(*t),
{
    match t {
        JsonText::Text(s) => s.clone(),
        _ => String::new(),
    }
}

impl WebSearchHandler {
    /// The search key, when one is set and not empty.
    pub fn usable_key(key: Option<String>) -> (r: Option<String>)
        ensures
            opt_view(r) == match key {
                Some(k) => if k@.len() > 0 {
                    Some(k@)
                } else {
                    None
                },
                None => None,
            },
    {
        match key {
            Some(k) => if k.as_str().is_empty() {
                None
            } else {
                Some(k)
            },
            None => None,
        }
    }

    /// The answer when no search key is set.
    pub fn missing_key_message() -> (r: String)
        ensures
            r@ == "Web search requires EXA_API_KEY environment variable. Get one at https://dashboard.exa.ai/api-keys"@,
    {
        to_owned_string(
            "Web search requires EXA_API_KEY environment variable. Get one at https://dashboard.exa.ai/api-keys",
        )
    }

    /// A search result in the answer's form.
    pub fn web_result(r: &ExaResult) -> (w: WebResult)
        ensures
            w.title@ == text_or_empty(r.title),
            w.url@ == text_or_empty(r.url),
            w.snippet@ == snippet_of(*r),
            w.source@ == "exa"@,
    {
        let snippet = match &r.text {
            JsonText::Missing => field_text(&r.snippet),
            t => field_text(t),
        };
        WebResult {
            title: field_text(&r.title),
            url: field_text(&r.url),
            snippet,
            source: to_owned_string("exa"),
        }
    }

    /// The answer to a web search: every result in order, and their number.
    pub fn web_output(query: &str, results: &Vec<ExaResult>) -> (o: WebSearchOutput)
        ensures
            o.query@ == query@,
            o.source@ == "exa"@,
            o.total_results == results.len(),
            o.results.len() == results.len(),
            forall|i: int|
                0 <= i < results.len() ==> {
                    &&& (#[trigger] o.results@[i]).title@ == text_or_empty(results@[i].title)
                    &&& o.results@[i].url@ == text_or_empty(results@[i].url)
                    &&& o.results@[i].snippet@ == snippet_of(results@[i])
                    &&& o.results@[i].source@ == "exa"@
                },
    {
        let mut out: Vec<WebResult> = Vec::new();
        let mut i: usize = 0;
        while i < results.len()
            invariant
                i <= results.len(),
                out.len() == i,
                forall|j: int|
                    0 <= j < i ==> {
                        &&& (#[trigger] out@[j]).title@ == text_or_empty(results@[j].title)
                        &&& out@[j].url@ == text_or_empty(results@[j].url)
                        &&& out@[j].snippet@ == snippet_of(results@[j])
                        &&& out@[j].source@ == "exa"@
                    },
            decreases results.len() - i,
        {
            out.push(Self::web_result(&results[i]));
            i += 1;
        }
        WebSearchOutput {
            query: to_owned_string(query),
            source: to_owned_string("exa"),
            total_results: out.len(),
            results: out,
        }
    }
}

// ---------------------------------------------------------------------------
// Author profiles
// ---------------------------------------------------------------------------

/// The citation count of a paper, zero when unknown.
pub open spec fn citations_of(p: PaperView) -> u64 {
    match p.citations {
        Some(c) => c,
        None => 0,
    }
}

/// The number of papers cited more than ten times.
pub open spec fn significant_count(ps: Seq<PaperView>) -> nat
    decreases ps.len(),
{
    if ps.len() == 0 {
        0
    } else {
        significant_count(ps.drop_last()) + (if citations_of(ps.last()) > 10 {
            1nat
        } else {
            0
        })
    }
}

/// The title and citation count of the most cited paper; among equally cited
/// papers, the last (as `Iterator::max_by_key` picks).
pub open spec fn most_cited(ps: Seq<PaperView>) -> Option<(Seq<char>, u64)>
    decreases ps.len(),
{
    if ps.len() == 0 {
        None
    } else {
        let last = ps.last();
        match most_cited(ps.drop_last()) {
            None => Some((last.title, citations_of(last))),
            Some(m) => if citations_of(last) >= m.1 {
                Some((last.title, citations_of(last)))
            } else {
                Some(m)
            },
        }
    }
}

/// The year of a paper: its date up to the first `-`.
pub open spec fn year_key(p: PaperView) -> Option<Seq<char>> {
    match p.published_date {
        Some(d) => Some(crate::utils::text::split_on(d, '-')[0]),
        None => None,
    }
}

/// The position of year `y` in a tally.
pub open spec fn tally_position(t: Seq<(Seq<char>, nat)>, y: Seq<char>) -> Option<int>
    decreases t.len(),
{
    if t.len() == 0 {
        None
    } else if t[0].0 == y {
        Some(0)
    } else {
        match tally_position(t.drop_first(), y) {
            Some(i) => Some(i + 1),
            None => None,
        }
    }
}

/// The number of papers of each year, in the order the years first appear.
pub open spec fn year_tally(ps: Seq<PaperView>) -> Seq<(Seq<char>, nat)>
    decreases ps.len(),
{
    if ps.len() == 0 {
        Seq::empty()
    } else {
        let t = year_tally(ps.drop_last());
        match year_key(ps.last()) {
            None => t,
            Some(y) => match tally_position(t, y) {
                Some(i) => t.update(i, (y, t[i].1 + 1)),
                None => t.push((y, 1nat)),
            },
        }
    }
}

/// `y` is the year of the date `d`: the part of `d` before its first `-`,
/// or all of `d` when it has none.
pub open spec fn is_year_of(d: Seq<char>, y: Seq<char>) -> bool {
    &&& y.len() <= d.len()
    &&& d.take(y.len() as int) == y
    &&& forall|j: int| 0 <= j < y.len() ==> y[j] != '-'
    &&& (y.len() == d.len() || d[y.len() as int] == '-')
}

/// The number of papers whose date has the year `y`.
pub open spec fn papers_in_year(ps: Seq<PaperView>, y: Seq<char>) -> nat
    decreases ps.len(),
{
    if ps.len() == 0 {
        0
    } else {
        papers_in_year(ps.drop_last(), y) + (if ps.last().published_date matches Some(d) && is_year_of(d, y) {
            1nat
        } else {
            0
        })
    }
}

/// The first piece of a split ends at the first separator.
proof fn lemma_split_first(s: Seq<char>, sep: char)
    ensures
        ({
            let p0 = crate::utils::text::split_on(s, sep)[0];
            &&& p0.len() <= s.len()
            &&& s.take(p0.len() as int) == p0
            &&& forall|j: int| 0 <= j < p0.len() ==> p0[j] != sep
            &&& (p0.len() == s.len() || s[p0.len() as int] == sep)
            &&& (crate::utils::text::split_on(s, sep).len() == 1) == (p0.len() == s.len())
        }),
    decreases s.len(),
{
    if s.len() > 0 {
        let t = s.drop_last();
        let c = s.last();
        lemma_split_first(t, sep);
        crate::utils::text::lemma_split_on_nonempty(t, sep);
        let p = crate::utils::text::split_on(t, sep);
        let q0 = p[0];
        assert(forall|k: int| 0 <= k < t.len() ==> s[k] == t[k]);
        assert(s.take(q0.len() as int) =~= t.take(q0.len() as int));
        if c != sep && p.len() == 1 {
            assert(q0 =~= t);
            assert(s =~= t.push(c));
            assert(s.take(s.len() as int) =~= s);
        }
    } else {
        assert(s.take(0) =~= Seq::<char>::empty());
    }
}

/// The year of a date is the year that [`year_key`] takes, and no other.
proof fn lemma_year_key(d: Seq<char>)
    ensures
        is_year_of(d, crate::utils::text::split_on(d, '-')[0]),
        forall|y: Seq<char>| #[trigger] is_year_of(d, y) ==> y == crate::utils::text::split_on(d, '-')[0],
{
    lemma_split_first(d, '-');
    let y0 = crate::utils::text::split_on(d, '-')[0];
    assert forall|y: Seq<char>| #[trigger] is_year_of(d, y) implies y == y0 by {
        if y.len() < y0.len() {
            assert(y0[y.len() as int] == d.take(y0.len() as int)[y.len() as int]);
        } else if y0.len() < y.len() {
            assert(y[y0.len() as int] == d.take(y.len() as int)[y0.len() as int]);
        }
        assert(y =~= y0);
    }
}

/// What `tally_position` finds.
proof fn lemma_tally_position_found(t: Seq<(Seq<char>, nat)>, y: Seq<char>)
    ensures
        match tally_position(t, y) {
            Some(i) => 0 <= i < t.len() && t[i].0 == y,
            None => forall|i: int| 0 <= i < t.len() ==> (#[trigger] t[i]).0 != y,
        },
    decreases t.len(),
{
    if t.len() > 0 {
        lemma_tally_position_found(t.drop_first(), y);
        assert forall|i: int| 0 < i < t.len() implies (#[trigger] t[i]) == t.drop_first()[i - 1] by {}
    }
}

/// Publications by year: each year of the tally holds no `-` and counts
/// exactly the papers whose date has that year (the part before its first
/// `-`); years appear once; every year of some paper's date appears.
pub proof fn lemma_publications_by_year(ps: Seq<PaperView>)
    ensures
        forall|i: int|
            0 <= i < year_tally(ps).len() ==> {
                let (y, c) = #[trigger] year_tally(ps)[i];
                &&& c == papers_in_year(ps, y)
                &&& c > 0
                &&& forall|j: int| 0 <= j < y.len() ==> y[j] != '-'
            },
        forall|i: int, j: int|
            0 <= i < j < year_tally(ps).len() ==> (#[trigger] year_tally(ps)[i]).0 != (#[trigger] year_tally(ps)[j]).0,
        forall|y: Seq<char>|
            #[trigger] papers_in_year(ps, y) > 0 ==> exists|i: int|
                0 <= i < year_tally(ps).len() && (#[trigger] year_tally(ps)[i]).0 == y,
    decreases ps.len(),
{
    if ps.len() > 0 {
        let q = ps.drop_last();
        lemma_publications_by_year(q);
        let t = year_tally(q);
        let t2 = year_tally(ps);
        match ps.last().published_date {
            None => {
                assert forall|y: Seq<char>| papers_in_year(ps, y) == papers_in_year(q, y) by {}
            },
            Some(d) => {
                lemma_year_key(d);
                let y0 = crate::utils::text::split_on(d, '-')[0];
                assert(year_key(ps.last()) == Some(y0));
                assert forall|y: Seq<char>|
                    papers_in_year(ps, y) == papers_in_year(q, y) + (if y == y0 {
                        1nat
                    } else {
                        0
                    }) by {
                    if is_year_of(d, y) {
                        assert(y == y0);
                    }
                }
                lemma_tally_position_found(t, y0);
                match tally_position(t, y0) {
                    Some(k) => {
                        assert(t2 == t.update(k, (y0, t[k].1 + 1)));
                        assert forall|i: int| 0 <= i < t2.len() implies {
                            let (y, c) = #[trigger] t2[i];
                            &&& c == papers_in_year(ps, y)
                            &&& c > 0
                            &&& forall|j: int| 0 <= j < y.len() ==> y[j] != '-'
                        } by {
                            if i != k {
                                assert(t2[i] == t[i]);
                                assert(t[i].0 != t[k].0);
                            }
                        }
                        assert forall|y: Seq<char>| #[trigger] papers_in_year(ps, y) > 0 implies exists|i: int|
                            0 <= i < t2.len() && (#[trigger] t2[i]).0 == y by {
                            if y == y0 {
                                assert(t2[k].0 == y);
                            } else {
                                assert(papers_in_year(q, y) > 0);
                                let i = choose|i: int| 0 <= i < t.len() && (#[trigger] t[i]).0 == y;
                                assert(t2[i].0 == y);
                            }
                        }
                    },
                    None => {
                        assert(t2 == t.push((y0, 1nat)));
                        assert(papers_in_year(q, y0) == 0) by {
                            if papers_in_year(q, y0) > 0 {
                                let i = choose|i: int| 0 <= i < t.len() && (#[trigger] t[i]).0 == y0;
                            }
                        }
                        assert forall|i: int| 0 <= i < t2.len() implies {
                            let (y, c) = #[trigger] t2[i];
                            &&& c == papers_in_year(ps, y)
                            &&& c > 0
                            &&& forall|j: int| 0 <= j < y.len() ==> y[j] != '-'
                        } by {
                            if i < t.len() {
                                assert(t2[i] == t[i]);
                            }
                        }
                        assert forall|y: Seq<char>| #[trigger] papers_in_year(ps, y) > 0 implies exists|i: int|
                            0 <= i < t2.len() && (#[trigger] t2[i]).0 == y by {
                            if y == y0 {
                                assert(t2[t.len() as int].0 == y);
                            } else {
                                assert(papers_in_year(q, y) > 0);
                                let i = choose|i: int| 0 <= i < t.len() && (#[trigger] t[i]).0 == y;
                                assert(t2[i].0 == y);
                            }
                        }
                    },
                }
            },
        }
    }
}

/// What one source knows of an author.
pub struct AuthorSourceSummary {
    pub source: String,
    pub total_papers_found: usize,
    pub papers_with_significant_citations: usize,
    pub most_cited_paper: Option<(String, u64)>,
    pub publications_by_year: Vec<(String, usize)>,
    pub recent_papers: Vec<Paper>,
}

/// A tally as years and counts.
pub open spec fn tally_view(v: Seq<(String, usize)>) -> Seq<(Seq<char>, nat)> {
    Seq::new(v.len(), |i: int| (v[i].0@, v[i].1 as nat))
}

fn tally_find(t: &Vec<(String, usize)>, y: &str) -> (r: Option<usize>)
    ensures
        opt_index(r) == tally_position(tally_view(t@), y@),
        r matches Some(i) ==> i < t.len(),
{
    let mut i: usize = 0;
    while i < t.len()
        invariant
            i <= t.len(),
            forall|j: int| 0 <= j < i ==> (#[trigger] t@[j]).0@ != y@,
        decreases t.len() - i,
    {
        if str_eq(t[i].0.as_str(), y) {
            proof {
                lemma_tally_position(tally_view(t@), y@, i as int);
            }
            return Some(i);
        }
        i += 1;
    }
    proof {
        lemma_tally_position(tally_view(t@), y@, i as int);
    }
    None
}

proof fn lemma_tally_position(t: Seq<(Seq<char>, nat)>, y: Seq<char>, i: int)
    requires
        0 <= i <= t.len(),
        forall|j: int| 0 <= j < i ==> (#[trigger] t[j]).0 != y,
        i < t.len() ==> t[i].0 == y,
    ensures
        tally_position(t, y) == (if i < t.len() {
            Some(i)
        } else {
            None::<int>
        }),
    decreases i,
{
    if i > 0 {
        let s = t.drop_first();
        assert forall|j: int| 0 <= j < i - 1 implies (#[trigger] s[j]).0 != y by {
            assert(s[j] == t[j + 1]);
        }
        if i - 1 < s.len() {
            assert(s[i - 1] == t[i]);
        }
        lemma_tally_position(s, y, i - 1);
    }
}

/// Summarizes the papers that one source found for an author: how many, how
/// many are cited more than ten times, the most cited, the number per year,
/// and the first five.
pub fn summarize_author(source_id: &str, papers: &Vec<Paper>) -> (r: AuthorSourceSummary)
    ensures
        r.source@ == source_id@,
        r.total_papers_found == papers.len(),
        r.papers_with_significant_citations == significant_count(paper_views(papers@)),
        match (r.most_cited_paper, most_cited(paper_views(papers@))) {
            (Some(a), Some(b)) => a.0@ == b.0 && a.1 == b.1,
            (None, None) => true,
            _ => false,
        },
        tally_view(r.publications_by_year@) == year_tally(paper_views(papers@)),
        paper_views(r.recent_papers@) == paper_views(papers@).take(
            if papers.len() < 5 {
                papers.len() as int
            } else {
                5
            },
        ),
{
    let ghost ps = paper_views(papers@);
    let mut significant: usize = 0;
    let mut best: Option<(String, u64)> = None;
    let mut tally: Vec<(String, usize)> = Vec::new();
    let mut k: usize = 0;
    assert(ps.take(0) =~= Seq::<PaperView>::empty());
    assert(tally_view(tally@) =~= Seq::<(Seq<char>, nat)>::empty());
    while k < papers.len()
        invariant
            ps == paper_views(papers@),
            k <= papers.len(),
            significant == significant_count(ps.take(k as int)),
            significant <= k,
            match (best, most_cited(ps.take(k as int))) {
                (Some(a), Some(b)) => a.0@ == b.0 && a.1 == b.1,
                (None, None) => true,
                _ => false,
            },
            tally_view(tally@) == year_tally(ps.take(k as int)),
            forall|j: int| 0 <= j < tally.len() ==> (#[trigger] tally@[j]).1 <= k,
        decreases papers.len() - k,
    {
        let ghost t = ps.take(k + 1);
        assert(t.drop_last() =~= ps.take(k as int));
        assert(t.last() == papers@[k as int]@);
        let p = &papers[k];
        let c: u64 = match p.citations {
            Some(c) => c,
            None => 0,
        };
        if c > 10 {
            significant = significant + 1;
        }
        let replace = match &best {
            None => true,
            Some(m) => c >= m.1,
        };
        if replace {
            best = Some((p.title.clone(), c));
        }
        match &p.published_date {
            None => {},
            Some(d) => {
                let pieces = crate::utils::text::split_char(d.as_str(), '-');
                proof {
                    crate::utils::text::lemma_split_on_nonempty(d@, '-');
                    assert(crate::utils::text::views(pieces@)[0] == pieces@[0]@);
                }
                let y = &pieces[0];
                let ghost before = tally_view(tally@);
                match tally_find(&tally, y.as_str()) {
                    Some(i) => {
                        let n = tally[i].1 + 1;
                        let key = y.clone();
                        tally.set(i, (key, n));
                        assert(tally_view(tally@) =~= before.update(i as int, (y@, before[i as int].1 + 1)));
                    },
                    None => {
                        tally.push((y.clone(), 1));
                        assert(tally_view(tally@) =~= before.push((y@, 1nat)));
                    },
                }
            },
        }
        k += 1;
    }
    assert(ps.take(papers.len() as int) =~= ps);
    let n: usize = if papers.len() < 5 {
        papers.len()
    } else {
        5
    };
    let mut recent: Vec<Paper> = Vec::new();
    let mut i: usize = 0;
    while i < n
        invariant
            ps == paper_views(papers@),
            n <= papers.len(),
            i <= n,
            recent.len() == i,
            paper_views(recent@) == ps.take(i as int),
        decreases n - i,
    {
        let c = papers[i].copy();
        let ghost old = recent@;
        recent.push(c);
        assert(ps[i as int] == papers@[i as int]@);
        assert forall|j: int| 0 <= j <= i implies paper_views(recent@)[j] == ps.take(i + 1)[j] by {
            if j < i {
                assert(recent@[j] == old[j]);
                assert(paper_views(old)[j] == old[j]@);
            }
        }
        assert(paper_views(recent@) =~= ps.take(i + 1));
        i += 1;
    }
    AuthorSourceSummary {
        source: to_owned_string(source_id),
        total_papers_found: papers.len(),
        papers_with_significant_citations: significant,
        most_cited_paper: best,
        publications_by_year: tally,
        recent_papers: recent,
    }
}

/// Builds an author profile from every source that can search by author.
pub struct AuthorProfileHandler {
    pub sources: Vec<SourceDescriptor>,
}

impl AuthorProfileHandler {
    /// Reads `author` (required) and `max_results` (20).
    pub fn parse_args(args: &ToolArgs) -> (r: Result<(String, usize), String>)
        ensures
            match (r, required_str(*args, "author"@)) {
                (Ok(q), Ok(a)) => q.0@ == a && q.1 == arg_usize_or(*args, "max_results"@, 20),
                (Err(m), Err(n)) => m@ == n,
                _ => false,
            },
    {
        let author = require_str(args, "author")?;
        Ok((author, args.get_usize_or("max_results", 20)))
    }

    /// The sources to ask: every one that can search by author. When there is
    /// none, the answer is `Author '<author>' not found in any source`.
    pub fn targets(&self, author: &str) -> (r: Result<Vec<usize>, String>)
        ensures
            ({
                let all = all_selected(self.sources@, None, SourceCapabilities { author_search: true, ..no_caps() });
                match r {
                    Ok(v) => positions(v@) == all && all.len() > 0,
                    Err(m) => all.len() == 0 && m@ == "Author '"@ + author@ + "' not found in any source"@,
                }
            }),
    {
        let v = select_all(&self.sources, None, SourceCapabilities::author_search());
        if v.len() == 0 {
            let mut m = to_owned_string("Author '");
            push_str(&mut m, author);
            push_str(&mut m, "' not found in any source");
            Err(m)
        } else {
            Ok(v)
        }
    }
}

// ---------------------------------------------------------------------------
// Batches
// ---------------------------------------------------------------------------

/// What happened to one identifier of a batch.
pub struct BatchOutcome {
    pub query_id: String,
    /// The source that was asked, if one was found.
    pub source: Option<String>,
    pub found: bool,
    pub error: Option<String>,
    pub papers: Vec<Paper>,
}

/// The outcome for one identifier of a batch: the papers of a successful
/// answer (found when there is at least one), or the error.
pub fn batch_outcome(query_id: &str, source: Option<&str>, answer: Result<Vec<Paper>, String>) -> (r: BatchOutcome)
    ensures
        r.query_id@ == query_id@,
        crate::utils::text::opt_view(r.source) == opt_str_view(source),
        match answer {
            Ok(ps) => r.found == (ps.len() > 0) && r.error is None && paper_views(r.papers@) == paper_views(ps@),
            Err(e) => !r.found && crate::utils::text::opt_view(r.error) == Some(e@) && r.papers.len() == 0,
        },
{
    let src = match source {
        Some(s) => Some(to_owned_string(s)),
        None => None,
    };
    match answer {
        Ok(ps) => {
            let found = ps.len() > 0;
            BatchOutcome { query_id: to_owned_string(query_id), source: src, found, error: None, papers: ps }
        },
        Err(e) => BatchOutcome {
            query_id: to_owned_string(query_id),
            source: src,
            found: false,
            error: Some(e),
            papers: Vec::new(),
        },
    }
}

/// The papers of the successful answers, in order.
pub open spec fn ok_papers(answers: Seq<Result<Vec<Paper>, String>>) -> Seq<PaperView>
    decreases answers.len(),
{
    if answers.len() == 0 {
        Seq::empty()
    } else {
        ok_papers(answers.drop_last()) + match answers.last() {
            Ok(ps) => paper_views(ps@),
            Err(_) => Seq::empty(),
        }
    }
}

/// All the papers of the successful answers, in the order of the answers;
/// failed answers add nothing.
pub fn merge_answers(answers: Vec<Result<Vec<Paper>, String>>) -> (r: Vec<Paper>)
    ensures
        paper_views(r@) == ok_papers(answers@),
{
    let mut r: Vec<Paper> = Vec::new();
    let ghost s = answers@;
    let mut i: usize = 0;
    assert(s.take(0) =~= Seq::<Result<Vec<Paper>, String>>::empty());
    assert(paper_views(r@) =~= Seq::<PaperView>::empty());
    while i < answers.len()
        invariant
            s == answers@,
            i <= s.len(),
            paper_views(r@) == ok_papers(s.take(i as int)),
        decreases s.len() - i,
    {
        assert(s.take(i + 1).drop_last() =~= s.take(i as int));
        assert(s.take(i + 1).last() == s[i as int]);
        match &answers[i] {
            Ok(ps) => {
                let ghost start = r@;
                let mut k: usize = 0;
                assert(paper_views(ps@).take(0) =~= Seq::<PaperView>::empty());
                assert(paper_views(r@) =~= paper_views(start) + paper_views(ps@).take(0));
                while k < ps.len()
                    invariant
                        k <= ps.len(),
                        paper_views(r@) == paper_views(start) + paper_views(ps@).take(k as int),
                    decreases ps.len() - k,
                {
                    let ghost before = r@;
                    r.push(ps[k].copy());
                    assert(paper_views(r@) =~= paper_views(before).push(ps@[k as int]@));
                    assert(paper_views(ps@).take(k + 1) =~= paper_views(ps@).take(k as int).push(ps@[k as int]@));
                    assert(paper_views(r@) =~= paper_views(start) + paper_views(ps@).take(k + 1));
                    k += 1;
                }
                assert(paper_views(ps@).take(ps.len() as int) =~= paper_views(ps@));
            },
            Err(_) => {
                assert(paper_views(r@) =~= paper_views(r@) + Seq::<PaperView>::empty());
            },
        }
        i += 1;
    }
    assert(s.take(s.len() as int) =~= s);
    r
}

/// The number of outcomes that found something.
pub open spec fn found_count(v: Seq<BatchOutcome>) -> nat
    decreases v.len(),
{
    if v.len() == 0 {
        0
    } else {
        found_count(v.drop_last()) + (if v.last().found {
            1nat
        } else {
            0
        })
    }
}

/// The identifiers of a batch: the strings of the array, in order.
pub open spec fn batch_ids(v: Seq<Option<String>>) -> Seq<Seq<char>>
    decreases v.len(),
{
    if v.len() == 0 {
        Seq::empty()
    } else {
        let p = batch_ids(v.drop_last());
        match v.last() {
            Some(s) => p.push(s@),
            None => p,
        }
    }
}

/// Looks many identifiers up, each in the source it belongs to.
pub struct BatchGetPapersHandler {
    pub sources: Vec<SourceDescriptor>,
}

impl BatchGetPapersHandler {
    /// Reads `paper_ids` (a required array, of which the strings count; at
    /// least one) and `max_per_source` (3).
    pub fn parse_args(args: &ToolArgs) -> (r: Result<(Vec<String>, usize), String>)
        ensures
            match arg(*args, "paper_ids"@) {
                Some(ArgValue::Array(v)) => if batch_ids(v@).len() == 0 {
                    r matches Err(m) && m@ == "No valid paper IDs provided"@
                } else {
                    r matches Ok(q) && crate::utils::text::views(q.0@) == batch_ids(v@) && q.1 == arg_usize_or(
                        *args,
                        "max_per_source"@,
                        3,
                    )
                },
                _ => r matches Err(m) && m@ == "Missing 'paper_ids' parameter (array of strings)"@,
            },
    {
        let arr = match args.get_array("paper_ids") {
            Some(a) => a,
            None => return Err(to_owned_string("Missing 'paper_ids' parameter (array of strings)")),
        };
        let max_per_source = args.get_usize_or("max_per_source", 3);
        let mut ids: Vec<String> = Vec::new();
        let mut k: usize = 0;
        assert(arr@.take(0) =~= Seq::<Option<String>>::empty());
        assert(crate::utils::text::views(ids@) =~= Seq::<Seq<char>>::empty());
        while k < arr.len()
            invariant
                k <= arr.len(),
                crate::utils::text::views(ids@) == batch_ids(arr@.take(k as int)),
            decreases arr.len() - k,
        {
            assert(arr@.take(k + 1).drop_last() =~= arr@.take(k as int));
            match &arr[k] {
                Some(s) => {
                    ids.push(s.clone());
                    assert(crate::utils::text::views(ids@) =~= batch_ids(arr@.take(k as int)).push(s@));
                },
                None => {},
            }
            k += 1;
        }
        assert(arr@.take(arr.len() as int) =~= arr@);
        if ids.len() == 0 {
            return Err(to_owned_string("No valid paper IDs provided"));
        }
        Ok((ids, max_per_source))
    }

    /// The source that an identifier of the batch is looked up in.
    pub fn plan(&self, paper_id: &str) -> (r: Result<usize, String>)
        requires
            detect_defined(paper_id@),
        ensures
            result_view(r) == detect(self.sources@, paper_id@),
            r matches Ok(i) ==> i < self.sources.len(),
    {
        auto_detect_source(&self.sources, paper_id)
    }

    /// How many identifiers were asked, how many found something, and how many did not.
    pub fn tally(outcomes: &Vec<BatchOutcome>) -> (r: (usize, usize, usize))
        ensures
            r.0 == outcomes.len(),
            r.1 == found_count(outcomes@),
            r.2 == outcomes.len() - found_count(outcomes@),
    {
        let mut found: usize = 0;
        let mut k: usize = 0;
        assert(outcomes@.take(0) =~= Seq::<BatchOutcome>::empty());
        while k < outcomes.len()
            invariant
                k <= outcomes.len(),
                found == found_count(outcomes@.take(k as int)),
                found <= k,
            decreases outcomes.len() - k,
        {
            assert(outcomes@.take(k + 1).drop_last() =~= outcomes@.take(k as int));
            if outcomes[k].found {
                found += 1;
            }
            k += 1;
        }
        assert(outcomes@.take(outcomes.len() as int) =~= outcomes@);
        (outcomes.len(), found, outcomes.len() - found)
    }
}

// ---------------------------------------------------------------------------
// Export
// ---------------------------------------------------------------------------

/// One line of CSV: the identifier, title and authors quoted (with inner quotes
/// doubled), then the DOI and the date as `Debug` writes optional strings.
pub open spec fn csv_line(p: PaperView) -> Seq<char> {
    "\""@ + p.paper_id + "\",\""@ + crate::utils::text::replace_char(p.title, '"', "\"\""@) + "\",\""@
        + crate::utils::text::replace_char(p.authors, '"', "\"\""@) + "\","@
        + crate::utils::text::debug_option_text(p.doi) + ","@ + crate::utils::text::debug_option_text(
        p.published_date,
    )
}

/// The entry for a paper in an export format; `json` is left to the caller,
/// which serializes the paper; an unknown format means BibTeX.
pub open spec fn export_entry(p: PaperView, format: Seq<char>) -> Option<Seq<char>> {
    if format == "json"@ {
        None
    } else if format == "apa"@ {
        Some(crate::utils::cite::citation(p, crate::utils::cite::CitationStyle::Apa))
    } else if format == "mla"@ {
        Some(crate::utils::cite::citation(p, crate::utils::cite::CitationStyle::Mla))
    } else if format == "chicago"@ {
        Some(crate::utils::cite::citation(p, crate::utils::cite::CitationStyle::Chicago))
    } else if format == "csv"@ {
        Some(csv_line(p))
    } else {
        Some(crate::utils::cite::citation(p, crate::utils::cite::CitationStyle::Bibtex))
    }
}

/// Each citation format name exports the citation in the style of that name:
/// `apa`, `mla`, `chicago` and `bibtex` give the APA, MLA, Chicago and BibTeX
/// citations of the paper, `json` gives no entry, and any other unknown name
/// falls back to BibTeX.
pub proof fn lemma_export_formats(p: PaperView, other: Seq<char>)
    requires
        other != "apa"@ && other != "mla"@ && other != "chicago"@ && other != "csv"@ && other != "json"@,
    ensures
        export_entry(p, "apa"@) == Some(crate::utils::cite::citation(p, CitationStyle::Apa)),
        export_entry(p, "mla"@) == Some(crate::utils::cite::citation(p, CitationStyle::Mla)),
        export_entry(p, "chicago"@) == Some(crate::utils::cite::citation(p, CitationStyle::Chicago)),
        export_entry(p, "bibtex"@) == Some(crate::utils::cite::citation(p, CitationStyle::Bibtex)),
        export_entry(p, other) == Some(crate::utils::cite::citation(p, CitationStyle::Bibtex)),
        export_entry(p, "json"@) is None,
{
    reveal_strlit("json");
    reveal_strlit("csv");
    reveal_strlit("apa");
    reveal_strlit("mla");
    reveal_strlit("chicago");
    reveal_strlit("bibtex");
    assert("apa"@.len() != "json"@.len() && "apa"@[0] != "csv"@[0]);
    assert("mla"@.len() != "json"@.len() && "mla"@[0] != "csv"@[0] && "mla"@[0] != "apa"@[0]);
    assert("chicago"@.len() != "json"@.len() && "chicago"@.len() != "csv"@.len() && "chicago"@.len() != "apa"@.len()
        && "chicago"@.len() != "mla"@.len());
    assert("bibtex"@.len() != "json"@.len() && "bibtex"@.len() != "csv"@.len() && "bibtex"@.len() != "apa"@.len()
        && "bibtex"@.len() != "mla"@.len() && "bibtex"@.len() != "chicago"@.len());
}

/// Exports papers as citations, CSV or JSON.
pub struct ExportPapersHandler {
    pub sources: Vec<SourceDescriptor>,
}

impl ExportPapersHandler {
    /// The `format` argument, `bibtex` by default, in lowercase.
    pub fn format(args: &ToolArgs) -> (r: String)
        ensures
            r@ == lowercase(
                match arg_str(*args, "format"@) {
                    Some(f) => f,
                    None => "bibtex"@,
                },
            ),
    {
        match args.get_str("format") {
            Some(f) => to_lowercase(f),
            None => to_lowercase("bibtex"),
        }
    }

    /// The entry for one paper, or nothing for `json`. The citation formats
    /// (every format but `json` and `csv`) cut the date at its fourth byte.
    pub fn entry(paper: &Paper, format: &str) -> (r: Option<String>)
        requires
            !(format@ == "json"@ || format@ == "csv"@) ==> crate::utils::cite::year_slicable(
                paper@.published_date,
            ),
        ensures
            crate::utils::text::opt_view(r) == export_entry(paper@, format@),
    {
        proof {
            reveal_strlit("json");
            reveal_strlit("csv");
            reveal_strlit("apa");
            reveal_strlit("mla");
            reveal_strlit("chicago");
            assert("apa"@[0] != "csv"@[0] && "apa"@.len() != "json"@.len());
            assert("mla"@[0] != "csv"@[0] && "mla"@.len() != "json"@.len());
            assert("chicago"@.len() != "csv"@.len() && "chicago"@.len() != "json"@.len());
        }
        if str_eq(format, "json") {
            None
        } else if str_eq(format, "apa") {
            Some(format_citation(paper, CitationStyle::Apa))
        } else if str_eq(format, "mla") {
            Some(format_citation(paper, CitationStyle::Mla))
        } else if str_eq(format, "chicago") {
            Some(format_citation(paper, CitationStyle::Chicago))
        } else if str_eq(format, "csv") {
            let mut r = to_owned_string("\"");
            push_str(&mut r, paper.paper_id.as_str());
            push_str(&mut r, "\",\"");
            let t = crate::utils::text::replace_char_str(paper.title.as_str(), '"', "\"\"");
            push_str(&mut r, t.as_str());
            push_str(&mut r, "\",\"");
            let a = crate::utils::text::replace_char_str(paper.authors.as_str(), '"', "\"\"");
            push_str(&mut r, a.as_str());
            push_str(&mut r, "\",");
            let d = crate::utils::text::debug_option(&paper.doi);
            push_str(&mut r, d.as_str());
            push_str(&mut r, ",");
            let pd = crate::utils::text::debug_option(&paper.published_date);
            push_str(&mut r, pd.as_str());
            Some(r)
        } else {
            Some(format_citation(paper, CitationStyle::Bibtex))
        }
    }
}

// ---------------------------------------------------------------------------
// Listing sources
// ---------------------------------------------------------------------------

/// `a` comes before `b` in the order of `String`: lexicographic by character
/// (which is the order of the UTF-8 bytes).
pub open spec fn text_lt(a: Seq<char>, b: Seq<char>) -> bool
    decreases a.len(),
{
    if a.len() == 0 {
        b.len() > 0
    } else if b.len() == 0 {
        false
    } else if a[0] != b[0] {
        (a[0] as u32) < (b[0] as u32)
    } else {
        text_lt(a.drop_first(), b.drop_first())
    }
}

proof fn lemma_text_lt_asym(a: Seq<char>, b: Seq<char>)
    ensures
        text_lt(a, b) ==> !text_lt(b, a),
    decreases a.len(),
{
    if a.len() > 0 && b.len() > 0 && a[0] == b[0] {
        lemma_text_lt_asym(a.drop_first(), b.drop_first());
    }
}

proof fn lemma_text_lt_total(a: Seq<char>, b: Seq<char>)
    ensures
        !text_lt(a, b) && !text_lt(b, a) ==> a == b,
    decreases a.len(),
{
    broadcast use vstd::utf8::char_u32_cast;

    if a.len() > 0 && b.len() > 0 {
        if a[0] == b[0] {
            lemma_text_lt_total(a.drop_first(), b.drop_first());
            if a.drop_first() == b.drop_first() {
                assert(a =~= seq![a[0]] + a.drop_first());
                assert(b =~= seq![b[0]] + b.drop_first());
            }
        } else {
            assert((a[0] as u32) != (b[0] as u32)) by {
                vstd::utf8::char_u32_cast(a[0], a[0] as u32);
                vstd::utf8::char_u32_cast(b[0], b[0] as u32);
            }
        }
    } else if a.len() == 0 && b.len() == 0 {
        assert(a =~= b);
    }
}

proof fn lemma_text_lt_trans(a: Seq<char>, b: Seq<char>, c: Seq<char>)
    ensures
        text_lt(a, b) && text_lt(b, c) ==> text_lt(a, c),
    decreases a.len(),
{
    if a.len() > 0 && b.len() > 0 && c.len() > 0 && a[0] == b[0] && b[0] == c[0] {
        lemma_text_lt_trans(a.drop_first(), b.drop_first(), c.drop_first());
    }
}

/// The entry of the source list for one source.
pub struct SourceInfo {
    pub id: String,
    pub name: String,
    pub search: bool,
    pub download: bool,
    pub read: bool,
    pub citations: bool,
    pub doi_lookup: bool,
    pub author_search: bool,
}

/// `info` describes `s`.
pub open spec fn describes(info: SourceInfo, s: SourceDescriptor) -> bool {
    &&& info.id@ == s.id@
    &&& info.name@ == s.name@
    &&& info.search == s.capabilities.search
    &&& info.download == s.capabilities.download
    &&& info.read == s.capabilities.read
    &&& info.citations == s.capabilities.citations
    &&& info.doi_lookup == s.capabilities.doi_lookup
    &&& info.author_search == s.capabilities.author_search
}

/// The entries are in the order of their identifiers.
pub open spec fn sorted_by_id(r: Seq<SourceInfo>) -> bool {
    forall|i: int, j: int| 0 <= i < j < r.len() ==> !text_lt(#[trigger] r[j].id@, #[trigger] r[i].id@)
}

/// `p` places the sources `srcs[..n]` in the order of `r`, and keeps sources
/// with equal identifiers in the order they were given (a stable sort).
pub open spec fn stable_arrangement(p: Seq<int>, r: Seq<SourceInfo>, srcs: Seq<SourceDescriptor>, n: int) -> bool {
    &&& p.len() == r.len() == n
    &&& forall|i: int| 0 <= i < n ==> 0 <= #[trigger] p[i] < n && describes(r[i], srcs[p[i]])
    &&& forall|i: int, j: int| 0 <= i < j < n ==> #[trigger] p[i] != #[trigger] p[j]
    &&& forall|i: int, j: int| 0 <= i < j < n && (#[trigger] r[i]).id@ == (#[trigger] r[j]).id@ ==> p[i] < p[j]
}

fn text_less(a: &str, b: &str) -> (r: bool)
    ensures
        r == text_lt(a@, b@),
{
    let va = chars_of(a);
    let vb = chars_of(b);
    let mut i: usize = 0;
    assert(a@.skip(0) =~= a@);
    assert(b@.skip(0) =~= b@);
    while i < va.len() && i < vb.len() && va[i] == vb[i]
        invariant
            va@ == a@,
            vb@ == b@,
            i <= va.len(),
            i <= vb.len(),
            text_lt(a@, b@) == text_lt(a@.skip(i as int), b@.skip(i as int)),
        decreases va.len() - i,
    {
        assert(a@.skip(i as int).drop_first() =~= a@.skip(i + 1));
        assert(b@.skip(i as int).drop_first() =~= b@.skip(i + 1));
        i += 1;
    }
    if i == va.len() {
        i < vb.len()
    } else if i == vb.len() {
        false
    } else {
        (va[i] as u32) < (vb[i] as u32)
    }
}

/// Lists every source with its capabilities.
pub struct ListSourcesHandler {
    pub sources: Vec<SourceDescriptor>,
}

impl ListSourcesHandler {
    /// Every source with its capabilities, in the order of their identifiers;
    /// sources with the same identifier keep their order.
    #[verifier::rlimit(40)]
    #[verifier::spinoff_prover]
    pub fn source_list(&self) -> (r: Vec<SourceInfo>)
        ensures
            sorted_by_id(r@),
            exists|p: Seq<int>| stable_arrangement(p, r@, self.sources@, self.sources.len() as int),
    {
        let n = self.sources.len();
        let mut r: Vec<SourceInfo> = Vec::new();
        let ghost mut p: Seq<int> = Seq::empty();
        let mut k: usize = 0;
        while k < n
            invariant
                n == self.sources.len(),
                k <= n,
                sorted_by_id(r@),
                stable_arrangement(p, r@, self.sources@, k as int),
            decreases n - k,
        {
            let s = &self.sources[k];
            let x = SourceInfo {
                id: s.id.clone(),
                name: s.name.clone(),
                search: s.capabilities.search,
                download: s.capabilities.download,
                read: s.capabilities.read,
                citations: s.capabilities.citations,
                doi_lookup: s.capabilities.doi_lookup,
                author_search: s.capabilities.author_search,
            };
            let mut pos: usize = 0;
            while pos < r.len() && !text_less(x.id.as_str(), r[pos].id.as_str())
                invariant
                    pos <= r.len(),
                    forall|q: int| 0 <= q < pos ==> !text_lt(x.id@, #[trigger] r@[q].id@),
                decreases r.len() - pos,
            {
                pos += 1;
            }
            proof {
                assert forall|q: int| pos <= q < r.len() implies text_lt(x.id@, #[trigger] r@[q].id@) by {
                    if q > pos {
                        assert(!text_lt(r@[q].id@, r@[pos as int].id@));
                        lemma_text_lt_total(r@[q].id@, r@[pos as int].id@);
                        lemma_text_lt_trans(x.id@, r@[pos as int].id@, r@[q].id@);
                    }
                }
            }
            let ghost old_r = r@;
            let ghost old_p = p;
            r.insert(pos, x);
            proof {
                p = old_p.insert(pos as int, k as int);
                old_p.insert_ensures(pos as int, k as int);
                old_r.insert_ensures(pos as int, x);
                assert(r@ == old_r.insert(pos as int, x));
                assert forall|i: int, j: int| 0 <= i < j < r@.len() implies !text_lt(#[trigger] r@[j].id@, #[trigger] r@[i].id@) by {
                    if j < pos {
                        assert(r@[i] == old_r[i] && r@[j] == old_r[j]);
                    } else if j == pos {
                        assert(r@[i] == old_r[i]);
                    } else if i > pos {
                        assert(r@[i] == old_r[i - 1] && r@[j] == old_r[j - 1]);
                    } else if i == pos {
                        assert(r@[j] == old_r[j - 1]);
                        lemma_text_lt_asym(x.id@, old_r[j - 1].id@);
                    } else {
                        assert(r@[i] == old_r[i] && r@[j] == old_r[j - 1]);
                    }
                }
                assert forall|i: int| 0 <= i < k + 1 implies 0 <= #[trigger] p[i] < k + 1 && describes(r@[i], self.sources@[p[i]]) by {
                    if i < pos {
                        assert(p[i] == old_p[i] && r@[i] == old_r[i]);
                    } else if i > pos {
                        assert(p[i] == old_p[i - 1] && r@[i] == old_r[i - 1]);
                    }
                }
                assert forall|i: int, j: int| 0 <= i < j < k + 1 implies #[trigger] p[i] != #[trigger] p[j] by {
                    if j < pos {
                        assert(p[i] == old_p[i] && p[j] == old_p[j]);
                    } else if j == pos {
                        assert(p[i] == old_p[i]);
                    } else if i > pos {
                        assert(p[i] == old_p[i - 1] && p[j] == old_p[j - 1]);
                    } else if i == pos {
                        assert(p[j] == old_p[j - 1]);
                    } else {
                        assert(p[i] == old_p[i] && p[j] == old_p[j - 1]);
                    }
                }
                assert forall|i: int, j: int| 0 <= i < j < k + 1 && (#[trigger] r@[i]).id@ == (#[trigger] r@[j]).id@ implies p[i] < p[j] by {
                    if j < pos {
                        assert(p[i] == old_p[i] && p[j] == old_p[j]);
                        assert(r@[i] == old_r[i] && r@[j] == old_r[j]);
                    } else if j == pos {
                        assert(p[i] == old_p[i]);
                    } else if i > pos {
                        assert(p[i] == old_p[i - 1] && p[j] == old_p[j - 1]);
                        assert(r@[i] == old_r[i - 1] && r@[j] == old_r[j - 1]);
                    } else if i == pos {
                        assert(r@[j] == old_r[j - 1]);
                        assert(text_lt(x.id@, old_r[j - 1].id@));
                        lemma_text_lt_asym(x.id@, old_r[j - 1].id@);
                        lemma_text_lt_total(x.id@, x.id@);
                    } else {
                        assert(p[i] == old_p[i] && p[j] == old_p[j - 1]);
                        assert(r@[i] == old_r[i] && r@[j] == old_r[j - 1]);
                    }
                }
            }
            k += 1;
        }
        assert(stable_arrangement(p, r@, self.sources@, n as int));
        r
    }
}

} // verus!
