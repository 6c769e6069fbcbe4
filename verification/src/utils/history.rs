//! History tracking for searches and downloads.
//!
//! The history is a file of entries, one per line, in the config directory.
//! This module decides what an entry holds, where the file lies, and which
//! entries a reader gets back; the file itself is read and written by the caller.
use vstd::prelude::*;
use crate::utils::text::{opt_view, opt_str_view, to_owned_string, push_str, copy_opt_string, chars_of};

verus! {

broadcast use vstd::string::group_string_axioms;

/// History entry type
#[derive(Clone, Copy, PartialEq, Eq, Structural, Debug)]
pub enum HistoryEntryType {
    /// Search query
    Search,
    /// Paper download
    Download,
    /// Paper viewed/read
    View,
}

/// A single history entry
pub struct HistoryEntry {
    /// Type of entry
    pub entry_type: HistoryEntryType,
    /// Timestamp (Unix epoch)
    pub timestamp: u64,
    /// Query or paper ID
    pub query: String,
    /// Source (if applicable)
    pub source: Option<String>,
    /// Paper title (for downloads/views)
    pub title: Option<String>,
    /// Additional details
    pub details: Option<String>,
}

/// The model of a [`HistoryEntry`].
pub struct HistoryEntryView {
    pub entry_type: HistoryEntryType,
    pub timestamp: u64,
    pub query: Seq<char>,
    pub source: Option<Seq<char>>,
    pub title: Option<Seq<char>>,
    pub details: Option<Seq<char>>,
}

impl View for HistoryEntry {
    type V = HistoryEntryView;

    open spec fn view(&self) -> HistoryEntryView {
        HistoryEntryView {
            entry_type: self.entry_type,
            timestamp: self.timestamp,
            query: self.query@,
            source: opt_view(self.source),
            title: opt_view(self.title),
            details: opt_view(self.details),
        }
    }
}

/// The views of a sequence of entries.
pub open spec fn entry_views(v: Seq<HistoryEntry>) -> Seq<HistoryEntryView> {
    Seq::new(v.len(), |i: int| v[i]@)
}

impl HistoryEntry {
    /// A copy of this entry.
    pub fn copy(&self) -> (r: HistoryEntry)
        ensures
            r@ == self@,
    {
        HistoryEntry {
            entry_type: self.entry_type,
            timestamp: self.timestamp,
            query: self.query.clone(),
            source: copy_opt_string(&self.source),
            title: copy_opt_string(&self.title),
            details: copy_opt_string(&self.details),
        }
    }
}

/// The entries of type `t`, in order.
pub open spec fn entries_of_type(es: Seq<HistoryEntryView>, t: HistoryEntryType) -> Seq<HistoryEntryView>
    decreases es.len(),
{
    if es.len() == 0 {
        Seq::empty()
    } else {
        let p = entries_of_type(es.drop_last(), t);
        if es.last().entry_type == t {
            p.push(es.last())
        } else {
            p
        }
    }
}

/// The entries that parsed, in the order of their lines.
pub open spec fn parsed_entries(lines: Seq<Option<HistoryEntryView>>) -> Seq<HistoryEntryView>
    decreases lines.len(),
{
    if lines.len() == 0 {
        Seq::empty()
    } else {
        let p = parsed_entries(lines.drop_last());
        match lines.last() {
            Some(e) => p.push(e),
            None => p,
        }
    }
}

/// The views of parsed lines.
pub open spec fn line_views(v: Seq<Option<HistoryEntry>>) -> Seq<Option<HistoryEntryView>> {
    Seq::new(
        v.len(),
        |i: int|
            match v[i] {
                Some(e) => Some(e@),
                None => None,
            },
    )
}

/// What a reader of the history gets back: of the first `2 * limit` lines,
/// the entries that parsed, newest first, at most `limit` of them.
pub open spec fn recent(lines: Seq<Option<HistoryEntryView>>, limit: nat) -> Seq<HistoryEntryView> {
    let read = if 2 * limit < lines.len() {
        lines.take((2 * limit) as int)
    } else {
        lines
    };
    let es = parsed_entries(read).reverse();
    if limit < es.len() {
        es.take(limit as int)
    } else {
        es
    }
}

/// `base` joined with the relative component `comp`, as `Path::join` does:
/// with a `/` between them unless `base` is empty or already ends with one.
pub open spec fn join_path(base: Seq<char>, comp: Seq<char>) -> Seq<char> {
    if base.len() == 0 {
        comp
    } else if base.last() == '/' {
        base + comp
    } else {
        base + "/"@ + comp
    }
}

/// The history file under a configuration directory.
pub open spec fn history_path(config_dir: Seq<char>) -> Seq<char> {
    join_path(join_path(config_dir, "research-master"@), "history.jsonl"@)
}

/// `base.join(comp)` for a relative component.
pub fn path_join(base: &str, comp: &str) -> (r: String)
    ensures
        r@ == join_path(base@, comp@),
{
    let v = chars_of(base);
    if v.len() == 0 {
        return to_owned_string(comp);
    }
    let mut r = to_owned_string(base);
    if v[v.len() - 1] != '/' {
        push_str(&mut r, "/");
    }
    push_str(&mut r, comp);
    r
}

/// The configuration directory of the user (`dirs::config_dir`). It depends on
/// the platform and the environment, so nothing is stated of the result. A
/// directory whose name is not valid UTF-8 comes back converted lossily
/// (`to_string_lossy`), since a `String` cannot hold it.
#[verifier::external_body]
fn config_dir() -> Option<String> {
    match dirs::config_dir() {
        Some(p) => Some(p.to_string_lossy().into_owned()),
        None => None,
    }
}

/// History service
pub struct HistoryService {
    /// History file path
    path: String,
}

impl HistoryService {
    /// The history file path.
    pub closed spec fn path_view(&self) -> Seq<char> {
        self.path@
    }

    /// Create a new history service in the user's configuration directory.
    pub fn new() -> (r: HistoryService)
        ensures
            exists|dir: Seq<char>| r.path_view() == #[trigger] history_path(dir),
    {
        let dir = config_dir();
        let r = Self::in_config_dir(opt_as_str(&dir));
        let ghost d = match opt_view(dir) {
            Some(d) => d,
            None => "~/.config"@,
        };
        assert(r.path_view() == history_path(d));
        r
    }

    /// The history service of a configuration directory, `~/.config` when there is none.
    pub fn in_config_dir(config_dir: Option<&str>) -> (r: HistoryService)
        ensures
            r.path_view() == history_path(
                match opt_str_view(config_dir) {
                    Some(d) => d,
                    None => "~/.config"@,
                },
            ),
    {
        let dir: &str = match config_dir {
            Some(d) => d,
            None => "~/.config",
        };
        let app_dir = path_join(dir, "research-master");
        HistoryService { path: path_join(app_dir.as_str(), "history.jsonl") }
    }

    /// A history service with its file at `path`.
    pub fn with_path(path: &str) -> (r: HistoryService)
        ensures
            r.path_view() == path@,
    {
        HistoryService { path: to_owned_string(path) }
    }

    /// The entry that recording a search adds.
    pub fn add_search(&self, query: &str, source: Option<&str>, timestamp: u64) -> (r: HistoryEntry)
        ensures
            r@ == (HistoryEntryView {
                entry_type: HistoryEntryType::Search,
                timestamp,
                query: query@,
                source: opt_str_view(source),
                title: None,
                details: None,
            }),
    {
        HistoryEntry {
            entry_type: HistoryEntryType::Search,
            timestamp,
            query: to_owned_string(query),
            source: opt_owned(source),
            title: None,
            details: None,
        }
    }

    /// The entry that recording a download adds; `path` is where the file went.
    pub fn add_download(
        &self,
        paper_id: &str,
        source: &str,
        title: Option<&str>,
        path: Option<&str>,
        timestamp: u64,
    ) -> (r: HistoryEntry)
        ensures
            r@ == (HistoryEntryView {
                entry_type: HistoryEntryType::Download,
                timestamp,
                query: paper_id@,
                source: Some(source@),
                title: opt_str_view(title),
                details: opt_str_view(path),
            }),
    {
        HistoryEntry {
            entry_type: HistoryEntryType::Download,
            timestamp,
            query: to_owned_string(paper_id),
            source: Some(to_owned_string(source)),
            title: opt_owned(title),
            details: opt_owned(path),
        }
    }

    /// The entry that recording a view adds.
    pub fn add_view(&self, paper_id: &str, source: &str, title: Option<&str>, timestamp: u64) -> (r: HistoryEntry)
        ensures
            r@ == (HistoryEntryView {
                entry_type: HistoryEntryType::View,
                timestamp,
                query: paper_id@,
                source: Some(source@),
                title: opt_str_view(title),
                details: None,
            }),
    {
        HistoryEntry {
            entry_type: HistoryEntryType::View,
            timestamp,
            query: to_owned_string(paper_id),
            source: Some(to_owned_string(source)),
            title: opt_owned(title),
            details: None,
        }
    }

    /// The entries a reader gets back from the lines of the file, each parsed
    /// or not: of the first `2 * limit` lines, those that parsed, newest first,
    /// at most `limit`.
    pub fn recent_entries(&self, lines: &Vec<Option<HistoryEntry>>, limit: usize) -> (r: Vec<HistoryEntry>)
        requires
            2 * limit <= usize::MAX,
        ensures
            entry_views(r@) == recent(line_views(lines@), limit as nat),
    {
        let ghost lv = line_views(lines@);
        let read = if 2 * limit < lines.len() {
            2 * limit
        } else {
            lines.len()
        };
        let mut parsed: Vec<HistoryEntry> = Vec::new();
        let mut k: usize = 0;
        assert(lv.take(0) =~= Seq::<Option<HistoryEntryView>>::empty());
        assert(entry_views(parsed@) =~= Seq::<HistoryEntryView>::empty());
        while k < read
            invariant
                lv == line_views(lines@),
                read <= lines.len(),
                k <= read,
                entry_views(parsed@) == parsed_entries(lv.take(k as int)),
            decreases read - k,
        {
            assert(lv.take(k + 1).drop_last() =~= lv.take(k as int));
            match &lines[k] {
                Some(e) => {
                    let c = e.copy();
                    parsed.push(c);
                    assert(entry_views(parsed@) =~= parsed_entries(lv.take(k as int)).push(e@));
                },
                None => {},
            }
            k += 1;
        }
        let ghost read_lines = lv.take(read as int);
        assert(read_lines =~= (if 2 * (limit as nat) < lv.len() {
            lv.take((2 * limit) as int)
        } else {
            lv
        }));
        let ghost es = parsed_entries(read_lines).reverse();
        let n = if limit < parsed.len() {
            limit
        } else {
            parsed.len()
        };
        let mut r: Vec<HistoryEntry> = Vec::new();
        let mut i: usize = 0;
        while i < n
            invariant
                n <= parsed.len(),
                i <= n,
                r.len() == i,
                entry_views(parsed@) == parsed_entries(read_lines),
                es == parsed_entries(read_lines).reverse(),
                entry_views(r@) == es.take(i as int),
            decreases n - i,
        {
            let j = parsed.len() - 1 - i;
            let c = parsed[j].copy();
            let ghost old = r@;
            r.push(c);
            assert(es[i as int] == parsed@[j as int]@);
            assert forall|q: int| 0 <= q <= i implies entry_views(r@)[q] == es.take(i + 1)[q] by {
                if q < i {
                    assert(r@[q] == old[q]);
                    assert(entry_views(old)[q] == old[q]@);
                }
            }
            assert(entry_views(r@) =~= es.take(i + 1));
            i += 1;
        }
        if limit >= parsed.len() {
            assert(es.take(n as int) =~= es);
        }
        r
    }

    /// Filter entries by type
    pub fn filter_entries(&self, entries: &Vec<HistoryEntry>, entry_type: HistoryEntryType) -> (r: Vec<HistoryEntry>)
        ensures
            entry_views(r@) == entries_of_type(entry_views(entries@), entry_type),
    {
        let ghost ev = entry_views(entries@);
        let mut r: Vec<HistoryEntry> = Vec::new();
        let mut k: usize = 0;
        assert(ev.take(0) =~= Seq::<HistoryEntryView>::empty());
        assert(entry_views(r@) =~= Seq::<HistoryEntryView>::empty());
        while k < entries.len()
            invariant
                ev == entry_views(entries@),
                k <= entries.len(),
                entry_views(r@) == entries_of_type(ev.take(k as int), entry_type),
            decreases entries.len() - k,
        {
            assert(ev.take(k + 1).drop_last() =~= ev.take(k as int));
            assert(ev.take(k + 1).last() == entries@[k as int]@);
            if entries[k].entry_type == entry_type {
                let c = entries[k].copy();
                r.push(c);
                assert(entry_views(r@) =~= entries_of_type(ev.take(k as int), entry_type).push(entries@[k as int]@));
            }
            k += 1;
        }
        assert(ev.take(entries.len() as int) =~= ev);
        r
    }

    /// Get history file path (for external access)
    pub fn path(&self) -> (r: &str)
        ensures
            r@ == self.path_view(),
    {
        self.path.as_str()
    }
}

impl Default for HistoryService {
    fn default() -> (r: HistoryService)
        ensures
            exists|dir: Seq<char>| r.path_view() == #[trigger] history_path(dir),
    {
        Self::new()
    }
}

fn opt_owned(o: Option<&str>) -> (r: Option<String>)
    ensures
        opt_view(r) == opt_str_view(o),
{
    match o {
        Some(s) => Some(to_owned_string(s)),
        None => None,
    }
}

fn opt_as_str(o: &Option<String>) -> (r: Option<&str>)
    ensures
        opt_str_view(r) == opt_view(*o),
{
    match o {
        Some(s) => Some(s.as_str()),
        None => None,
    }
}

/// The entries of one type, then of another: filtering by every type splits
/// the entries, and filtering twice by one type changes nothing.
pub proof fn lemma_filter_partition(es: Seq<HistoryEntryView>)
    ensures
        entries_of_type(es, HistoryEntryType::Search).len() + entries_of_type(es, HistoryEntryType::Download).len()
            + entries_of_type(es, HistoryEntryType::View).len() == es.len(),
    decreases es.len(),
{
    if es.len() > 0 {
        lemma_filter_partition(es.drop_last());
    }
}

/// Filtering twice by one type is filtering once.
pub proof fn lemma_filter_idempotent(es: Seq<HistoryEntryView>, t: HistoryEntryType)
    ensures
        entries_of_type(entries_of_type(es, t), t) == entries_of_type(es, t),
    decreases es.len(),
{
    if es.len() > 0 {
        lemma_filter_idempotent(es.drop_last(), t);
        let p = entries_of_type(es.drop_last(), t);
        if es.last().entry_type == t {
            let q = p.push(es.last());
            assert(q.drop_last() =~= p);
        }
    }
}

/// A reader never gets more than `limit` entries, and the entries it gets are
/// entries that parsed.
pub proof fn lemma_recent_bounded(lines: Seq<Option<HistoryEntryView>>, limit: nat)
    ensures
        recent(lines, limit).len() <= limit,
{
}

} // verus!
