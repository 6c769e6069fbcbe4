//! Research sources: what they can do, how they fail, and the sources themselves.
use vstd::prelude::*;
use crate::utils::text::{
    to_owned_string, replace_str_str, replace_str, trim, trim_str, str_eq,
};

pub mod citeseerx;
pub mod medrxiv;
pub mod openaire;
pub mod orcid;
pub mod scispace;
pub mod unpaywall;
pub mod zenodo;

verus! {

/// What a source can do.
#[derive(Clone, Copy, PartialEq, Eq, Structural, Debug)]
pub struct SourceCapabilities {
    pub search: bool,
    pub download: bool,
    pub read: bool,
    pub citations: bool,
    pub doi_lookup: bool,
    pub author_search: bool,
}

/// Every capability of `b` is one of `a`.
pub open spec fn caps_contain(a: SourceCapabilities, b: SourceCapabilities) -> bool {
    &&& b.search ==> a.search
    &&& b.download ==> a.download
    &&& b.read ==> a.read
    &&& b.citations ==> a.citations
    &&& b.doi_lookup ==> a.doi_lookup
    &&& b.author_search ==> a.author_search
}

/// The capabilities of `a` and of `b` together.
pub open spec fn caps_union(a: SourceCapabilities, b: SourceCapabilities) -> SourceCapabilities {
    SourceCapabilities {
        search: a.search || b.search,
        download: a.download || b.download,
        read: a.read || b.read,
        citations: a.citations || b.citations,
        doi_lookup: a.doi_lookup || b.doi_lookup,
        author_search: a.author_search || b.author_search,
    }
}

/// No capability.
pub open spec fn no_caps() -> SourceCapabilities {
    SourceCapabilities {
        search: false,
        download: false,
        read: false,
        citations: false,
        doi_lookup: false,
        author_search: false,
    }
}

impl SourceCapabilities {
    /// No capability.
    pub fn empty() -> (r: SourceCapabilities)
        ensures
            r == no_caps(),
    {
        SourceCapabilities {
            search: false,
            download: false,
            read: false,
            citations: false,
            doi_lookup: false,
            author_search: false,
        }
    }

    /// Every capability.
    pub fn all() -> (r: SourceCapabilities)
        ensures
            r.search && r.download && r.read && r.citations && r.doi_lookup && r.author_search,
    {
        SourceCapabilities {
            search: true,
            download: true,
            read: true,
            citations: true,
            doi_lookup: true,
            author_search: true,
        }
    }

    /// Searching by query.
    pub fn search() -> (r: SourceCapabilities)
        ensures
            r == (SourceCapabilities { search: true, ..no_caps() }),
    {
        SourceCapabilities { search: true, ..Self::empty() }
    }

    /// Downloading PDFs.
    pub fn download() -> (r: SourceCapabilities)
        ensures
            r == (SourceCapabilities { download: true, ..no_caps() }),
    {
        SourceCapabilities { download: true, ..Self::empty() }
    }

    /// Reading full text.
    pub fn read() -> (r: SourceCapabilities)
        ensures
            r == (SourceCapabilities { read: true, ..no_caps() }),
    {
        SourceCapabilities { read: true, ..Self::empty() }
    }

    /// Citations and references.
    pub fn citations() -> (r: SourceCapabilities)
        ensures
            r == (SourceCapabilities { citations: true, ..no_caps() }),
    {
        SourceCapabilities { citations: true, ..Self::empty() }
    }

    /// Looking papers up by DOI.
    pub fn doi_lookup() -> (r: SourceCapabilities)
        ensures
            r == (SourceCapabilities { doi_lookup: true, ..no_caps() }),
    {
        SourceCapabilities { doi_lookup: true, ..Self::empty() }
    }

    /// Searching by author.
    pub fn author_search() -> (r: SourceCapabilities)
        ensures
            r == (SourceCapabilities { author_search: true, ..no_caps() }),
    {
        SourceCapabilities { author_search: true, ..Self::empty() }
    }

    /// The capabilities of `self` and of `other` together (`|` on the flags).
    pub fn union(self, other: SourceCapabilities) -> (r: SourceCapabilities)
        ensures
            r == caps_union(self, other),
    {
        SourceCapabilities {
            search: self.search || other.search,
            download: self.download || other.download,
            read: self.read || other.read,
            citations: self.citations || other.citations,
            doi_lookup: self.doi_lookup || other.doi_lookup,
            author_search: self.author_search || other.author_search,
        }
    }

    /// Every capability of `other` is one of `self`.
    pub fn contains(&self, other: SourceCapabilities) -> (r: bool)
        ensures
            r == caps_contain(*self, other),
    {
        (!other.search || self.search) && (!other.download || self.download) && (!other.read
            || self.read) && (!other.citations || self.citations) && (!other.doi_lookup
            || self.doi_lookup) && (!other.author_search || self.author_search)
    }
}

/// A union contains both of its parts, and containment is reflexive.
pub proof fn lemma_union_contains(a: SourceCapabilities, b: SourceCapabilities)
    ensures
        caps_contain(caps_union(a, b), a),
        caps_contain(caps_union(a, b), b),
        caps_contain(a, a),
{
}

/// How a request to a source failed.
#[derive(Debug)]
pub enum SourceError {
    Network(String),
    Api(String),
    Parse(String),
    NotFound(String),
    InvalidRequest(String),
    Io(String),
    Other(String),
}

/// How a source's answer to a request is taken.
#[derive(Clone, Copy, PartialEq, Eq, Structural, Debug)]
pub enum ResponseKind {
    /// The body is read.
    Proceed,
    /// The source is limiting requests: the answer is an empty result.
    RateLimited,
    /// The request failed with the status.
    Failed,
}

/// An HTTP status in the success range.
pub open spec fn is_success(status: u16) -> bool {
    200 <= status <= 299
}

/// A registered source: its identifier, display name and capabilities.
pub struct SourceDescriptor {
    pub id: String,
    pub name: String,
    pub capabilities: SourceCapabilities,
}

impl SourceDescriptor {
    /// Describes a source.
    pub fn new(id: &str, name: &str, capabilities: SourceCapabilities) -> (r: SourceDescriptor)
        ensures
            r.id@ == id@,
            r.name@ == name@,
            r.capabilities == capabilities,
    {
        SourceDescriptor { id: to_owned_string(id), name: to_owned_string(name), capabilities }
    }

    /// The identifier, such as `arxiv`.
    pub fn id(&self) -> (r: &str)
        ensures
            r@ == self.id@,
    {
        self.id.as_str()
    }

    /// The display name, such as `arXiv`.
    pub fn name(&self) -> (r: &str)
        ensures
            r@ == self.name@,
    {
        self.name.as_str()
    }

    pub fn supports_search(&self) -> (r: bool)
        ensures
            r == self.capabilities.search,
    {
        self.capabilities.search
    }

    pub fn supports_download(&self) -> (r: bool)
        ensures
            r == self.capabilities.download,
    {
        self.capabilities.download
    }

    pub fn supports_read(&self) -> (r: bool)
        ensures
            r == self.capabilities.read,
    {
        self.capabilities.read
    }

    pub fn supports_citations(&self) -> (r: bool)
        ensures
            r == self.capabilities.citations,
    {
        self.capabilities.citations
    }

    pub fn supports_doi_lookup(&self) -> (r: bool)
        ensures
            r == self.capabilities.doi_lookup,
    {
        self.capabilities.doi_lookup
    }

    pub fn supports_author_search(&self) -> (r: bool)
        ensures
            r == self.capabilities.author_search,
    {
        self.capabilities.author_search
    }
}

/// `s` is selected when it has the wanted identifier (if one is wanted) and the needed capabilities.
pub open spec fn selects(s: SourceDescriptor, id: Option<Seq<char>>, need: SourceCapabilities) -> bool {
    &&& (id matches Some(x) ==> s.id@ == x)
    &&& caps_contain(s.capabilities, need)
}

/// The position of the first selected source.
pub open spec fn first_selected(
    srcs: Seq<SourceDescriptor>,
    id: Option<Seq<char>>,
    need: SourceCapabilities,
) -> Option<int>
    decreases srcs.len(),
{
    if srcs.len() == 0 {
        None
    } else if selects(srcs[0], id, need) {
        Some(0)
    } else {
        match first_selected(srcs.drop_first(), id, need) {
            Some(i) => Some(i + 1),
            None => None,
        }
    }
}

/// The first selected source is the first one past a run of unselected ones.
pub proof fn lemma_first_selected(
    srcs: Seq<SourceDescriptor>,
    id: Option<Seq<char>>,
    need: SourceCapabilities,
    i: int,
)
    requires
        0 <= i <= srcs.len(),
        forall|j: int| 0 <= j < i ==> !selects(#[trigger] srcs[j], id, need),
        i < srcs.len() ==> selects(srcs[i], id, need),
    ensures
        first_selected(srcs, id, need) == (if i < srcs.len() {
            Some(i)
        } else {
            None::<int>
        }),
    decreases i,
{
    if i > 0 {
        let t = srcs.drop_first();
        assert forall|j: int| 0 <= j < i - 1 implies !selects(#[trigger] t[j], id, need) by {
            assert(t[j] == srcs[j + 1]);
        }
        if i - 1 < t.len() {
            assert(t[i - 1] == srcs[i]);
        }
        lemma_first_selected(t, id, need, i - 1);
        assert(!selects(srcs[0], id, need));
    }
}

/// An optional position as an integer.
pub open spec fn opt_index(o: Option<usize>) -> Option<int> {
    match o {
        Some(i) => Some(i as int),
        None => None,
    }
}

/// The position of the first source with identifier `id` (if given) and the capabilities `need`.
pub fn find_source_index(srcs: &Vec<SourceDescriptor>, id: Option<&str>, need: SourceCapabilities) -> (r: Option<usize>)
    ensures
        opt_index(r) == first_selected(srcs@, crate::utils::text::opt_str_view(id), need),
        r matches Some(i) ==> i < srcs.len() && selects(srcs@[i as int], crate::utils::text::opt_str_view(id), need),
{
    let ghost want = crate::utils::text::opt_str_view(id);
    let mut i: usize = 0;
    while i < srcs.len()
        invariant
            i <= srcs.len(),
            want == crate::utils::text::opt_str_view(id),
            forall|j: int| 0 <= j < i ==> !selects(#[trigger] srcs@[j], want, need),
        decreases srcs.len() - i,
    {
        let s = &srcs[i];
        let id_ok = match id {
            Some(x) => str_eq(s.id.as_str(), x),
            None => true,
        };
        if id_ok && s.capabilities.contains(need) {
            proof {
                lemma_first_selected(srcs@, want, need, i as int);
            }
            return Some(i);
        }
        i += 1;
    }
    proof {
        lemma_first_selected(srcs@, want, need, i as int);
    }
    None
}

/// A DOI without a `https://doi.org/` or `doi:` prefix and surrounding whitespace.
pub open spec fn clean_doi_spec(doi: Seq<char>) -> Seq<char> {
    trim(replace_str(replace_str(doi, "https://doi.org/"@, Seq::empty()), "doi:"@, Seq::empty()))
}

/// `doi.replace("https://doi.org/", "").replace("doi:", "").trim()`.
pub fn clean_doi(doi: &str) -> (r: String)
    ensures
        r@ == clean_doi_spec(doi@),
{
    let p1 = "https://doi.org/";
    let p2 = "doi:";
    proof {
        reveal_strlit("https://doi.org/");
        reveal_strlit("doi:");
        reveal_strlit("");
        assert(""@ =~= Seq::<char>::empty());
    }
    let a = replace_str_str(doi, p1, "");
    let b = replace_str_str(a.as_str(), p2, "");
    trim_str(b.as_str())
}

} // verus!
