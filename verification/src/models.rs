//! The data model shared by the sources, the citation formatter and the tools.
use vstd::prelude::*;
use crate::utils::text::{opt_view, copy_opt_string, views, split_on, split_char, trim, trim_str};

verus! {

/// Where a paper comes from.
#[derive(Debug, PartialEq, Eq)]
pub enum SourceType {
    Arxiv,
    PubMed,
    SemanticScholar,
    CiteSeerX,
    MedRxiv,
    OpenAIRE,
    Scispace,
    /// A source known only by its identifier.
    Other(String),
}

/// The model of a [`SourceType`].
pub enum SourceTypeView {
    Arxiv,
    PubMed,
    SemanticScholar,
    CiteSeerX,
    MedRxiv,
    OpenAIRE,
    Scispace,
    Other(Seq<char>),
}

impl View for SourceType {
    type V = SourceTypeView;

    open spec fn view(&self) -> SourceTypeView {
        match self {
            SourceType::Arxiv => SourceTypeView::Arxiv,
            SourceType::PubMed => SourceTypeView::PubMed,
            SourceType::SemanticScholar => SourceTypeView::SemanticScholar,
            SourceType::CiteSeerX => SourceTypeView::CiteSeerX,
            SourceType::MedRxiv => SourceTypeView::MedRxiv,
            SourceType::OpenAIRE => SourceTypeView::OpenAIRE,
            SourceType::Scispace => SourceTypeView::Scispace,
            SourceType::Other(s) => SourceTypeView::Other(s@),
        }
    }
}

/// The display name of a source type.
pub open spec fn source_name(t: SourceTypeView) -> Seq<char> {
    match t {
        SourceTypeView::Arxiv => "arXiv"@,
        SourceTypeView::PubMed => "PubMed"@,
        SourceTypeView::SemanticScholar => "Semantic Scholar"@,
        SourceTypeView::CiteSeerX => "CiteSeerX"@,
        SourceTypeView::MedRxiv => "medRxiv"@,
        SourceTypeView::OpenAIRE => "OpenAIRE"@,
        SourceTypeView::Scispace => "SciSpace"@,
        SourceTypeView::Other(s) => s,
    }
}

/// The identifier of a source type.
pub open spec fn source_id(t: SourceTypeView) -> Seq<char> {
    match t {
        SourceTypeView::Arxiv => "arxiv"@,
        SourceTypeView::PubMed => "pubmed"@,
        SourceTypeView::SemanticScholar => "semantic"@,
        SourceTypeView::CiteSeerX => "citeseerx"@,
        SourceTypeView::MedRxiv => "medrxiv"@,
        SourceTypeView::OpenAIRE => "openaire"@,
        SourceTypeView::Scispace => "scispace"@,
        SourceTypeView::Other(s) => s,
    }
}

impl SourceType {
    /// The display name, such as `arXiv`.
    pub fn name(&self) -> (r: &str)
        ensures
            r@ == source_name(self@),
    {
        match self {
            SourceType::Arxiv => "arXiv",
            SourceType::PubMed => "PubMed",
            SourceType::SemanticScholar => "Semantic Scholar",
            SourceType::CiteSeerX => "CiteSeerX",
            SourceType::MedRxiv => "medRxiv",
            SourceType::OpenAIRE => "OpenAIRE",
            SourceType::Scispace => "SciSpace",
            SourceType::Other(s) => s.as_str(),
        }
    }

    /// The identifier, such as `arxiv`.
    pub fn id(&self) -> (r: &str)
        ensures
            r@ == source_id(self@),
    {
        match self {
            SourceType::Arxiv => "arxiv",
            SourceType::PubMed => "pubmed",
            SourceType::SemanticScholar => "semantic",
            SourceType::CiteSeerX => "citeseerx",
            SourceType::MedRxiv => "medrxiv",
            SourceType::OpenAIRE => "openaire",
            SourceType::Scispace => "scispace",
            SourceType::Other(s) => s.as_str(),
        }
    }

    /// The display name as an owned string.
    pub fn to_string(&self) -> (r: String)
        ensures
            r@ == source_name(self@),
    {
        crate::utils::text::to_owned_string(self.name())
    }

    /// A copy of this source type.
    pub fn copy(&self) -> (r: SourceType)
        ensures
            r@ == self@,
    {
        match self {
            SourceType::Arxiv => SourceType::Arxiv,
            SourceType::PubMed => SourceType::PubMed,
            SourceType::SemanticScholar => SourceType::SemanticScholar,
            SourceType::CiteSeerX => SourceType::CiteSeerX,
            SourceType::MedRxiv => SourceType::MedRxiv,
            SourceType::OpenAIRE => SourceType::OpenAIRE,
            SourceType::Scispace => SourceType::Scispace,
            SourceType::Other(s) => SourceType::Other(s.clone()),
        }
    }
}

/// A paper, as every source reports it.
pub struct Paper {
    pub paper_id: String,
    pub title: String,
    /// Authors separated by `; `.
    pub authors: String,
    pub abstract_text: String,
    pub doi: Option<String>,
    pub published_date: Option<String>,
    pub url: String,
    pub pdf_url: Option<String>,
    /// Categories separated by `; `.
    pub categories: Option<String>,
    /// Keywords separated by `; `.
    pub keywords: Option<String>,
    pub citations: Option<u64>,
    pub source: SourceType,
    /// Source-specific string attributes, in the order they were added.
    pub extra: Vec<(String, String)>,
}

/// The model of a [`Paper`].
pub struct PaperView {
    pub paper_id: Seq<char>,
    pub title: Seq<char>,
    pub authors: Seq<char>,
    pub abstract_text: Seq<char>,
    pub doi: Option<Seq<char>>,
    pub published_date: Option<Seq<char>>,
    pub url: Seq<char>,
    pub pdf_url: Option<Seq<char>>,
    pub categories: Option<Seq<char>>,
    pub keywords: Option<Seq<char>>,
    pub citations: Option<u64>,
    pub source: SourceTypeView,
    pub extra: Seq<(Seq<char>, Seq<char>)>,
}

impl View for Paper {
    type V = PaperView;

    open spec fn view(&self) -> PaperView {
        PaperView {
            paper_id: self.paper_id@,
            title: self.title@,
            authors: self.authors@,
            abstract_text: self.abstract_text@,
            doi: opt_view(self.doi),
            published_date: opt_view(self.published_date),
            url: self.url@,
            pdf_url: opt_view(self.pdf_url),
            categories: opt_view(self.categories),
            keywords: opt_view(self.keywords),
            citations: self.citations,
            source: self.source@,
            extra: Seq::new(self.extra@.len(), |i: int| (self.extra@[i].0@, self.extra@[i].1@)),
        }
    }
}

/// The views of a sequence of papers.
pub open spec fn paper_views(v: Seq<Paper>) -> Seq<PaperView> {
    Seq::new(v.len(), |i: int| v[i]@)
}

/// An optional value from a builder argument: an empty string means absent.
pub open spec fn non_empty(s: Seq<char>) -> Option<Seq<char>> {
    if s.len() == 0 {
        None
    } else {
        Some(s)
    }
}

/// A paper with the given identity and nothing else known.
pub open spec fn bare_paper(
    paper_id: Seq<char>,
    title: Seq<char>,
    url: Seq<char>,
    source: SourceTypeView,
) -> PaperView {
    PaperView {
        paper_id,
        title,
        authors: Seq::empty(),
        abstract_text: Seq::empty(),
        doi: None,
        published_date: None,
        url,
        pdf_url: None,
        categories: None,
        keywords: None,
        citations: None,
        source,
        extra: Seq::empty(),
    }
}

fn opt_non_empty(s: &str) -> (r: Option<String>)
    ensures
        opt_view(r) == non_empty(s@),
{
    if s.is_empty() {
        None
    } else {
        Some(crate::utils::text::to_owned_string(s))
    }
}

impl Paper {
    /// A copy of this paper.
    pub fn copy(&self) -> (r: Paper)
        ensures
            r@ == self@,
    {
        let mut extra: Vec<(String, String)> = Vec::new();
        let mut i: usize = 0;
        while i < self.extra.len()
            invariant
                i <= self.extra.len(),
                extra@.len() == i,
                forall|j: int|
                    0 <= j < i ==> (#[trigger] extra@[j]).0@ == self.extra@[j].0@ && extra@[j].1@
                        == self.extra@[j].1@,
            decreases self.extra.len() - i,
        {
            extra.push((self.extra[i].0.clone(), self.extra[i].1.clone()));
            i += 1;
        }
        let r = Paper {
            paper_id: self.paper_id.clone(),
            title: self.title.clone(),
            authors: self.authors.clone(),
            abstract_text: self.abstract_text.clone(),
            doi: copy_opt_string(&self.doi),
            published_date: copy_opt_string(&self.published_date),
            url: self.url.clone(),
            pdf_url: copy_opt_string(&self.pdf_url),
            categories: copy_opt_string(&self.categories),
            keywords: copy_opt_string(&self.keywords),
            citations: self.citations,
            source: self.source.copy(),
            extra,
        };
        assert(r@.extra =~= self@.extra);
        r
    }
}

/// The non-empty trimmed pieces of a list separated by `;`, in order.
pub open spec fn list_items(s: Seq<char>) -> Seq<Seq<char>> {
    kept_trimmed(split_on(s, ';'))
}

/// The trimmed pieces that are not empty, in order.
pub open spec fn kept_trimmed(pieces: Seq<Seq<char>>) -> Seq<Seq<char>>
    decreases pieces.len(),
{
    if pieces.len() == 0 {
        Seq::empty()
    } else {
        let r = kept_trimmed(pieces.drop_last());
        if trim(pieces.last()).len() > 0 {
            r.push(trim(pieces.last()))
        } else {
            r
        }
    }
}

/// The items of a `;`-separated list.
fn list_of(s: &str) -> (r: Vec<String>)
    ensures
        views(r@) == list_items(s@),
{
    let pieces = split_char(s, ';');
    let ghost ps = views(pieces@);
    let mut r: Vec<String> = Vec::new();
    let mut i: usize = 0;
    assert(ps.take(0) =~= Seq::<Seq<char>>::empty());
    assert(views(r@) =~= Seq::<Seq<char>>::empty());
    while i < pieces.len()
        invariant
            ps == views(pieces@),
            ps == split_on(s@, ';'),
            i <= pieces.len(),
            views(r@) == kept_trimmed(ps.take(i as int)),
        decreases pieces.len() - i,
    {
        assert(ps.take(i + 1).drop_last() =~= ps.take(i as int));
        assert(ps.take(i + 1).last() == pieces@[i as int]@);
        let t = trim_str(pieces[i].as_str());
        if !t.as_str().is_empty() {
            let ghost old = r@;
            r.push(t);
            assert(views(r@) =~= views(old).push(t@));
        }
        i += 1;
    }
    assert(ps.take(pieces.len() as int) =~= ps);
    r
}

impl Paper {
    /// The identifier to cite the paper by: its DOI, else its source identifier.
    pub fn primary_id(&self) -> (r: &str)
        ensures
            r@ == match self.doi {
                Some(d) => d@,
                None => self.paper_id@,
            },
    {
        match &self.doi {
            Some(d) => d.as_str(),
            None => self.paper_id.as_str(),
        }
    }

    /// Whether a PDF link is known.
    pub fn has_pdf(&self) -> (r: bool)
        ensures
            r == self.pdf_url is Some,
    {
        self.pdf_url.is_some()
    }

    /// The authors, one per item.
    pub fn author_list(&self) -> (r: Vec<String>)
        ensures
            views(r@) == list_items(self.authors@),
    {
        list_of(self.authors.as_str())
    }

    /// The categories, one per item; none when absent.
    pub fn category_list(&self) -> (r: Vec<String>)
        ensures
            views(r@) == match self.categories {
                Some(c) => list_items(c@),
                None => Seq::empty(),
            },
    {
        match &self.categories {
            Some(c) => list_of(c.as_str()),
            None => {
                let r: Vec<String> = Vec::new();
                assert(views(r@) =~= Seq::<Seq<char>>::empty());
                r
            },
        }
    }

    /// The keywords, one per item; none when absent.
    pub fn keyword_list(&self) -> (r: Vec<String>)
        ensures
            views(r@) == match self.keywords {
                Some(k) => list_items(k@),
                None => Seq::empty(),
            },
    {
        match &self.keywords {
            Some(k) => list_of(k.as_str()),
            None => {
                let r: Vec<String> = Vec::new();
                assert(views(r@) =~= Seq::<Seq<char>>::empty());
                r
            },
        }
    }
}

/// Builds a [`Paper`] field by field. Setting an optional field to the empty
/// string leaves it absent.
pub struct PaperBuilder {
    paper: Paper,
}

impl View for PaperBuilder {
    type V = PaperView;

    closed spec fn view(&self) -> PaperView {
        self.paper@
    }
}

impl PaperBuilder {
    /// Starts a paper with its identifier, title, landing page and source.
    pub fn new(paper_id: &str, title: &str, url: &str, source: SourceType) -> (r: PaperBuilder)
        ensures
            r@ == bare_paper(paper_id@, title@, url@, source@),
    {
        let r = PaperBuilder {
            paper: Paper {
                paper_id: crate::utils::text::to_owned_string(paper_id),
                title: crate::utils::text::to_owned_string(title),
                authors: String::new(),
                abstract_text: String::new(),
                doi: None,
                published_date: None,
                url: crate::utils::text::to_owned_string(url),
                pdf_url: None,
                categories: None,
                keywords: None,
                citations: None,
                source,
                extra: Vec::new(),
            },
        };
        assert(r@.extra =~= Seq::<(Seq<char>, Seq<char>)>::empty());
        r
    }

    /// Sets the authors, separated by `; `.
    pub fn authors(self, authors: &str) -> (r: PaperBuilder)
        ensures
            r@ == (PaperView { authors: authors@, ..self@ }),
    {
        let mut b = self;
        b.paper.authors = crate::utils::text::to_owned_string(authors);
        b
    }

    /// Sets the abstract.
    pub fn abstract_text(self, text: &str) -> (r: PaperBuilder)
        ensures
            r@ == (PaperView { abstract_text: text@, ..self@ }),
    {
        let mut b = self;
        b.paper.abstract_text = crate::utils::text::to_owned_string(text);
        b
    }

    /// Sets the DOI; an empty DOI leaves it absent.
    pub fn doi(self, doi: &str) -> (r: PaperBuilder)
        ensures
            r@ == (PaperView { doi: non_empty(doi@), ..self@ }),
    {
        let mut b = self;
        b.paper.doi = opt_non_empty(doi);
        b
    }

    /// Sets the publication date; an empty date leaves it absent.
    pub fn published_date(self, date: &str) -> (r: PaperBuilder)
        ensures
            r@ == (PaperView { published_date: non_empty(date@), ..self@ }),
    {
        let mut b = self;
        b.paper.published_date = opt_non_empty(date);
        b
    }

    /// Sets the PDF link; an empty link leaves it absent.
    pub fn pdf_url(self, url: &str) -> (r: PaperBuilder)
        ensures
            r@ == (PaperView { pdf_url: non_empty(url@), ..self@ }),
    {
        let mut b = self;
        b.paper.pdf_url = opt_non_empty(url);
        b
    }

    /// Sets the categories; empty categories leave them absent.
    pub fn categories(self, categories: &str) -> (r: PaperBuilder)
        ensures
            r@ == (PaperView { categories: non_empty(categories@), ..self@ }),
    {
        let mut b = self;
        b.paper.categories = opt_non_empty(categories);
        b
    }

    /// Sets the keywords; empty keywords leave them absent.
    pub fn keywords(self, keywords: &str) -> (r: PaperBuilder)
        ensures
            r@ == (PaperView { keywords: non_empty(keywords@), ..self@ }),
    {
        let mut b = self;
        b.paper.keywords = opt_non_empty(keywords);
        b
    }

    /// Sets the citation count.
    pub fn citations(self, count: u64) -> (r: PaperBuilder)
        ensures
            r@ == (PaperView { citations: Some(count), ..self@ }),
    {
        let mut b = self;
        b.paper.citations = Some(count);
        b
    }

    /// Adds a source-specific attribute.
    pub fn extra(self, key: &str, value: &str) -> (r: PaperBuilder)
        ensures
            r@ == (PaperView { extra: self@.extra.push((key@, value@)), ..self@ }),
    {
        let mut b = self;
        b.paper.extra.push(
            (crate::utils::text::to_owned_string(key), crate::utils::text::to_owned_string(value)),
        );
        assert(b@.extra =~= self@.extra.push((key@, value@)));
        b
    }

    /// The finished paper.
    pub fn build(self) -> (r: Paper)
        ensures
            r@ == self@,
    {
        self.paper
    }
}

/// The result of a search in one source.
pub struct SearchResponse {
    pub papers: Vec<Paper>,
    /// The display name of the source that answered.
    pub source: String,
    pub query: String,
    pub total_results: Option<usize>,
}

impl SearchResponse {
    /// A response holding `papers`, with no total count.
    pub fn new(papers: Vec<Paper>, source: &str, query: &str) -> (r: SearchResponse)
        ensures
            paper_views(r.papers@) == paper_views(papers@),
            r.source@ == source@,
            r.query@ == query@,
            r.total_results.is_none(),
    {
        SearchResponse {
            papers,
            source: crate::utils::text::to_owned_string(source),
            query: crate::utils::text::to_owned_string(query),
            total_results: None,
        }
    }
}

/// A search request.
pub struct SearchQuery {
    pub query: String,
    pub max_results: usize,
    pub year: Option<String>,
    pub author: Option<String>,
    pub category: Option<String>,
}

impl SearchQuery {
    /// A query for `query` with at most ten results.
    pub fn new(query: &str) -> (r: SearchQuery)
        ensures
            r.query@ == query@,
            r.max_results == 10,
            r.year.is_none(),
            r.author.is_none(),
            r.category.is_none(),
    {
        SearchQuery {
            query: crate::utils::text::to_owned_string(query),
            max_results: 10,
            year: None,
            author: None,
            category: None,
        }
    }

    /// Sets the maximum number of results.
    pub fn max_results(self, n: usize) -> (r: SearchQuery)
        ensures
            r.max_results == n,
            r.query@ == self.query@,
            opt_view(r.year) == opt_view(self.year),
            opt_view(r.author) == opt_view(self.author),
            opt_view(r.category) == opt_view(self.category),
    {
        let mut q = self;
        q.max_results = n;
        q
    }

    /// Restricts the years, such as `2020-`.
    pub fn year(self, year: &str) -> (r: SearchQuery)
        ensures
            r.max_results == self.max_results,
            r.query@ == self.query@,
            opt_view(r.year) == Some(year@),
            opt_view(r.author) == opt_view(self.author),
            opt_view(r.category) == opt_view(self.category),
    {
        let mut q = self;
        q.year = Some(crate::utils::text::to_owned_string(year));
        q
    }

    /// Restricts the author.
    pub fn author(self, author: &str) -> (r: SearchQuery)
        ensures
            r.max_results == self.max_results,
            r.query@ == self.query@,
            opt_view(r.year) == opt_view(self.year),
            opt_view(r.author) == Some(author@),
            opt_view(r.category) == opt_view(self.category),
    {
        let mut q = self;
        q.author = Some(crate::utils::text::to_owned_string(author));
        q
    }

    /// Restricts the category.
    pub fn category(self, category: &str) -> (r: SearchQuery)
        ensures
            r.max_results == self.max_results,
            r.query@ == self.query@,
            opt_view(r.year) == opt_view(self.year),
            opt_view(r.author) == opt_view(self.author),
            opt_view(r.category) == Some(category@),
    {
        let mut q = self;
        q.category = Some(crate::utils::text::to_owned_string(category));
        q
    }
}

} // verus!
