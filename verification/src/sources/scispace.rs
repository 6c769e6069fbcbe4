//! SciSpace research source implementation.
//!
//! Uses the SciSpace (Typeset) API for searching and retrieving research papers.
//! API documentation: <https://typeset.io/api>
//!
//! SciSpace is free and requires no API key for basic search.
use vstd::prelude::*;
use crate::models::{
    Paper, PaperBuilder, PaperView, SearchQuery, SearchResponse, SourceType, SourceTypeView,
    non_empty, bare_paper, paper_views,
};
use crate::sources::{SourceCapabilities, SourceDescriptor, SourceError, ResponseKind, is_success, clean_doi, clean_doi_spec};
use crate::utils::text::{
    opt_view, or_empty, views, join, join_all, to_owned_string, push_str, url_encode, url_encoded,
    decimal, usize_to_decimal, contains, str_contains,
};

verus! {

broadcast use vstd::string::group_string_axioms;

/// An author of a SciSpace paper.
pub struct ScispaceAuthor {
    pub name: Option<String>,
}

/// A SciSpace paper.
pub struct ScispacePaper {
    pub id: String,
    pub doi: Option<String>,
    pub title: Option<String>,
    pub abstract_text: Option<String>,
    pub publication_year: Option<String>,
    pub authors: Vec<ScispaceAuthor>,
    pub pdf_url: Option<String>,
}

/// A SciSpace search response.
pub struct ScispaceResponse {
    pub total_results: Option<usize>,
    pub papers: Vec<ScispacePaper>,
}

/// The names of the authors that have one, in order.
pub open spec fn author_names(a: Seq<ScispaceAuthor>) -> Seq<Seq<char>>
    decreases a.len(),
{
    if a.len() == 0 {
        Seq::empty()
    } else {
        author_names(a.drop_last()) + match a.last().name {
            Some(n) => seq![n@],
            None => Seq::empty(),
        }
    }
}

/// The paper for a SciSpace paper: identified and linked by its DOI when it
/// has one, else by its SciSpace identifier.
pub open spec fn scispace_paper(p: ScispacePaper) -> PaperView {
    let doi = or_empty(opt_view(p.doi));
    let id = match p.doi {
        Some(d) => d@,
        None => p.id@,
    };
    let url = if doi.len() > 0 {
        "https://doi.org/"@ + doi
    } else {
        "https://typeset.io/papers/"@ + p.id@
    };
    PaperView {
        authors: join(author_names(p.authors@), "; "@),
        published_date: non_empty(or_empty(opt_view(p.publication_year))),
        abstract_text: or_empty(opt_view(p.abstract_text)),
        doi: non_empty(doi),
        pdf_url: non_empty(or_empty(opt_view(p.pdf_url))),
        ..bare_paper(id, or_empty(opt_view(p.title)), url, SourceTypeView::Scispace)
    }
}

/// Search and DOI lookup.
pub open spec fn scispace_caps() -> SourceCapabilities {
    SourceCapabilities { search: true, doi_lookup: true, ..crate::sources::no_caps() }
}

/// The names of a paper's authors.
fn collect_author_names(authors: &Vec<ScispaceAuthor>) -> (r: Vec<String>)
    ensures
        views(r@) == author_names(authors@),
{
    let mut r: Vec<String> = Vec::new();
    let ghost s = authors@;
    let mut i: usize = 0;
    assert(s.take(0) =~= Seq::<ScispaceAuthor>::empty());
    assert(views(r@) =~= Seq::<Seq<char>>::empty());
    while i < authors.len()
        invariant
            s == authors@,
            i <= s.len(),
            views(r@) == author_names(s.take(i as int)),
        decreases s.len() - i,
    {
        assert(s.take(i + 1).drop_last() =~= s.take(i as int));
        assert(s.take(i + 1).last() == s[i as int]);
        match &authors[i].name {
            Some(n) => {
                let ghost old = r@;
                r.push(n.clone());
                assert(views(r@) =~= views(old) + seq![n@]);
            },
            None => {
                assert(author_names(s.take(i + 1)) =~= author_names(s.take(i as int)));
            },
        }
        i += 1;
    }
    assert(s.take(s.len() as int) =~= s);
    r
}

/// SciSpace research source
///
/// Uses the SciSpace (Typeset) API for searching and retrieving research papers.
/// Free to use with no API key required.
pub struct ScispaceSource {}

impl Default for ScispaceSource {
    /// The same source as `new`.
    fn default() -> (r: Self)
        ensures
            r == (ScispaceSource {}),
    {
        ScispaceSource {}
    }
}

impl ScispaceSource {
    /// A SciSpace source.
    pub fn new() -> (r: Result<ScispaceSource, SourceError>)
        ensures
            r is Ok,
    {
        Ok(ScispaceSource {})
    }

    /// The identifier, `scispace`.
    pub fn id(&self) -> (r: &'static str)
        ensures
            r@ == "scispace"@,
    {
        "scispace"
    }

    /// The display name, `SciSpace`.
    pub fn name(&self) -> (r: &'static str)
        ensures
            r@ == "SciSpace"@,
    {
        "SciSpace"
    }

    /// Search and DOI lookup.
    pub fn capabilities(&self) -> (r: SourceCapabilities)
        ensures
            r == scispace_caps(),
    {
        SourceCapabilities::search().union(SourceCapabilities::doi_lookup())
    }

    /// This source as a registry entry.
    pub fn descriptor(&self) -> (r: SourceDescriptor)
        ensures
            r.id@ == "scispace"@,
            r.name@ == "SciSpace"@,
            r.capabilities == scispace_caps(),
    {
        SourceDescriptor::new(self.id(), self.name(), self.capabilities())
    }

    /// The search URL: the query percent-encoded, for at most 50 results.
    pub fn search_url(&self, query: &SearchQuery) -> (r: String)
        ensures
            r@ == "https://api.typeset.io/v1/papers/search?query="@ + url_encoded(query.query@) + "&limit="@
                + decimal(
                (if query.max_results < 50 {
                    query.max_results
                } else {
                    50
                }) as nat,
            ),
    {
        let max_results = if query.max_results < 50 {
            query.max_results
        } else {
            50
        };
        let mut r = to_owned_string("https://api.typeset.io/v1/papers/search?query=");
        let e = url_encode(query.query.as_str());
        push_str(&mut r, e.as_str());
        push_str(&mut r, "&limit=");
        let n = usize_to_decimal(max_results);
        push_str(&mut r, n.as_str());
        r
    }

    /// How a search response is taken: 404 and 403 mean the endpoint is
    /// unavailable, which gives an empty result; another status outside the
    /// success range fails.
    pub fn classify_response(status: u16) -> (r: ResponseKind)
        ensures
            r == if is_success(status) {
                ResponseKind::Proceed
            } else if status == 404 || status == 403 {
                ResponseKind::RateLimited
            } else {
                ResponseKind::Failed
            },
    {
        if 200 <= status && status <= 299 {
            ResponseKind::Proceed
        } else if status == 404 || status == 403 {
            ResponseKind::RateLimited
        } else {
            ResponseKind::Failed
        }
    }

    /// The answer to a search while the endpoint is unavailable: no paper.
    pub fn unavailable_response(&self, query: &SearchQuery) -> (r: SearchResponse)
        ensures
            r.papers@.len() == 0,
            r.source@ == "SciSpace"@,
            r.query@ == query.query@,
            r.total_results.is_none(),
    {
        let none: Vec<Paper> = Vec::new();
        let r = SearchResponse::new(none, "SciSpace", query.query.as_str());
        assert(paper_views(r.papers@).len() == paper_views(none@).len());
        r
    }

    /// The error for a search that failed with a status: the status text and the body.
    pub fn status_error(status_text: &str, body: &str) -> (r: SourceError)
        ensures
            r matches SourceError::Api(m) && m@ == "SciSpace API returned status "@ + status_text@ + ": "@ + body@,
    {
        let mut m = to_owned_string("SciSpace API returned status ");
        push_str(&mut m, status_text);
        push_str(&mut m, ": ");
        push_str(&mut m, body);
        SourceError::Api(m)
    }

    /// The answer to a search that failed with a status: an API error with the
    /// status text and the body, except that an error whose message mentions
    /// `unavailable` is taken as the endpoint being unavailable: no paper.
    pub fn failed_search(&self, query: &SearchQuery, status_text: &str, body: &str) -> (r: Result<SearchResponse, SourceError>)
        ensures
            ({
                let m = "SciSpace API returned status "@ + status_text@ + ": "@ + body@;
                if contains(m, "unavailable"@) {
                    r matches Ok(resp) && resp.papers@.len() == 0 && resp.source@ == "SciSpace"@
                        && resp.query@ == query.query@ && resp.total_results.is_none()
                } else {
                    r matches Err(SourceError::Api(e)) && e@ == m
                }
            }),
    {
        let e = Self::status_error(status_text, body);
        match e {
            SourceError::Api(m) => {
                if str_contains(m.as_str(), "unavailable") {
                    Ok(self.unavailable_response(query))
                } else {
                    Err(SourceError::Api(m))
                }
            },
            other => Err(other),
        }
    }

    /// The paper for a SciSpace paper.
    pub fn parse_result(&self, paper: &ScispacePaper) -> (r: Result<Paper, SourceError>)
        ensures
            r matches Ok(p) && p@ == scispace_paper(*paper),
    {
        let id = match &paper.doi {
            Some(d) => d.clone(),
            None => paper.id.clone(),
        };
        let title = crate::utils::text::opt_or_empty(&paper.title);
        let abstract_text = crate::utils::text::opt_or_empty(&paper.abstract_text);
        let doi = crate::utils::text::opt_or_empty(&paper.doi);
        let names = collect_author_names(&paper.authors);
        let authors = join_all(&names, "; ");
        let year = crate::utils::text::opt_or_empty(&paper.publication_year);
        let url = if !doi.as_str().is_empty() {
            let mut u = to_owned_string("https://doi.org/");
            push_str(&mut u, doi.as_str());
            u
        } else {
            let mut u = to_owned_string("https://typeset.io/papers/");
            push_str(&mut u, paper.id.as_str());
            u
        };
        let pdf_url = crate::utils::text::opt_or_empty(&paper.pdf_url);
        let r = PaperBuilder::new(id.as_str(), title.as_str(), url.as_str(), SourceType::Scispace)
            .authors(authors.as_str()).published_date(year.as_str()).abstract_text(abstract_text.as_str())
            .doi(doi.as_str()).pdf_url(pdf_url.as_str()).build();
        Ok(r)
    }

    /// The papers of a response, in order.
    pub fn parse_results(&self, papers: &Vec<ScispacePaper>) -> (r: Vec<Paper>)
        ensures
            paper_views(r@) == Seq::new(papers@.len(), |i: int| scispace_paper(papers@[i])),
    {
        let mut r: Vec<Paper> = Vec::new();
        let mut i: usize = 0;
        while i < papers.len()
            invariant
                i <= papers.len(),
                r.len() == i,
                forall|j: int| 0 <= j < i ==> (#[trigger] r@[j])@ == scispace_paper(papers@[j]),
            decreases papers.len() - i,
        {
            match self.parse_result(&papers[i]) {
                Ok(p) => r.push(p),
                Err(_) => {},
            }
            i += 1;
        }
        assert(paper_views(r@) =~= Seq::new(papers@.len(), |i: int| scispace_paper(papers@[i])));
        r
    }

    /// The answer to a search: every paper, with the reported total (0 when missing).
    pub fn search_response(&self, response: &ScispaceResponse, query: &SearchQuery) -> (r: Result<SearchResponse, SourceError>)
        ensures
            r matches Ok(resp) && {
                &&& paper_views(resp.papers@) == Seq::new(
                    response.papers@.len(),
                    |i: int| scispace_paper(response.papers@[i]),
                )
                &&& resp.source@ == "SciSpace"@
                &&& resp.query@ == query.query@
                &&& resp.total_results == Some(
                    match response.total_results {
                        Some(t) => t,
                        None => 0usize,
                    },
                )
            },
    {
        let total = match response.total_results {
            Some(t) => t,
            None => 0,
        };
        let papers = self.parse_results(&response.papers);
        let mut r = SearchResponse::new(papers, "SciSpace", query.query.as_str());
        r.total_results = Some(total);
        Ok(r)
    }

    /// The URL that looks a DOI up, with the DOI cleaned and percent-encoded.
    pub fn doi_url(&self, doi: &str) -> (r: String)
        ensures
            r@ == "https://api.typeset.io/v1/papers/doi/"@ + url_encoded(clean_doi_spec(doi@)),
    {
        let clean = clean_doi(doi);
        let mut r = to_owned_string("https://api.typeset.io/v1/papers/doi/");
        let e = url_encode(clean.as_str());
        push_str(&mut r, e.as_str());
        r
    }

    /// The status of a DOI lookup: 404 is `NotFound` naming the DOI, another
    /// status outside the success range an API error with the status text.
    pub fn check_doi_status(status: u16, status_text: &str, doi: &str) -> (r: Result<(), SourceError>)
        ensures
            status == 404 ==> (r matches Err(SourceError::NotFound(m)) && m@ == "Paper not found in SciSpace: "@
                + doi@),
            status != 404 && !is_success(status) ==> (r matches Err(SourceError::Api(m)) && m@
                == "SciSpace API returned status: "@ + status_text@),
            status != 404 && is_success(status) ==> r is Ok,
    {
        if status == 404 {
            let mut m = to_owned_string("Paper not found in SciSpace: ");
            push_str(&mut m, doi);
            Err(SourceError::NotFound(m))
        } else if !(200 <= status && status <= 299) {
            let mut m = to_owned_string("SciSpace API returned status: ");
            push_str(&mut m, status_text);
            Err(SourceError::Api(m))
        } else {
            Ok(())
        }
    }
}

} // verus!
