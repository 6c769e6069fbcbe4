//! CiteSeerX research source implementation.
//!
//! Uses the CiteSeerX OpenSearch API for searching and retrieving computer science papers.
use vstd::prelude::*;
use crate::models::{
    Paper, PaperBuilder, PaperView, SearchQuery, SearchResponse, SourceType, SourceTypeView,
    non_empty, bare_paper, paper_views,
};
use crate::sources::{SourceCapabilities, SourceDescriptor, SourceError, clean_doi, clean_doi_spec};
use crate::utils::text::{
    opt_view, or_empty, views, join, join_all, to_owned_string, push_str, url_encode, url_encoded,
    decimal, usize_to_decimal, u64_to_decimal, i64_to_decimal, signed_decimal,
};

verus! {

broadcast use vstd::string::group_string_axioms;

/// The `year` of a CiteSeerX document, as the response gives it.
pub enum JsonYear {
    /// A string.
    Text(String),
    /// A non-negative integer.
    Unsigned(u64),
    /// A negative integer.
    Signed(i64),
    /// Any other number, as `serde_json` writes it.
    OtherNumber(String),
    /// Missing, or neither a string nor a number.
    Absent,
}

/// A document of a CiteSeerX response.
pub struct CiteseerxDocument {
    pub id: Option<String>,
    pub title: Option<String>,
    pub authors: Option<Vec<String>>,
    pub abstract_text: Option<String>,
    pub doi: Option<String>,
    pub year: JsonYear,
    pub url: Option<String>,
    pub venue: Option<String>,
}

/// A CiteSeerX search response: the number of hits and the documents.
pub struct CiteseerxResponse {
    pub num_found: Option<usize>,
    pub docs: Vec<CiteseerxDocument>,
}

/// The year of a document as a string: the string itself, a number in decimal, or nothing.
pub open spec fn year_text(y: JsonYear) -> Seq<char> {
    match y {
        JsonYear::Text(s) => s@,
        JsonYear::Unsigned(n) => decimal(n as nat),
        JsonYear::Signed(n) => signed_decimal(n as int),
        JsonYear::OtherNumber(s) => s@,
        JsonYear::Absent => Seq::empty(),
    }
}

impl CiteseerxDocument {
    /// The year as a string.
    pub fn year_as_string(&self) -> (r: String)
        ensures
            r@ == year_text(self.year),
    {
        match &self.year {
            JsonYear::Text(s) => s.clone(),
            JsonYear::Unsigned(n) => u64_to_decimal(*n),
            JsonYear::Signed(n) => i64_to_decimal(*n),
            JsonYear::OtherNumber(s) => s.clone(),
            JsonYear::Absent => String::new(),
        }
    }
}

/// The authors of a document, joined with `; `.
pub open spec fn doc_authors(d: CiteseerxDocument) -> Seq<char> {
    match d.authors {
        Some(v) => join(views(v@), "; "@),
        None => Seq::empty(),
    }
}

/// The paper for a CiteSeerX document. Without a URL, the document page is
/// addressed by the DOI, or else by the identifier.
pub open spec fn document_paper(d: CiteseerxDocument) -> PaperView {
    let id = or_empty(opt_view(d.id));
    let doi = or_empty(opt_view(d.doi));
    let url = match d.url {
        Some(u) => u@,
        None => "https://citeseerx.ist.psu.edu/document?doi="@ + (if doi.len() > 0 {
            doi
        } else {
            id
        }),
    };
    PaperView {
        authors: doc_authors(d),
        abstract_text: or_empty(opt_view(d.abstract_text)),
        published_date: non_empty(year_text(d.year)),
        doi: non_empty(doi),
        categories: match d.venue {
            Some(v) => non_empty(v@),
            None => None,
        },
        ..bare_paper(id, or_empty(opt_view(d.title)), url, SourceTypeView::CiteSeerX)
    }
}

/// Search and DOI lookup.
pub open spec fn citeseerx_caps() -> SourceCapabilities {
    SourceCapabilities { search: true, doi_lookup: true, ..crate::sources::no_caps() }
}

/// CiteSeerX research source
///
/// Uses the CiteSeerX OpenSearch JSON API.
pub struct CiteseerxSource {}

impl Default for CiteseerxSource {
    /// The same source as `new`.
    fn default() -> (r: Self)
        ensures
            r == (CiteseerxSource {}),
    {
        CiteseerxSource {}
    }
}

impl CiteseerxSource {
    /// A CiteSeerX source.
    pub fn new() -> (r: Result<CiteseerxSource, SourceError>)
        ensures
            r is Ok,
    {
        Ok(CiteseerxSource {})
    }

    /// The identifier, `citeseerx`.
    pub fn id(&self) -> (r: &'static str)
        ensures
            r@ == "citeseerx"@,
    {
        "citeseerx"
    }

    /// The display name, `CiteSeerX`.
    pub fn name(&self) -> (r: &'static str)
        ensures
            r@ == "CiteSeerX"@,
    {
        "CiteSeerX"
    }

    /// Search and DOI lookup.
    pub fn capabilities(&self) -> (r: SourceCapabilities)
        ensures
            r == citeseerx_caps(),
    {
        SourceCapabilities::search().union(SourceCapabilities::doi_lookup())
    }

    /// This source as a registry entry.
    pub fn descriptor(&self) -> (r: SourceDescriptor)
        ensures
            r.id@ == "citeseerx"@,
            r.name@ == "CiteSeerX"@,
            r.capabilities == citeseerx_caps(),
    {
        SourceDescriptor::new(self.id(), self.name(), self.capabilities())
    }

    /// The paper for a document.
    pub fn parse_document(&self, doc: &CiteseerxDocument) -> (r: Paper)
        ensures
            r@ == document_paper(*doc),
    {
        let id = crate::utils::text::opt_or_empty(&doc.id);
        let title = crate::utils::text::opt_or_empty(&doc.title);
        let doi = crate::utils::text::opt_or_empty(&doc.doi);
        let year = doc.year_as_string();
        let authors = match &doc.authors {
            Some(v) => join_all(v, "; "),
            None => String::new(),
        };
        let abstract_text = crate::utils::text::opt_or_empty(&doc.abstract_text);
        let url = match &doc.url {
            Some(u) => u.clone(),
            None => {
                let mut u = to_owned_string("https://citeseerx.ist.psu.edu/document?doi=");
                if !doi.as_str().is_empty() {
                    push_str(&mut u, doi.as_str());
                } else {
                    push_str(&mut u, id.as_str());
                }
                u
            },
        };
        let mut builder = PaperBuilder::new(id.as_str(), title.as_str(), url.as_str(), SourceType::CiteSeerX)
            .authors(authors.as_str()).abstract_text(abstract_text.as_str()).published_date(year.as_str());
        if !doi.as_str().is_empty() {
            builder = builder.doi(doi.as_str());
        }
        match &doc.venue {
            Some(venue) => {
                if !venue.as_str().is_empty() {
                    builder = builder.categories(venue.as_str());
                }
            },
            None => {},
        }
        let r = builder.build();
        assert(r@.extra =~= document_paper(*doc).extra);
        r
    }

    /// The search URL: the query percent-encoded, at most ten results, by relevance.
    pub fn search_url(&self, query: &SearchQuery) -> (r: String)
        ensures
            r@ == "https://citeseerx.ist.psu.edu/api/search?q="@ + url_encoded(query.query@) + "&t=json&n="@
                + decimal((if query.max_results < 10 {
                query.max_results
            } else {
                10
            }) as nat) + "&sort=rel"@,
    {
        let max_results = if query.max_results < 10 {
            query.max_results
        } else {
            10
        };
        let mut r = to_owned_string("https://citeseerx.ist.psu.edu/api/search?q=");
        let q = url_encode(query.query.as_str());
        push_str(&mut r, q.as_str());
        push_str(&mut r, "&t=json&n=");
        let n = usize_to_decimal(max_results);
        push_str(&mut r, n.as_str());
        push_str(&mut r, "&sort=rel");
        r
    }

    /// The error for a request that failed with a status: the status text and the body.
    pub fn status_error(status_text: &str, body: &str) -> (r: SourceError)
        ensures
            r matches SourceError::Api(m) && m@ == "CiteSeerX API returned status "@ + status_text@ + ": "@ + body@,
    {
        let mut m = to_owned_string("CiteSeerX API returned status ");
        push_str(&mut m, status_text);
        push_str(&mut m, ": ");
        push_str(&mut m, body);
        SourceError::Api(m)
    }

    /// The papers of a response, in order.
    pub fn parse_documents(&self, docs: &Vec<CiteseerxDocument>) -> (r: Vec<Paper>)
        ensures
            paper_views(r@) == Seq::new(docs@.len(), |i: int| document_paper(docs@[i])),
    {
        let mut r: Vec<Paper> = Vec::new();
        let mut i: usize = 0;
        while i < docs.len()
            invariant
                i <= docs.len(),
                r.len() == i,
                forall|j: int| 0 <= j < i ==> (#[trigger] r@[j])@ == document_paper(docs@[j]),
            decreases docs.len() - i,
        {
            r.push(self.parse_document(&docs[i]));
            i += 1;
        }
        assert(paper_views(r@) =~= Seq::new(docs@.len(), |i: int| document_paper(docs@[i])));
        r
    }

    /// The answer to a search: every document as a paper, with the number of hits.
    pub fn search_response(&self, response: &CiteseerxResponse, query: &SearchQuery) -> (r: SearchResponse)
        ensures
            paper_views(r.papers@) == Seq::new(response.docs@.len(), |i: int| document_paper(response.docs@[i])),
            r.source@ == "CiteSeerX"@,
            r.query@ == query.query@,
            r.total_results == response.num_found,
    {
        let papers = self.parse_documents(&response.docs);
        let mut r = SearchResponse::new(papers, "CiteSeerX", query.query.as_str());
        r.total_results = response.num_found;
        r
    }

    /// The URL that looks a DOI up, with the DOI cleaned and percent-encoded.
    pub fn doi_url(&self, doi: &str) -> (r: String)
        ensures
            r@ == "https://citeseerx.ist.psu.edu/api/documents?doi="@ + url_encoded(clean_doi_spec(doi@)),
    {
        let clean = clean_doi(doi);
        let mut r = to_owned_string("https://citeseerx.ist.psu.edu/api/documents?doi=");
        let e = url_encode(clean.as_str());
        push_str(&mut r, e.as_str());
        r
    }

    /// The URL that fetches a document by identifier.
    pub fn id_url(&self, id: &str) -> (r: String)
        ensures
            r@ == "https://citeseerx.ist.psu.edu/api/documents?ids="@ + url_encoded(id@),
    {
        let mut r = to_owned_string("https://citeseerx.ist.psu.edu/api/documents?ids=");
        let e = url_encode(id);
        push_str(&mut r, e.as_str());
        r
    }

    /// The answer to a DOI lookup: the first document, or `NotFound` naming the DOI.
    pub fn doi_result(&self, response: &CiteseerxResponse, doi: &str) -> (r: Result<Paper, SourceError>)
        ensures
            response.docs.len() > 0 ==> (r matches Ok(p) && p@ == document_paper(response.docs@[0])),
            response.docs.len() == 0 ==> (r matches Err(SourceError::NotFound(m)) && m@
                == "DOI not found in CiteSeerX: "@ + doi@),
    {
        if response.docs.len() > 0 {
            Ok(self.parse_document(&response.docs[0]))
        } else {
            let mut m = to_owned_string("DOI not found in CiteSeerX: ");
            push_str(&mut m, doi);
            Err(SourceError::NotFound(m))
        }
    }

    /// The answer to a lookup by identifier: the first document, or `NotFound` naming the identifier.
    pub fn id_result(&self, response: &CiteseerxResponse, id: &str) -> (r: Result<Paper, SourceError>)
        ensures
            response.docs.len() > 0 ==> (r matches Ok(p) && p@ == document_paper(response.docs@[0])),
            response.docs.len() == 0 ==> (r matches Err(SourceError::NotFound(m)) && m@
                == "Paper not found in CiteSeerX: "@ + id@),
    {
        if response.docs.len() > 0 {
            Ok(self.parse_document(&response.docs[0]))
        } else {
            let mut m = to_owned_string("Paper not found in CiteSeerX: ");
            push_str(&mut m, id);
            Err(SourceError::NotFound(m))
        }
    }
}

} // verus!
