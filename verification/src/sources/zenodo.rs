//! Zenodo research source implementation.
//!
//! Uses the Zenodo API for searching and retrieving research papers.
//! API documentation: <https://developers.zenodo.org>
use vstd::prelude::*;
use crate::models::{
    Paper, PaperBuilder, PaperView, SearchQuery, SearchResponse, SourceType, SourceTypeView,
    non_empty, bare_paper, paper_views,
};
use crate::sources::{SourceCapabilities, SourceDescriptor, SourceError, ResponseKind, is_success, clean_doi, clean_doi_spec};
use crate::utils::text::{
    opt_view, or_empty, views, join, join_all, to_owned_string, push_str, url_encode, url_encoded,
    decimal, usize_to_decimal, contains, str_contains, chars_of, string_from_range,
};

verus! {

broadcast use vstd::string::group_string_axioms;

/// The number of hits of a Zenodo response, in either of its two shapes.
pub enum ZenodoTotal {
    Struct { value: usize },
    Integer(usize),
}

impl Default for ZenodoTotal {
    /// No hit.
    fn default() -> (r: Self)
        ensures
            r == ZenodoTotal::Integer(0),
    {
        ZenodoTotal::Integer(0)
    }
}

/// A creator of a record.
pub struct ZenodoCreator {
    pub name: Option<String>,
}

/// The metadata of a record.
pub struct ZenodoMetadata {
    pub title: Option<String>,
    pub description: Option<String>,
    pub doi: Option<String>,
    pub publication_date: Option<String>,
    pub creators: Vec<ZenodoCreator>,
}

/// The links of a record.
pub struct ZenodoLinks {
    pub html: Option<String>,
}

/// A record found by a search.
pub struct ZenodoHit {
    pub id: usize,
    pub metadata: ZenodoMetadata,
    pub links: ZenodoLinks,
}

/// The hits of a search.
pub struct ZenodoHits {
    pub total: ZenodoTotal,
    pub hits: Vec<ZenodoHit>,
}

/// A Zenodo API response.
pub struct ZenodoResponse {
    pub hits: ZenodoHits,
}

/// The number a total stands for.
pub open spec fn total_value(t: ZenodoTotal) -> usize {
    match t {
        ZenodoTotal::Struct { value } => value,
        ZenodoTotal::Integer(n) => n,
    }
}

/// The names of the creators that have one, in order.
pub open spec fn creator_names(c: Seq<ZenodoCreator>) -> Seq<Seq<char>>
    decreases c.len(),
{
    if c.len() == 0 {
        Seq::empty()
    } else {
        creator_names(c.drop_last()) + match c.last().name {
            Some(n) => seq![n@],
            None => Seq::empty(),
        }
    }
}

/// The paper for a record: identified by its number, linked to its page, else
/// its DOI, else its Zenodo record.
pub open spec fn zenodo_paper(h: ZenodoHit) -> PaperView {
    let id = decimal(h.id as nat);
    let doi = or_empty(opt_view(h.metadata.doi));
    let url = match h.links.html {
        Some(u) => u@,
        None => if doi.len() > 0 {
            "https://doi.org/"@ + doi
        } else {
            "https://zenodo.org/record/"@ + id
        },
    };
    PaperView {
        authors: join(creator_names(h.metadata.creators@), "; "@),
        published_date: non_empty(or_empty(opt_view(h.metadata.publication_date))),
        abstract_text: or_empty(opt_view(h.metadata.description)),
        doi: non_empty(doi),
        ..bare_paper(id, or_empty(opt_view(h.metadata.title)), url, SourceTypeView::Other("zenodo"@))
    }
}

/// At most the first 500 characters of a text.
pub open spec fn preview(s: Seq<char>) -> Seq<char> {
    if s.len() <= 500 {
        s
    } else {
        s.take(500)
    }
}

/// Search and DOI lookup.
pub open spec fn zenodo_caps() -> SourceCapabilities {
    SourceCapabilities { search: true, doi_lookup: true, ..crate::sources::no_caps() }
}

/// The names of a record's creators.
fn collect_creator_names(creators: &Vec<ZenodoCreator>) -> (r: Vec<String>)
    ensures
        views(r@) == creator_names(creators@),
{
    let mut r: Vec<String> = Vec::new();
    let ghost s = creators@;
    let mut i: usize = 0;
    assert(s.take(0) =~= Seq::<ZenodoCreator>::empty());
    assert(views(r@) =~= Seq::<Seq<char>>::empty());
    while i < creators.len()
        invariant
            s == creators@,
            i <= s.len(),
            views(r@) == creator_names(s.take(i as int)),
        decreases s.len() - i,
    {
        assert(s.take(i + 1).drop_last() =~= s.take(i as int));
        assert(s.take(i + 1).last() == s[i as int]);
        match &creators[i].name {
            Some(n) => {
                let ghost old = r@;
                r.push(n.clone());
                assert(views(r@) =~= views(old) + seq![n@]);
            },
            None => {
                assert(creator_names(s.take(i + 1)) =~= creator_names(s.take(i as int)));
            },
        }
        i += 1;
    }
    assert(s.take(s.len() as int) =~= s);
    r
}

/// Zenodo research source
///
/// Uses the Zenodo API for searching and retrieving research papers.
/// Zenodo is free and requires no API key.
pub struct ZenodoSource {}

impl Default for ZenodoSource {
    /// The same source as `new`.
    fn default() -> (r: Self)
        ensures
            r == (ZenodoSource {}),
    {
        ZenodoSource {}
    }
}

impl ZenodoSource {
    /// A Zenodo source.
    pub fn new() -> (r: Result<ZenodoSource, SourceError>)
        ensures
            r is Ok,
    {
        Ok(ZenodoSource {})
    }

    /// The identifier, `zenodo`.
    pub fn id(&self) -> (r: &'static str)
        ensures
            r@ == "zenodo"@,
    {
        "zenodo"
    }

    /// The display name, `Zenodo`.
    pub fn name(&self) -> (r: &'static str)
        ensures
            r@ == "Zenodo"@,
    {
        "Zenodo"
    }

    /// Search and DOI lookup.
    pub fn capabilities(&self) -> (r: SourceCapabilities)
        ensures
            r == zenodo_caps(),
    {
        SourceCapabilities::search().union(SourceCapabilities::doi_lookup())
    }

    /// This source as a registry entry.
    pub fn descriptor(&self) -> (r: SourceDescriptor)
        ensures
            r.id@ == "zenodo"@,
            r.name@ == "Zenodo"@,
            r.capabilities == zenodo_caps(),
    {
        SourceDescriptor::new(self.id(), self.name(), self.capabilities())
    }

    /// The search URL: the query percent-encoded, publications only, at most 1000 results.
    pub fn search_url(&self, query: &SearchQuery) -> (r: String)
        ensures
            r@ == "https://zenodo.org/api/records?q="@ + url_encoded(query.query@) + "&size="@ + decimal(
                (if query.max_results < 1000 {
                    query.max_results
                } else {
                    1000
                }) as nat,
            ) + "&type=publication"@,
    {
        let max_results = if query.max_results < 1000 {
            query.max_results
        } else {
            1000
        };
        let mut r = to_owned_string("https://zenodo.org/api/records?q=");
        let e = url_encode(query.query.as_str());
        push_str(&mut r, e.as_str());
        push_str(&mut r, "&size=");
        let n = usize_to_decimal(max_results);
        push_str(&mut r, n.as_str());
        push_str(&mut r, "&type=publication");
        r
    }

    /// How a search response is taken: a limited request (429), or an answer
    /// that is not JSON, gives an empty result; another status outside the
    /// success range fails.
    pub fn classify_response(status: u16, content_type: &str) -> (r: ResponseKind)
        ensures
            r == if !is_success(status) {
                if status == 429 {
                    ResponseKind::RateLimited
                } else {
                    ResponseKind::Failed
                }
            } else if contains(content_type@, "application/json"@) {
                ResponseKind::Proceed
            } else {
                ResponseKind::RateLimited
            },
    {
        if !(200 <= status && status <= 299) {
            if status == 429 {
                ResponseKind::RateLimited
            } else {
                ResponseKind::Failed
            }
        } else if str_contains(content_type, "application/json") {
            ResponseKind::Proceed
        } else {
            ResponseKind::RateLimited
        }
    }

    /// The error for a search that failed with a status: the status text and the body.
    pub fn status_error(status_text: &str, body: &str) -> (r: SourceError)
        ensures
            r matches SourceError::Api(m) && m@ == "Zenodo API returned status "@ + status_text@ + ": "@ + body@,
    {
        let mut m = to_owned_string("Zenodo API returned status ");
        push_str(&mut m, status_text);
        push_str(&mut m, ": ");
        push_str(&mut m, body);
        SourceError::Api(m)
    }

    /// The error for a body that is not a valid response: the parser's message
    /// and at most the first 500 characters of the body.
    pub fn parse_error(message: &str, body: &str) -> (r: SourceError)
        ensures
            r matches SourceError::Parse(m) && m@ == "Failed to parse Zenodo response: "@ + message@ + ". Response: "@
                + preview(body@),
    {
        let chars = chars_of(body);
        let n = if chars.len() <= 500 {
            chars.len()
        } else {
            500
        };
        let p = string_from_range(&chars, 0, n);
        let mut m = to_owned_string("Failed to parse Zenodo response: ");
        push_str(&mut m, message);
        push_str(&mut m, ". Response: ");
        push_str(&mut m, p.as_str());
        assert(p@ =~= preview(body@));
        SourceError::Parse(m)
    }

    /// The answer to a search while the source limits requests: no paper.
    pub fn rate_limited_response(&self, query: &SearchQuery) -> (r: SearchResponse)
        ensures
            r.papers@.len() == 0,
            r.source@ == "Zenodo"@,
            r.query@ == query.query@,
            r.total_results.is_none(),
    {
        let none: Vec<Paper> = Vec::new();
        let r = SearchResponse::new(none, "Zenodo", query.query.as_str());
        assert(paper_views(r.papers@).len() == paper_views(none@).len());
        r
    }

    /// The paper for a record.
    pub fn parse_result(&self, item: &ZenodoHit) -> (r: Result<Paper, SourceError>)
        ensures
            r matches Ok(p) && p@ == zenodo_paper(*item),
    {
        let id = usize_to_decimal(item.id);
        let title = crate::utils::text::opt_or_empty(&item.metadata.title);
        let abstract_text = crate::utils::text::opt_or_empty(&item.metadata.description);
        let doi = crate::utils::text::opt_or_empty(&item.metadata.doi);
        let names = collect_creator_names(&item.metadata.creators);
        let authors = join_all(&names, "; ");
        let year = crate::utils::text::opt_or_empty(&item.metadata.publication_date);
        let url = match &item.links.html {
            Some(u) => u.clone(),
            None => {
                if !doi.as_str().is_empty() {
                    let mut u = to_owned_string("https://doi.org/");
                    push_str(&mut u, doi.as_str());
                    u
                } else {
                    let mut u = to_owned_string("https://zenodo.org/record/");
                    push_str(&mut u, id.as_str());
                    u
                }
            },
        };
        let r = PaperBuilder::new(id.as_str(), title.as_str(), url.as_str(), SourceType::Other(to_owned_string("zenodo")))
            .authors(authors.as_str()).published_date(year.as_str()).abstract_text(abstract_text.as_str())
            .doi(doi.as_str()).build();
        Ok(r)
    }

    /// The answer to a search that failed with a status: an API error with the
    /// status text and the body, except that an error whose message mentions
    /// `rate-limited` is taken as the source limiting requests: no paper.
    pub fn failed_search(&self, query: &SearchQuery, status_text: &str, body: &str) -> (r: Result<SearchResponse, SourceError>)
        ensures
            ({
                let m = "Zenodo API returned status "@ + status_text@ + ": "@ + body@;
                if contains(m, "rate-limited"@) {
                    r matches Ok(resp) && resp.papers@.len() == 0 && resp.source@ == "Zenodo"@
                        && resp.query@ == query.query@ && resp.total_results.is_none()
                } else {
                    r matches Err(SourceError::Api(e)) && e@ == m
                }
            }),
    {
        let e = Self::status_error(status_text, body);
        match e {
            SourceError::Api(m) => {
                if str_contains(m.as_str(), "rate-limited") {
                    Ok(self.rate_limited_response(query))
                } else {
                    Err(SourceError::Api(m))
                }
            },
            other => Err(other),
        }
    }

    /// The papers of some records, in order.
    pub fn parse_results(&self, hits: &Vec<ZenodoHit>) -> (r: Vec<Paper>)
        ensures
            paper_views(r@) == Seq::new(hits@.len(), |i: int| zenodo_paper(hits@[i])),
    {
        let mut r: Vec<Paper> = Vec::new();
        let mut i: usize = 0;
        while i < hits.len()
            invariant
                i <= hits.len(),
                r.len() == i,
                forall|j: int| 0 <= j < i ==> (#[trigger] r@[j])@ == zenodo_paper(hits@[j]),
            decreases hits.len() - i,
        {
            match self.parse_result(&hits[i]) {
                Ok(p) => r.push(p),
                Err(_) => {},
            }
            i += 1;
        }
        assert(paper_views(r@) =~= Seq::new(hits@.len(), |i: int| zenodo_paper(hits@[i])));
        r
    }

    /// The answer to a search: every record, with the reported total.
    pub fn search_response(&self, response: &ZenodoResponse, query: &SearchQuery) -> (r: Result<SearchResponse, SourceError>)
        ensures
            r matches Ok(resp) && {
                &&& paper_views(resp.papers@) == Seq::new(
                    response.hits.hits@.len(),
                    |i: int| zenodo_paper(response.hits.hits@[i]),
                )
                &&& resp.source@ == "Zenodo"@
                &&& resp.query@ == query.query@
                &&& resp.total_results == Some(total_value(response.hits.total))
            },
    {
        let total = match response.hits.total {
            ZenodoTotal::Struct { value } => value,
            ZenodoTotal::Integer(n) => n,
        };
        let papers = self.parse_results(&response.hits.hits);
        let mut r = SearchResponse::new(papers, "Zenodo", query.query.as_str());
        r.total_results = Some(total);
        Ok(r)
    }

    /// The URL that looks a DOI up: the cleaned DOI, percent-encoded, in quotes.
    pub fn doi_url(&self, doi: &str) -> (r: String)
        ensures
            r@ == "https://zenodo.org/api/records?q=doi:\""@ + url_encoded(clean_doi_spec(doi@)) + "\""@,
    {
        let clean = clean_doi(doi);
        let mut r = to_owned_string("https://zenodo.org/api/records?q=doi:\"");
        let e = url_encode(clean.as_str());
        push_str(&mut r, e.as_str());
        push_str(&mut r, "\"");
        r
    }

    /// `Paper not found in Zenodo: <doi>`: the answer to a failed lookup.
    pub fn not_found(doi: &str) -> (r: SourceError)
        ensures
            r matches SourceError::NotFound(m) && m@ == "Paper not found in Zenodo: "@ + doi@,
    {
        let mut m = to_owned_string("Paper not found in Zenodo: ");
        push_str(&mut m, doi);
        SourceError::NotFound(m)
    }

    /// The answer to a DOI lookup: the first record, or `NotFound` naming the DOI.
    pub fn doi_result(&self, response: &ZenodoResponse, doi: &str) -> (r: Result<Paper, SourceError>)
        ensures
            response.hits.hits.len() > 0 ==> (r matches Ok(p) && p@ == zenodo_paper(response.hits.hits@[0])),
            response.hits.hits.len() == 0 ==> (r matches Err(SourceError::NotFound(m)) && m@
                == "Paper not found in Zenodo: "@ + doi@),
    {
        if response.hits.hits.len() > 0 {
            self.parse_result(&response.hits.hits[0])
        } else {
            Err(Self::not_found(doi))
        }
    }
}

} // verus!
