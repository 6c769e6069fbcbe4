//! ORCID research source implementation.
//!
//! ORCID provides persistent digital identifiers for researchers.
//! Free API at https://pub.orcid.org/
//!
//! Capabilities: SEARCH, AUTHOR_SEARCH
use vstd::prelude::*;
use crate::models::{
    Paper, PaperBuilder, PaperView, SearchQuery, SearchResponse, SourceType, SourceTypeView,
    non_empty, bare_paper, paper_views,
};
use crate::sources::{SourceCapabilities, SourceDescriptor, SourceError};
use crate::utils::text::{
    opt_view, or_empty, views, join, join_prefix, to_owned_string, push_str, url_encode,
    url_encoded, decimal, usize_to_decimal, words, split_words, contains, str_contains, zero_pad,
    zero_pad2, str_eq,
};

verus! {

broadcast use vstd::string::group_string_axioms;

/// A value field.
pub struct OrcidValue {
    pub value: Option<String>,
}

/// The identifier of a record.
pub struct OrcidIdentifier {
    pub path: Option<String>,
}

/// The name parts of a researcher.
pub struct OrcidName {
    pub given_names: Option<OrcidValue>,
    pub family_name: Option<OrcidValue>,
    pub credit_name: Option<OrcidValue>,
}

/// The person of a record.
pub struct OrcidPerson {
    pub name: Option<OrcidName>,
}

/// A record found by a search.
pub struct OrcidResult {
    pub orcid_identifier: Option<OrcidIdentifier>,
    pub person: Option<OrcidPerson>,
}

/// The answer to a record search.
pub struct OrcidSearchResponse {
    pub result: Option<Vec<OrcidResult>>,
    pub num_found: Option<u64>,
}

/// The title of a work.
pub struct OrcidWorkTitle {
    pub title: Option<OrcidValue>,
}

/// An external identifier of a work, with its type.
pub struct OrcidExternalId {
    pub external_id_type: Option<String>,
    pub external_id_value: Option<String>,
}

/// The external identifiers of a work.
pub struct OrcidExternalIds {
    pub external_id: Option<Vec<OrcidExternalId>>,
}

/// A publication date, by parts.
pub struct OrcidDate {
    pub year: Option<OrcidValue>,
    pub month: Option<OrcidValue>,
    pub day: Option<OrcidValue>,
}

/// The summary of a work.
pub struct OrcidWorkSummary {
    pub title: Option<OrcidWorkTitle>,
    pub external_ids: Option<OrcidExternalIds>,
    pub publication_date: Option<OrcidDate>,
    pub path: Option<String>,
}

/// A group of versions of one work.
pub struct OrcidWorkGroup {
    pub work_summary: Option<Vec<OrcidWorkSummary>>,
}

/// The works of a record.
pub struct OrcidWorksResponse {
    pub group: Option<Vec<OrcidWorkGroup>>,
}

/// The text of an optional value field.
pub open spec fn value_of(o: Option<OrcidValue>) -> Option<Seq<char>> {
    match o {
        Some(v) => opt_view(v.value),
        None => None,
    }
}

/// The search terms for an author name: with two words or more, the last is
/// the family name and the others the given names; otherwise a text search.
pub open spec fn author_query(author: Seq<char>) -> Seq<char> {
    let parts = words(author);
    if parts.len() >= 2 {
        "given-names:"@ + url_encoded(join(parts.take(parts.len() - 1), " "@)) + " AND family-name:"@
            + url_encoded(parts.last())
    } else {
        "text:"@ + url_encoded(author)
    }
}

/// The search terms for a query: an author search when it holds a space, else a text search.
pub open spec fn search_terms(q: Seq<char>) -> Seq<char> {
    if contains(q, " "@) {
        author_query(q)
    } else {
        "text:"@ + url_encoded(q)
    }
}

/// The display name of a record: its credit name, else `family, given` when
/// either is known, else `Unknown ORCID Researcher`.
pub open spec fn profile_name(r: OrcidResult) -> Seq<char> {
    let unknown = "Unknown ORCID Researcher"@;
    match r.person {
        Some(p) => match p.name {
            Some(n) => match value_of(n.credit_name) {
                Some(c) => c,
                None => {
                    let g = or_empty(value_of(n.given_names));
                    let f = or_empty(value_of(n.family_name));
                    if g.len() == 0 && f.len() == 0 {
                        unknown
                    } else {
                        f + ", "@ + g
                    }
                },
            },
            None => unknown,
        },
        None => unknown,
    }
}

/// The ORCID of a record, or the empty string.
pub open spec fn orcid_path(r: OrcidResult) -> Seq<char> {
    match r.orcid_identifier {
        Some(i) => or_empty(opt_view(i.path)),
        None => Seq::empty(),
    }
}

/// The source type of every ORCID paper.
pub open spec fn orcid_type() -> SourceTypeView {
    SourceTypeView::Other("ORCID"@)
}

/// A researcher profile as a paper: the ORCID, the name and the profile page.
pub open spec fn orcid_profile(r: OrcidResult) -> PaperView {
    bare_paper(orcid_path(r), profile_name(r), "https://orcid.org/"@ + orcid_path(r), orcid_type())
}

/// The value of the first external identifier of type `doi`.
pub open spec fn first_doi_id(ids: Seq<OrcidExternalId>) -> Option<Seq<char>>
    decreases ids.len(),
{
    if ids.len() == 0 {
        None
    } else if ids[0].external_id_type matches Some(t) && t@ == "doi"@ {
        opt_view(ids[0].external_id_value)
    } else {
        first_doi_id(ids.drop_first())
    }
}

/// The DOI of a work.
pub open spec fn work_doi(s: OrcidWorkSummary) -> Option<Seq<char>> {
    match s.external_ids {
        Some(e) => match e.external_id {
            Some(ids) => first_doi_id(ids@),
            None => None,
        },
        None => None,
    }
}

/// The date of a work, `year-MM-DD`, with a missing month or day read as
/// `01`; none without a year.
pub open spec fn work_date(s: OrcidWorkSummary) -> Option<Seq<char>> {
    match s.publication_date {
        Some(d) => {
            let y = or_empty(value_of(d.year));
            let m = match value_of(d.month) {
                Some(m) => m,
                None => "01"@,
            };
            let dd = match value_of(d.day) {
                Some(x) => x,
                None => "01"@,
            };
            if y.len() == 0 {
                None
            } else {
                Some(y + "-"@ + zero_pad(m, 2) + "-"@ + zero_pad(dd, 2))
            }
        },
        None => None,
    }
}

/// The title of a work, or `Untitled Work`.
pub open spec fn work_title(s: OrcidWorkSummary) -> Seq<char> {
    match s.title {
        Some(t) => match value_of(t.title) {
            Some(x) => x,
            None => "Untitled Work"@,
        },
        None => "Untitled Work"@,
    }
}

/// A work as a paper: identified and linked by its DOI, else by its ORCID path.
pub open spec fn orcid_work(s: OrcidWorkSummary) -> PaperView {
    let doi = work_doi(s);
    let path = or_empty(opt_view(s.path));
    let id = match doi {
        Some(d) => d,
        None => path,
    };
    let url = match doi {
        Some(d) => "https://doi.org/"@ + d,
        None => "https://orcid.org/"@ + path,
    };
    PaperView {
        published_date: match work_date(s) {
            Some(d) => non_empty(d),
            None => None,
        },
        doi: match doi {
            Some(d) => non_empty(d),
            None => None,
        },
        ..bare_paper(id, work_title(s), url, orcid_type())
    }
}

/// The first summary of each group that has one, in order.
pub open spec fn first_summaries(gs: Seq<OrcidWorkGroup>) -> Seq<OrcidWorkSummary>
    decreases gs.len(),
{
    if gs.len() == 0 {
        Seq::empty()
    } else {
        first_summaries(gs.drop_last()) + match gs.last().work_summary {
            Some(v) => if v@.len() > 0 {
                seq![v@[0]]
            } else {
                Seq::empty()
            },
            None => Seq::empty(),
        }
    }
}

/// The records of a search response.
pub open spec fn results_of(data: OrcidSearchResponse) -> Seq<OrcidResult> {
    match data.result {
        Some(v) => v@,
        None => Seq::empty(),
    }
}

/// The ORCID of the first record of a search response, if it has one.
pub open spec fn first_orcid_of(data: OrcidSearchResponse) -> Option<Seq<char>> {
    let rs = results_of(data);
    if rs.len() > 0 {
        match rs[0].orcid_identifier {
            Some(i) => opt_view(i.path),
            None => None,
        }
    } else {
        None
    }
}

/// The groups of a works response.
pub open spec fn groups_of(works: OrcidWorksResponse) -> Seq<OrcidWorkGroup> {
    match works.group {
        Some(g) => g@,
        None => Seq::empty(),
    }
}

/// Search and author search.
pub open spec fn orcid_caps() -> SourceCapabilities {
    SourceCapabilities { search: true, author_search: true, ..crate::sources::no_caps() }
}

/// The text of an optional value field.
fn value_text(o: &Option<OrcidValue>) -> (r: Option<String>)
    ensures
        opt_view(r) == value_of(*o),
{
    match o {
        Some(v) => crate::utils::text::copy_opt_string(&v.value),
        None => None,
    }
}

/// The DOI of a work.
fn find_work_doi(s: &OrcidWorkSummary) -> (r: Option<String>)
    ensures
        opt_view(r) == work_doi(*s),
{
    let ids = match &s.external_ids {
        Some(e) => match &e.external_id {
            Some(ids) => ids,
            None => {
                return None;
            },
        },
        None => {
            return None;
        },
    };
    let ghost q = ids@;
    let n = ids.len();
    let mut i: usize = 0;
    assert(q.subrange(0, n as int) =~= q);
    while i < n
        invariant
            q == ids@,
            n == q.len(),
            i <= n,
            work_doi(*s) == first_doi_id(q),
            first_doi_id(q) == first_doi_id(q.subrange(i as int, n as int)),
        decreases n - i,
    {
        assert(q.subrange(i as int, n as int).drop_first() =~= q.subrange(i + 1, n as int));
        assert(q.subrange(i as int, n as int)[0] == q[i as int]);
        let is_doi = match &ids[i].external_id_type {
            Some(t) => str_eq(t.as_str(), "doi"),
            None => false,
        };
        if is_doi {
            return crate::utils::text::copy_opt_string(&ids[i].external_id_value);
        }
        i += 1;
    }
    assert(q.subrange(n as int, n as int).len() == 0);
    None
}

/// ORCID research source
pub struct OrcidSource {}

impl OrcidSource {
    /// An ORCID source.
    pub fn new() -> (r: Result<OrcidSource, SourceError>)
        ensures
            r is Ok,
    {
        Ok(OrcidSource {})
    }

    /// The identifier, `orcid`.
    pub fn id(&self) -> (r: &'static str)
        ensures
            r@ == "orcid"@,
    {
        "orcid"
    }

    /// The display name, `ORCID`.
    pub fn name(&self) -> (r: &'static str)
        ensures
            r@ == "ORCID"@,
    {
        "ORCID"
    }

    /// Search and author search.
    pub fn capabilities(&self) -> (r: SourceCapabilities)
        ensures
            r == orcid_caps(),
    {
        SourceCapabilities::search().union(SourceCapabilities::author_search())
    }

    /// This source as a registry entry.
    pub fn descriptor(&self) -> (r: SourceDescriptor)
        ensures
            r.id@ == "orcid"@,
            r.name@ == "ORCID"@,
            r.capabilities == orcid_caps(),
    {
        SourceDescriptor::new(self.id(), self.name(), self.capabilities())
    }

    /// The full URL of an API endpoint.
    pub fn build_url(&self, endpoint: &str) -> (r: String)
        ensures
            r@ == "https://pub.orcid.org/v3.0"@ + endpoint@,
    {
        let mut r = to_owned_string("https://pub.orcid.org/v3.0");
        push_str(&mut r, endpoint);
        r
    }

    /// The search terms for an author name: with two words or more, the last
    /// is the family name and the others the given names; otherwise a text search.
    pub fn build_author_query(author: &str) -> (r: String)
        ensures
            r@ == author_query(author@),
    {
        let parts = split_words(author);
        if parts.len() >= 2 {
            let n = parts.len() - 1;
            let given = join_prefix(&parts, n, " ");
            let mut r = to_owned_string("given-names:");
            let g = url_encode(given.as_str());
            push_str(&mut r, g.as_str());
            push_str(&mut r, " AND family-name:");
            let f = url_encode(parts[n].as_str());
            push_str(&mut r, f.as_str());
            assert(views(parts@)[n as int] == parts@[n as int]@);
            r
        } else {
            let mut r = to_owned_string("text:");
            let e = url_encode(author);
            push_str(&mut r, e.as_str());
            r
        }
    }

    /// The search terms for a query: an author search when it holds a space, else a text search.
    pub fn search_query_terms(query: &str) -> (r: String)
        ensures
            r@ == search_terms(query@),
    {
        if str_contains(query, " ") {
            Self::build_author_query(query)
        } else {
            let mut r = to_owned_string("text:");
            let e = url_encode(query);
            push_str(&mut r, e.as_str());
            r
        }
    }

    /// The URL of a record search, for at most 100 records.
    pub fn search_url(&self, query: &SearchQuery) -> (r: String)
        ensures
            r@ == "https://pub.orcid.org/v3.0/search?q="@ + search_terms(query.query@) + "&rows="@ + decimal(
                (if query.max_results < 100 {
                    query.max_results
                } else {
                    100
                }) as nat,
            ),
    {
        let rows = if query.max_results < 100 {
            query.max_results
        } else {
            100
        };
        let mut r = to_owned_string("https://pub.orcid.org/v3.0/search?q=");
        let t = Self::search_query_terms(query.query.as_str());
        push_str(&mut r, t.as_str());
        push_str(&mut r, "&rows=");
        let n = usize_to_decimal(rows);
        push_str(&mut r, n.as_str());
        r
    }

    /// The URL of the search for one author's record.
    pub fn author_search_url(&self, author: &str) -> (r: String)
        ensures
            r@ == "https://pub.orcid.org/v3.0/search?q="@ + author_query(author@) + "&rows=1"@,
    {
        let mut r = to_owned_string("https://pub.orcid.org/v3.0/search?q=");
        let t = Self::build_author_query(author);
        push_str(&mut r, t.as_str());
        push_str(&mut r, "&rows=1");
        r
    }

    /// The URL of the works of a record.
    pub fn works_url(&self, orcid: &str) -> (r: String)
        ensures
            r@ == "https://pub.orcid.org/v3.0/"@ + url_encoded(orcid@) + "/works"@,
    {
        let mut r = to_owned_string("https://pub.orcid.org/v3.0/");
        let e = url_encode(orcid);
        push_str(&mut r, e.as_str());
        push_str(&mut r, "/works");
        r
    }

    /// A researcher profile as a paper.
    pub fn parse_profile(result: &OrcidResult) -> (r: Paper)
        ensures
            r@ == orcid_profile(*result),
    {
        let orcid_path = match &result.orcid_identifier {
            Some(i) => crate::utils::text::opt_or_empty(&i.path),
            None => String::new(),
        };
        let name_parts = match &result.person {
            Some(p) => match &p.name {
                Some(n) => Some(n),
                None => None,
            },
            None => None,
        };
        let name = match name_parts {
            Some(n) => match value_text(&n.credit_name) {
                Some(c) => c,
                None => {
                    let given = match value_text(&n.given_names) {
                        Some(g) => g,
                        None => String::new(),
                    };
                    let family = match value_text(&n.family_name) {
                        Some(f) => f,
                        None => String::new(),
                    };
                    if given.as_str().is_empty() && family.as_str().is_empty() {
                        to_owned_string("Unknown ORCID Researcher")
                    } else {
                        let mut x = family;
                        push_str(&mut x, ", ");
                        push_str(&mut x, given.as_str());
                        x
                    }
                },
            },
            None => to_owned_string("Unknown ORCID Researcher"),
        };
        let mut profile_url = to_owned_string("https://orcid.org/");
        push_str(&mut profile_url, orcid_path.as_str());
        PaperBuilder::new(
            orcid_path.as_str(),
            name.as_str(),
            profile_url.as_str(),
            SourceType::Other(to_owned_string("ORCID")),
        ).build()
    }

    /// A work as a paper.
    pub fn parse_work(summary: &OrcidWorkSummary) -> (r: Paper)
        ensures
            r@ == orcid_work(*summary),
    {
        let title = match &summary.title {
            Some(t) => match value_text(&t.title) {
                Some(x) => x,
                None => to_owned_string("Untitled Work"),
            },
            None => to_owned_string("Untitled Work"),
        };
        let doi = find_work_doi(summary);
        let path = crate::utils::text::opt_or_empty(&summary.path);
        let paper_id = match &doi {
            Some(d) => d.clone(),
            None => path.clone(),
        };
        let url = match &doi {
            Some(d) => {
                let mut u = to_owned_string("https://doi.org/");
                push_str(&mut u, d.as_str());
                u
            },
            None => {
                let mut u = to_owned_string("https://orcid.org/");
                push_str(&mut u, path.as_str());
                u
            },
        };
        let published_date = match &summary.publication_date {
            Some(d) => {
                let year = match value_text(&d.year) {
                    Some(y) => y,
                    None => String::new(),
                };
                if year.as_str().is_empty() {
                    None
                } else {
                    let month = match value_text(&d.month) {
                        Some(m) => m,
                        None => to_owned_string("01"),
                    };
                    let day = match value_text(&d.day) {
                        Some(x) => x,
                        None => to_owned_string("01"),
                    };
                    let mut x = year;
                    push_str(&mut x, "-");
                    let m = zero_pad2(month.as_str());
                    push_str(&mut x, m.as_str());
                    push_str(&mut x, "-");
                    let dd = zero_pad2(day.as_str());
                    push_str(&mut x, dd.as_str());
                    Some(x)
                }
            },
            None => None,
        };
        let mut paper = PaperBuilder::new(
            paper_id.as_str(),
            title.as_str(),
            url.as_str(),
            SourceType::Other(to_owned_string("ORCID")),
        );
        match &published_date {
            Some(date) => {
                paper = paper.published_date(date.as_str());
            },
            None => {},
        }
        match &doi {
            Some(d) => {
                paper = paper.doi(d.as_str());
            },
            None => {},
        }
        paper.build()
    }

    /// The profiles of a search response, in order.
    pub fn parse_profiles(results: &Vec<OrcidResult>) -> (r: Vec<Paper>)
        ensures
            paper_views(r@) == Seq::new(results@.len(), |i: int| orcid_profile(results@[i])),
    {
        let mut r: Vec<Paper> = Vec::new();
        let mut i: usize = 0;
        while i < results.len()
            invariant
                i <= results.len(),
                r.len() == i,
                forall|j: int| 0 <= j < i ==> (#[trigger] r@[j])@ == orcid_profile(results@[j]),
            decreases results.len() - i,
        {
            r.push(Self::parse_profile(&results[i]));
            i += 1;
        }
        assert(paper_views(r@) =~= Seq::new(results@.len(), |i: int| orcid_profile(results@[i])));
        r
    }

    /// The answer to a record search: every record as a profile; the total is
    /// the number of records found, or else the number returned.
    pub fn search_response(&self, data: &OrcidSearchResponse, query: &SearchQuery) -> (r: SearchResponse)
        ensures
            paper_views(r.papers@) == Seq::new(results_of(*data).len(), |i: int| orcid_profile(results_of(*data)[i])),
            r.source@ == "ORCID"@,
            r.query@ == query.query@,
            r.total_results == Some(
                (match data.num_found {
                    Some(n) => n,
                    None => results_of(*data).len() as u64,
                }) as usize,
            ),
    {
        let papers = match &data.result {
            Some(v) => Self::parse_profiles(v),
            None => {
                let none: Vec<Paper> = Vec::new();
                assert(paper_views(none@) =~= Seq::new(0, |i: int| orcid_profile(results_of(*data)[i])));
                none
            },
        };
        let total: u64 = match data.num_found {
            Some(n) => n,
            None => papers.len() as u64,
        };
        assert(paper_views(papers@).len() == papers@.len());
        let mut r = SearchResponse::new(papers, "ORCID", query.query.as_str());
        r.total_results = Some(total as usize);
        r
    }

    /// The ORCID of the first record found for an author, or `NotFound` naming the author.
    pub fn first_orcid(data: &OrcidSearchResponse, author: &str) -> (r: Result<String, SourceError>)
        ensures
            match first_orcid_of(*data) {
                Some(id) => r matches Ok(x) && x@ == id,
                None => r matches Err(SourceError::NotFound(m)) && m@ == "ORCID not found for '"@ + author@ + "'"@,
            },
    {
        let first = match &data.result {
            Some(v) => {
                if v.len() > 0 {
                    match &v[0].orcid_identifier {
                        Some(i) => crate::utils::text::copy_opt_string(&i.path),
                        None => None,
                    }
                } else {
                    None
                }
            },
            None => None,
        };
        match first {
            Some(id) => Ok(id),
            None => {
                let mut m = to_owned_string("ORCID not found for '");
                push_str(&mut m, author);
                push_str(&mut m, "'");
                Err(SourceError::NotFound(m))
            },
        }
    }

    /// The error for a request that failed with a status.
    pub fn status_error(status_text: &str) -> (r: SourceError)
        ensures
            r matches SourceError::Api(m) && m@ == "ORCID API returned "@ + status_text@,
    {
        let mut m = to_owned_string("ORCID API returned ");
        push_str(&mut m, status_text);
        SourceError::Api(m)
    }

    /// `Works not found for ORCID '<orcid>'`: the answer when the works cannot be fetched.
    pub fn works_not_found(orcid: &str) -> (r: SourceError)
        ensures
            r matches SourceError::NotFound(m) && m@ == "Works not found for ORCID '"@ + orcid@ + "'"@,
    {
        let mut m = to_owned_string("Works not found for ORCID '");
        push_str(&mut m, orcid);
        push_str(&mut m, "'");
        SourceError::NotFound(m)
    }

    /// The works of a record as papers: the first summary of each group, at most `max_results`.
    pub fn works_response(&self, works: &OrcidWorksResponse, author: &str, max_results: usize) -> (r: SearchResponse)
        ensures
            ({
                let all = first_summaries(groups_of(*works));
                let kept = if max_results < all.len() {
                    all.take(max_results as int)
                } else {
                    all
                };
                paper_views(r.papers@) == Seq::new(kept.len(), |i: int| orcid_work(kept[i]))
            }),
            r.papers@.len() <= max_results,
            r.source@ == "ORCID"@,
            r.query@ == author@,
            r.total_results.is_none(),
    {
        let mut papers: Vec<Paper> = Vec::new();
        let ghost gs = groups_of(*works);
        let ghost all = first_summaries(gs);
        let ghost kept = if max_results < all.len() {
            all.take(max_results as int)
        } else {
            all
        };
        match &works.group {
            Some(groups) => {
                let mut i: usize = 0;
                assert(gs.take(0) =~= Seq::<OrcidWorkGroup>::empty());
                while i < groups.len() && papers.len() < max_results
                    invariant
                        gs == groups@,
                        i <= groups.len(),
                        papers.len() <= max_results,
                        papers.len() == first_summaries(gs.take(i as int)).len(),
                        forall|j: int|
                            0 <= j < papers.len() ==> (#[trigger] papers@[j])@ == orcid_work(
                                first_summaries(gs.take(i as int))[j],
                            ),
                    decreases groups.len() - i,
                {
                    assert(gs.take(i + 1).drop_last() =~= gs.take(i as int));
                    assert(gs.take(i + 1).last() == gs[i as int]);
                    match &groups[i].work_summary {
                        Some(v) => {
                            if v.len() > 0 {
                                papers.push(Self::parse_work(&v[0]));
                            }
                        },
                        None => {},
                    }
                    i += 1;
                }
                proof {
                    lemma_first_summaries_prefix(gs, i as int);
                    if i == groups.len() {
                        assert(gs.take(i as int) =~= gs);
                    }
                }
            },
            None => {},
        }
        assert(paper_views(papers@) =~= Seq::new(kept.len(), |i: int| orcid_work(kept[i])));
        let r = SearchResponse::new(papers, "ORCID", author);
        assert(r.papers@.len() == paper_views(r.papers@).len());
        r
    }
}

/// The first summaries of a prefix of the groups are a prefix of those of all groups.
proof fn lemma_first_summaries_prefix(gs: Seq<OrcidWorkGroup>, i: int)
    requires
        0 <= i <= gs.len(),
    ensures
        first_summaries(gs.take(i)).len() <= first_summaries(gs).len(),
        forall|j: int|
            0 <= j < first_summaries(gs.take(i)).len() ==> #[trigger] first_summaries(gs.take(i))[j]
                == first_summaries(gs)[j],
    decreases gs.len(),
{
    if i < gs.len() {
        assert(gs.drop_last().take(i) =~= gs.take(i));
        lemma_first_summaries_prefix(gs.drop_last(), i);
    } else {
        assert(gs.take(i) =~= gs);
    }
}

} // verus!
