//! medRxiv research source implementation.
//!
//! Uses the medRxiv API for searching and downloading preprints.
use vstd::prelude::*;
use crate::models::{
    Paper, PaperBuilder, PaperView, SearchQuery, SearchResponse, SourceType, SourceTypeView,
    non_empty, bare_paper, paper_views,
};
use crate::sources::{SourceCapabilities, SourceDescriptor, SourceError, ResponseKind, is_success};
use crate::utils::text::{
    opt_view, or_empty, to_owned_string, push_str, decimal, usize_to_decimal, trim, trim_str,
    lowercase, to_lowercase, contains, str_contains, replace_char, replace_char_str,
};

verus! {

broadcast use vstd::string::group_string_axioms;

/// A preprint of a medRxiv response.
pub struct MedrxivArticle {
    pub title: String,
    pub authors: Option<String>,
    pub abstract_text: Option<String>,
    pub date: String,
    pub category: Option<String>,
    pub doi: Option<String>,
    pub server_url: Option<String>,
}

/// The PDF of a preprint.
pub open spec fn medrxiv_pdf_url(doi: Seq<char>) -> Seq<char> {
    "https://www.medrxiv.org/content/"@ + doi + ".full.pdf"@
}

/// The paper for a preprint: identified by its DOI, linked to its server page or else its DOI.
pub open spec fn article_paper(a: MedrxivArticle) -> PaperView {
    let doi = or_empty(opt_view(a.doi));
    let url = match a.server_url {
        Some(u) => u@,
        None => "https://doi.org/"@ + doi,
    };
    PaperView {
        authors: or_empty(opt_view(a.authors)),
        abstract_text: or_empty(opt_view(a.abstract_text)),
        doi: non_empty(doi),
        published_date: non_empty(a.date@),
        categories: non_empty(or_empty(opt_view(a.category))),
        pdf_url: non_empty(medrxiv_pdf_url(doi)),
        ..bare_paper(doi, a.title@, url, SourceTypeView::MedRxiv)
    }
}

/// The paper matches a lowercase query in its title, abstract or authors.
pub open spec fn matches_query(p: PaperView, q: Seq<char>) -> bool {
    contains(lowercase(p.title), q) || contains(lowercase(p.abstract_text), q) || contains(
        lowercase(p.authors),
        q,
    )
}

/// The papers that match a lowercase query, in order.
pub open spec fn matching(ps: Seq<PaperView>, q: Seq<char>) -> Seq<PaperView>
    decreases ps.len(),
{
    if ps.len() == 0 {
        Seq::empty()
    } else {
        let p = matching(ps.drop_last(), q);
        if matches_query(ps.last(), q) {
            p.push(ps.last())
        } else {
            p
        }
    }
}

/// The search result: the papers matching the query (all of them for an
/// empty query), at most `max`.
pub open spec fn search_filter(ps: Seq<PaperView>, query: Seq<char>, max: nat) -> Seq<PaperView> {
    let kept = if query.len() > 0 {
        matching(ps, lowercase(query))
    } else {
        ps
    };
    if max < kept.len() {
        kept.take(max as int)
    } else {
        kept
    }
}

/// The papers that match a query are some of the papers, each matching it.
pub proof fn lemma_matching_subset(ps: Seq<PaperView>, q: Seq<char>)
    ensures
        matching(ps, q).len() <= ps.len(),
        forall|i: int|
            0 <= i < matching(ps, q).len() ==> ps.contains(#[trigger] matching(ps, q)[i]) && matches_query(
                matching(ps, q)[i],
                q,
            ),
    decreases ps.len(),
{
    if ps.len() > 0 {
        lemma_matching_subset(ps.drop_last(), q);
        let m = matching(ps.drop_last(), q);
        assert forall|i: int| 0 <= i < matching(ps, q).len() implies ps.contains(
            #[trigger] matching(ps, q)[i],
        ) && matches_query(matching(ps, q)[i], q) by {
            if i < m.len() {
                assert(matching(ps, q)[i] == m[i]);
                assert(ps.drop_last().contains(m[i]));
                let k = choose|k: int| 0 <= k < ps.drop_last().len() && ps.drop_last()[k] == m[i];
                assert(ps[k] == m[i]);
            } else {
                assert(matching(ps, q)[i] == ps.last());
                assert(ps[ps.len() - 1] == ps.last());
            }
        }
    }
}

/// A search never gives more than `max` papers, and each one it gives is one
/// of the papers, matching the query when the query is not empty.
pub proof fn lemma_search_filter_bounded(ps: Seq<PaperView>, query: Seq<char>, max: nat)
    ensures
        search_filter(ps, query, max).len() <= max,
        search_filter(ps, query, max).len() <= ps.len(),
        forall|i: int|
            0 <= i < search_filter(ps, query, max).len() ==> ps.contains(
                #[trigger] search_filter(ps, query, max)[i],
            ),
        query.len() > 0 ==> forall|i: int|
            0 <= i < search_filter(ps, query, max).len() ==> matches_query(
                #[trigger] search_filter(ps, query, max)[i],
                lowercase(query),
            ),
        query.len() == 0 && ps.len() <= max ==> search_filter(ps, query, max) == ps,
{
    let q = lowercase(query);
    lemma_matching_subset(ps, q);
    let kept = if query.len() > 0 {
        matching(ps, q)
    } else {
        ps
    };
    let r = search_filter(ps, query, max);
    assert forall|i: int| 0 <= i < r.len() implies ps.contains(#[trigger] r[i]) && (query.len() > 0
        ==> matches_query(r[i], q)) by {
        assert(r[i] == kept[i]);
        if query.len() == 0 {
            assert(ps[i] == r[i]);
        }
    }
}

/// The papers of a prefix that match are a prefix of those of all papers that match.
proof fn lemma_matching_prefix(ps: Seq<PaperView>, q: Seq<char>, k: int)
    requires
        0 <= k <= ps.len(),
    ensures
        matching(ps.take(k), q).len() <= matching(ps, q).len(),
        forall|j: int|
            0 <= j < matching(ps.take(k), q).len() ==> #[trigger] matching(ps.take(k), q)[j] == matching(ps, q)[j],
    decreases ps.len(),
{
    if k < ps.len() {
        assert(ps.drop_last().take(k) =~= ps.take(k));
        lemma_matching_prefix(ps.drop_last(), q, k);
    } else {
        assert(ps.take(k) =~= ps);
    }
}

/// A search keeps every paper whose title, abstract or authors contain the
/// query, ignoring case, as long as fewer than `max` papers before it matched.
pub proof fn lemma_search_filter_complete(ps: Seq<PaperView>, query: Seq<char>, max: nat, i: int)
    requires
        query.len() > 0,
        0 <= i < ps.len(),
        contains(lowercase(ps[i].title), lowercase(query)) || contains(lowercase(ps[i].abstract_text), lowercase(query))
            || contains(lowercase(ps[i].authors), lowercase(query)),
        matching(ps.take(i), lowercase(query)).len() < max,
    ensures
        search_filter(ps, query, max).contains(ps[i]),
{
    let q = lowercase(query);
    let n = matching(ps.take(i), q).len() as int;
    assert(ps.take(i + 1).drop_last() =~= ps.take(i));
    assert(ps.take(i + 1).last() == ps[i]);
    assert(matching(ps.take(i + 1), q) == matching(ps.take(i), q).push(ps[i]));
    lemma_matching_prefix(ps, q, i + 1);
    assert(matching(ps.take(i + 1), q)[n] == ps[i]);
    let m = matching(ps, q);
    assert(m[n] == ps[i]);
    let r = search_filter(ps, query, max);
    assert(r[n] == ps[i]);
}

/// Search and download.
pub open spec fn medrxiv_caps() -> SourceCapabilities {
    SourceCapabilities { search: true, download: true, ..crate::sources::no_caps() }
}

/// What the search does next.
pub struct PageStep {
    /// The number of papers collected so far.
    pub collected: usize,
    /// The cursor of the next page.
    pub cursor: String,
    /// No further page is asked for.
    pub finished: bool,
}

/// medRxiv research source
pub struct MedrxivSource {}

impl Default for MedrxivSource {
    /// The same source as `new`.
    fn default() -> (r: Self)
        ensures
            r == (MedrxivSource {}),
    {
        MedrxivSource {}
    }
}

impl MedrxivSource {
    /// A medRxiv source.
    pub fn new() -> (r: Result<MedrxivSource, SourceError>)
        ensures
            r is Ok,
    {
        Ok(MedrxivSource {})
    }

    /// The identifier, `medrxiv`.
    pub fn id(&self) -> (r: &'static str)
        ensures
            r@ == "medrxiv"@,
    {
        "medrxiv"
    }

    /// The display name, `medRxiv`.
    pub fn name(&self) -> (r: &'static str)
        ensures
            r@ == "medRxiv"@,
    {
        "medRxiv"
    }

    /// Search and download.
    pub fn capabilities(&self) -> (r: SourceCapabilities)
        ensures
            r == medrxiv_caps(),
    {
        SourceCapabilities::search().union(SourceCapabilities::download())
    }

    /// This source as a registry entry.
    pub fn descriptor(&self) -> (r: SourceDescriptor)
        ensures
            r.id@ == "medrxiv"@,
            r.name@ == "medRxiv"@,
            r.capabilities == medrxiv_caps(),
    {
        SourceDescriptor::new(self.id(), self.name(), self.capabilities())
    }

    /// The URL of a page of preprints posted between two dates (`YYYY-MM-DD`).
    pub fn details_url(&self, from_date: &str, to_date: &str, cursor: &str) -> (r: String)
        ensures
            r@ == "https://api.medrxiv.org/details/medrxiv/"@ + from_date@ + "/"@ + to_date@ + "/"@ + cursor@,
    {
        let mut r = to_owned_string("https://api.medrxiv.org/details/medrxiv/");
        push_str(&mut r, from_date);
        push_str(&mut r, "/");
        push_str(&mut r, to_date);
        push_str(&mut r, "/");
        push_str(&mut r, cursor);
        r
    }

    /// How a page response is taken: a limited request (429) or an answer that
    /// is not JSON means the source is limiting requests; another status
    /// outside the success range fails.
    pub fn classify_response(status: u16, content_type: &str) -> (r: ResponseKind)
        ensures
            r == if !is_success(status) {
                if status == 429 {
                    ResponseKind::RateLimited
                } else {
                    ResponseKind::Failed
                }
            } else if contains(content_type@, "application/json"@) {
                ResponseKind::Proceed
            } else {
                ResponseKind::RateLimited
            },
    {
        if !(200 <= status && status <= 299) {
            if status == 429 {
                ResponseKind::RateLimited
            } else {
                ResponseKind::Failed
            }
        } else if str_contains(content_type, "application/json") {
            ResponseKind::Proceed
        } else {
            ResponseKind::RateLimited
        }
    }

    /// The paper for a preprint.
    pub fn article_to_paper(&self, a: &MedrxivArticle) -> (r: Paper)
        ensures
            r@ == article_paper(*a),
    {
        let authors = crate::utils::text::opt_or_empty(&a.authors);
        let categories = crate::utils::text::opt_or_empty(&a.category);
        let doi = crate::utils::text::opt_or_empty(&a.doi);
        let url = match &a.server_url {
            Some(u) => u.clone(),
            None => {
                let mut u = to_owned_string("https://doi.org/");
                push_str(&mut u, doi.as_str());
                u
            },
        };
        let abstract_text = crate::utils::text::opt_or_empty(&a.abstract_text);
        let pdf = Self::pdf_url(doi.as_str());
        let r = PaperBuilder::new(doi.as_str(), a.title.as_str(), url.as_str(), SourceType::MedRxiv)
            .authors(authors.as_str()).abstract_text(abstract_text.as_str()).doi(doi.as_str())
            .published_date(a.date.as_str()).categories(categories.as_str()).pdf_url(pdf.as_str()).build();
        assert(r@.extra =~= article_paper(*a).extra);
        r
    }

    /// The papers for a page of preprints, in order.
    pub fn articles_to_papers(&self, articles: &Vec<MedrxivArticle>) -> (r: Vec<Paper>)
        ensures
            paper_views(r@) == Seq::new(articles@.len(), |i: int| article_paper(articles@[i])),
    {
        let mut r: Vec<Paper> = Vec::new();
        let mut i: usize = 0;
        while i < articles.len()
            invariant
                i <= articles.len(),
                r.len() == i,
                forall|j: int| 0 <= j < i ==> (#[trigger] r@[j])@ == article_paper(articles@[j]),
            decreases articles.len() - i,
        {
            r.push(self.article_to_paper(&articles[i]));
            i += 1;
        }
        assert(paper_views(r@) =~= Seq::new(articles@.len(), |i: int| article_paper(articles@[i])));
        r
    }

    /// The size of the next page to ask for, when `collected` papers are not yet
    /// `max_results`: the number missing, but between 10 and 100.
    pub fn batch_size(max_results: usize, collected: usize) -> (r: usize)
        requires
            collected < max_results,
        ensures
            r == if max_results - collected < 10 {
                10
            } else if max_results - collected > 100 {
                100
            } else {
                max_results - collected
            },
    {
        let remaining = max_results - collected;
        if remaining < 10 {
            10
        } else if remaining > 100 {
            100
        } else {
            remaining
        }
    }

    /// The state after a page of `count` papers came back for a request of
    /// `batch`: an empty or short page ends the search; otherwise the cursor
    /// moves to the number of papers collected.
    pub fn after_page(collected: usize, batch: usize, count: usize) -> (r: PageStep)
        requires
            collected + count <= usize::MAX,
        ensures
            r.collected == collected + count,
            r.cursor@ == decimal((collected + count) as nat),
            r.finished == (count == 0 || count < batch),
    {
        let total = collected + count;
        PageStep { collected: total, cursor: usize_to_decimal(total), finished: count == 0 || count < batch }
    }

    /// Another page is asked for while the search is not finished and fewer than
    /// `max_results` papers are collected.
    pub fn wants_page(max_results: usize, step: &PageStep) -> (r: bool)
        ensures
            r == (!step.finished && step.collected < max_results),
    {
        !step.finished && step.collected < max_results
    }

    /// The papers of a search: those matching the query in title, abstract or
    /// authors (ignoring case), or all for an empty query, at most `max_results`.
    pub fn filter_results(&self, papers: &Vec<Paper>, query: &SearchQuery) -> (r: Vec<Paper>)
        ensures
            paper_views(r@) == search_filter(paper_views(papers@), query.query@, query.max_results as nat),
            r.len() <= query.max_results,
    {
        let ghost ps = paper_views(papers@);
        let empty_query = query.query.as_str().is_empty();
        let q = to_lowercase(query.query.as_str());
        let ghost kept = if query.query@.len() > 0 {
            matching(ps, lowercase(query.query@))
        } else {
            ps
        };
        let mut kept_v: Vec<Paper> = Vec::new();
        let mut k: usize = 0;
        assert(ps.take(0) =~= Seq::<PaperView>::empty());
        assert(paper_views(kept_v@) =~= Seq::<PaperView>::empty());
        while k < papers.len()
            invariant
                ps == paper_views(papers@),
                k <= papers.len(),
                q@ == lowercase(query.query@),
                empty_query == (query.query@.len() == 0),
                paper_views(kept_v@) == if empty_query {
                    ps.take(k as int)
                } else {
                    matching(ps.take(k as int), q@)
                },
            decreases papers.len() - k,
        {
            let ghost t = ps.take(k + 1);
            assert(t.drop_last() =~= ps.take(k as int));
            assert(t.last() == papers@[k as int]@);
            let p = &papers[k];
            let keep = if empty_query {
                true
            } else {
                let lt = to_lowercase(p.title.as_str());
                let la = to_lowercase(p.abstract_text.as_str());
                let lau = to_lowercase(p.authors.as_str());
                str_contains(lt.as_str(), q.as_str()) || str_contains(la.as_str(), q.as_str())
                    || str_contains(lau.as_str(), q.as_str())
            };
            if keep {
                let c = p.copy();
                let ghost old = kept_v@;
                kept_v.push(c);
                assert(paper_views(kept_v@) =~= paper_views(old).push(papers@[k as int]@));
            }
            k += 1;
        }
        assert(ps.take(papers.len() as int) =~= ps);
        let n = if query.max_results < kept_v.len() {
            query.max_results
        } else {
            kept_v.len()
        };
        let mut r: Vec<Paper> = Vec::new();
        let mut i: usize = 0;
        while i < n
            invariant
                n <= kept_v.len(),
                i <= n,
                r.len() == i,
                paper_views(r@) == paper_views(kept_v@).take(i as int),
            decreases n - i,
        {
            let c = kept_v[i].copy();
            let ghost old = r@;
            r.push(c);
            assert forall|j: int| 0 <= j <= i implies paper_views(r@)[j] == paper_views(kept_v@).take(i + 1)[j] by {
                if j < i {
                    assert(r@[j] == old[j]);
                    assert(paper_views(old)[j] == old[j]@);
                }
            }
            assert(paper_views(r@) =~= paper_views(kept_v@).take(i + 1));
            i += 1;
        }
        if query.max_results >= kept_v.len() {
            assert(paper_views(kept_v@).take(n as int) =~= paper_views(kept_v@));
        }
        proof {
            lemma_search_filter_bounded(ps, query.query@, query.max_results as nat);
            assert(r@.len() == paper_views(r@).len());
        }
        r
    }

    /// The answer to a search.
    pub fn search_response(&self, papers: Vec<Paper>, query: &SearchQuery) -> (r: SearchResponse)
        ensures
            paper_views(r.papers@) == paper_views(papers@),
            r.source@ == "medRxiv"@,
            r.query@ == query.query@,
            r.total_results.is_none(),
    {
        SearchResponse::new(papers, "medRxiv", query.query.as_str())
    }

    /// The DOI of a download request, trimmed; an empty one is refused.
    pub fn parse_doi(&self, doi: &str) -> (r: Result<String, SourceError>)
        ensures
            trim(doi@).len() > 0 ==> (r matches Ok(d) && d@ == trim(doi@)),
            trim(doi@).len() == 0 ==> (r matches Err(SourceError::InvalidRequest(m)) && m@ == "Empty DOI"@),
    {
        let trimmed = trim_str(doi);
        if trimmed.as_str().is_empty() {
            return Err(SourceError::InvalidRequest(to_owned_string("Empty DOI")));
        }
        Ok(trimmed)
    }

    /// The PDF of a preprint.
    pub fn pdf_url(doi: &str) -> (r: String)
        ensures
            r@ == medrxiv_pdf_url(doi@),
    {
        let mut r = to_owned_string("https://www.medrxiv.org/content/");
        push_str(&mut r, doi);
        push_str(&mut r, ".full.pdf");
        r
    }

    /// The file name of a downloaded preprint: its DOI with `/` replaced by `_`, then `.pdf`.
    pub fn pdf_filename(doi: &str) -> (r: String)
        ensures
            r@ == replace_char(doi@, '/', "_"@) + ".pdf"@,
    {
        let mut r = replace_char_str(doi, '/', "_");
        push_str(&mut r, ".pdf");
        r
    }

    /// `Paper not found: <doi>`: the answer when the PDF is not there.
    pub fn pdf_not_found(doi: &str) -> (r: SourceError)
        ensures
            r matches SourceError::NotFound(m) && m@ == "Paper not found: "@ + doi@,
    {
        let mut m = to_owned_string("Paper not found: ");
        push_str(&mut m, doi);
        SourceError::NotFound(m)
    }
}

} // verus!
