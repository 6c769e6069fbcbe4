//! OpenAIRE research source implementation.
//!
//! Uses the OpenAIRE Graph API for searching and retrieving research publications.
//! API documentation: <https://graph.openaire.eu/develop/>
use vstd::prelude::*;
use crate::models::{
    Paper, PaperBuilder, PaperView, SearchQuery, SearchResponse, SourceType, SourceTypeView,
    non_empty, bare_paper, paper_views,
};
use crate::sources::{SourceCapabilities, SourceDescriptor, SourceError, ResponseKind, is_success, clean_doi, clean_doi_spec};
use crate::utils::text::{
    opt_view, or_empty, views, join, join_all, to_owned_string, push_str, url_encode, url_encoded,
    decimal, usize_to_decimal, lowercase, to_lowercase, contains, ends_with, str_contains,
    str_ends_with, eq_ignore_ascii_case, str_eq_ignore_ascii_case, replace_char, replace_char_str,
};

verus! {

broadcast use vstd::string::group_string_axioms;

/// `std::slice::from_ref`: the one-element slice holding `*s`.
pub assume_specification<T>[ std::slice::from_ref::<T> ](s: &T) -> (r: &[T])
    ensures
        r@ == seq![*s],
;

/// A JSON field that holds either one value or an array of them.
pub enum OneOrMany<T> {
    One(T),
    Many(Vec<T>),
}

impl<T> OneOrMany<T> {
    /// The values, in order.
    pub open spec fn items(&self) -> Seq<T> {
        match self {
            OneOrMany::One(v) => seq![*v],
            OneOrMany::Many(vs) => vs@,
        }
    }

    /// The values as a slice.
    pub fn as_slice(&self) -> (r: &[T])
        ensures
            r@ == self.items(),
    {
        match self {
            OneOrMany::One(value) => std::slice::from_ref(value),
            OneOrMany::Many(values) => values.as_slice(),
        }
    }

    /// The values as a vector.
    pub fn into_vec(self) -> (r: Vec<T>)
        ensures
            r@ == self.items(),
    {
        match self {
            OneOrMany::One(value) => vec![value],
            OneOrMany::Many(values) => values,
        }
    }
}

impl<T> Default for OneOrMany<T> {
    /// No value.
    fn default() -> (r: Self)
        ensures
            r.items() == Seq::<T>::empty(),
    {
        OneOrMany::Many(Vec::new())
    }
}

impl OneOrMany<String> {
    /// A copy of the first value, if there is one.
    pub fn first_cloned(&self) -> (r: Option<String>)
        ensures
            opt_view(r) == (if self.items().len() > 0 {
                Some(self.items()[0]@)
            } else {
                None
            }),
    {
        match self {
            OneOrMany::One(value) => Some(value.clone()),
            OneOrMany::Many(values) => {
                if values.len() > 0 {
                    Some(values[0].clone())
                } else {
                    None
                }
            },
        }
    }
}

/// The values of an optional field; none when it is absent.
pub open spec fn opt_items<T>(o: Option<OneOrMany<T>>) -> Seq<T> {
    match o {
        Some(x) => x.items(),
        None => Seq::empty(),
    }
}

/// A creator of a publication.
pub struct OpenaireCreator {
    pub name: Option<String>,
}

/// A persistent identifier of a publication, with its scheme.
pub struct OpenairePid {
    pub classid: Option<String>,
    pub value: Option<String>,
}

/// A value field.
pub struct OpenaireValue {
    pub value: Option<String>,
}

/// The access right of a publication.
pub struct OpenaireAccessRight {
    pub classid: Option<String>,
}

/// A web resource of an instance: its links.
pub struct OpenaireWebResource {
    pub url: Option<OneOrMany<String>>,
}

/// An instance (manifestation) of a publication.
pub struct OpenaireInstance {
    pub webresource: Option<OpenaireWebResource>,
}

/// The metadata of a publication.
pub struct OpenairePublication {
    pub title: Option<OneOrMany<String>>,
    pub creator: Option<OneOrMany<OpenaireCreator>>,
    pub description: Option<OneOrMany<String>>,
    pub pid: Option<OneOrMany<OpenairePid>>,
    pub dateofacceptance: Option<OpenaireValue>,
    pub bestaccessright: Option<OpenaireAccessRight>,
    pub instance: Option<OneOrMany<OpenaireInstance>>,
}

/// The `oaf:entity` of a result.
pub struct OpenaireEntity {
    pub oaf_result: OpenairePublication,
}

/// The metadata of a result.
pub struct OpenaireMetadata {
    pub oaf_entity: OpenaireEntity,
}

/// A result of a search.
pub struct OpenaireResultItem {
    pub metadata: OpenaireMetadata,
}

/// The results of a search.
pub struct OpenaireResults {
    pub result: OneOrMany<OpenaireResultItem>,
}

/// The body of a response.
pub struct OpenaireResponseBody {
    pub results: OpenaireResults,
}

/// An OpenAIRE API response.
pub struct OpenaireResponse {
    pub response: OpenaireResponseBody,
}

/// The first value of an optional text field, or the empty string.
pub open spec fn first_text(o: Option<OneOrMany<String>>) -> Seq<char> {
    let xs = opt_items(o);
    if xs.len() > 0 {
        xs[0]@
    } else {
        Seq::empty()
    }
}

/// An identifier whose scheme is `doi`, in any ASCII case.
pub open spec fn is_doi_pid(p: OpenairePid) -> bool {
    p.classid matches Some(c) && eq_ignore_ascii_case(c@, "doi"@)
}

/// The value of the first DOI identifier (empty when it has none), or empty when there is none.
pub open spec fn doi_of(pids: Seq<OpenairePid>) -> Seq<char>
    decreases pids.len(),
{
    if pids.len() == 0 {
        Seq::empty()
    } else if is_doi_pid(pids[0]) {
        or_empty(opt_view(pids[0].value))
    } else {
        doi_of(pids.drop_first())
    }
}

/// The first identifier value that is not empty.
pub open spec fn first_nonempty_value(pids: Seq<OpenairePid>) -> Option<Seq<char>>
    decreases pids.len(),
{
    if pids.len() == 0 {
        None
    } else if pids[0].value matches Some(v) && v@.len() > 0 {
        opt_view(pids[0].value)
    } else {
        first_nonempty_value(pids.drop_first())
    }
}

/// The names of the creators that have one, in order.
pub open spec fn creator_names(cs: Seq<OpenaireCreator>) -> Seq<Seq<char>>
    decreases cs.len(),
{
    if cs.len() == 0 {
        Seq::empty()
    } else {
        creator_names(cs.drop_last()) + match cs.last().name {
            Some(n) => seq![n@],
            None => Seq::empty(),
        }
    }
}

/// The links of an instance.
pub open spec fn instance_links(i: OpenaireInstance) -> Seq<Seq<char>> {
    match i.webresource {
        Some(w) => views(opt_items(w.url)),
        None => Seq::empty(),
    }
}

/// The links of all instances, in order.
pub open spec fn instance_urls(insts: Seq<OpenaireInstance>) -> Seq<Seq<char>>
    decreases insts.len(),
{
    if insts.len() == 0 {
        Seq::empty()
    } else {
        instance_urls(insts.drop_last()) + instance_links(insts.last())
    }
}

/// A link that points at a PDF: ending in `.pdf`, or holding `.pdf?` or `/pdf/`, ignoring case.
pub open spec fn is_pdf_link(u: Seq<char>) -> bool {
    let l = lowercase(u);
    ends_with(l, ".pdf"@) || contains(l, ".pdf?"@) || contains(l, "/pdf/"@)
}

/// The first link that points at a PDF.
pub open spec fn first_pdf(urls: Seq<Seq<char>>) -> Option<Seq<char>>
    decreases urls.len(),
{
    if urls.len() == 0 {
        None
    } else if is_pdf_link(urls[0]) {
        Some(urls[0])
    } else {
        first_pdf(urls.drop_first())
    }
}

/// The paper for a result. Its link is the first instance link, else the DOI
/// link, else an OpenAIRE Explore search for the title; its identifier is the
/// DOI, else the first non-empty identifier, else `openaire:` and the encoded title.
pub open spec fn openaire_paper(item: OpenaireResultItem) -> PaperView {
    let r = item.metadata.oaf_entity.oaf_result;
    let title = first_text(r.title);
    let pids = opt_items(r.pid);
    let doi = doi_of(pids);
    let date = match r.dateofacceptance {
        Some(d) => or_empty(opt_view(d.value)),
        None => Seq::empty(),
    };
    let urls = instance_urls(opt_items(r.instance));
    let url = if urls.len() > 0 {
        urls[0]
    } else if doi.len() > 0 {
        "https://doi.org/"@ + doi
    } else {
        "https://explore.openaire.eu/search/publication?keyword="@ + url_encoded(title)
    };
    let id = if doi.len() > 0 {
        doi
    } else {
        match first_nonempty_value(pids) {
            Some(v) => v,
            None => "openaire:"@ + url_encoded(title),
        }
    };
    let access = match r.bestaccessright {
        Some(a) => opt_view(a.classid),
        None => None,
    };
    PaperView {
        authors: join(creator_names(opt_items(r.creator)), "; "@),
        abstract_text: first_text(r.description),
        doi: non_empty(doi),
        published_date: non_empty(date),
        pdf_url: match first_pdf(urls) {
            Some(p) => non_empty(p),
            None => None,
        },
        extra: match access {
            Some(c) => seq![("access_right"@, c)],
            None => Seq::empty(),
        },
        ..bare_paper(id, title, url, SourceTypeView::OpenAIRE)
    }
}

/// Search, download and DOI lookup.
pub open spec fn openaire_caps() -> SourceCapabilities {
    SourceCapabilities { search: true, download: true, doi_lookup: true, ..crate::sources::no_caps() }
}

/// The first value of an optional text field, or the empty string.
fn text_of(o: &Option<OneOrMany<String>>) -> (r: String)
    ensures
        r@ == first_text(*o),
{
    match o {
        Some(x) => match x.first_cloned() {
            Some(t) => t,
            None => String::new(),
        },
        None => String::new(),
    }
}

/// The DOI of a publication's identifiers.
fn find_doi(pids: &Option<OneOrMany<OpenairePid>>) -> (r: String)
    ensures
        r@ == doi_of(opt_items(*pids)),
{
    let ps = match pids {
        Some(p) => p.as_slice(),
        None => {
            return String::new();
        },
    };
    let ghost s = ps@;
    let n = ps.len();
    let mut i: usize = 0;
    assert(s.subrange(0, n as int) =~= s);
    while i < n
        invariant
            s == ps@,
            s == opt_items(*pids),
            n == s.len(),
            i <= n,
            doi_of(s) == doi_of(s.subrange(i as int, n as int)),
        decreases n - i,
    {
        assert(s.subrange(i as int, n as int).drop_first() =~= s.subrange(i + 1, n as int));
        assert(s.subrange(i as int, n as int)[0] == s[i as int]);
        let p = &ps[i];
        let is_doi = match &p.classid {
            Some(c) => str_eq_ignore_ascii_case(c.as_str(), "doi"),
            None => false,
        };
        if is_doi {
            return crate::utils::text::opt_or_empty(&p.value);
        }
        i += 1;
    }
    assert(s.subrange(n as int, n as int).len() == 0);
    String::new()
}

/// The first non-empty identifier value of a publication.
fn find_nonempty_value(pids: &Option<OneOrMany<OpenairePid>>) -> (r: Option<String>)
    ensures
        opt_view(r) == first_nonempty_value(opt_items(*pids)),
{
    let ps = match pids {
        Some(p) => p.as_slice(),
        None => {
            return None;
        },
    };
    let ghost s = ps@;
    let n = ps.len();
    let mut i: usize = 0;
    assert(s.subrange(0, n as int) =~= s);
    while i < n
        invariant
            s == ps@,
            s == opt_items(*pids),
            n == s.len(),
            i <= n,
            first_nonempty_value(s) == first_nonempty_value(s.subrange(i as int, n as int)),
        decreases n - i,
    {
        assert(s.subrange(i as int, n as int).drop_first() =~= s.subrange(i + 1, n as int));
        assert(s.subrange(i as int, n as int)[0] == s[i as int]);
        let p = &ps[i];
        match &p.value {
            Some(v) => {
                if !v.as_str().is_empty() {
                    return Some(v.clone());
                }
            },
            None => {},
        }
        i += 1;
    }
    assert(s.subrange(n as int, n as int).len() == 0);
    None
}

/// The names of a publication's creators.
fn collect_creator_names(creators: &Option<OneOrMany<OpenaireCreator>>) -> (r: Vec<String>)
    ensures
        views(r@) == creator_names(opt_items(*creators)),
{
    let mut r: Vec<String> = Vec::new();
    let cs = match creators {
        Some(c) => c.as_slice(),
        None => {
            assert(views(r@) =~= Seq::<Seq<char>>::empty());
            return r;
        },
    };
    let ghost s = cs@;
    let mut i: usize = 0;
    assert(s.take(0) =~= Seq::<OpenaireCreator>::empty());
    assert(views(r@) =~= Seq::<Seq<char>>::empty());
    while i < cs.len()
        invariant
            s == cs@,
            s == opt_items(*creators),
            i <= s.len(),
            views(r@) == creator_names(s.take(i as int)),
        decreases s.len() - i,
    {
        assert(s.take(i + 1).drop_last() =~= s.take(i as int));
        assert(s.take(i + 1).last() == s[i as int]);
        match &cs[i].name {
            Some(n) => {
                let ghost old = r@;
                r.push(n.clone());
                assert(views(r@) =~= views(old) + seq![n@]);
            },
            None => {
                assert(creator_names(s.take(i + 1)) =~= creator_names(s.take(i as int)));
            },
        }
        i += 1;
    }
    assert(s.take(s.len() as int) =~= s);
    r
}

/// The links of one instance, appended to `r`.
fn push_instance_links(r: &mut Vec<String>, inst: &OpenaireInstance)
    ensures
        views(final(r)@) == views(old(r)@) + instance_links(*inst),
{
    let w = match &inst.webresource {
        Some(w) => w,
        None => {
            assert(views(r@) =~= views(r@) + Seq::<Seq<char>>::empty());
            return;
        },
    };
    let us = match &w.url {
        Some(u) => u.as_slice(),
        None => {
            assert(views(r@) =~= views(r@) + views(Seq::<String>::empty()));
            return;
        },
    };
    let ghost start = views(r@);
    let mut i: usize = 0;
    assert(views(us@.take(0)) =~= Seq::<Seq<char>>::empty());
    while i < us.len()
        invariant
            i <= us@.len(),
            views(r@) == start + views(us@.take(i as int)),
        decreases us@.len() - i,
    {
        let ghost old = r@;
        r.push(us[i].clone());
        assert(views(us@.take(i + 1)) =~= views(us@.take(i as int)).push(us@[i as int]@));
        assert(views(r@) =~= views(old).push(us@[i as int]@));
        i += 1;
    }
    assert(us@.take(us@.len() as int) =~= us@);
}

/// The links of all instances of a publication, in order.
fn collect_urls(instances: &Option<OneOrMany<OpenaireInstance>>) -> (r: Vec<String>)
    ensures
        views(r@) == instance_urls(opt_items(*instances)),
{
    let mut r: Vec<String> = Vec::new();
    let is = match instances {
        Some(x) => x.as_slice(),
        None => {
            assert(views(r@) =~= Seq::<Seq<char>>::empty());
            return r;
        },
    };
    let ghost s = is@;
    let mut i: usize = 0;
    assert(s.take(0) =~= Seq::<OpenaireInstance>::empty());
    assert(views(r@) =~= Seq::<Seq<char>>::empty());
    while i < is.len()
        invariant
            s == is@,
            s == opt_items(*instances),
            i <= s.len(),
            views(r@) == instance_urls(s.take(i as int)),
        decreases s.len() - i,
    {
        assert(s.take(i + 1).drop_last() =~= s.take(i as int));
        assert(s.take(i + 1).last() == s[i as int]);
        push_instance_links(&mut r, &is[i]);
        i += 1;
    }
    assert(s.take(s.len() as int) =~= s);
    r
}

/// The first link that points at a PDF.
fn find_pdf(urls: &Vec<String>) -> (r: Option<String>)
    ensures
        opt_view(r) == first_pdf(views(urls@)),
{
    let ghost s = views(urls@);
    let n = urls.len();
    let mut i: usize = 0;
    assert(s.subrange(0, n as int) =~= s);
    while i < n
        invariant
            s == views(urls@),
            n == s.len(),
            i <= n,
            first_pdf(s) == first_pdf(s.subrange(i as int, n as int)),
        decreases n - i,
    {
        assert(s.subrange(i as int, n as int).drop_first() =~= s.subrange(i + 1, n as int));
        assert(s.subrange(i as int, n as int)[0] == s[i as int]);
        if OpenaireSource::is_pdf_url(urls[i].as_str()) {
            return Some(urls[i].clone());
        }
        i += 1;
    }
    assert(s.subrange(n as int, n as int).len() == 0);
    None
}

/// OpenAIRE research source
///
/// Uses the OpenAIRE Graph API for searching research publications across
/// open access repositories. OpenAIRE is free and requires no API key.
pub struct OpenaireSource {}

impl Default for OpenaireSource {
    /// The same source as `new`.
    fn default() -> (r: Self)
        ensures
            r == (OpenaireSource {}),
    {
        OpenaireSource {}
    }
}

impl OpenaireSource {
    /// An OpenAIRE source.
    pub fn new() -> (r: Result<OpenaireSource, SourceError>)
        ensures
            r is Ok,
    {
        Ok(OpenaireSource {})
    }

    /// The identifier, `openaire`.
    pub fn id(&self) -> (r: &'static str)
        ensures
            r@ == "openaire"@,
    {
        "openaire"
    }

    /// The display name, `OpenAIRE`.
    pub fn name(&self) -> (r: &'static str)
        ensures
            r@ == "OpenAIRE"@,
    {
        "OpenAIRE"
    }

    /// Search, download and DOI lookup.
    pub fn capabilities(&self) -> (r: SourceCapabilities)
        ensures
            r == openaire_caps(),
    {
        SourceCapabilities::search().union(SourceCapabilities::download()).union(SourceCapabilities::doi_lookup())
    }

    /// This source as a registry entry.
    pub fn descriptor(&self) -> (r: SourceDescriptor)
        ensures
            r.id@ == "openaire"@,
            r.name@ == "OpenAIRE"@,
            r.capabilities == openaire_caps(),
    {
        SourceDescriptor::new(self.id(), self.name(), self.capabilities())
    }

    /// The URL of a publication search on one field, with the value percent-encoded.
    pub fn build_search_url(&self, field: &str, value: &str, size: usize) -> (r: String)
        ensures
            r@ == "https://api.openaire.eu/search/publications?format=json&page=1&size="@ + decimal(size as nat)
                + "&"@ + field@ + "="@ + url_encoded(value@),
    {
        let mut r = to_owned_string("https://api.openaire.eu/search/publications?format=json&page=1&size=");
        let n = usize_to_decimal(size);
        push_str(&mut r, n.as_str());
        push_str(&mut r, "&");
        push_str(&mut r, field);
        push_str(&mut r, "=");
        let e = url_encode(value);
        push_str(&mut r, e.as_str());
        r
    }

    /// Whether a link points at a PDF: it ends in `.pdf`, or holds `.pdf?` or
    /// `/pdf/`, ignoring case.
    pub fn is_pdf_url(url: &str) -> (r: bool)
        ensures
            r == is_pdf_link(url@),
    {
        let lower = to_lowercase(url);
        str_ends_with(lower.as_str(), ".pdf") || str_contains(lower.as_str(), ".pdf?") || str_contains(
            lower.as_str(),
            "/pdf/",
        )
    }

    /// The paper for a result.
    pub fn parse_result(&self, item: &OpenaireResultItem) -> (r: Result<Paper, SourceError>)
        ensures
            r matches Ok(p) && p@ == openaire_paper(*item),
    {
        let result = &item.metadata.oaf_entity.oaf_result;
        let title = text_of(&result.title);
        let abstract_text = text_of(&result.description);
        let doi = find_doi(&result.pid);
        let names = collect_creator_names(&result.creator);
        let authors = join_all(&names, "; ");
        let published_date = match &result.dateofacceptance {
            Some(d) => crate::utils::text::opt_or_empty(&d.value),
            None => String::new(),
        };
        let urls = collect_urls(&result.instance);
        let pdf_url = find_pdf(&urls);
        let url = if urls.len() > 0 {
            urls[0].clone()
        } else if !doi.as_str().is_empty() {
            let mut u = to_owned_string("https://doi.org/");
            push_str(&mut u, doi.as_str());
            u
        } else {
            let mut u = to_owned_string("https://explore.openaire.eu/search/publication?keyword=");
            let e = url_encode(title.as_str());
            push_str(&mut u, e.as_str());
            u
        };
        let id = if !doi.as_str().is_empty() {
            doi.clone()
        } else {
            match find_nonempty_value(&result.pid) {
                Some(v) => v,
                None => {
                    let mut u = to_owned_string("openaire:");
                    let e = url_encode(title.as_str());
                    push_str(&mut u, e.as_str());
                    u
                },
            }
        };
        let mut builder = PaperBuilder::new(id.as_str(), title.as_str(), url.as_str(), SourceType::OpenAIRE)
            .authors(authors.as_str()).published_date(published_date.as_str()).abstract_text(
            abstract_text.as_str(),
        ).doi(doi.as_str());
        match &pdf_url {
            Some(p) => {
                builder = builder.pdf_url(p.as_str());
            },
            None => {},
        }
        let access = match &result.bestaccessright {
            Some(a) => match &a.classid {
                Some(c) => Some(c),
                None => None,
            },
            None => None,
        };
        match access {
            Some(c) => {
                builder = builder.extra("access_right", c.as_str());
            },
            None => {},
        }
        let r = builder.build();
        assert(r@.extra =~= openaire_paper(*item).extra);
        Ok(r)
    }
    /// The URL of a title search, for at most 100 results.
    pub fn search_url(&self, query: &SearchQuery) -> (r: String)
        ensures
            r@ == "https://api.openaire.eu/search/publications?format=json&page=1&size="@ + decimal(
                (if query.max_results < 100 {
                    query.max_results
                } else {
                    100
                }) as nat,
            ) + "&title="@ + url_encoded(query.query@),
    {
        let max_results = if query.max_results < 100 {
            query.max_results
        } else {
            100
        };
        proof {
            reveal_strlit("title");
            reveal_strlit("&");
            reveal_strlit("=");
            reveal_strlit("&title=");
        }
        let r = self.build_search_url("title", query.query.as_str(), max_results);
        assert(r@ =~= "https://api.openaire.eu/search/publications?format=json&page=1&size="@ + decimal(max_results as nat)
            + "&title="@ + url_encoded(query.query@));
        r
    }

    /// How a response is taken: a limited request (429) gives an empty result,
    /// another status outside the success range fails.
    pub fn classify_response(status: u16) -> (r: ResponseKind)
        ensures
            r == if is_success(status) {
                ResponseKind::Proceed
            } else if status == 429 {
                ResponseKind::RateLimited
            } else {
                ResponseKind::Failed
            },
    {
        if 200 <= status && status <= 299 {
            ResponseKind::Proceed
        } else if status == 429 {
            ResponseKind::RateLimited
        } else {
            ResponseKind::Failed
        }
    }

    /// The error for a search that failed with a status: the status text and the body.
    pub fn status_error(status_text: &str, body: &str) -> (r: SourceError)
        ensures
            r matches SourceError::Api(m) && m@ == "OpenAIRE API returned status "@ + status_text@ + ": "@ + body@,
    {
        let mut m = to_owned_string("OpenAIRE API returned status ");
        push_str(&mut m, status_text);
        push_str(&mut m, ": ");
        push_str(&mut m, body);
        SourceError::Api(m)
    }

    /// The answer to a search while the source limits requests: no paper.
    pub fn rate_limited_response(&self, query: &SearchQuery) -> (r: SearchResponse)
        ensures
            r.papers@.len() == 0,
            r.source@ == "OpenAIRE"@,
            r.query@ == query.query@,
            r.total_results.is_none(),
    {
        let none: Vec<Paper> = Vec::new();
        let r = SearchResponse::new(none, "OpenAIRE", query.query.as_str());
        assert(paper_views(r.papers@).len() == paper_views(none@).len());
        r
    }

    /// The answer to a search that failed with a status: an API error with the
    /// status text and the body, except that an error whose message mentions
    /// `rate-limited` is taken as the source limiting requests: no paper.
    pub fn failed_search(&self, query: &SearchQuery, status_text: &str, body: &str) -> (r: Result<SearchResponse, SourceError>)
        ensures
            ({
                let m = "OpenAIRE API returned status "@ + status_text@ + ": "@ + body@;
                if contains(m, "rate-limited"@) {
                    r matches Ok(resp) && resp.papers@.len() == 0 && resp.source@ == "OpenAIRE"@
                        && resp.query@ == query.query@ && resp.total_results.is_none()
                } else {
                    r matches Err(SourceError::Api(e)) && e@ == m
                }
            }),
    {
        let e = Self::status_error(status_text, body);
        match e {
            SourceError::Api(m) => {
                if str_contains(m.as_str(), "rate-limited") {
                    Ok(self.rate_limited_response(query))
                } else {
                    Err(SourceError::Api(m))
                }
            },
            other => Err(other),
        }
    }

    /// The papers of some results, in order.
    pub fn parse_results(&self, items: &Vec<OpenaireResultItem>) -> (r: Vec<Paper>)
        ensures
            paper_views(r@) == Seq::new(items@.len(), |i: int| openaire_paper(items@[i])),
    {
        let mut r: Vec<Paper> = Vec::new();
        let mut i: usize = 0;
        while i < items.len()
            invariant
                i <= items.len(),
                r.len() == i,
                forall|j: int| 0 <= j < i ==> (#[trigger] r@[j])@ == openaire_paper(items@[j]),
            decreases items.len() - i,
        {
            let p = self.parse_result(&items[i]);
            match p {
                Ok(p) => r.push(p),
                Err(_) => {},
            }
            i += 1;
        }
        assert(paper_views(r@) =~= Seq::new(items@.len(), |i: int| openaire_paper(items@[i])));
        r
    }

    /// The answer to a search: every result as a paper, with their number as the total.
    pub fn search_response(&self, response: OpenaireResponse, query: &SearchQuery) -> (r: Result<SearchResponse, SourceError>)
        ensures
            r matches Ok(resp) && {
                let items = response.response.results.result.items();
                &&& paper_views(resp.papers@) == Seq::new(items.len(), |i: int| openaire_paper(items[i]))
                &&& resp.source@ == "OpenAIRE"@
                &&& resp.query@ == query.query@
                &&& resp.total_results == Some(items.len() as usize)
            },
    {
        let result_items = response.response.results.result.into_vec();
        let total = result_items.len();
        let papers = self.parse_results(&result_items);
        let mut r = SearchResponse::new(papers, "OpenAIRE", query.query.as_str());
        r.total_results = Some(total);
        Ok(r)
    }

    /// The URL that looks a DOI up, with the DOI cleaned, for one result.
    pub fn doi_url(&self, doi: &str) -> (r: String)
        ensures
            r@ == "https://api.openaire.eu/search/publications?format=json&page=1&size=1&doi="@ + url_encoded(
                clean_doi_spec(doi@),
            ),
    {
        let clean = clean_doi(doi);
        proof {
            reveal_strlit("doi");
            reveal_strlit("&");
            reveal_strlit("=");
            reveal_strlit("&doi=");
            reveal_strlit("https://api.openaire.eu/search/publications?format=json&page=1&size=");
            reveal_strlit("https://api.openaire.eu/search/publications?format=json&page=1&size=1&doi=");
            assert(decimal(1) =~= seq!['1']);
        }
        let r = self.build_search_url("doi", clean.as_str(), 1);
        assert(r@ =~= "https://api.openaire.eu/search/publications?format=json&page=1&size=1&doi="@ + url_encoded(
            clean_doi_spec(doi@),
        ));
        r
    }

    /// The answer to a DOI lookup: the first result, or `NotFound` naming the DOI.
    pub fn doi_result(&self, response: OpenaireResponse, doi: &str) -> (r: Result<Paper, SourceError>)
        ensures
            response.response.results.result.items().len() > 0 ==> (r matches Ok(p) && p@ == openaire_paper(
                response.response.results.result.items()[0],
            )),
            response.response.results.result.items().len() == 0 ==> (r matches Err(SourceError::NotFound(m))
                && m@ == "Paper not found in OpenAIRE: "@ + doi@),
    {
        let items = response.response.results.result.into_vec();
        if items.len() > 0 {
            self.parse_result(&items[0])
        } else {
            Err(Self::not_found(doi))
        }
    }

    /// `Paper not found in OpenAIRE: <doi>`.
    pub fn not_found(doi: &str) -> (r: SourceError)
        ensures
            r matches SourceError::NotFound(m) && m@ == "Paper not found in OpenAIRE: "@ + doi@,
    {
        let mut m = to_owned_string("Paper not found in OpenAIRE: ");
        push_str(&mut m, doi);
        SourceError::NotFound(m)
    }

    /// The link to download a paper from: its PDF link, else its link when that
    /// points at a PDF; `NotFound` otherwise.
    pub fn pdf_link(paper: &Paper) -> (r: Result<String, SourceError>)
        ensures
            paper.pdf_url matches Some(p) ==> (r matches Ok(u) && u@ == p@),
            paper.pdf_url is None && is_pdf_link(paper.url@) ==> (r matches Ok(u) && u@ == paper.url@),
            paper.pdf_url is None && !is_pdf_link(paper.url@) ==> (r matches Err(SourceError::NotFound(m))
                && m@ == "No PDF available from OpenAIRE"@),
    {
        match &paper.pdf_url {
            Some(p) => Ok(p.clone()),
            None => {
                if Self::is_pdf_url(paper.url.as_str()) {
                    Ok(paper.url.clone())
                } else {
                    Err(SourceError::NotFound(to_owned_string("No PDF available from OpenAIRE")))
                }
            },
        }
    }

    /// The file name of a downloaded paper: its DOI (else the requested
    /// identifier) with `/` and `:` replaced by `_`, then `.pdf`.
    pub fn pdf_filename(doi: &Option<String>, paper_id: &str) -> (r: String)
        ensures
            r@ == replace_char(
                replace_char(
                    match doi {
                        Some(d) => d@,
                        None => paper_id@,
                    },
                    '/',
                    "_"@,
                ),
                ':',
                "_"@,
            ) + ".pdf"@,
    {
        let base = match doi {
            Some(d) => d.as_str(),
            None => paper_id,
        };
        let a = replace_char_str(base, '/', "_");
        let mut r = replace_char_str(a.as_str(), ':', "_");
        push_str(&mut r, ".pdf");
        r
    }
}

} // verus!
