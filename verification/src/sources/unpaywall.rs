//! Unpaywall research source implementation.
//!
//! Uses the Unpaywall API for checking open access status of papers.
//! API documentation: <https://unpaywall.org/api/v2>
use vstd::prelude::*;
use crate::models::{Paper, PaperBuilder, PaperView, SourceType, SourceTypeView, non_empty, bare_paper};
use crate::sources::{SourceCapabilities, SourceDescriptor, SourceError, is_success, clean_doi, clean_doi_spec};
use crate::utils::text::{
    opt_view, or_empty, views, join, join_all, to_owned_string, push_str, url_encode, url_encoded,
};

verus! {

broadcast use vstd::string::group_string_axioms;

/// An author of an Unpaywall record.
pub struct UnpaywallAuthor {
    pub name: Option<String>,
}

/// An open access location.
pub struct UnpaywallLocation {
    pub url_for_pdf: Option<String>,
}

/// An Unpaywall record.
pub struct UnpaywallResponse {
    pub title: Option<String>,
    pub abstract_text: Option<String>,
    pub published_date: Option<String>,
    pub authors: Vec<UnpaywallAuthor>,
    pub best_oa_location: Option<UnpaywallLocation>,
}

/// The names of the authors that have one, in order.
pub open spec fn author_names(a: Seq<UnpaywallAuthor>) -> Seq<Seq<char>>
    decreases a.len(),
{
    if a.len() == 0 {
        Seq::empty()
    } else {
        author_names(a.drop_last()) + match a.last().name {
            Some(n) => seq![n@],
            None => Seq::empty(),
        }
    }
}

/// The PDF link of the best open access location.
pub open spec fn best_pdf(item: UnpaywallResponse) -> Seq<char> {
    match item.best_oa_location {
        Some(l) => or_empty(opt_view(l.url_for_pdf)),
        None => Seq::empty(),
    }
}

/// The paper for a record looked up by `doi`.
pub open spec fn unpaywall_paper(item: UnpaywallResponse, doi: Seq<char>) -> PaperView {
    PaperView {
        authors: join(author_names(item.authors@), "; "@),
        published_date: non_empty(or_empty(opt_view(item.published_date))),
        abstract_text: or_empty(opt_view(item.abstract_text)),
        doi: non_empty(doi),
        pdf_url: non_empty(best_pdf(item)),
        ..bare_paper(
            doi,
            or_empty(opt_view(item.title)),
            "https://doi.org/"@ + doi,
            SourceTypeView::Other("unpaywall"@),
        )
    }
}

/// The contact address sent with a lookup: the configured one, or a default.
pub open spec fn contact_email(email: Option<String>) -> Seq<char> {
    match email {
        Some(e) => e@,
        None => "research-master@example.com"@,
    }
}

/// DOI lookup only.
pub open spec fn unpaywall_caps() -> SourceCapabilities {
    SourceCapabilities { doi_lookup: true, ..crate::sources::no_caps() }
}

/// The names of a record's authors.
fn collect_author_names(authors: &Vec<UnpaywallAuthor>) -> (r: Vec<String>)
    ensures
        views(r@) == author_names(authors@),
{
    let mut r: Vec<String> = Vec::new();
    let ghost s = authors@;
    let mut i: usize = 0;
    assert(s.take(0) =~= Seq::<UnpaywallAuthor>::empty());
    assert(views(r@) =~= Seq::<Seq<char>>::empty());
    while i < authors.len()
        invariant
            s == authors@,
            i <= s.len(),
            views(r@) == author_names(s.take(i as int)),
        decreases s.len() - i,
    {
        assert(s.take(i + 1).drop_last() =~= s.take(i as int));
        assert(s.take(i + 1).last() == s[i as int]);
        match &authors[i].name {
            Some(n) => {
                let ghost old = r@;
                r.push(n.clone());
                assert(views(r@) =~= views(old) + seq![n@]);
            },
            None => {
                assert(author_names(s.take(i + 1)) =~= author_names(s.take(i as int)));
            },
        }
        i += 1;
    }
    assert(s.take(s.len() as int) =~= s);
    r
}

/// Unpaywall research source
///
/// Uses the Unpaywall API for checking open access status of papers.
/// API requires an email address (free, no key needed).
pub struct UnpaywallSource {
    /// The contact address for the API, from `UNPAYWALL_EMAIL` when it is set.
    pub email: Option<String>,
}

impl UnpaywallSource {
    /// An Unpaywall source that sends `email` (or a default address) with its lookups.
    pub fn new(email: Option<String>) -> (r: Result<UnpaywallSource, SourceError>)
        ensures
            r matches Ok(s) && opt_view(s.email) == opt_view(email),
    {
        Ok(UnpaywallSource { email })
    }

    /// The identifier, `unpaywall`.
    pub fn id(&self) -> (r: &'static str)
        ensures
            r@ == "unpaywall"@,
    {
        "unpaywall"
    }

    /// The display name, `Unpaywall`.
    pub fn name(&self) -> (r: &'static str)
        ensures
            r@ == "Unpaywall"@,
    {
        "Unpaywall"
    }

    /// DOI lookup only.
    pub fn capabilities(&self) -> (r: SourceCapabilities)
        ensures
            r == unpaywall_caps(),
    {
        SourceCapabilities::doi_lookup()
    }

    /// This source as a registry entry.
    pub fn descriptor(&self) -> (r: SourceDescriptor)
        ensures
            r.id@ == "unpaywall"@,
            r.name@ == "Unpaywall"@,
            r.capabilities == unpaywall_caps(),
    {
        SourceDescriptor::new(self.id(), self.name(), self.capabilities())
    }

    /// The lookup URL: the cleaned DOI and the contact address, both percent-encoded.
    pub fn lookup_url(&self, doi: &str) -> (r: String)
        ensures
            r@ == "https://api.unpaywall.org/v2/"@ + url_encoded(clean_doi_spec(doi@)) + "?email="@
                + url_encoded(contact_email(self.email)),
    {
        let clean = clean_doi(doi);
        let email = match &self.email {
            Some(e) => e.as_str(),
            None => "research-master@example.com",
        };
        let mut r = to_owned_string("https://api.unpaywall.org/v2/");
        let d = url_encode(clean.as_str());
        push_str(&mut r, d.as_str());
        push_str(&mut r, "?email=");
        let e = url_encode(email);
        push_str(&mut r, e.as_str());
        r
    }

    /// The status of a lookup: 404 is `NotFound` naming the DOI, another
    /// status outside the success range an API error with the status and body.
    pub fn check_status(status: u16, status_text: &str, body: &str, doi: &str) -> (r: Result<(), SourceError>)
        ensures
            status == 404 ==> (r matches Err(SourceError::NotFound(m)) && m@ == "Paper not found in Unpaywall: "@
                + doi@),
            status != 404 && !is_success(status) ==> (r matches Err(SourceError::Api(m)) && m@
                == "Unpaywall API returned status "@ + status_text@ + ": "@ + body@),
            status != 404 && is_success(status) ==> r is Ok,
    {
        if status == 404 {
            let mut m = to_owned_string("Paper not found in Unpaywall: ");
            push_str(&mut m, doi);
            Err(SourceError::NotFound(m))
        } else if !(200 <= status && status <= 299) {
            let mut m = to_owned_string("Unpaywall API returned status ");
            push_str(&mut m, status_text);
            push_str(&mut m, ": ");
            push_str(&mut m, body);
            Err(SourceError::Api(m))
        } else {
            Ok(())
        }
    }

    /// The paper for a record looked up by `doi`.
    pub fn parse_result(&self, item: &UnpaywallResponse, doi: &str) -> (r: Result<Paper, SourceError>)
        ensures
            r matches Ok(p) && p@ == unpaywall_paper(*item, doi@),
    {
        let title = crate::utils::text::opt_or_empty(&item.title);
        let abstract_text = crate::utils::text::opt_or_empty(&item.abstract_text);
        let year = crate::utils::text::opt_or_empty(&item.published_date);
        let mut url = to_owned_string("https://doi.org/");
        push_str(&mut url, doi);
        let names = collect_author_names(&item.authors);
        let authors = join_all(&names, "; ");
        let pdf_url = match &item.best_oa_location {
            Some(l) => crate::utils::text::opt_or_empty(&l.url_for_pdf),
            None => String::new(),
        };
        let r = PaperBuilder::new(doi, title.as_str(), url.as_str(), SourceType::Other(to_owned_string("unpaywall")))
            .authors(authors.as_str()).published_date(year.as_str()).abstract_text(abstract_text.as_str())
            .doi(doi).pdf_url(pdf_url.as_str()).build();
        Ok(r)
    }
}

} // verus!
