use research_master::models::{Paper, PaperBuilder, SearchQuery, SourceType};
use research_master::sources::citeseerx::{CiteseerxDocument, CiteseerxResponse, CiteseerxSource, JsonYear};
use research_master::sources::medrxiv::{MedrxivArticle, MedrxivSource};
use research_master::sources::openaire::{
    OneOrMany, OpenaireAccessRight, OpenaireCreator, OpenaireEntity, OpenaireInstance,
    OpenaireMetadata, OpenairePid, OpenairePublication, OpenaireResponse, OpenaireResponseBody,
    OpenaireResultItem, OpenaireResults, OpenaireSource, OpenaireValue, OpenaireWebResource,
};
use research_master::sources::orcid::{
    OrcidDate, OrcidExternalId, OrcidExternalIds, OrcidIdentifier, OrcidName, OrcidPerson,
    OrcidResult, OrcidSearchResponse, OrcidSource, OrcidValue, OrcidWorkGroup, OrcidWorkSummary,
    OrcidWorkTitle, OrcidWorksResponse,
};
use research_master::sources::scispace::{ScispaceAuthor, ScispacePaper, ScispaceResponse, ScispaceSource};
use research_master::sources::unpaywall::{UnpaywallAuthor, UnpaywallLocation, UnpaywallResponse, UnpaywallSource};
use research_master::sources::zenodo::{
    ZenodoCreator, ZenodoHit, ZenodoHits, ZenodoLinks, ZenodoMetadata, ZenodoResponse, ZenodoSource,
    ZenodoTotal,
};
use research_master::sources::{clean_doi, ResponseKind, SourceCapabilities, SourceError};

fn s(x: &str) -> String {
    x.to_string()
}

fn citeseerx_mock_doc() -> CiteseerxDocument {
    CiteseerxDocument {
        id: Some(s("csx-1")),
        title: Some(s("Mock Paper Title")),
        authors: Some(vec![s("Ada Lovelace"), s("Alan Turing")]),
        abstract_text: Some(s("Mock abstract text.")),
        doi: Some(s("10.1234/mock")),
        year: JsonYear::Unsigned(2024),
        url: Some(s("https://citeseerx.ist.psu.edu/document?doi=10.1234/mock")),
        venue: Some(s("MockConf")),
    }
}

// ----- CiteSeerX -----

#[test]
fn citeseerx_test_source_creation() {
    let source = CiteseerxSource::new();
    assert!(source.is_ok());
}

#[test]
fn citeseerx_test_source_metadata() {
    let source = CiteseerxSource::new().unwrap();
    assert_eq!(source.id(), "citeseerx");
    assert_eq!(source.name(), "CiteSeerX");
}

#[test]
fn citeseerx_test_capabilities() {
    let source = CiteseerxSource::new().unwrap();
    let caps = source.capabilities();
    assert!(caps.contains(SourceCapabilities::search()));
    assert!(caps.contains(SourceCapabilities::doi_lookup()));
    assert_eq!(
        caps,
        SourceCapabilities::search().union(SourceCapabilities::doi_lookup())
    );
}

#[test]
fn test_parse_document_maps_response_fields() {
    let source = CiteseerxSource::new().unwrap();
    let response = CiteseerxResponse { num_found: Some(1), docs: vec![citeseerx_mock_doc()] };
    let paper = source.parse_document(&response.docs[0]);
    assert_eq!(paper.paper_id, "csx-1");
    assert_eq!(paper.title, "Mock Paper Title");
    assert_eq!(paper.authors, "Ada Lovelace; Alan Turing");
    assert_eq!(paper.abstract_text, "Mock abstract text.");
    assert_eq!(paper.doi.as_deref(), Some("10.1234/mock"));
    assert_eq!(paper.published_date.as_deref(), Some("2024"));
    assert_eq!(paper.categories.as_deref(), Some("MockConf"));
    assert_eq!(paper.source, SourceType::CiteSeerX);
}

#[test]
fn test_year_as_string_handles_string_number_and_missing_values() {
    let doc_with_string_year = CiteseerxDocument {
        id: None,
        title: None,
        authors: None,
        abstract_text: None,
        doi: None,
        year: JsonYear::Text(s("2023")),
        url: None,
        venue: None,
    };
    assert_eq!(doc_with_string_year.year_as_string(), "2023");

    let doc_with_number_year = CiteseerxDocument {
        year: JsonYear::Unsigned(2024),
        ..doc_with_string_year
    };
    assert_eq!(doc_with_number_year.year_as_string(), "2024");

    let doc_without_year = CiteseerxDocument {
        year: JsonYear::Absent,
        ..doc_with_number_year
    };
    assert_eq!(doc_without_year.year_as_string(), "");
}

#[test]
fn citeseerx_negative_year_and_lookup_urls() {
    let doc = CiteseerxDocument { year: JsonYear::Signed(-44), ..citeseerx_mock_doc() };
    assert_eq!(doc.year_as_string(), "-44");
    let source = CiteseerxSource::new().unwrap();
    assert_eq!(
        source.doi_url(" https://doi.org/10.1/a b "),
        "https://citeseerx.ist.psu.edu/api/documents?doi=10.1%2Fa%20b"
    );
    let q = SearchQuery::new("deep nets").max_results(50);
    assert_eq!(
        source.search_url(&q),
        "https://citeseerx.ist.psu.edu/api/search?q=deep%20nets&t=json&n=10&sort=rel"
    );
}

#[test]
fn citeseerx_lookup_without_documents_is_not_found() {
    let source = CiteseerxSource::new().unwrap();
    let empty = CiteseerxResponse { num_found: Some(0), docs: vec![] };
    match source.doi_result(&empty, "10.9/x") {
        Err(SourceError::NotFound(m)) => assert_eq!(m, "DOI not found in CiteSeerX: 10.9/x"),
        _ => panic!("expected NotFound"),
    }
    match source.id_result(&empty, "csx-9") {
        Err(SourceError::NotFound(m)) => assert_eq!(m, "Paper not found in CiteSeerX: csx-9"),
        _ => panic!("expected NotFound"),
    }
}

// ----- medRxiv -----

#[test]
fn test_medrxiv_source_creation() {
    let source = MedrxivSource::new();
    assert!(source.is_ok());
}

#[test]
fn test_medrxiv_capabilities() {
    let source = MedrxivSource::new().unwrap();
    let caps = source.capabilities();
    assert!(caps.contains(SourceCapabilities::search()));
    assert!(caps.contains(SourceCapabilities::download()));
    assert!(!caps.contains(SourceCapabilities::read()));
}

fn medrxiv_article(title: &str, doi: &str) -> MedrxivArticle {
    MedrxivArticle {
        title: s(title),
        authors: Some(s("Ada Lovelace; Alan Turing")),
        abstract_text: Some(s("About vaccines.")),
        date: s("2024-01-02"),
        category: Some(s("epidemiology")),
        doi: Some(s(doi)),
        server_url: None,
    }
}

#[test]
fn medrxiv_article_becomes_paper_with_pdf_link() {
    let source = MedrxivSource::new().unwrap();
    let p = source.article_to_paper(&medrxiv_article("Trial", "10.1101/2024.01.01"));
    assert_eq!(p.paper_id, "10.1101/2024.01.01");
    assert_eq!(p.url, "https://doi.org/10.1101/2024.01.01");
    assert_eq!(
        p.pdf_url.as_deref(),
        Some("https://www.medrxiv.org/content/10.1101/2024.01.01.full.pdf")
    );
    assert_eq!(p.categories.as_deref(), Some("epidemiology"));
    assert_eq!(MedrxivSource::pdf_filename("10.1101/2024.01.01"), "10.1101_2024.01.01.pdf");
}

#[test]
fn medrxiv_filter_keeps_matches_up_to_the_limit() {
    let source = MedrxivSource::new().unwrap();
    let papers: Vec<Paper> = vec![
        source.article_to_paper(&medrxiv_article("Cancer screening", "10.1/a")),
        source.article_to_paper(&medrxiv_article("Heart disease", "10.1/b")),
        source.article_to_paper(&medrxiv_article("CANCER outcomes", "10.1/c")),
        source.article_to_paper(&medrxiv_article("Cancer again", "10.1/d")),
    ];
    let q = SearchQuery::new("cancer").max_results(2);
    let kept = source.filter_results(&papers, &q);
    let ids: Vec<&str> = kept.iter().map(|p| p.paper_id.as_str()).collect();
    assert_eq!(ids, vec!["10.1/a", "10.1/c"]);
    let all = source.filter_results(&papers, &SearchQuery::new("").max_results(10));
    assert_eq!(all.len(), 4);
}

#[test]
fn medrxiv_paging_and_responses() {
    assert_eq!(MedrxivSource::batch_size(5, 0), 10);
    assert_eq!(MedrxivSource::batch_size(500, 100), 100);
    assert_eq!(MedrxivSource::batch_size(50, 20), 30);
    let step = MedrxivSource::after_page(30, 30, 12);
    assert_eq!(step.collected, 42);
    assert_eq!(step.cursor, "42");
    assert!(step.finished);
    assert!(!MedrxivSource::wants_page(100, &step));
    assert_eq!(MedrxivSource::classify_response(429, "text/html"), ResponseKind::RateLimited);
    assert_eq!(MedrxivSource::classify_response(200, "text/html"), ResponseKind::RateLimited);
    assert_eq!(MedrxivSource::classify_response(200, "application/json; charset=utf-8"), ResponseKind::Proceed);
    assert_eq!(MedrxivSource::classify_response(500, "application/json"), ResponseKind::Failed);
    let source = MedrxivSource::new().unwrap();
    match source.parse_doi("   ") {
        Err(SourceError::InvalidRequest(m)) => assert_eq!(m, "Empty DOI"),
        _ => panic!("expected InvalidRequest"),
    }
    assert_eq!(source.parse_doi(" 10.1/x ").ok().as_deref(), Some("10.1/x"));
}

// ----- OpenAIRE -----

#[test]
fn openaire_test_source_creation() {
    let source = OpenaireSource::new();
    assert!(source.is_ok());
}

fn openaire_item(pids: Vec<OpenairePid>, urls: Vec<String>, title: &str) -> OpenaireResultItem {
    OpenaireResultItem {
        metadata: OpenaireMetadata {
            oaf_entity: OpenaireEntity {
                oaf_result: OpenairePublication {
                    title: Some(OneOrMany::One(s(title))),
                    creator: Some(OneOrMany::Many(vec![
                        OpenaireCreator { name: Some(s("Ada Lovelace")) },
                        OpenaireCreator { name: None },
                        OpenaireCreator { name: Some(s("Alan Turing")) },
                    ])),
                    description: Some(OneOrMany::Many(vec![s("First abstract"), s("Second")])),
                    pid: Some(OneOrMany::Many(pids)),
                    dateofacceptance: Some(OpenaireValue { value: Some(s("2023-05-01")) }),
                    bestaccessright: Some(OpenaireAccessRight { classid: Some(s("OPEN")) }),
                    instance: Some(OneOrMany::One(OpenaireInstance {
                        webresource: Some(OpenaireWebResource { url: Some(OneOrMany::Many(urls)) }),
                    })),
                },
            },
        },
    }
}

#[test]
fn openaire_parse_result_maps_fields() {
    let source = OpenaireSource::new().unwrap();
    let item = openaire_item(
        vec![
            OpenairePid { classid: Some(s("handle")), value: Some(s("hdl/1")) },
            OpenairePid { classid: Some(s("DOI")), value: Some(s("10.5/oa")) },
        ],
        vec![s("https://repo.org/landing"), s("https://repo.org/files/Paper.PDF")],
        "Open Science",
    );
    let p = source.parse_result(&item).unwrap();
    assert_eq!(p.paper_id, "10.5/oa");
    assert_eq!(p.title, "Open Science");
    assert_eq!(p.authors, "Ada Lovelace; Alan Turing");
    assert_eq!(p.abstract_text, "First abstract");
    assert_eq!(p.doi.as_deref(), Some("10.5/oa"));
    assert_eq!(p.published_date.as_deref(), Some("2023-05-01"));
    assert_eq!(p.url, "https://repo.org/landing");
    assert_eq!(p.pdf_url.as_deref(), Some("https://repo.org/files/Paper.PDF"));
    assert_eq!(p.extra, vec![(s("access_right"), s("OPEN"))]);
    assert_eq!(p.source, SourceType::OpenAIRE);
}

#[test]
fn openaire_parse_result_falls_back_without_doi_or_links() {
    let source = OpenaireSource::new().unwrap();
    let item = openaire_item(
        vec![
            OpenairePid { classid: Some(s("handle")), value: Some(s("")) },
            OpenairePid { classid: Some(s("handle")), value: Some(s("hdl/2")) },
        ],
        vec![],
        "Graph Data",
    );
    let p = source.parse_result(&item).unwrap();
    assert_eq!(p.paper_id, "hdl/2");
    assert_eq!(p.doi, None);
    assert_eq!(p.url, "https://explore.openaire.eu/search/publication?keyword=Graph%20Data");
    assert_eq!(p.pdf_url, None);

    let bare = openaire_item(vec![], vec![], "Graph Data");
    assert_eq!(source.parse_result(&bare).unwrap().paper_id, "openaire:Graph%20Data");
}

#[test]
fn openaire_urls_and_pdf_links() {
    let source = OpenaireSource::new().unwrap();
    assert_eq!(
        source.search_url(&SearchQuery::new("open data").max_results(500)),
        "https://api.openaire.eu/search/publications?format=json&page=1&size=100&title=open%20data"
    );
    assert_eq!(
        source.doi_url("doi:10.1/x"),
        "https://api.openaire.eu/search/publications?format=json&page=1&size=1&doi=10.1%2Fx"
    );
    assert!(OpenaireSource::is_pdf_url("https://x.org/a.pdf"));
    assert!(OpenaireSource::is_pdf_url("https://x.org/a.PDF?dl=1"));
    assert!(OpenaireSource::is_pdf_url("https://x.org/pdf/123"));
    assert!(!OpenaireSource::is_pdf_url("https://x.org/article/123"));
    assert_eq!(OpenaireSource::classify_response(429), ResponseKind::RateLimited);
    assert_eq!(OpenaireSource::classify_response(503), ResponseKind::Failed);
    assert_eq!(OpenaireSource::classify_response(200), ResponseKind::Proceed);
    assert_eq!(
        OpenaireSource::pdf_filename(&Some(s("10.1/ab:c")), "id"),
        "10.1_ab_c.pdf"
    );
    assert_eq!(OpenaireSource::pdf_filename(&None, "x/y"), "x_y.pdf");
}

#[test]
fn openaire_search_response_counts_results_and_lookup_not_found() {
    let source = OpenaireSource::new().unwrap();
    let response = OpenaireResponse {
        response: OpenaireResponseBody {
            results: OpenaireResults {
                result: OneOrMany::Many(vec![
                    openaire_item(vec![], vec![], "One"),
                    openaire_item(vec![], vec![], "Two"),
                ]),
            },
        },
    };
    let r = source.search_response(response, &SearchQuery::new("q")).unwrap();
    assert_eq!(r.total_results, Some(2));
    assert_eq!(r.papers.len(), 2);
    assert_eq!(r.papers[1].title, "Two");
    assert_eq!(r.source, "OpenAIRE");

    let empty = OpenaireResponse {
        response: OpenaireResponseBody { results: OpenaireResults { result: OneOrMany::default() } },
    };
    match source.doi_result(empty, "10.1/z") {
        Err(SourceError::NotFound(m)) => assert_eq!(m, "Paper not found in OpenAIRE: 10.1/z"),
        _ => panic!("expected NotFound"),
    }
    let limited = source.rate_limited_response(&SearchQuery::new("q"));
    assert!(limited.papers.is_empty());
}

#[test]
fn openaire_download_link_choice() {
    let with_pdf = PaperBuilder::new("1", "T", "https://x.org/page", SourceType::OpenAIRE)
        .pdf_url("https://x.org/a.pdf")
        .build();
    assert_eq!(OpenaireSource::pdf_link(&with_pdf).unwrap(), "https://x.org/a.pdf");
    let pdf_page = PaperBuilder::new("1", "T", "https://x.org/b.pdf", SourceType::OpenAIRE).build();
    assert_eq!(OpenaireSource::pdf_link(&pdf_page).unwrap(), "https://x.org/b.pdf");
    let none = PaperBuilder::new("1", "T", "https://x.org/page", SourceType::OpenAIRE).build();
    match OpenaireSource::pdf_link(&none) {
        Err(SourceError::NotFound(m)) => assert_eq!(m, "No PDF available from OpenAIRE"),
        _ => panic!("expected NotFound"),
    }
}

#[test]
fn one_or_many_views_agree() {
    let one = OneOrMany::One(s("a"));
    assert_eq!(one.as_slice().len(), 1);
    assert_eq!(one.first_cloned(), Some(s("a")));
    assert_eq!(one.into_vec(), vec![s("a")]);
    let many = OneOrMany::Many(vec![s("b"), s("c")]);
    assert_eq!(many.as_slice(), &[s("b"), s("c")]);
    assert_eq!(many.first_cloned(), Some(s("b")));
    let none: OneOrMany<String> = OneOrMany::default();
    assert_eq!(none.first_cloned(), None);
}

// ----- ORCID -----

#[test]
fn test_build_author_query() {
    let query = OrcidSource::build_author_query("John Smith");
    assert!(query.contains("given-names:"));
    assert!(query.contains("family-name:"));
    assert!(query.contains("John"));
    assert!(query.contains("Smith"));
}

#[test]
fn test_build_author_query_single_name() {
    let query = OrcidSource::build_author_query("Einstein");
    assert!(query.contains("text:"));
    assert!(query.contains("Einstein"));
}

#[test]
fn test_orcid_source_capabilities() {
    let caps = SourceCapabilities::search().union(SourceCapabilities::author_search());
    assert!(caps.contains(SourceCapabilities::search()));
    assert!(caps.contains(SourceCapabilities::author_search()));
    assert!(!caps.contains(SourceCapabilities::download()));
}

#[test]
fn orcid_author_query_exact_forms() {
    assert_eq!(
        OrcidSource::build_author_query("  Jean Paul   Sartre "),
        "given-names:Jean%20Paul AND family-name:Sartre"
    );
    assert_eq!(OrcidSource::build_author_query("Einstein"), "text:Einstein");
    assert_eq!(OrcidSource::build_author_query(""), "text:");
    let source = OrcidSource::new().unwrap();
    assert_eq!(
        source.search_url(&SearchQuery::new("quantum").max_results(500)),
        "https://pub.orcid.org/v3.0/search?q=text:quantum&rows=100"
    );
    assert_eq!(
        source.works_url("0000-0002/1"),
        "https://pub.orcid.org/v3.0/0000-0002%2F1/works"
    );
    assert_eq!(source.capabilities(), SourceCapabilities::search().union(SourceCapabilities::author_search()));
}

fn value(x: &str) -> Option<OrcidValue> {
    Some(OrcidValue { value: Some(s(x)) })
}

#[test]
fn orcid_profiles_and_totals() {
    let source = OrcidSource::new().unwrap();
    let with_credit = OrcidResult {
        orcid_identifier: Some(OrcidIdentifier { path: Some(s("0000-0001")) }),
        person: Some(OrcidPerson {
            name: Some(OrcidName { given_names: value("Ada"), family_name: value("Lovelace"), credit_name: value("A. Lovelace") }),
        }),
    };
    let with_parts = OrcidResult {
        orcid_identifier: Some(OrcidIdentifier { path: Some(s("0000-0002")) }),
        person: Some(OrcidPerson {
            name: Some(OrcidName { given_names: value("Alan"), family_name: value("Turing"), credit_name: None }),
        }),
    };
    let unnamed = OrcidResult { orcid_identifier: None, person: None };
    let data = OrcidSearchResponse { result: Some(vec![with_credit, with_parts, unnamed]), num_found: None };
    let r = source.search_response(&data, &SearchQuery::new("x"));
    assert_eq!(r.total_results, Some(3));
    assert_eq!(r.papers[0].title, "A. Lovelace");
    assert_eq!(r.papers[0].url, "https://orcid.org/0000-0001");
    assert_eq!(r.papers[1].title, "Turing, Alan");
    assert_eq!(r.papers[2].title, "Unknown ORCID Researcher");
    assert_eq!(r.papers[2].paper_id, "");
    assert_eq!(r.papers[0].source.id(), "ORCID");
    assert_eq!(OrcidSource::first_orcid(&data, "Ada").unwrap(), "0000-0001");

    let none = OrcidSearchResponse { result: None, num_found: Some(7) };
    assert_eq!(source.search_response(&none, &SearchQuery::new("x")).total_results, Some(7));
    match OrcidSource::first_orcid(&none, "Nobody") {
        Err(SourceError::NotFound(m)) => assert_eq!(m, "ORCID not found for 'Nobody'"),
        _ => panic!("expected NotFound"),
    }
}

fn summary(title: Option<&str>, doi: Option<&str>, date: Option<OrcidDate>, path: &str) -> OrcidWorkSummary {
    OrcidWorkSummary {
        title: title.map(|t| OrcidWorkTitle { title: value(t) }),
        external_ids: Some(OrcidExternalIds {
            external_id: Some(vec![
                OrcidExternalId { external_id_type: Some(s("eid")), external_id_value: Some(s("2-s2.0")) },
                OrcidExternalId { external_id_type: doi.map(|_| s("doi")), external_id_value: doi.map(s) },
            ]),
        }),
        publication_date: date,
        path: Some(s(path)),
    }
}

#[test]
fn orcid_works_become_papers() {
    let source = OrcidSource::new().unwrap();
    let date = OrcidDate { year: value("2021"), month: value("3"), day: None };
    let works = OrcidWorksResponse {
        group: Some(vec![
            OrcidWorkGroup { work_summary: Some(vec![summary(Some("First"), Some("10.1/w"), Some(date), "/w/1")]) },
            OrcidWorkGroup { work_summary: Some(vec![]) },
            OrcidWorkGroup { work_summary: Some(vec![summary(None, None, None, "/w/2")]) },
            OrcidWorkGroup { work_summary: Some(vec![summary(Some("Third"), None, None, "/w/3")]) },
        ]),
    };
    let r = source.works_response(&works, "Ada", 2);
    assert_eq!(r.papers.len(), 2);
    assert_eq!(r.papers[0].paper_id, "10.1/w");
    assert_eq!(r.papers[0].url, "https://doi.org/10.1/w");
    assert_eq!(r.papers[0].published_date.as_deref(), Some("2021-03-01"));
    assert_eq!(r.papers[0].doi.as_deref(), Some("10.1/w"));
    assert_eq!(r.papers[1].title, "Untitled Work");
    assert_eq!(r.papers[1].paper_id, "/w/2");
    assert_eq!(r.papers[1].url, "https://orcid.org//w/2");
    assert_eq!(r.query, "Ada");
    match OrcidSource::works_not_found("0000-1") {
        SourceError::NotFound(m) => assert_eq!(m, "Works not found for ORCID '0000-1'"),
        _ => panic!("expected NotFound"),
    }
}

// ----- SciSpace -----

fn scispace_mock_paper() -> ScispacePaper {
    ScispacePaper {
        id: s("scispace-1"),
        doi: Some(s("10.1234/mock")),
        title: Some(s("Mock Paper Title")),
        abstract_text: Some(s("Mock abstract text.")),
        publication_year: Some(s("2024")),
        authors: vec![ScispaceAuthor { name: Some(s("Ada Lovelace")) }, ScispaceAuthor { name: Some(s("Alan Turing")) }],
        pdf_url: Some(s("https://typeset.io/pdf/mock.pdf")),
    }
}

#[test]
fn scispace_test_source_creation() {
    let source = ScispaceSource::new();
    assert!(source.is_ok());
}

#[test]
fn scispace_test_source_metadata() {
    let source = ScispaceSource::new().unwrap();
    assert_eq!(source.id(), "scispace");
    assert_eq!(source.name(), "SciSpace");
}

#[test]
fn scispace_test_capabilities() {
    let source = ScispaceSource::new().unwrap();
    let caps = source.capabilities();
    assert!(caps.contains(SourceCapabilities::search()));
    assert!(caps.contains(SourceCapabilities::doi_lookup()));
    assert_eq!(
        caps,
        SourceCapabilities::search().union(SourceCapabilities::doi_lookup())
    );
}

#[test]
fn scispace_test_parse_result_maps_response_fields() {
    let source = ScispaceSource::new().unwrap();
    let response = ScispaceResponse { total_results: Some(1), papers: vec![scispace_mock_paper()] };
    let paper = source.parse_result(&response.papers[0]).unwrap();
    assert_eq!(paper.title, "Mock Paper Title");
    assert_eq!(paper.authors, "Ada Lovelace; Alan Turing");
    assert_eq!(paper.abstract_text, "Mock abstract text.");
    assert_eq!(paper.doi.as_deref(), Some("10.1234/mock"));
    assert_eq!(paper.source, SourceType::Scispace);
    assert_eq!(paper.paper_id, "10.1234/mock");
    assert_eq!(paper.url, "https://doi.org/10.1234/mock");
    assert_eq!(
        paper.pdf_url.as_deref(),
        Some("https://typeset.io/pdf/mock.pdf")
    );
}

#[test]
fn scispace_without_doi_and_responses() {
    let source = ScispaceSource::new().unwrap();
    let p = ScispacePaper { doi: None, pdf_url: None, ..scispace_mock_paper() };
    let paper = source.parse_result(&p).unwrap();
    assert_eq!(paper.paper_id, "scispace-1");
    assert_eq!(paper.url, "https://typeset.io/papers/scispace-1");
    assert_eq!(paper.pdf_url, None);
    let r = source
        .search_response(&ScispaceResponse { total_results: None, papers: vec![scispace_mock_paper()] }, &SearchQuery::new("x"))
        .unwrap();
    assert_eq!(r.total_results, Some(0));
    assert_eq!(r.papers.len(), 1);
    assert_eq!(ScispaceSource::classify_response(404), ResponseKind::RateLimited);
    assert_eq!(ScispaceSource::classify_response(403), ResponseKind::RateLimited);
    assert_eq!(ScispaceSource::classify_response(500), ResponseKind::Failed);
    assert_eq!(
        source.search_url(&SearchQuery::new("a&b").max_results(80)),
        "https://api.typeset.io/v1/papers/search?query=a%26b&limit=50"
    );
    match ScispaceSource::check_doi_status(404, "404 Not Found", "10.1/q") {
        Err(SourceError::NotFound(m)) => assert_eq!(m, "Paper not found in SciSpace: 10.1/q"),
        _ => panic!("expected NotFound"),
    }
    match ScispaceSource::check_doi_status(500, "500 Internal Server Error", "10.1/q") {
        Err(SourceError::Api(m)) => assert_eq!(m, "SciSpace API returned status: 500 Internal Server Error"),
        _ => panic!("expected Api"),
    }
    assert!(ScispaceSource::check_doi_status(200, "200 OK", "10.1/q").is_ok());
}

// ----- Unpaywall -----

fn unpaywall_mock() -> UnpaywallResponse {
    UnpaywallResponse {
        title: Some(s("Mock Paper Title")),
        abstract_text: Some(s("Mock abstract text.")),
        published_date: Some(s("2024-04-01")),
        authors: vec![UnpaywallAuthor { name: Some(s("Ada Lovelace")) }, UnpaywallAuthor { name: Some(s("Alan Turing")) }],
        best_oa_location: Some(UnpaywallLocation { url_for_pdf: Some(s("https://example.org/mock.pdf")) }),
    }
}

#[test]
fn unpaywall_test_source_creation() {
    let source = UnpaywallSource::new(None);
    assert!(source.is_ok());
}

#[test]
fn unpaywall_test_source_metadata() {
    let source = UnpaywallSource::new(None).unwrap();
    assert_eq!(source.id(), "unpaywall");
    assert_eq!(source.name(), "Unpaywall");
}

#[test]
fn unpaywall_test_capabilities() {
    let source = UnpaywallSource::new(None).unwrap();
    let caps = source.capabilities();
    assert!(caps.contains(SourceCapabilities::doi_lookup()));
    assert!(!caps.contains(SourceCapabilities::search()));
}

#[test]
fn unpaywall_test_parse_result_maps_response_fields() {
    let source = UnpaywallSource::new(None).unwrap();
    let response = unpaywall_mock();
    let paper = source.parse_result(&response, "10.1234/mock").unwrap();
    assert_eq!(paper.paper_id, "10.1234/mock");
    assert_eq!(paper.title, "Mock Paper Title");
    assert_eq!(paper.authors, "Ada Lovelace; Alan Turing");
    assert_eq!(paper.abstract_text, "Mock abstract text.");
    assert_eq!(paper.doi.as_deref(), Some("10.1234/mock"));
    assert_eq!(paper.url, "https://doi.org/10.1234/mock");
    assert_eq!(
        paper.pdf_url.as_deref(),
        Some("https://example.org/mock.pdf")
    );
    assert_eq!(paper.source.id(), "unpaywall");
}

#[test]
fn unpaywall_lookup_url_and_status() {
    let default_mail = UnpaywallSource::new(None).unwrap();
    assert_eq!(
        default_mail.lookup_url("https://doi.org/10.1/x"),
        "https://api.unpaywall.org/v2/10.1%2Fx?email=research-master%40example.com"
    );
    let own = UnpaywallSource::new(Some(s("me@uni.edu"))).unwrap();
    assert_eq!(own.lookup_url("10.1/x"), "https://api.unpaywall.org/v2/10.1%2Fx?email=me%40uni.edu");
    match UnpaywallSource::check_status(404, "404 Not Found", "", "10.1/x") {
        Err(SourceError::NotFound(m)) => assert_eq!(m, "Paper not found in Unpaywall: 10.1/x"),
        _ => panic!("expected NotFound"),
    }
    match UnpaywallSource::check_status(422, "422 Unprocessable Entity", "bad email", "10.1/x") {
        Err(SourceError::Api(m)) => assert_eq!(m, "Unpaywall API returned status 422 Unprocessable Entity: bad email"),
        _ => panic!("expected Api"),
    }
    let no_location = UnpaywallResponse { best_oa_location: None, ..unpaywall_mock() };
    assert_eq!(own.parse_result(&no_location, "10.1/x").unwrap().pdf_url, None);
}

// ----- Zenodo -----

fn zenodo_mock_hit() -> ZenodoHit {
    ZenodoHit {
        id: 12345,
        metadata: ZenodoMetadata {
            title: Some(s("Mock Paper Title")),
            description: Some(s("Mock abstract text.")),
            doi: Some(s("10.1234/mock")),
            publication_date: Some(s("2024-06-01")),
            creators: vec![ZenodoCreator { name: Some(s("Ada Lovelace")) }, ZenodoCreator { name: Some(s("Alan Turing")) }],
        },
        links: ZenodoLinks { html: Some(s("https://zenodo.org/records/12345")) },
    }
}

#[test]
fn zenodo_test_source_creation() {
    let source = ZenodoSource::new();
    assert!(source.is_ok());
}

#[test]
fn zenodo_test_source_metadata() {
    let source = ZenodoSource::new().unwrap();
    assert_eq!(source.id(), "zenodo");
    assert_eq!(source.name(), "Zenodo");
}

#[test]
fn zenodo_test_capabilities() {
    let source = ZenodoSource::new().unwrap();
    let caps = source.capabilities();
    assert!(caps.contains(SourceCapabilities::search()));
    assert!(caps.contains(SourceCapabilities::doi_lookup()));
    assert_eq!(
        caps,
        SourceCapabilities::search().union(SourceCapabilities::doi_lookup())
    );
}

#[test]
fn zenodo_test_parse_result_maps_response_fields() {
    let source = ZenodoSource::new().unwrap();
    let response = ZenodoResponse { hits: ZenodoHits { total: ZenodoTotal::Struct { value: 1 }, hits: vec![zenodo_mock_hit()] } };
    let paper = source.parse_result(&response.hits.hits[0]).unwrap();
    assert_eq!(paper.paper_id, "12345");
    assert_eq!(paper.title, "Mock Paper Title");
    assert_eq!(paper.authors, "Ada Lovelace; Alan Turing");
    assert_eq!(paper.abstract_text, "Mock abstract text.");
    assert_eq!(paper.doi.as_deref(), Some("10.1234/mock"));
    assert_eq!(paper.url, "https://zenodo.org/records/12345");
    assert_eq!(paper.published_date.as_deref(), Some("2024-06-01"));
    assert_eq!(paper.source.id(), "zenodo");
}

#[test]
fn zenodo_fallback_links_totals_and_errors() {
    let source = ZenodoSource::new().unwrap();
    let mut hit = zenodo_mock_hit();
    hit.links.html = None;
    assert_eq!(source.parse_result(&hit).unwrap().url, "https://doi.org/10.1234/mock");
    hit.metadata.doi = None;
    assert_eq!(source.parse_result(&hit).unwrap().url, "https://zenodo.org/record/12345");
    let response = ZenodoResponse { hits: ZenodoHits { total: ZenodoTotal::Integer(2), hits: vec![] } };
    let r = source.search_response(&response, &SearchQuery::new("x")).unwrap();
    assert_eq!(r.total_results, Some(2));
    match ZenodoTotal::default() {
        ZenodoTotal::Integer(n) => assert_eq!(n, 0),
        ZenodoTotal::Struct { .. } => panic!("expected integer total"),
    }
    match source.doi_result(&response, "10.1/none") {
        Err(SourceError::NotFound(m)) => assert_eq!(m, "Paper not found in Zenodo: 10.1/none"),
        _ => panic!("expected NotFound"),
    }
    assert_eq!(
        source.doi_url("doi:10.5281/zenodo.1"),
        "https://zenodo.org/api/records?q=doi:\"10.5281%2Fzenodo.1\""
    );
    assert_eq!(
        source.search_url(&SearchQuery::new("ml").max_results(5000)),
        "https://zenodo.org/api/records?q=ml&size=1000&type=publication"
    );
    let long_body = "x".repeat(600);
    match ZenodoSource::parse_error("expected value", &long_body) {
        SourceError::Parse(m) => {
            assert_eq!(m, format!("Failed to parse Zenodo response: expected value. Response: {}", "x".repeat(500)))
        }
        _ => panic!("expected Parse"),
    }
    assert_eq!(ZenodoSource::classify_response(200, "text/html"), ResponseKind::RateLimited);
}

#[test]
fn doi_cleaning_strips_prefixes_and_spaces() {
    assert_eq!(clean_doi("  https://doi.org/10.1/abc "), "10.1/abc");
    assert_eq!(clean_doi("doi:10.1/abc"), "10.1/abc");
    assert_eq!(clean_doi("10.1/abc"), "10.1/abc");
}

#[test]
fn failed_searches_swallow_limit_messages() {
    let q = SearchQuery::new("q");
    let oa = OpenaireSource::new().unwrap();
    assert!(oa.failed_search(&q, "503 Service Unavailable", "source rate-limited, retry").unwrap().papers.is_empty());
    match oa.failed_search(&q, "500 Internal Server Error", "boom") {
        Err(SourceError::Api(m)) => assert_eq!(m, "OpenAIRE API returned status 500 Internal Server Error: boom"),
        _ => panic!("expected Api"),
    }
    let zn = ZenodoSource::new().unwrap();
    assert_eq!(zn.failed_search(&q, "500 Internal Server Error", "rate-limited").unwrap().source, "Zenodo");
    assert!(zn.failed_search(&q, "500 Internal Server Error", "boom").is_err());
    let sc = ScispaceSource::new().unwrap();
    assert!(sc.failed_search(&q, "500 Internal Server Error", "endpoint unavailable").unwrap().papers.is_empty());
    assert!(sc.failed_search(&q, "503 Service Unavailable", "").is_err());
    match sc.failed_search(&q, "500 Internal Server Error", "boom") {
        Err(SourceError::Api(m)) => assert_eq!(m, "SciSpace API returned status 500 Internal Server Error: boom"),
        _ => panic!("expected Api"),
    }
}
