use research_master::models::{PaperBuilder, SearchQuery, SourceType};
use research_master::sources::{SourceCapabilities, SourceDescriptor};

#[test]
fn test_search_query_builder() {
    let query = SearchQuery::new("machine learning")
        .max_results(20)
        .year("2020-")
        .author("Hinton");

    assert_eq!(query.query, "machine learning");
    assert_eq!(query.max_results, 20);
    assert_eq!(query.year, Some("2020-".to_string()));
    assert_eq!(query.author, Some("Hinton".to_string()));
}

#[test]
fn test_source_type() {
    assert_eq!(SourceType::Arxiv.to_string(), "arXiv");
    assert_eq!(SourceType::PubMed.to_string(), "PubMed");
    assert_eq!(SourceType::SemanticScholar.to_string(), "Semantic Scholar");
}

#[test]
fn test_invalid_query_handling() {
    let query = SearchQuery::new("").max_results(10);
    assert_eq!(query.query, "");
    assert_eq!(query.max_results, 10);

    let query = SearchQuery::new("test").max_results(10000);
    assert_eq!(query.max_results, 10000);
}

#[test]
fn test_paper_model() {
    let paper = PaperBuilder::new(
        "1234.5678",
        "Test Paper",
        "https://example.com",
        SourceType::Arxiv,
    )
    .authors("John Doe; Jane Smith")
    .abstract_text("This is a test abstract.")
    .doi("10.1234/test")
    .published_date("2024")
    .citations(42)
    .build();

    assert_eq!(paper.paper_id, "1234.5678");
    assert_eq!(paper.title, "Test Paper");
    assert_eq!(paper.authors, "John Doe; Jane Smith");
    assert_eq!(paper.abstract_text, "This is a test abstract.");
    assert_eq!(paper.doi, Some("10.1234/test".to_string()));
    assert_eq!(paper.citations, Some(42));

    assert_eq!(paper.primary_id(), "10.1234/test");
    assert_eq!(paper.author_list(), vec!["John Doe", "Jane Smith"]);
    assert!(!paper.has_pdf());
}

#[test]
fn test_paper_with_pdf() {
    let paper = PaperBuilder::new("1234", "Test", "https://example.com", SourceType::Arxiv)
        .pdf_url("https://example.com/paper.pdf")
        .build();

    assert!(paper.has_pdf());
    assert_eq!(
        paper.pdf_url,
        Some("https://example.com/paper.pdf".to_string())
    );
}

#[test]
fn test_paper_categories_keywords() {
    let paper = PaperBuilder::new("1234", "Test", "https://example.com", SourceType::Arxiv)
        .categories("Machine Learning; AI")
        .keywords("deep learning; neural networks")
        .build();

    assert_eq!(paper.category_list(), vec!["Machine Learning", "AI"]);
    assert_eq!(
        paper.keyword_list(),
        vec!["deep learning", "neural networks"]
    );
}

#[test]
fn paper_lists_drop_empty_items_and_builder_drops_empty_fields() {
    let paper = PaperBuilder::new("p", "T", "u", SourceType::Other("x".to_string()))
        .authors(" ; Ada ;; Alan ")
        .doi("")
        .pdf_url("")
        .build();
    assert_eq!(paper.author_list(), vec!["Ada", "Alan"]);
    assert_eq!(paper.doi, None);
    assert_eq!(paper.primary_id(), "p");
    assert!(!paper.has_pdf());
    assert!(paper.category_list().is_empty());
    assert_eq!(paper.source.id(), "x");
    let copy = paper.copy();
    assert_eq!(copy.authors, paper.authors);
}

#[test]
fn capabilities_union_and_descriptors() {
    let caps = SourceCapabilities::search().union(SourceCapabilities::download());
    assert!(caps.contains(SourceCapabilities::search()));
    assert!(caps.contains(caps));
    assert!(!caps.contains(SourceCapabilities::read()));
    assert!(SourceCapabilities::all().contains(caps));
    assert!(caps.contains(SourceCapabilities::empty()));
    let d = SourceDescriptor::new("arxiv", "arXiv", caps);
    assert!(d.supports_search() && d.supports_download() && !d.supports_doi_lookup());
    assert_eq!(d.id(), "arxiv");
    assert_eq!(d.name(), "arXiv");
}
