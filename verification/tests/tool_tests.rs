use research_master::mcp::unified_tools::{
    get_library_path, library_path_in,
    auto_detect_source, paper_id_upper_start, ArgValue, BatchGetPapersHandler, BatchOutcome,
    DeduplicatePapersHandler, DownloadPaperHandler, DuplicateStrategy, ExaResult,
    ExportPapersHandler, GetPaperHandler, GetRelatedPapersHandler, JsonText, ListSourcesHandler,
    LookupByDoiHandler, LookupStep, RecommendPapersHandler, SearchPapersHandler, ToolArgs,
    WebSearchHandler, summarize_author,
};
use research_master::models::{Paper, PaperBuilder, SourceType};
use research_master::sources::{SourceCapabilities, SourceDescriptor};

fn make_test_sources() -> Vec<SourceDescriptor> {
    vec![
        SourceDescriptor::new("arxiv", "arxiv", SourceCapabilities::all()),
        SourceDescriptor::new("semantic", "semantic", SourceCapabilities::all()),
        SourceDescriptor::new("pmc", "pmc", SourceCapabilities::all()),
        SourceDescriptor::new("hal", "hal", SourceCapabilities::all()),
        SourceDescriptor::new("iacr", "iacr", SourceCapabilities::all()),
    ]
}

#[test]
fn test_auto_detect_arxiv_numeric() {
    let sources = make_test_sources();
    let result = auto_detect_source(&sources, "2301.12345");
    assert!(result.is_ok());
    assert_eq!(sources[result.unwrap()].id(), "arxiv");
}

#[test]
fn test_auto_detect_arxiv_prefix() {
    let sources = make_test_sources();
    let result = auto_detect_source(&sources, "arxiv:2301.12345");
    assert!(result.is_ok());
    assert_eq!(sources[result.unwrap()].id(), "arxiv");
}

#[test]
fn test_auto_detect_pmc() {
    let sources = make_test_sources();
    let result = auto_detect_source(&sources, "PMC12345");
    assert!(result.is_ok());
    assert_eq!(sources[result.unwrap()].id(), "pmc");
}

#[test]
fn test_auto_detect_hal() {
    let sources = make_test_sources();
    let result = auto_detect_source(&sources, "hal-12345");
    assert!(result.is_ok());
    assert_eq!(sources[result.unwrap()].id(), "hal");
}

#[test]
fn test_auto_detect_iacr() {
    let sources = make_test_sources();
    let result = auto_detect_source(&sources, "2023/1234");
    assert!(result.is_ok());
    assert_eq!(sources[result.unwrap()].id(), "iacr");
}

#[test]
fn test_auto_detect_fallback() {
    let sources = make_test_sources();
    let result = auto_detect_source(&sources, "unknown-id-123");
    assert!(result.is_ok());
    assert_eq!(sources[result.unwrap()].id(), "arxiv");
}

#[test]
fn test_paper_id_upper_start() {
    assert!(paper_id_upper_start("PMC12345", "PMC"));
    assert!(paper_id_upper_start("pmc12345", "PMC"));
    assert!(!paper_id_upper_start("", "PMC"));
}

#[test]
fn auto_detect_doi_and_missing_sources() {
    let only_openaire = vec![
        SourceDescriptor::new("openaire", "OpenAIRE", SourceCapabilities::doi_lookup()),
    ];
    assert_eq!(auto_detect_source(&only_openaire, "10.1000/a/b"), Ok(0));
    assert_eq!(
        auto_detect_source(&only_openaire, "10.1000/xyz"),
        Err("IACR source not available".to_string())
    );
    assert_eq!(
        auto_detect_source(&only_openaire, "PMC777"),
        Err("PMC source not available".to_string())
    );
    assert_eq!(
        auto_detect_source(&only_openaire, "unknown"),
        Err("Could not auto-detect source. Please specify source explicitly.".to_string())
    );
    let sources = make_test_sources();
    assert_eq!(auto_detect_source(&sources, "10.1000/xyz").map(|i| sources[i].id()), Ok("iacr"));
}

#[test]
fn tool_args_and_search_targets() {
    let args = ToolArgs::new()
        .with("query", ArgValue::Str("graphs".to_string()))
        .with("max_results", ArgValue::UInt(3))
        .with("query", ArgValue::Str("ignored".to_string()));
    let req = SearchPapersHandler::parse_args(&args).ok().unwrap();
    assert_eq!(req.query, "graphs");
    assert_eq!(req.max_results, 3);
    assert_eq!(req.year, None);
    assert!(SearchPapersHandler::parse_args(&ToolArgs::new()).is_err());

    let handler = SearchPapersHandler {
        sources: vec![
            SourceDescriptor::new("a", "A", SourceCapabilities::download()),
            SourceDescriptor::new("b", "B", SourceCapabilities::search()),
            SourceDescriptor::new("c", "C", SourceCapabilities::all()),
        ],
    };
    assert_eq!(handler.targets(None), vec![1, 2]);
    assert_eq!(handler.targets(Some("c")), vec![2]);
    assert_eq!(handler.targets(Some("a")), Vec::<usize>::new());
}

#[test]
fn paper_lookup_steps_and_messages() {
    assert_eq!(GetPaperHandler::next_step("10.1/x", LookupStep::ById), Some(LookupStep::ByDoi));
    assert_eq!(GetPaperHandler::next_step("2301.1", LookupStep::ById), Some(LookupStep::Search));
    assert_eq!(GetPaperHandler::next_step("10.1/x", LookupStep::ByDoi), Some(LookupStep::Search));
    assert_eq!(GetPaperHandler::next_step("10.1/x", LookupStep::Search), None);
    assert_eq!(GetPaperHandler::not_found("p1", "arxiv"), "Paper 'p1' not found in arxiv");
    let h = GetPaperHandler { sources: make_test_sources() };
    assert_eq!(h.find_source("whatever", Some("hal")), Ok(3));
}

#[test]
fn download_fallbacks_skip_primary_and_missing() {
    let h = DownloadPaperHandler {
        sources: vec![
            SourceDescriptor::new("unpaywall", "Unpaywall", SourceCapabilities::download()),
            SourceDescriptor::new("core", "CORE", SourceCapabilities::search()),
            SourceDescriptor::new("arxiv", "arXiv", SourceCapabilities::all()),
            SourceDescriptor::new("openaire", "OpenAIRE", SourceCapabilities::all()),
        ],
    };
    assert_eq!(h.fallbacks(2), vec![3, 0]);
    assert_eq!(h.fallbacks(3), vec![0]);
    let args = ToolArgs::new().with("paper_id", ArgValue::Str("x".to_string()));
    let parsed = DownloadPaperHandler::parse_args(&args).ok().unwrap();
    assert_eq!(parsed.output_path, "./downloads");
}

#[test]
fn doi_lookup_related_and_recommendations() {
    let sources = vec![
        SourceDescriptor::new("openalex", "OpenAlex", SourceCapabilities::search()),
        SourceDescriptor::new("semantic", "Semantic Scholar", SourceCapabilities::all()),
        SourceDescriptor::new("crossref", "Crossref", SourceCapabilities::doi_lookup()),
    ];
    let lookup = LookupByDoiHandler { sources: make_test_sources() };
    assert_eq!(lookup.candidates(None).len(), 5);
    let related = GetRelatedPapersHandler { sources: vec![SourceDescriptor::new("semantic", "S", SourceCapabilities::all())] };
    assert_eq!(related.select_source(None), Ok(0));
    assert!(related.select_source(Some("nope")).is_err());
    let rec = RecommendPapersHandler { sources };
    let c = rec.candidates();
    assert_eq!(c, vec![(1, "semantic".to_string()), (0, "openalex".to_string())]);
    assert_eq!(
        RecommendPapersHandler::failure_message("p"),
        "Could not find recommendations for 'p' from any source"
    );
}

#[test]
fn duplicate_strategy_names() {
    assert_eq!(DeduplicatePapersHandler::strategy(None), DuplicateStrategy::First);
    assert_eq!(DeduplicatePapersHandler::strategy(Some("last")), DuplicateStrategy::Last);
    assert_eq!(DeduplicatePapersHandler::strategy(Some("mark")), DuplicateStrategy::Mark);
    assert_eq!(DeduplicatePapersHandler::strategy(Some("LAST")), DuplicateStrategy::First);
}

fn cited(id: &str, date: &str, citations: u64) -> Paper {
    PaperBuilder::new(id, id, "https://example.com", SourceType::Arxiv)
        .published_date(date)
        .citations(citations)
        .build()
}

#[test]
fn author_summary_counts_and_tallies() {
    let papers = vec![
        cited("a", "2020-01-01", 5),
        cited("b", "2021-02-02", 50),
        cited("c", "2020-03-03", 50),
        cited("d", "2019", 11),
    ];
    let s = summarize_author("semantic", &papers);
    assert_eq!(s.source, "semantic");
    assert_eq!(s.total_papers_found, 4);
    assert_eq!(s.papers_with_significant_citations, 3);
    let (title, count) = s.most_cited_paper.clone().unwrap();
    assert_eq!(count, 50);
    assert!(title == "b" || title == "c");
    let total: usize = s.publications_by_year.iter().map(|(_, n)| *n).sum();
    assert_eq!(total, 4);
}

#[test]
fn batch_tally_and_export() {
    let outcomes = vec![
        BatchOutcome { query_id: "a".to_string(), source: None, found: true, error: None, papers: vec![] },
        BatchOutcome { query_id: "b".to_string(), source: None, found: false, error: Some("x".to_string()), papers: vec![] },
    ];
    let (total, found, failed) = BatchGetPapersHandler::tally(&outcomes);
    assert_eq!((total, found, failed), (2, 1, 1));

    let fmt = ExportPapersHandler::format(&ToolArgs::new().with("format", ArgValue::Str("APA".to_string())));
    assert_eq!(fmt, "apa");
    assert_eq!(ExportPapersHandler::format(&ToolArgs::new()), "bibtex");
    let p = cited("a", "2020-01-01", 1);
    assert_eq!(ExportPapersHandler::entry(&p, "json"), None);
    assert!(ExportPapersHandler::entry(&p, "apa").unwrap().contains("(2020)"));
    let q = PaperBuilder::new("id1", "Say \"hi\"", "u", SourceType::Arxiv)
        .authors("Ada")
        .doi("10.1/x")
        .build();
    assert_eq!(
        ExportPapersHandler::entry(&q, "csv").unwrap(),
        "\"id1\",\"Say \"\"hi\"\"\",\"Ada\",Some(\"10.1/x\"),None"
    );
    assert!(ExportPapersHandler::entry(&q, "unknown").unwrap().starts_with("@article{"));
}

#[test]
fn list_sources_sorted_stably() {
    let h = ListSourcesHandler {
        sources: vec![
            SourceDescriptor::new("zenodo", "Zenodo", SourceCapabilities::search()),
            SourceDescriptor::new("arxiv", "arXiv", SourceCapabilities::all()),
            SourceDescriptor::new("medrxiv", "medRxiv", SourceCapabilities::download()),
        ],
    };
    let list = h.source_list();
    let ids: Vec<&str> = list.iter().map(|i| i.id.as_str()).collect();
    assert_eq!(ids, vec!["arxiv", "medrxiv", "zenodo"]);
    assert!(list[1].download && !list[1].search);
}

#[test]
fn web_search_answers() {
    assert_eq!(WebSearchHandler::result_count(25), 10);
    assert_eq!(WebSearchHandler::usable_key(Some(String::new())), None);
    assert_eq!(WebSearchHandler::usable_key(Some("k".to_string())), Some("k".to_string()));
    assert!(WebSearchHandler::missing_key_message().starts_with("Web search requires EXA_API_KEY"));
    let results = vec![
        ExaResult { title: JsonText::Text("T".to_string()), url: JsonText::Text("U".to_string()), text: JsonText::Missing, snippet: JsonText::Text("S".to_string()) },
        ExaResult { title: JsonText::Other, url: JsonText::Missing, text: JsonText::Other, snippet: JsonText::Text("S2".to_string()) },
    ];
    let out = WebSearchHandler::web_output("q", &results);
    assert_eq!(out.total_results, 2);
    assert_eq!(out.source, "exa");
    assert_eq!(out.results[0].snippet, "S");
    assert_eq!(out.results[1].title, "");
    assert_eq!(out.results[1].snippet, "");
}

#[test]
fn library_file_location() {
    assert_eq!(
        library_path_in(Some("/home/u/.local/share")),
        Ok("/home/u/.local/share/research-master/library.json".to_string())
    );
    assert_eq!(library_path_in(None), Err("Could not determine data directory".to_string()));
    if let Ok(p) = get_library_path() {
        assert!(p.ends_with("research-master/library.json"));
    }
}

#[test]
fn batch_outcomes_and_merged_answers() {
    let found = research_master::mcp::unified_tools::batch_outcome("p1", Some("arxiv"), Ok(vec![cited("a", "2020", 1)]));
    assert!(found.found);
    assert_eq!(found.source.as_deref(), Some("arxiv"));
    assert_eq!(found.papers.len(), 1);
    let empty = research_master::mcp::unified_tools::batch_outcome("p2", Some("arxiv"), Ok(vec![]));
    assert!(!empty.found && empty.error.is_none());
    let failed = research_master::mcp::unified_tools::batch_outcome("p3", None, Err("no source".to_string()));
    assert!(!failed.found);
    assert_eq!(failed.error.as_deref(), Some("no source"));
    assert_eq!(failed.source, None);

    let merged = research_master::mcp::unified_tools::merge_answers(vec![
        Ok(vec![cited("a", "2020", 1), cited("b", "2021", 2)]),
        Err("down".to_string()),
        Ok(vec![cited("c", "2022", 3)]),
    ]);
    let ids: Vec<&str> = merged.iter().map(|p| p.paper_id.as_str()).collect();
    assert_eq!(ids, vec!["a", "b", "c"]);
}

#[test]
fn checked_detection_refuses_identifiers_cut_inside_a_character() {
    let sources = make_test_sources();
    assert!(!research_master::mcp::unified_tools::detect_is_defined("Pxé1"));
    assert_eq!(
        research_master::mcp::unified_tools::detect_source_checked(&sources, "Pxé1"),
        Err("Invalid paper identifier: Pxé1".to_string())
    );
    assert_eq!(research_master::mcp::unified_tools::detect_source_checked(&sources, "PMC1"), Ok(2));
}

#[test]
fn csv_export_accepts_any_date() {
    let p = PaperBuilder::new("x", "T", "u", SourceType::Arxiv).published_date("20é").build();
    assert_eq!(ExportPapersHandler::entry(&p, "csv").unwrap(), "\"x\",\"T\",\"\",None,Some(\"20é\")");
}
