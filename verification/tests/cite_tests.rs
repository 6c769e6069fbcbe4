use research_master::models::{Paper, PaperBuilder, SourceType};
use research_master::utils::cite::{
    extract_year, format_apa, format_bibtex, format_author_apa_single, format_author_mla_single, format_citation,
    get_structured_citation, CitationStyle,
};

const PAPER_ID: &str = "paper-1";
const TITLE: &str = "Citation Testing in Rust";
const URL: &str = "https://example.com/paper";
const DOI: &str = "10.1234/example";

fn paper(authors: &str, doi: Option<&str>) -> Paper {
    let builder = PaperBuilder::new(PAPER_ID, TITLE, URL, SourceType::Arxiv)
        .authors(authors)
        .published_date("2024-03-15");

    match doi {
        Some(doi) => builder.doi(doi).build(),
        None => builder.build(),
    }
}

fn paper_without_date(authors: &str) -> Paper {
    PaperBuilder::new(PAPER_ID, TITLE, URL, SourceType::Arxiv)
        .authors(authors)
        .build()
}

#[test]
fn test_citation_style_display() {
    assert_eq!(CitationStyle::Apa.to_string(), "APA 7th");
    assert_eq!(CitationStyle::Mla.to_string(), "MLA 9th");
    assert_eq!(CitationStyle::Chicago.to_string(), "Chicago 17th");
    assert_eq!(CitationStyle::Bibtex.to_string(), "BibTeX");
}

#[test]
fn test_apa_single_author_without_doi() {
    let citation = format_citation(&paper("Doe, John", None), CitationStyle::Apa);

    assert_eq!(citation, "Doe, J. (2024). Citation Testing in Rust. arXiv.");
}

#[test]
fn test_apa_two_authors_without_doi() {
    let citation = format_citation(&paper("Doe, John; Smith, Jane", None), CitationStyle::Apa);

    assert_eq!(
        citation,
        "Doe, J. & Smith, J. (2024). Citation Testing in Rust. arXiv."
    );
}

#[test]
fn test_apa_many_authors_without_doi() {
    let citation = format_citation(
        &paper("Doe, John; Smith, Jane; Brown, Bob", None),
        CitationStyle::Apa,
    );

    assert_eq!(
        citation,
        "Doe, J., Smith, J. & Brown, B. (2024). Citation Testing in Rust. arXiv."
    );
}

#[test]
fn test_apa_no_authors_uses_anonymous() {
    let citation = format_citation(&paper("", None), CitationStyle::Apa);

    assert_eq!(
        citation,
        "Anonymous. (2024). Citation Testing in Rust. arXiv."
    );
}

#[test]
fn test_apa_with_doi() {
    let citation = format_citation(&paper("Doe, John", Some(DOI)), CitationStyle::Apa);

    assert_eq!(
        citation,
        "Doe, J. (2024). Citation Testing in Rust. arXiv. https://doi.org/10.1234/example"
    );
}

#[test]
fn test_mla_single_author() {
    let citation = format_citation(&paper("Doe, John", None), CitationStyle::Mla);

    assert_eq!(
        citation,
        "Doe, John. \"Citation Testing in Rust\". arXiv, 2024."
    );
}

#[test]
fn test_mla_two_authors() {
    let citation = format_citation(&paper("Doe, John; Smith, Jane", None), CitationStyle::Mla);

    assert_eq!(
        citation,
        "Doe, John and Jane Smith. \"Citation Testing in Rust\". arXiv, 2024."
    );
}

#[test]
fn test_mla_three_or_more_authors_uses_et_al() {
    let citation = format_citation(
        &paper("Doe, John; Smith, Jane; Brown, Bob", None),
        CitationStyle::Mla,
    );

    assert_eq!(
        citation,
        "Doe, John et al. \"Citation Testing in Rust\". arXiv, 2024."
    );
}

#[test]
fn test_chicago_single_author() {
    let citation = format_citation(&paper("Doe, John", None), CitationStyle::Chicago);

    assert_eq!(
        citation,
        "Doe, John. 2024. \"Citation Testing in Rust\". arXiv."
    );
}

#[test]
fn test_chicago_two_authors() {
    let citation = format_citation(
        &paper("Doe, John; Smith, Jane", None),
        CitationStyle::Chicago,
    );

    assert_eq!(
        citation,
        "Doe, John and Jane Smith. 2024. \"Citation Testing in Rust\". arXiv."
    );
}

#[test]
fn test_chicago_three_or_more_authors_uses_et_al() {
    let citation = format_citation(
        &paper("Doe, John; Smith, Jane; Brown, Bob", None),
        CitationStyle::Chicago,
    );

    assert_eq!(
        citation,
        "Doe, John et al. 2024. \"Citation Testing in Rust\". arXiv."
    );
}

#[test]
fn test_bibtex_author_formats_key_generation_and_doi() {
    let citation = format_citation(
        &paper("Doe, John; Jane Smith", Some(DOI)),
        CitationStyle::Bibtex,
    );

    assert_eq!(
        citation,
        "@article{Doe2024CitationTestingin,\n  author = {Doe, John and Smith, Jane},\n  title = {Citation Testing in Rust},\n  journal = {arXiv},\n  year = {2024},\n  doi = {10.1234/example},\n  url = {https://example.com/paper}\n}"
    );
}

#[test]
fn test_bibtex_without_doi() {
    let citation = format_citation(&paper("John Michael Doe", None), CitationStyle::Bibtex);

    assert_eq!(
        citation,
        "@article{Doe2024CitationTestingin,\n  author = {Doe, John Michael},\n  title = {Citation Testing in Rust},\n  journal = {arXiv},\n  year = {2024},\n  url = {https://example.com/paper}\n}"
    );
    assert!(!citation.contains("doi ="));
}

#[test]
fn test_extract_year() {
    assert_eq!(extract_year(Some("2024-03-15")), "2024");
    assert_eq!(extract_year(Some("2024")), "2024");
    assert_eq!(extract_year(Some("")), "n.d.");
    assert_eq!(extract_year(None), "n.d.");
}

#[test]
fn test_get_structured_citation_basic_structure() {
    let source_paper = paper("Doe, John", Some(DOI));
    let structured = get_structured_citation(&source_paper, CitationStyle::Mla);

    assert_eq!(structured.style, "Mla");
    assert_eq!(
        structured.formatted,
        format_citation(&source_paper, CitationStyle::Mla)
    );
    assert_eq!(structured.authors, "Doe, John");
    assert_eq!(structured.title, TITLE);
    assert_eq!(structured.year, "2024");
    assert_eq!(structured.source, "arXiv");
    assert_eq!(structured.doi, Some(DOI.to_string()));
    assert_eq!(structured.url, URL);
}

#[test]
fn test_get_structured_citation_without_date_uses_no_date() {
    let source_paper = paper_without_date("Doe, John");
    let structured = get_structured_citation(&source_paper, CitationStyle::Apa);

    assert_eq!(structured.year, "n.d.");
    assert!(structured.formatted.contains("(n.d.)"));
}

#[test]
fn test_format_author_apa_single() {
    assert_eq!(format_author_apa_single("Doe, John Michael"), "Doe, JM.");
    assert_eq!(format_author_apa_single("John Michael Doe"), "Doe, JM.");
    assert_eq!(format_author_apa_single("Plato"), "Plato");
}

#[test]
fn test_format_author_mla_single() {
    assert_eq!(
        format_author_mla_single("Doe, John Michael"),
        "Doe, John Michael"
    );
    assert_eq!(
        format_author_mla_single("John Michael Doe"),
        "Doe, John Michael"
    );
}

#[test]
fn apa_more_than_twenty_authors_uses_ellipsis() {
    let mut names: Vec<String> = Vec::new();
    for i in 0..22 {
        names.push(format!("Author{}, Given", i));
    }
    let citation = format_citation(&paper(&names.join("; "), None), CitationStyle::Apa);
    let expected_authors: Vec<String> = (0..19).map(|i| format!("Author{}, G.", i)).collect();
    let expected = format!(
        "{} ... Author19, G. (2024). Citation Testing in Rust. arXiv.",
        expected_authors.join(", ")
    );
    assert_eq!(citation, expected);
}

#[test]
fn structured_citation_matches_format_for_every_style() {
    let p = paper("Doe, John; Smith, Jane", Some(DOI));
    for (style, name) in [
        (CitationStyle::Apa, "Apa"),
        (CitationStyle::Mla, "Mla"),
        (CitationStyle::Chicago, "Chicago"),
        (CitationStyle::Bibtex, "Bibtex"),
    ] {
        let s = get_structured_citation(&p, style);
        assert_eq!(s.style, name);
        assert_eq!(s.formatted, format_citation(&p, style));
    }
}

#[test]
fn bibtex_key_of_anonymous_paper_without_date() {
    let citation = format_citation(&paper_without_date(""), CitationStyle::Bibtex);
    assert!(citation.starts_with("@article{"));
    assert!(citation.contains("year = {n.d.}"));
}

#[test]
fn doi_adds_link_to_apa_and_line_to_bibtex() {
    let without = paper("Doe, John", None);
    let with = paper("Doe, John", Some(DOI));
    assert_eq!(format_apa(&with), format!("{} https://doi.org/{}", format_apa(&without), DOI));
    let b0 = format_bibtex(&without);
    let u = "\n  url = {https://example.com/paper}\n}";
    assert!(b0.ends_with(u));
    assert_eq!(
        format_bibtex(&with),
        format!("{}\n  doi = {{{}}},{}", &b0[..b0.len() - u.len()], DOI, u)
    );
}
