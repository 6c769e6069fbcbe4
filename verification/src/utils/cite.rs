//! Citation formatting in various styles.
//!
//! Supports APA 7th, MLA 9th, Chicago 17th, and BibTeX formats.
use vstd::prelude::*;
use crate::models::{Paper, PaperView, source_name};
use crate::utils::text::{
    views, split_on, lemma_split_on_nonempty, split_char, trim, trim_str, words, split_words, join,
    join_prefix, initials, initials_of, push_str, to_owned_string, copy_string, utf8_len,
    byte_prefix, is_boundary, or_empty, alphanumeric, opt_str_view, opt_view, byte_len,
    prefix_within_bytes, push_char, chars_of, is_alphanumeric, copy_opt_string, join_all,
};

verus! {

broadcast use vstd::string::group_string_axioms;

/// Citation style
#[derive(Clone, Copy, PartialEq, Eq, Structural, Debug)]
pub enum CitationStyle {
    /// APA 7th edition
    Apa,
    /// MLA 9th edition
    Mla,
    /// Chicago 17th edition (author-date)
    Chicago,
    /// BibTeX
    Bibtex,
}

/// The human-readable name of a style.
pub open spec fn style_display(style: CitationStyle) -> Seq<char> {
    match style {
        CitationStyle::Apa => "APA 7th"@,
        CitationStyle::Mla => "MLA 9th"@,
        CitationStyle::Chicago => "Chicago 17th"@,
        CitationStyle::Bibtex => "BibTeX"@,
    }
}

/// The variant name of a style.
pub open spec fn style_variant(style: CitationStyle) -> Seq<char> {
    match style {
        CitationStyle::Apa => "Apa"@,
        CitationStyle::Mla => "Mla"@,
        CitationStyle::Chicago => "Chicago"@,
        CitationStyle::Bibtex => "Bibtex"@,
    }
}

impl CitationStyle {
    /// The human-readable name, such as `APA 7th`.
    pub fn to_string(&self) -> (r: String)
        ensures
            r@ == style_display(*self),
    {
        match self {
            CitationStyle::Apa => to_owned_string("APA 7th"),
            CitationStyle::Mla => to_owned_string("MLA 9th"),
            CitationStyle::Chicago => to_owned_string("Chicago 17th"),
            CitationStyle::Bibtex => to_owned_string("BibTeX"),
        }
    }

    /// The variant name, such as `Apa`.
    pub fn variant_name(&self) -> (r: String)
        ensures
            r@ == style_variant(*self),
    {
        match self {
            CitationStyle::Apa => to_owned_string("Apa"),
            CitationStyle::Mla => to_owned_string("Mla"),
            CitationStyle::Chicago => to_owned_string("Chicago"),
            CitationStyle::Bibtex => to_owned_string("Bibtex"),
        }
    }
}

// ---------------------------------------------------------------------------
// Specification of the formats
// ---------------------------------------------------------------------------

/// The pieces of `s` between occurrences of `sep`, each trimmed.
pub open spec fn trimmed_pieces(s: Seq<char>, sep: char) -> Seq<Seq<char>> {
    split_on(s, sep).map_values(|p: Seq<char>| trim(p))
}

/// One author as `Last, F.`: a `Last, First Middle` name keeps its last name
/// and takes the initials of the rest; a `First Middle Last` name takes its
/// last word and the initials of the others; a single word stays as it is.
pub open spec fn apa_single(a: Seq<char>) -> Seq<char> {
    let parts = trimmed_pieces(a, ',');
    if parts.len() >= 2 {
        trim(parts[0]) + ", "@ + initials(words(trim(parts[1]))) + "."@
    } else {
        let ws = words(a);
        if ws.len() >= 2 {
            ws.last() + ", "@ + initials(ws.take(ws.len() - 1)) + "."@
        } else {
            a
        }
    }
}

/// One author as `Last, First Middle`.
pub open spec fn last_first(a: Seq<char>) -> Seq<char> {
    let parts = trimmed_pieces(a, ',');
    if parts.len() >= 2 {
        trim(parts[0]) + ", "@ + trim(parts[1])
    } else {
        let ws = words(a);
        if ws.len() >= 2 {
            ws.last() + ", "@ + join(ws.take(ws.len() - 1), " "@)
        } else {
            a
        }
    }
}

/// A `Last, First` author written as `First Last`; any other name stays as it is.
pub open spec fn first_last(a: Seq<char>) -> Seq<char> {
    let parts = trimmed_pieces(a, ',');
    if parts.len() >= 2 {
        trim(parts[1]) + " "@ + trim(parts[0])
    } else {
        a
    }
}

/// The APA author list: up to twenty authors, the last joined with `&`; past
/// twenty, the first nineteen and the twentieth joined with an ellipsis.
pub open spec fn apa_authors(authors: Seq<char>) -> Seq<char> {
    if trim(authors).len() == 0 {
        "Anonymous"@
    } else {
        let l = trimmed_pieces(authors, ';');
        if l.len() == 1 {
            apa_single(l[0])
        } else if l.len() == 2 {
            apa_single(l[0]) + " & "@ + apa_single(l[1])
        } else if l.len() <= 20 {
            let f = l.map_values(|a: Seq<char>| apa_single(a));
            join(f.take(f.len() - 1), ", "@) + " & "@ + f.last()
        } else {
            let f = l.take(20).map_values(|a: Seq<char>| apa_single(a));
            join(f.take(19), ", "@) + " ... "@ + f.last()
        }
    }
}

/// The MLA author list: one author, two joined with `and`, or the first followed by `et al`.
pub open spec fn mla_authors(authors: Seq<char>) -> Seq<char> {
    if trim(authors).len() == 0 {
        "Anonymous"@
    } else {
        let l = trimmed_pieces(authors, ';');
        if l.len() == 1 {
            last_first(l[0])
        } else if l.len() == 2 {
            last_first(l[0]) + " and "@ + first_last(l[1])
        } else {
            last_first(l[0]) + " et al"@
        }
    }
}

/// The Chicago author list: one author, two joined with `and`, or the first followed by `et al.`.
pub open spec fn chicago_authors(authors: Seq<char>) -> Seq<char> {
    if trim(authors).len() == 0 {
        "Anonymous"@
    } else {
        let l = trimmed_pieces(authors, ';');
        if l.len() == 1 {
            last_first(l[0])
        } else if l.len() == 2 {
            last_first(l[0]) + " and "@ + first_last(l[1])
        } else {
            last_first(l[0]) + " et al."@
        }
    }
}

/// The first four bytes of the date, or `n.d.` when there is no date of four bytes.
pub open spec fn year_of(date: Option<Seq<char>>) -> Seq<char> {
    match date {
        Some(d) => if utf8_len(d) >= 4 {
            byte_prefix(d, 4)
        } else {
            "n.d."@
        },
        None => "n.d."@,
    }
}

/// The date can be cut at its fourth byte (which `&d[..4]` needs).
pub open spec fn year_slicable(date: Option<Seq<char>>) -> bool {
    match date {
        Some(d) => utf8_len(d) >= 4 ==> is_boundary(d, 4),
        None => true,
    }
}

/// The author part of a sentence, ending with a period.
pub open spec fn with_period(a: Seq<char>) -> Seq<char> {
    if a.len() > 0 && a.last() == '.' {
        a
    } else {
        a + "."@
    }
}

/// APA: `Author, A. (Year). Title. Source.` and the DOI link when there is a DOI.
pub open spec fn apa(p: PaperView) -> Seq<char> {
    let head = with_period(apa_authors(p.authors)) + " ("@ + year_of(p.published_date) + "). "@
        + p.title + ". "@ + source_name(p.source);
    let doi = or_empty(p.doi);
    if doi.len() > 0 {
        head + ". https://doi.org/"@ + doi
    } else {
        head + "."@
    }
}

/// MLA: `Author. "Title". Source, Year.` and the DOI link when there is a DOI.
pub open spec fn mla(p: PaperView) -> Seq<char> {
    let head = mla_authors(p.authors) + ". "@ + ("\""@ + p.title + "\""@) + ". "@ + source_name(
        p.source,
    ) + ", "@ + year_of(p.published_date);
    let doi = or_empty(p.doi);
    if doi.len() > 0 {
        head + ". https://doi.org/"@ + doi + "."@
    } else {
        head + "."@
    }
}

/// Chicago: `Author. Year. "Title". Source.` and the DOI link when there is a DOI.
pub open spec fn chicago(p: PaperView) -> Seq<char> {
    let head = with_period(chicago_authors(p.authors)) + " "@ + year_of(p.published_date) + ". \""@
        + p.title + "\". "@ + source_name(p.source);
    let doi = or_empty(p.doi);
    if doi.len() > 0 {
        head + ". https://doi.org/"@ + doi + "."@
    } else {
        head + "."@
    }
}

/// The alphanumeric characters of `w`, in order.
pub open spec fn alnum_only(w: Seq<char>) -> Seq<char>
    decreases w.len(),
{
    if w.len() == 0 {
        Seq::empty()
    } else {
        alnum_only(w.drop_last()) + (if alphanumeric(w.last()) {
            seq![w.last()]
        } else {
            Seq::empty()
        })
    }
}

/// The alphanumeric characters of the words, concatenated.
pub open spec fn title_key(ws: Seq<Seq<char>>) -> Seq<char>
    decreases ws.len(),
{
    if ws.len() == 0 {
        Seq::empty()
    } else {
        title_key(ws.drop_last()) + alnum_only(ws.last())
    }
}

/// The last name of the first author, used in the BibTeX key.
pub open spec fn key_last_name(authors: Seq<char>) -> Seq<char> {
    let first_author = trim(split_on(authors, ';')[0]);
    let last_name = trim(split_on(first_author, ',')[0]);
    let ws = words(last_name);
    if ws.len() > 0 {
        ws.last()
    } else {
        last_name
    }
}

/// The BibTeX key: the first author's last name, the year, and the
/// alphanumeric characters of the first three words of the title.
pub open spec fn bibtex_key(p: PaperView) -> Seq<char> {
    let tw = words(p.title);
    let n = if tw.len() < 3 {
        tw.len() as int
    } else {
        3
    };
    key_last_name(p.authors) + year_of(p.published_date) + title_key(tw.take(n))
}

/// The BibTeX author field: every author as `Last, First`, joined with `and`.
pub open spec fn bibtex_authors(authors: Seq<char>) -> Seq<char> {
    join(split_on(authors, ';').map_values(|a: Seq<char>| last_first(trim(a))), " and "@)
}

/// The BibTeX `doi` line, present when the paper has a DOI.
pub open spec fn bibtex_doi_field(doi: Option<Seq<char>>) -> Seq<char> {
    match doi {
        Some(d) => "\n  doi = {"@ + d + "},"@,
        None => Seq::empty(),
    }
}

/// A BibTeX `@article` entry.
pub open spec fn bibtex(p: PaperView) -> Seq<char> {
    "@article{"@ + bibtex_key(p) + ",\n  author = {"@ + bibtex_authors(p.authors) + "},\n  title = {"@
        + p.title + "},\n  journal = {"@ + source_name(p.source) + "},\n  year = {"@ + year_of(
        p.published_date,
    ) + "},"@ + bibtex_doi_field(p.doi) + "\n  url = {"@ + p.url + "}\n}"@
}

/// APA and a DOI: a paper with a DOI is cited as the same paper without one,
/// followed by ` https://doi.org/` and the DOI; without a DOI the citation is
/// `Authors. (Year). Title. Source.`, the authors ending with one period.
pub proof fn lemma_apa_doi(p0: PaperView, d: Seq<char>)
    requires
        or_empty(p0.doi).len() == 0,
        d.len() > 0,
    ensures
        apa(PaperView { doi: Some(d), ..p0 }) == apa(p0) + " https://doi.org/"@ + d,
        apa(p0) == with_period(apa_authors(p0.authors)) + " ("@ + year_of(p0.published_date) + "). "@
            + p0.title + ". "@ + source_name(p0.source) + "."@,
{
    let p1 = PaperView { doi: Some(d), ..p0 };
    let head = with_period(apa_authors(p0.authors)) + " ("@ + year_of(p0.published_date) + "). "@
        + p0.title + ". "@ + source_name(p0.source);
    assert(apa(p0) == head + "."@);
    assert(apa(p1) == head + ". https://doi.org/"@ + d);
    assert(". https://doi.org/"@ =~= "."@ + " https://doi.org/"@) by {
        reveal_strlit(". https://doi.org/");
        reveal_strlit(".");
        reveal_strlit(" https://doi.org/");
    }
    assert(head + ". https://doi.org/"@ + d =~= head + "."@ + " https://doi.org/"@ + d);
}

/// MLA and a DOI: a paper with a DOI is cited as the same paper without one,
/// followed by ` https://doi.org/`, the DOI and a period; without a DOI the
/// citation is `Authors. "Title". Source, Year.`.
pub proof fn lemma_mla_doi(p0: PaperView, d: Seq<char>)
    requires
        or_empty(p0.doi).len() == 0,
        d.len() > 0,
    ensures
        mla(PaperView { doi: Some(d), ..p0 }) == mla(p0) + " https://doi.org/"@ + d + "."@,
        mla(p0) == mla_authors(p0.authors) + ". \""@ + p0.title + "\". "@ + source_name(p0.source) + ", "@
            + year_of(p0.published_date) + "."@,
{
    let p1 = PaperView { doi: Some(d), ..p0 };
    let head = mla_authors(p0.authors) + ". "@ + ("\""@ + p0.title + "\""@) + ". "@ + source_name(p0.source)
        + ", "@ + year_of(p0.published_date);
    assert(mla(p0) == head + "."@);
    assert(mla(p1) == head + ". https://doi.org/"@ + d + "."@);
    assert(". https://doi.org/"@ =~= "."@ + " https://doi.org/"@) by {
        reveal_strlit(". https://doi.org/");
        reveal_strlit(".");
        reveal_strlit(" https://doi.org/");
    }
    assert(". \""@ =~= ". "@ + "\""@ && "\". "@ =~= "\""@ + ". "@) by {
        reveal_strlit(". \"");
        reveal_strlit(". ");
        reveal_strlit("\"");
        reveal_strlit("\". ");
    }
    assert(head + ". https://doi.org/"@ + d + "."@ =~= head + "."@ + " https://doi.org/"@ + d + "."@);
    assert(head =~= mla_authors(p0.authors) + ". \""@ + p0.title + "\". "@ + source_name(p0.source) + ", "@
        + year_of(p0.published_date));
}

/// Chicago and a DOI: a paper with a DOI is cited as the same paper without
/// one, followed by ` https://doi.org/`, the DOI and a period; without a DOI
/// the citation is `Authors. Year. "Title". Source.`, the authors ending with
/// one period.
pub proof fn lemma_chicago_doi(p0: PaperView, d: Seq<char>)
    requires
        or_empty(p0.doi).len() == 0,
        d.len() > 0,
    ensures
        chicago(PaperView { doi: Some(d), ..p0 }) == chicago(p0) + " https://doi.org/"@ + d + "."@,
        chicago(p0) == with_period(chicago_authors(p0.authors)) + " "@ + year_of(p0.published_date) + ". \""@
            + p0.title + "\". "@ + source_name(p0.source) + "."@,
{
    let p1 = PaperView { doi: Some(d), ..p0 };
    let head = with_period(chicago_authors(p0.authors)) + " "@ + year_of(p0.published_date) + ". \""@
        + p0.title + "\". "@ + source_name(p0.source);
    assert(chicago(p0) == head + "."@);
    assert(chicago(p1) == head + ". https://doi.org/"@ + d + "."@);
    assert(". https://doi.org/"@ =~= "."@ + " https://doi.org/"@) by {
        reveal_strlit(". https://doi.org/");
        reveal_strlit(".");
        reveal_strlit(" https://doi.org/");
    }
    assert(head + ". https://doi.org/"@ + d + "."@ =~= head + "."@ + " https://doi.org/"@ + d + "."@);
}

/// BibTeX and a DOI: the entry of a paper without a DOI ends with its URL
/// line `U`; with a DOI, the line `doi = {..},` stands just before `U` and the
/// rest is unchanged.
pub proof fn lemma_bibtex_doi(p0: PaperView, d: Seq<char>)
    requires
        p0.doi is None,
    ensures
        ({
            let u = "\n  url = {"@ + p0.url + "}\n}"@;
            let b0 = bibtex(p0);
            &&& b0.len() >= u.len()
            &&& b0.subrange(b0.len() - u.len(), b0.len() as int) == u
            &&& bibtex(PaperView { doi: Some(d), ..p0 }) == b0.subrange(0, b0.len() - u.len())
                + "\n  doi = {"@ + d + "},"@ + u
        }),
{
    let p1 = PaperView { doi: Some(d), ..p0 };
    let u = "\n  url = {"@ + p0.url + "}\n}"@;
    let pre = "@article{"@ + bibtex_key(p0) + ",\n  author = {"@ + bibtex_authors(p0.authors) + "},\n  title = {"@
        + p0.title + "},\n  journal = {"@ + source_name(p0.source) + "},\n  year = {"@ + year_of(
        p0.published_date,
    ) + "},"@;
    assert(bibtex_key(p1) == bibtex_key(p0));
    assert(bibtex(p0) =~= pre + u);
    assert(bibtex(p1) =~= pre + ("\n  doi = {"@ + d + "},"@) + u);
    let b0 = bibtex(p0);
    assert(b0.subrange(0, b0.len() - u.len()) =~= pre);
    assert(b0.subrange(b0.len() - u.len(), b0.len() as int) =~= u);
    assert(pre + ("\n  doi = {"@ + d + "},"@) + u =~= pre + "\n  doi = {"@ + d + "},"@ + u);
}

/// The citation of `p` in `style`.
pub open spec fn citation(p: PaperView, style: CitationStyle) -> Seq<char> {
    match style {
        CitationStyle::Apa => apa(p),
        CitationStyle::Mla => mla(p),
        CitationStyle::Chicago => chicago(p),
        CitationStyle::Bibtex => bibtex(p),
    }
}

// ---------------------------------------------------------------------------
// Authors
// ---------------------------------------------------------------------------

/// `s.split(sep).map(|p| p.trim())`.
fn split_trimmed(s: &str, sep: char) -> (r: Vec<String>)
    ensures
        views(r@) == trimmed_pieces(s@, sep),
        r.len() >= 1,
{
    let pieces = split_char(s, sep);
    proof {
        lemma_split_on_nonempty(s@, sep);
    }
    let mut r: Vec<String> = Vec::new();
    let mut i: usize = 0;
    while i < pieces.len()
        invariant
            views(pieces@) == split_on(s@, sep),
            i <= pieces.len(),
            r.len() == i,
            forall|j: int| 0 <= j < i ==> (#[trigger] r@[j])@ == trim(pieces@[j]@),
        decreases pieces.len() - i,
    {
        let t = trim_str(pieces[i].as_str());
        r.push(t);
        i += 1;
    }
    proof {
        assert forall|j: int| 0 <= j < r.len() implies views(r@)[j] == trimmed_pieces(s@, sep)[j] by {
            assert(views(pieces@)[j] == pieces@[j]@);
        }
        assert(views(r@) =~= trimmed_pieces(s@, sep));
    }
    r
}

/// The last word and the words before it, for a name of two or more words.
proof fn lemma_words_split(ws: Seq<Seq<char>>, v: Seq<String>)
    requires
        views(v) == ws,
        ws.len() >= 2,
    ensures
        views(v).take(ws.len() - 1) == ws.take(ws.len() - 1),
        v[ws.len() - 1]@ == ws.last(),
{
}

/// `Last, F.` for one author.
pub fn format_author_apa_single(author: &str) -> (r: String)
    ensures
        r@ == apa_single(author@),
{
    let parts = split_trimmed(author, ',');
    if parts.len() >= 2 {
        let last = trim_str(parts[0].as_str());
        let first = trim_str(parts[1].as_str());
        let first_words = split_words(first.as_str());
        let inits = initials_of(&first_words, first_words.len());
        assert(views(first_words@).take(first_words.len() as int) =~= views(first_words@));
        let mut r = last;
        push_str(&mut r, ", ");
        push_str(&mut r, inits.as_str());
        push_str(&mut r, ".");
        proof {
            assert(views(parts@)[0] == parts@[0]@);
            assert(views(parts@)[1] == parts@[1]@);
        }
        r
    } else {
        let ws = split_words(author);
        if ws.len() >= 2 {
            let n = ws.len();
            let inits = initials_of(&ws, n - 1);
            let mut r = copy_string(&ws[n - 1]);
            push_str(&mut r, ", ");
            push_str(&mut r, inits.as_str());
            push_str(&mut r, ".");
            proof {
                assert(views(ws@)[n - 1] == ws@[n - 1]@);
            }
            r
        } else {
            to_owned_string(author)
        }
    }
}

/// `Last, First Middle` for one author.
fn format_last_first(author: &str) -> (r: String)
    ensures
        r@ == last_first(author@),
{
    let parts = split_trimmed(author, ',');
    if parts.len() >= 2 {
        let mut r = trim_str(parts[0].as_str());
        let first = trim_str(parts[1].as_str());
        push_str(&mut r, ", ");
        push_str(&mut r, first.as_str());
        proof {
            assert(views(parts@)[0] == parts@[0]@);
            assert(views(parts@)[1] == parts@[1]@);
        }
        r
    } else {
        let ws = split_words(author);
        if ws.len() >= 2 {
            let n = ws.len();
            let rest = join_prefix(&ws, n - 1, " ");
            let mut r = copy_string(&ws[n - 1]);
            push_str(&mut r, ", ");
            push_str(&mut r, rest.as_str());
            proof {
                assert(views(ws@)[n - 1] == ws@[n - 1]@);
            }
            r
        } else {
            to_owned_string(author)
        }
    }
}

/// `First Last` for an author written `Last, First`.
fn format_first_last(author: &str) -> (r: String)
    ensures
        r@ == first_last(author@),
{
    let parts = split_trimmed(author, ',');
    if parts.len() >= 2 {
        let mut r = trim_str(parts[1].as_str());
        let last = trim_str(parts[0].as_str());
        push_str(&mut r, " ");
        push_str(&mut r, last.as_str());
        proof {
            assert(views(parts@)[0] == parts@[0]@);
            assert(views(parts@)[1] == parts@[1]@);
        }
        r
    } else {
        to_owned_string(author)
    }
}

/// An MLA name: `Last, First Middle`.
pub fn format_author_mla_single(author: &str) -> (r: String)
    ensures
        r@ == last_first(author@),
{
    format_last_first(author)
}

/// The second MLA name: `First Last`.
fn format_author_mla_remaining(author: &str) -> (r: String)
    ensures
        r@ == first_last(author@),
{
    format_first_last(author)
}

/// A Chicago name: `Last, First Middle`.
fn format_author_chicago_single(author: &str) -> (r: String)
    ensures
        r@ == last_first(author@),
{
    format_last_first(author)
}

/// The second Chicago name: `First Last`.
fn format_author_chicago_remaining(author: &str) -> (r: String)
    ensures
        r@ == first_last(author@),
{
    format_first_last(author)
}

/// `apa_single` of each of `l[..n]`.
fn apa_each(l: &Vec<String>, n: usize) -> (r: Vec<String>)
    requires
        n <= l.len(),
    ensures
        r.len() == n,
        views(r@) == views(l@).take(n as int).map_values(|a: Seq<char>| apa_single(a)),
{
    let mut r: Vec<String> = Vec::new();
    let mut i: usize = 0;
    while i < n
        invariant
            n <= l.len(),
            i <= n,
            r.len() == i,
            forall|j: int| 0 <= j < i ==> (#[trigger] r@[j])@ == apa_single(l@[j]@),
        decreases n - i,
    {
        r.push(format_author_apa_single(l[i].as_str()));
        i += 1;
    }
    proof {
        assert forall|j: int| 0 <= j < n implies views(r@)[j] == views(l@).take(n as int).map_values(
            |a: Seq<char>| apa_single(a),
        )[j] by {
            assert(views(l@)[j] == l@[j]@);
        }
        assert(views(r@) =~= views(l@).take(n as int).map_values(|a: Seq<char>| apa_single(a)));
    }
    r
}

/// Authors as `Last, F., Last, F. & Last, F.`.
fn format_authors_apa(authors: &str) -> (r: String)
    ensures
        r@ == apa_authors(authors@),
{
    let trimmed = trim_str(authors);
    if trimmed.as_str().is_empty() {
        return to_owned_string("Anonymous");
    }
    let l = split_trimmed(authors, ';');
    proof {
        assert forall|j: int| 0 <= j < l.len() implies views(l@)[j] == l@[j]@ by {}
    }
    if l.len() == 1 {
        format_author_apa_single(l[0].as_str())
    } else if l.len() == 2 {
        let mut r = format_author_apa_single(l[0].as_str());
        let second = format_author_apa_single(l[1].as_str());
        push_str(&mut r, " & ");
        push_str(&mut r, second.as_str());
        r
    } else if l.len() <= 20 {
        let f = apa_each(&l, l.len());
        assert(views(l@).take(l.len() as int) =~= views(l@));
        let n = f.len();
        let mut r = join_prefix(&f, n - 1, ", ");
        push_str(&mut r, " & ");
        push_str(&mut r, f[n - 1].as_str());
        proof {
            assert(views(f@)[n - 1] == f@[n - 1]@);
        }
        r
    } else {
        let f = apa_each(&l, 20);
        assert(views(l@).take(20) =~= trimmed_pieces(authors@, ';').take(20));
        let mut r = join_prefix(&f, 19, ", ");
        push_str(&mut r, " ... ");
        push_str(&mut r, f[19].as_str());
        proof {
            assert(views(f@)[19] == f@[19]@);
        }
        r
    }
}

/// Authors as `Last, First`, `Last, First and First Last`, or `Last, First et al`.
fn format_authors_mla(authors: &str) -> (r: String)
    ensures
        r@ == mla_authors(authors@),
{
    let trimmed = trim_str(authors);
    if trimmed.as_str().is_empty() {
        return to_owned_string("Anonymous");
    }
    let l = split_trimmed(authors, ';');
    proof {
        assert forall|j: int| 0 <= j < l.len() implies views(l@)[j] == l@[j]@ by {}
    }
    if l.len() == 1 {
        format_author_mla_single(l[0].as_str())
    } else if l.len() == 2 {
        let mut r = format_author_mla_single(l[0].as_str());
        let second = format_author_mla_remaining(l[1].as_str());
        push_str(&mut r, " and ");
        push_str(&mut r, second.as_str());
        r
    } else {
        let mut r = format_author_mla_single(l[0].as_str());
        push_str(&mut r, " et al");
        r
    }
}

/// Authors as `Last, First`, `Last, First and First Last`, or `Last, First et al.`.
fn format_authors_chicago(authors: &str) -> (r: String)
    ensures
        r@ == chicago_authors(authors@),
{
    let trimmed = trim_str(authors);
    if trimmed.as_str().is_empty() {
        return to_owned_string("Anonymous");
    }
    let l = split_trimmed(authors, ';');
    proof {
        assert forall|j: int| 0 <= j < l.len() implies views(l@)[j] == l@[j]@ by {}
    }
    if l.len() == 1 {
        format_author_chicago_single(l[0].as_str())
    } else if l.len() == 2 {
        let mut r = format_author_chicago_single(l[0].as_str());
        let second = format_author_chicago_remaining(l[1].as_str());
        push_str(&mut r, " and ");
        push_str(&mut r, second.as_str());
        r
    } else {
        let mut r = format_author_chicago_single(l[0].as_str());
        push_str(&mut r, " et al.");
        r
    }
}

// ---------------------------------------------------------------------------
// Whole citations
// ---------------------------------------------------------------------------

/// Extract year from published_date (YYYY-MM-DD or YYYY): its first four
/// bytes, or `n.d.` when it is missing or shorter.
pub fn extract_year(date: Option<&str>) -> (r: String)
    requires
        year_slicable(opt_str_view(date)),
    ensures
        r@ == year_of(opt_str_view(date)),
{
    match date {
        Some(d) => {
            if byte_len(d) >= 4 {
                let (p, _) = prefix_within_bytes(d, 4);
                p
            } else {
                to_owned_string("n.d.")
            }
        },
        None => to_owned_string("n.d."),
    }
}

/// `o.as_deref()`.
fn opt_as_str(o: &Option<String>) -> (r: Option<&str>)
    ensures
        opt_str_view(r) == opt_view(*o),
{
    match o {
        Some(s) => Some(s.as_str()),
        None => None,
    }
}

/// The year of a paper.
fn paper_year(paper: &Paper) -> (r: String)
    requires
        year_slicable(paper@.published_date),
    ensures
        r@ == year_of(paper@.published_date),
{
    extract_year(opt_as_str(&paper.published_date))
}

/// The author part of a sentence, ending with a period.
fn sentence_of(authors: String) -> (r: String)
    ensures
        r@ == with_period(authors@),
{
    let v = chars_of(authors.as_str());
    if v.len() > 0 && v[v.len() - 1] == '.' {
        authors
    } else {
        let mut r = authors;
        push_str(&mut r, ".");
        r
    }
}

/// Format paper in APA 7th edition
/// Format: Author, A. A., & Author, B. B. (Year). Title. Source. DOI
pub fn format_apa(paper: &Paper) -> (r: String)
    requires
        year_slicable(paper@.published_date),
    ensures
        r@ == apa(paper@),
{
    let mut r = sentence_of(format_authors_apa(paper.authors.as_str()));
    let year = paper_year(paper);
    push_str(&mut r, " (");
    push_str(&mut r, year.as_str());
    push_str(&mut r, "). ");
    push_str(&mut r, paper.title.as_str());
    push_str(&mut r, ". ");
    push_str(&mut r, paper.source.name());
    let doi = crate::utils::text::opt_or_empty(&paper.doi);
    if !doi.as_str().is_empty() {
        push_str(&mut r, ". https://doi.org/");
        push_str(&mut r, doi.as_str());
    } else {
        push_str(&mut r, ".");
    }
    r
}

/// Format paper in MLA 9th edition
/// Format: Author. "Title." Source, Year, DOI.
fn format_mla(paper: &Paper) -> (r: String)
    requires
        year_slicable(paper@.published_date),
    ensures
        r@ == mla(paper@),
{
    let mut r = format_authors_mla(paper.authors.as_str());
    let year = paper_year(paper);
    let mut formatted_title = to_owned_string("\"");
    push_str(&mut formatted_title, paper.title.as_str());
    push_str(&mut formatted_title, "\"");
    push_str(&mut r, ". ");
    push_str(&mut r, formatted_title.as_str());
    push_str(&mut r, ". ");
    push_str(&mut r, paper.source.name());
    push_str(&mut r, ", ");
    push_str(&mut r, year.as_str());
    let doi = crate::utils::text::opt_or_empty(&paper.doi);
    if !doi.as_str().is_empty() {
        push_str(&mut r, ". https://doi.org/");
        push_str(&mut r, doi.as_str());
        push_str(&mut r, ".");
    } else {
        push_str(&mut r, ".");
    }
    r
}

/// Format paper in Chicago 17th edition (author-date)
/// Format: Author. Year. "Title." Source. DOI.
fn format_chicago(paper: &Paper) -> (r: String)
    requires
        year_slicable(paper@.published_date),
    ensures
        r@ == chicago(paper@),
{
    let mut r = sentence_of(format_authors_chicago(paper.authors.as_str()));
    let year = paper_year(paper);
    push_str(&mut r, " ");
    push_str(&mut r, year.as_str());
    push_str(&mut r, ". \"");
    push_str(&mut r, paper.title.as_str());
    push_str(&mut r, "\". ");
    push_str(&mut r, paper.source.name());
    let doi = crate::utils::text::opt_or_empty(&paper.doi);
    if !doi.as_str().is_empty() {
        push_str(&mut r, ". https://doi.org/");
        push_str(&mut r, doi.as_str());
        push_str(&mut r, ".");
    } else {
        push_str(&mut r, ".");
    }
    r
}

/// The alphanumeric characters of `w`.
fn alnum_chars(w: &str) -> (r: String)
    ensures
        r@ == alnum_only(w@),
{
    let v = chars_of(w);
    let mut r = String::new();
    let mut k: usize = 0;
    assert(v@.take(0) =~= Seq::<char>::empty());
    while k < v.len()
        invariant
            v@ == w@,
            k <= v.len(),
            r@ == alnum_only(v@.take(k as int)),
        decreases v.len() - k,
    {
        let ghost t = v@.take(k + 1);
        assert(t.drop_last() =~= v@.take(k as int));
        if is_alphanumeric(v[k]) {
            push_char(&mut r, v[k]);
        } else {
            assert(r@ + Seq::<char>::empty() =~= r@);
        }
        k += 1;
    }
    assert(v@.take(v.len() as int) =~= v@);
    r
}

/// The last name of the first author.
fn bibtex_last_name(authors: &str) -> (r: String)
    ensures
        r@ == key_last_name(authors@),
{
    let pieces = split_char(authors, ';');
    proof {
        lemma_split_on_nonempty(authors@, ';');
        assert(views(pieces@)[0] == pieces@[0]@);
    }
    let first_author = trim_str(pieces[0].as_str());
    let name_parts = split_char(first_author.as_str(), ',');
    proof {
        lemma_split_on_nonempty(first_author@, ',');
        assert(views(name_parts@)[0] == name_parts@[0]@);
    }
    let last_name = trim_str(name_parts[0].as_str());
    let ws = split_words(last_name.as_str());
    if ws.len() > 0 {
        proof {
            assert(views(ws@)[ws.len() - 1] == ws@[ws.len() - 1]@);
        }
        copy_string(&ws[ws.len() - 1])
    } else {
        last_name
    }
}

/// The BibTeX key of a paper.
fn bibtex_key_of(paper: &Paper, year: &String) -> (r: String)
    requires
        year@ == year_of(paper@.published_date),
    ensures
        r@ == bibtex_key(paper@),
{
    let mut r = bibtex_last_name(paper.authors.as_str());
    push_str(&mut r, year.as_str());
    let tw = split_words(paper.title.as_str());
    let n: usize = if tw.len() < 3 {
        tw.len()
    } else {
        3
    };
    let ghost base = r@;
    let mut i: usize = 0;
    assert(views(tw@).take(0) =~= Seq::<Seq<char>>::empty());
    while i < n
        invariant
            n <= tw.len(),
            i <= n,
            r@ == base + title_key(views(tw@).take(i as int)),
        decreases n - i,
    {
        let ghost t = views(tw@).take(i + 1);
        assert(t.drop_last() =~= views(tw@).take(i as int));
        assert(t.last() == tw@[i as int]@);
        let k = alnum_chars(tw[i].as_str());
        push_str(&mut r, k.as_str());
        assert(r@ =~= base + title_key(t));
        i += 1;
    }
    r
}

/// The BibTeX author field.
fn bibtex_author_field(authors: &str) -> (r: String)
    ensures
        r@ == bibtex_authors(authors@),
{
    let pieces = split_char(authors, ';');
    let mut names: Vec<String> = Vec::new();
    let mut i: usize = 0;
    while i < pieces.len()
        invariant
            views(pieces@) == split_on(authors@, ';'),
            i <= pieces.len(),
            names.len() == i,
            forall|j: int| 0 <= j < i ==> (#[trigger] names@[j])@ == last_first(trim(pieces@[j]@)),
        decreases pieces.len() - i,
    {
        let author = trim_str(pieces[i].as_str());
        names.push(format_last_first(author.as_str()));
        i += 1;
    }
    proof {
        let target = split_on(authors@, ';').map_values(|a: Seq<char>| last_first(trim(a)));
        assert forall|j: int| 0 <= j < names.len() implies views(names@)[j] == target[j] by {
            assert(views(pieces@)[j] == pieces@[j]@);
        }
        assert(views(names@) =~= target);
    }
    join_all(&names, " and ")
}

/// Generate a BibTeX entry
/// Format: @article{key,
///   author = {Last, First and Last, First},
///   title = {Title},
///   journal = {Source},
///   year = {Year},
///   doi = {DOI}
/// }
pub fn format_bibtex(paper: &Paper) -> (r: String)
    requires
        year_slicable(paper@.published_date),
    ensures
        r@ == bibtex(paper@),
{
    let year = paper_year(paper);
    let key = bibtex_key_of(paper, &year);
    let authors = bibtex_author_field(paper.authors.as_str());
    let mut r = to_owned_string("@article{");
    push_str(&mut r, key.as_str());
    push_str(&mut r, ",\n  author = {");
    push_str(&mut r, authors.as_str());
    push_str(&mut r, "},\n  title = {");
    push_str(&mut r, paper.title.as_str());
    push_str(&mut r, "},\n  journal = {");
    push_str(&mut r, paper.source.name());
    push_str(&mut r, "},\n  year = {");
    push_str(&mut r, year.as_str());
    push_str(&mut r, "},");
    match &paper.doi {
        Some(d) => {
            push_str(&mut r, "\n  doi = {");
            push_str(&mut r, d.as_str());
            push_str(&mut r, "},");
        },
        None => {
            assert(r@ + Seq::<char>::empty() =~= r@);
        },
    }
    push_str(&mut r, "\n  url = {");
    push_str(&mut r, paper.url.as_str());
    push_str(&mut r, "}\n}");
    r
}

/// Format a paper citation in the specified style
pub fn format_citation(paper: &Paper, style: CitationStyle) -> (r: String)
    requires
        year_slicable(paper@.published_date),
    ensures
        r@ == citation(paper@, style),
{
    match style {
        CitationStyle::Apa => format_apa(paper),
        CitationStyle::Mla => format_mla(paper),
        CitationStyle::Chicago => format_chicago(paper),
        CitationStyle::Bibtex => format_bibtex(paper),
    }
}

/// Structured citation data for JSON output
pub struct StructuredCitation {
    pub style: String,
    pub formatted: String,
    pub authors: String,
    pub title: String,
    pub year: String,
    pub source: String,
    pub doi: Option<String>,
    pub url: String,
}

/// Get structured citation data
pub fn get_structured_citation(paper: &Paper, style: CitationStyle) -> (r: StructuredCitation)
    requires
        year_slicable(paper@.published_date),
    ensures
        r.style@ == style_variant(style),
        r.formatted@ == citation(paper@, style),
        r.authors@ == paper@.authors,
        r.title@ == paper@.title,
        r.year@ == year_of(paper@.published_date),
        r.source@ == source_name(paper@.source),
        opt_view(r.doi) == paper@.doi,
        r.url@ == paper@.url,
{
    StructuredCitation {
        style: style.variant_name(),
        formatted: format_citation(paper, style),
        authors: paper.authors.clone(),
        title: paper.title.clone(),
        year: paper_year(paper),
        source: to_owned_string(paper.source.name()),
        doi: copy_opt_string(&paper.doi),
        url: paper.url.clone(),
    }
}

} // verus!
