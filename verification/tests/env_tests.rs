use rusttex::{
    ArrayParams, ContentBuilder, Environment, FigureParams, FileContentsOption,
    FileContentsParams, ListParams, MinipageParams, PictureParams, TableParams, TabularParams,
    TheBubliographyParams,
};

#[test]
fn plain_environment_wraps_content() {
    let mut builder = ContentBuilder::new();
    builder.env(Environment::Abstract, "This is an abstract.");
    assert_eq!(
        builder.build_document(),
        "\\begin{abstract}\nThis is an abstract.\n\\end{abstract}\n"
    );
}

#[test]
fn environment_keywords_match_on_both_ends() {
    let cases: Vec<(Environment, &str)> = vec![
        (Environment::Center, "center"),
        (Environment::Description, "description"),
        (Environment::DisplayMath, "displaymath"),
        (Environment::Document, "document"),
        (Environment::Enumerate, "enumerate"),
        (Environment::EqnArray, "eqnarray"),
        (Environment::Equation, "equation"),
        (Environment::FlushLeft, "flushleft"),
        (Environment::FlushRight, "flushright"),
        (Environment::Itemize, "itemize"),
        (Environment::Math, "math"),
        (Environment::Quotation, "quotation"),
        (Environment::Quote, "quote"),
        (Environment::Tabbing, "tabbing"),
        (Environment::Theorem, "theorem"),
        (Environment::TitlePage, "titlepage"),
        (Environment::TrivList, "trivlist"),
        (Environment::Verbatim, "verbatim"),
        (Environment::Verse, "verse"),
    ];
    for (environment, keyword) in cases {
        let mut builder = ContentBuilder::new();
        builder.env(environment, "x");
        let expected = format!("\\begin{{{}}}\nx\n\\end{{{}}}\n", keyword, keyword);
        assert_eq!(builder.build_document(), expected);
    }
}

#[test]
fn array_environment_with_position() {
    let params = ArrayParams::new("c|c", Some("t"));
    let mut builder = ContentBuilder::new();
    builder.env(Environment::Array(&params), "1 & 2");
    assert_eq!(
        builder.build_document(),
        "\\begin{array}[t]{c|c}\n1 & 2\n\\end{array}\n"
    );
}

#[test]
fn array_environment_without_position() {
    let params = ArrayParams::new("ll", None::<&str>);
    let mut builder = ContentBuilder::new();
    builder.env(Environment::Array(&params), "a & b");
    assert_eq!(
        builder.build_document(),
        "\\begin{array}{ll}\na & b\n\\end{array}\n"
    );
}

#[test]
fn figure_environment_takes_placement_unwrapped() {
    let params = FigureParams::new("h!");
    let mut builder = ContentBuilder::new();
    builder.env(Environment::Figure(&params), "a plot");
    assert_eq!(
        builder.build_document(),
        "\\begin{figure}h!\na plot\n\\end{figure}\n"
    );
}

#[test]
fn filecontents_environment_with_option() {
    let params = FileContentsParams::new("example.txt", Some(FileContentsOption::Force));
    let mut builder = ContentBuilder::new();
    builder.env(Environment::FileContents(&params), "data");
    assert_eq!(
        builder.build_document(),
        "\\begin{filecontents}[force]{example.txt}\ndata\n\\end{filecontents}\n"
    );
}

#[test]
fn filecontents_environment_without_option() {
    let params = FileContentsParams::new("example.txt", None);
    let mut builder = ContentBuilder::new();
    builder.env(Environment::FileContents(&params), "data");
    assert_eq!(
        builder.build_document(),
        "\\begin{filecontents}{example.txt}\ndata\n\\end{filecontents}\n"
    );
}

#[test]
fn list_environment_takes_labeling_and_spacing_unwrapped() {
    let params = ListParams::new("label", "spacing");
    let mut builder = ContentBuilder::new();
    builder.env(Environment::List(&params), "\\item one");
    assert_eq!(
        builder.build_document(),
        "\\begin{list}labelspacing\n\\item one\n\\end{list}\n"
    );
}

#[test]
fn minipage_environment_keeps_empty_brackets_for_missing_arguments() {
    let params = MinipageParams::new(Some("c"), Some("2cm"), None::<&str>, "5cm");
    let mut builder = ContentBuilder::new();
    builder.env(Environment::Minipage(&params), "boxed");
    assert_eq!(
        builder.build_document(),
        "\\begin{minipage}[c][2cm][]{5cm}\nboxed\n\\end{minipage}\n"
    );
}

#[test]
fn minipage_environment_with_no_optional_arguments() {
    let params = MinipageParams::new(None::<&str>, None::<&str>, None::<&str>, "5cm");
    let mut builder = ContentBuilder::new();
    builder.env(Environment::Minipage(&params), "boxed");
    assert_eq!(
        builder.build_document(),
        "\\begin{minipage}[][][]{5cm}\nboxed\n\\end{minipage}\n"
    );
}

#[test]
fn picture_environment_with_offset() {
    let params = PictureParams::new(("10cm", "5cm"), Some(("1cm", "1cm")));
    let mut builder = ContentBuilder::new();
    builder.env(Environment::Picture(&params), "drawing");
    assert_eq!(
        builder.build_document(),
        "\\begin{picture}(10cm,5cm)(1cm,1cm)\ndrawing\n\\end{picture}\n"
    );
}

#[test]
fn picture_environment_without_offset() {
    let params = PictureParams::new(("10cm", "5cm"), None::<(&str, &str)>);
    let mut builder = ContentBuilder::new();
    builder.env(Environment::Picture(&params), "drawing");
    assert_eq!(
        builder.build_document(),
        "\\begin{picture}(10cm,5cm)\ndrawing\n\\end{picture}\n"
    );
}

#[test]
fn table_environment_with_placement() {
    let params = TableParams::new(Some("h!"));
    let mut builder = ContentBuilder::new();
    builder.env(Environment::Table(&params), "rows");
    assert_eq!(
        builder.build_document(),
        "\\begin{table}[h!]\nrows\n\\end{table}\n"
    );
}

#[test]
fn table_environment_without_placement() {
    let params = TableParams::new(None::<&str>);
    let mut builder = ContentBuilder::new();
    builder.env(Environment::Table(&params), "rows");
    assert_eq!(builder.build_document(), "\\begin{table}\nrows\n\\end{table}\n");
}

#[test]
fn tabular_environment_with_position() {
    let params = TabularParams::new("c|c", Some("t"));
    let mut builder = ContentBuilder::new();
    builder.env(Environment::Tabular(&params), "1 & 2");
    assert_eq!(
        builder.build_document(),
        "\\begin{tabular}[t]{c|c}\n1 & 2\n\\end{tabular}\n"
    );
}

#[test]
fn bibliography_environment_takes_widest_label_braced() {
    let params = TheBubliographyParams::new("99");
    let mut builder = ContentBuilder::new();
    builder.env(Environment::TheBibliography(&params), "\\bibitem{a} A.");
    assert_eq!(
        builder.build_document(),
        "\\begin{thebibliography}{99}\n\\bibitem{a} A.\n\\end{thebibliography}\n"
    );
}

#[test]
fn nested_builder_renders_like_equal_literal_in_environment() {
    let mut inner = ContentBuilder::new();
    inner.text_bold("word");
    inner.new_line();
    let mut with_builder = ContentBuilder::new();
    with_builder.env(Environment::Center, inner);

    let mut with_literal = ContentBuilder::new();
    with_literal.env(Environment::Center, "\\textbf{word}\\\\\n");

    assert_eq!(with_builder.build_document(), with_literal.build_document());
}

#[test]
fn environment_content_follows_open_marker_and_precedes_close_marker() {
    let params = TableParams::new(Some("h"));
    let mut builder = ContentBuilder::new();
    builder.env(Environment::Table(&params), "the rows");
    let text = builder.build_document();
    let open = "\\begin{table}[h]\n";
    let close = "\\end{table}\n";
    assert!(text.starts_with(open));
    assert!(text.ends_with(close));
    assert_eq!(&text[open.len()..text.len() - close.len()], "the rows\n");
}
