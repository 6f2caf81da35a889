use rusttex::{ColorModel, ContentBuilder, DocumentClass, DocumentClassOptions};

#[test]
fn new_builder_is_empty() {
    let builder = ContentBuilder::new();
    assert_eq!(builder.build_document(), "");
}

#[test]
fn document_class_without_options_has_no_bracket() {
    let mut builder = ContentBuilder::new();
    builder.set_document_class(DocumentClass::Article, vec![]);
    assert_eq!(builder.build_document(), "\\documentclass{article}\n");
}

#[test]
fn document_class_with_one_option() {
    let mut builder = ContentBuilder::new();
    builder.set_document_class(DocumentClass::Book, vec![String::from("a4paper")]);
    assert_eq!(builder.build_document(), "\\documentclass[a4paper]{book}\n");
}

#[test]
fn document_class_options_keep_input_order() {
    let mut builder = ContentBuilder::new();
    builder.set_document_class(
        DocumentClass::Article,
        vec![
            String::from("a4paper"),
            DocumentClassOptions::TwoColumn.to_string(),
            String::from("draft"),
        ],
    );
    assert_eq!(
        builder.build_document(),
        "\\documentclass[a4paper,twocolumn,draft]{article}\n"
    );
}

#[test]
fn custom_document_class_uses_given_keyword() {
    let mut builder = ContentBuilder::new();
    builder.set_document_class(DocumentClass::Custom(String::from("beamer")), vec![]);
    assert_eq!(builder.build_document(), "\\documentclass{beamer}\n");
}

#[test]
fn package_without_options_has_no_bracket() {
    let mut builder = ContentBuilder::new();
    builder.use_package("amsmath", vec![]);
    assert_eq!(builder.build_document(), "\\usepackage{amsmath}\n");
}

#[test]
fn package_with_options_joins_by_commas() {
    let mut builder = ContentBuilder::new();
    builder.use_package(
        "geometry",
        vec![String::from("margin=1in"), String::from("a4paper")],
    );
    assert_eq!(
        builder.build_document(),
        "\\usepackage[margin=1in,a4paper]{geometry}\n"
    );
}

#[test]
fn article_with_package_and_document_markers() {
    let mut builder = ContentBuilder::new();
    builder.set_document_class(DocumentClass::Article, vec![]);
    builder.use_package("amsmath", vec![String::from("fleqn")]);
    builder.begin_document();
    builder.end_document();
    assert_eq!(
        builder.build_document(),
        "\\documentclass{article}\n\\usepackage[fleqn]{amsmath}\n\\begin{document}\n\\end{document}\n"
    );
}

#[test]
fn fixed_markers_emit_exact_literals() {
    let mut builder = ContentBuilder::new();
    builder.begin_document();
    assert_eq!(builder.build_document(), "\\begin{document}\n");

    let mut builder = ContentBuilder::new();
    builder.end_document();
    assert_eq!(builder.build_document(), "\\end{document}\n");

    let mut builder = ContentBuilder::new();
    builder.maketitle();
    assert_eq!(builder.build_document(), "\\maketitle\n");

    let mut builder = ContentBuilder::new();
    builder.new_line();
    assert_eq!(builder.build_document(), "\\\\\n");

    let mut builder = ContentBuilder::new();
    builder.clear_page();
    assert_eq!(builder.build_document(), "\\clearpage\n");

    let mut builder = ContentBuilder::new();
    builder.new_page();
    assert_eq!(builder.build_document(), "\\newpage\n");

    let mut builder = ContentBuilder::new();
    builder.line_break();
    assert_eq!(builder.build_document(), "\\linebreak\n");

    let mut builder = ContentBuilder::new();
    builder.page_break();
    assert_eq!(builder.build_document(), "\\pagebreak\n");

    let mut builder = ContentBuilder::new();
    builder.no_indent();
    assert_eq!(builder.build_document(), "\\noindent\n");

    let mut builder = ContentBuilder::new();
    builder.centering();
    assert_eq!(builder.build_document(), "\\centering\n");
}

#[test]
fn fixed_marker_is_exact_suffix_whatever_came_before() {
    let mut builder = ContentBuilder::new();
    builder.section("Intro");
    builder.add_literal("some text");
    let before = builder.build_document().to_owned();
    builder.maketitle();
    let after = builder.build_document();
    assert!(after.starts_with(before.as_str()));
    assert_eq!(&after[before.len()..], "\\maketitle\n");
}

#[test]
fn add_literal_appends_text_unchanged() {
    let mut builder = ContentBuilder::new();
    builder.add_literal("This is some text.");
    builder.add_literal(" And more & <raw> $stuff$.");
    assert_eq!(
        builder.build_document(),
        "This is some text. And more & <raw> $stuff$."
    );
}

#[test]
fn title_and_author_end_their_lines() {
    let mut builder = ContentBuilder::new();
    builder.title("My Document");
    builder.author("John Doe");
    assert_eq!(
        builder.build_document(),
        "\\title{My Document}\n\\author{John Doe}\n"
    );
}

#[test]
fn text_styles_are_inline() {
    let mut builder = ContentBuilder::new();
    builder.text_bold("Bold Text");
    builder.text_italic("Italic Text");
    builder.text_underline("Underlined Text");
    assert_eq!(
        builder.build_document(),
        "\\textbf{Bold Text}\\textit{Italic Text}\\underline{Underlined Text}"
    );
}

#[test]
fn sectioning_commands_end_their_lines() {
    let mut builder = ContentBuilder::new();
    builder.section("Introduction");
    builder.subsection("Background");
    builder.subsubsection("Details");
    builder.paragraph("A paragraph.");
    builder.subparagraph("A subparagraph.");
    assert_eq!(
        builder.build_document(),
        "\\section{Introduction}\n\\subsection{Background}\n\\subsubsection{Details}\n\\paragraph{A paragraph.}\n\\subparagraph{A subparagraph.}\n"
    );
}

#[test]
fn label_and_ref_label() {
    let mut builder = ContentBuilder::new();
    builder.label("sec:intro");
    builder.ref_label("sec:intro");
    assert_eq!(builder.build_document(), "\\label{sec:intro}\n\\ref{sec:intro}");
}

#[test]
fn footnote_is_inline() {
    let mut builder = ContentBuilder::new();
    builder.footnote("This is a footnote.");
    assert_eq!(builder.build_document(), "\\footnote{This is a footnote.}");
}

#[test]
fn cite_with_subcitation_brackets_it() {
    let mut builder = ContentBuilder::new();
    builder.cite("doe2020", Some("p. 42"));
    assert_eq!(builder.build_document(), "\\cite[p. 42]{doe2020}");
}

#[test]
fn cite_without_subcitation_has_no_bracket() {
    let mut builder = ContentBuilder::new();
    builder.cite("doe2020", None::<&str>);
    assert_eq!(builder.build_document(), "\\cite{doe2020}");
}

#[test]
fn text_color_with_model_brackets_it() {
    let mut builder = ContentBuilder::new();
    builder.text_color("Colored Text", "red", Some(ColorModel::RGBFull));
    assert_eq!(builder.build_document(), "\\textcolor[RGB]{red}{Colored Text}");
}

#[test]
fn text_color_without_model_has_no_bracket() {
    let mut builder = ContentBuilder::new();
    builder.text_color("Colored Text", "red", None);
    assert_eq!(builder.build_document(), "\\textcolor{red}{Colored Text}");
}

#[test]
fn horizontal_and_vertical_space() {
    let mut builder = ContentBuilder::new();
    builder.hspace("1cm");
    builder.vspace("2em");
    assert_eq!(builder.build_document(), "\\hspace{1cm}\\vspace{2em}");
}

#[test]
fn file_inclusion_commands_end_their_lines() {
    let mut builder = ContentBuilder::new();
    builder.include_file("chapter1");
    builder.input("preamble");
    assert_eq!(
        builder.build_document(),
        "\\include{chapter1}\n\\input{preamble}\n"
    );
}

#[test]
fn itemize_item_is_braced_after_the_marker() {
    let mut builder = ContentBuilder::new();
    builder.itemize("Item 1");
    assert_eq!(builder.build_document(), "\\item {Item 1}\n");
}

#[test]
fn nested_builder_renders_like_equal_literal_in_title() {
    let mut inner = ContentBuilder::new();
    inner.text_bold("Deep");
    let mut with_builder = ContentBuilder::new();
    with_builder.title(inner);

    let mut with_literal = ContentBuilder::new();
    with_literal.title("\\textbf{Deep}");

    assert_eq!(with_builder.build_document(), with_literal.build_document());
}
