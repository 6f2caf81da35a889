//! A builder for generating markup documents programmatically.
//!
//! The builder owns a growable text buffer and a set of methods, each of
//! which appends one fixed-format fragment computed from its inputs. The
//! buffer is append-only; the contracts state, for every method, exactly
//! which characters it appends. The fragment shapes themselves are the
//! spec functions of [`fragments`].

use vstd::prelude::*;
use vstd::string::StringExecFns;

pub mod fragments;
pub mod models;

pub use models::{
    ArrayParams, ColorModel, DocumentClass, DocumentClassOptions, Environment, FigureParams,
    FileContentsOption, FileContentsParams, ListParams, MinipageParams, PictureParams, TableParams,
    TabularParams, TheBubliographyParams,
};

use fragments::{cmd_arg, cmd_arg_line, comma_join, directive_line, options_group};

verus! {

/// An argument that can be handed to the builder either as ready text or
/// as a nested builder whose accumulated output becomes the text.
pub trait StringOrBuilder: Sized {
    /// The characters this argument contributes.
    spec fn str_view(self) -> Seq<char>;

    /// Turns the argument into its text.
    fn merge_str(self) -> (r: String)
        ensures
            r@ == self.str_view(),
    ;
}

impl<'a> StringOrBuilder for &'a str {
    open spec fn str_view(self) -> Seq<char> {
        self@
    }

    fn merge_str(self) -> (r: String) {
        self.to_owned()
    }
}

impl StringOrBuilder for String {
    open spec fn str_view(self) -> Seq<char> {
        self@
    }

    fn merge_str(self) -> (r: String) {
        self
    }
}

/// The characters of each present optional argument, however it was
/// handed over.
pub open spec fn opt_arg_view<S: StringOrBuilder>(o: Option<S>) -> Option<Seq<char>> {
    match o {
        Some(s) => Some(s.str_view()),
        None => None,
    }
}

/// What a text-bearing operation appends depends on its argument's
/// characters alone: content handed over as ready text and content built
/// by a nested builder render identically whenever their characters
/// agree, for inline commands, line-ending commands and environment
/// blocks alike.
pub proof fn lemma_render_by_view<S1: StringOrBuilder, S2: StringOrBuilder>(
    literal: S1,
    built: S2,
    name: Seq<char>,
    params: Seq<char>,
)
    requires
        literal.str_view() == built.str_view(),
    ensures
        cmd_arg(name, literal.str_view()) == cmd_arg(name, built.str_view()),
        cmd_arg_line(name, literal.str_view()) == cmd_arg_line(name, built.str_view()),
        fragments::env_block(name, params, literal.str_view()) == fragments::env_block(
            name,
            params,
            built.str_view(),
        ),
{
}

/// A builder for a markup document: one append-only text buffer.
///
/// Its view is the sequence of characters accumulated so far.
pub struct ContentBuilder {
    content: String,
}

impl View for ContentBuilder {
    type V = Seq<char>;

    closed spec fn view(&self) -> Seq<char> {
        self.content@
    }
}

impl StringOrBuilder for ContentBuilder {
    open spec fn str_view(self) -> Seq<char> {
        self@
    }

    fn merge_str(self) -> (r: String) {
        self.content
    }
}

impl ContentBuilder {
    /// Creates a builder with an empty buffer.
    pub fn new() -> (r: ContentBuilder)
        ensures
            r@ == Seq::<char>::empty(),
    {
        ContentBuilder { content: String::new() }
    }

    /// Returns the accumulated document text.
    pub fn build_document(&self) -> (r: &str)
        ensures
            r@ == self@,
    {
        self.content.as_str()
    }

    /// Appends literal text to the buffer, unchanged.
    pub fn add_literal(&mut self, text: &str)
        ensures
            final(self)@ == old(self)@ + text@,
    {
        self.content.append(text);
    }

    /// Appends one piece of text to the buffer.
    fn push_text(&mut self, s: &str)
        ensures
            final(self)@ == old(self)@ + s@,
    {
        self.content.append(s);
    }

    /// Appends a braced argument group.
    fn push_braced(&mut self, s: &str)
        ensures
            final(self)@ == old(self)@ + fragments::brace_group(s@),
    {
        self.push_text("{");
        self.push_text(s);
        self.push_text("}");
        proof {
            assert(self@ =~= old(self)@ + fragments::brace_group(s@));
        }
    }

    /// Appends a bracketed argument group.
    fn push_bracketed(&mut self, s: &str)
        ensures
            final(self)@ == old(self)@ + fragments::bracket_group(s@),
    {
        self.push_text("[");
        self.push_text(s);
        self.push_text("]");
        proof {
            assert(self@ =~= old(self)@ + fragments::bracket_group(s@));
        }
    }

    /// Appends the option segment: nothing for an empty list, otherwise
    /// one bracket pair around the options, comma-joined in input order.
    fn push_options(&mut self, options: &Vec<String>)
        ensures
            final(self)@ == old(self)@ + options_group(options.deep_view()),
    {
        let ghost opts: Seq<Seq<char>> = options.deep_view();
        if options.len() == 0 {
            proof {
                assert(self@ =~= old(self)@ + options_group(opts));
            }
            return ;
        }
        self.push_text("[");
        self.push_text(options[0].as_str());
        proof {
            assert(opts.take(1) =~= seq![opts[0]]);
            assert(comma_join(opts.take(1)) == opts[0]);
            assert(self@ =~= old(self)@ + "["@ + comma_join(opts.take(1)));
        }
        let mut i: usize = 1;
        while i < options.len()
            invariant
                1 <= i <= options.len(),
                opts == options.deep_view(),
                opts.len() == options.len(),
                self@ == old(self)@ + "["@ + comma_join(opts.take(i as int)),
            decreases options.len() - i,
        {
            self.push_text(",");
            self.push_text(options[i].as_str());
            proof {
                assert(opts.take(i + 1) =~= opts.take(i as int).push(opts[i as int]));
                fragments::lemma_comma_join_push(opts.take(i as int), opts[i as int]);
                assert(self@ =~= old(self)@ + "["@ + comma_join(opts.take(i + 1)));
            }
            i = i + 1;
        }
        self.push_text("]");
        proof {
            assert(opts.take(options.len() as int) =~= opts);
            assert(self@ =~= old(self)@ + options_group(opts));
        }
    }

    /// Appends an argument-taking command that ends its own line.
    fn push_cmd_arg_line(&mut self, name: &str, arg: &str)
        ensures
            final(self)@ == old(self)@ + cmd_arg_line(name@, arg@),
    {
        self.push_text("\\");
        self.push_text(name);
        self.push_braced(arg);
        self.push_text("\n");
        proof {
            assert(self@ =~= old(self)@ + cmd_arg_line(name@, arg@));
        }
    }

    /// Appends an argument-taking inline command.
    fn push_cmd_arg(&mut self, name: &str, arg: &str)
        ensures
            final(self)@ == old(self)@ + cmd_arg(name@, arg@),
    {
        self.push_text("\\");
        self.push_text(name);
        self.push_braced(arg);
        proof {
            assert(self@ =~= old(self)@ + cmd_arg(name@, arg@));
        }
    }

    /// Appends the document-class directive: the class keyword in braces,
    /// behind the options when any are given.
    pub fn set_document_class(&mut self, document_class: DocumentClass, options: Vec<String>)
        ensures
            final(self)@ == old(self)@ + directive_line(
                "documentclass"@,
                options.deep_view(),
                document_class.spec_keyword(),
            ),
    {
        let keyword = document_class.to_string();
        self.push_text("\\");
        self.push_text("documentclass");
        self.push_options(&options);
        self.push_braced(keyword.as_str());
        self.push_text("\n");
        proof {
            assert(self@ =~= old(self)@ + directive_line(
                "documentclass"@,
                options.deep_view(),
                document_class.spec_keyword(),
            ));
        }
    }

    /// Appends a package directive: the package name in braces, behind
    /// the options when any are given.
    pub fn use_package(&mut self, package: &str, options: Vec<String>)
        ensures
            final(self)@ == old(self)@ + directive_line(
                "usepackage"@,
                options.deep_view(),
                package@,
            ),
    {
        self.push_text("\\");
        self.push_text("usepackage");
        self.push_options(&options);
        self.push_braced(package);
        self.push_text("\n");
        proof {
            assert(self@ =~= old(self)@ + directive_line(
                "usepackage"@,
                options.deep_view(),
                package@,
            ));
        }
    }

    /// Appends the fixed opening marker of the document environment.
    pub fn begin_document(&mut self)
        ensures
            final(self)@ == old(self)@ + "\\begin{document}\n"@,
    {
        self.push_text("\\begin{document}\n");
    }

    /// Appends the fixed closing marker of the document environment.
    pub fn end_document(&mut self)
        ensures
            final(self)@ == old(self)@ + "\\end{document}\n"@,
    {
        self.push_text("\\end{document}\n");
    }

    /// Appends the title declaration.
    pub fn title<S: StringOrBuilder>(&mut self, title: S)
        ensures
            final(self)@ == old(self)@ + cmd_arg_line("title"@, title.str_view()),
    {
        let text = title.merge_str();
        self.push_cmd_arg_line("title", text.as_str());
    }

    /// Appends the author declaration.
    pub fn author<S: StringOrBuilder>(&mut self, author: S)
        ensures
            final(self)@ == old(self)@ + cmd_arg_line("author"@, author.str_view()),
    {
        let text = author.merge_str();
        self.push_cmd_arg_line("author", text.as_str());
    }

    /// Appends the fixed title-emission command.
    pub fn maketitle(&mut self)
        ensures
            final(self)@ == old(self)@ + "\\maketitle\n"@,
    {
        self.push_text("\\maketitle\n");
    }

    /// Appends bold text.
    pub fn text_bold<S: StringOrBuilder>(&mut self, text: S)
        ensures
            final(self)@ == old(self)@ + cmd_arg("textbf"@, text.str_view()),
    {
        let t = text.merge_str();
        self.push_cmd_arg("textbf", t.as_str());
    }

    /// Appends italic text.
    pub fn text_italic<S: StringOrBuilder>(&mut self, text: S)
        ensures
            final(self)@ == old(self)@ + cmd_arg("textit"@, text.str_view()),
    {
        let t = text.merge_str();
        self.push_cmd_arg("textit", t.as_str());
    }

    /// Appends underlined text.
    pub fn text_underline<S: StringOrBuilder>(&mut self, text: S)
        ensures
            final(self)@ == old(self)@ + cmd_arg("underline"@, text.str_view()),
    {
        let t = text.merge_str();
        self.push_cmd_arg("underline", t.as_str());
    }

    /// Appends the fixed line-ending marker.
    pub fn new_line(&mut self)
        ensures
            final(self)@ == old(self)@ + "\\\\\n"@,
    {
        self.push_text("\\\\\n");
    }

    /// Appends a label declaration.
    pub fn label<S: StringOrBuilder>(&mut self, label: S)
        ensures
            final(self)@ == old(self)@ + cmd_arg_line("label"@, label.str_view()),
    {
        let text = label.merge_str();
        self.push_cmd_arg_line("label", text.as_str());
    }

    /// Appends a section heading.
    pub fn section<S: StringOrBuilder>(&mut self, title: S)
        ensures
            final(self)@ == old(self)@ + cmd_arg_line("section"@, title.str_view()),
    {
        let text = title.merge_str();
        self.push_cmd_arg_line("section", text.as_str());
    }

    /// Appends a subsection heading.
    pub fn subsection<S: StringOrBuilder>(&mut self, title: S)
        ensures
            final(self)@ == old(self)@ + cmd_arg_line("subsection"@, title.str_view()),
    {
        let text = title.merge_str();
        self.push_cmd_arg_line("subsection", text.as_str());
    }

    /// Appends a subsubsection heading.
    pub fn subsubsection<S: StringOrBuilder>(&mut self, title: S)
        ensures
            final(self)@ == old(self)@ + cmd_arg_line("subsubsection"@, title.str_view()),
    {
        let text = title.merge_str();
        self.push_cmd_arg_line("subsubsection", text.as_str());
    }

    /// Appends a paragraph heading.
    pub fn paragraph<S: StringOrBuilder>(&mut self, text: S)
        ensures
            final(self)@ == old(self)@ + cmd_arg_line("paragraph"@, text.str_view()),
    {
        let t = text.merge_str();
        self.push_cmd_arg_line("paragraph", t.as_str());
    }

    /// Appends a subparagraph heading.
    pub fn subparagraph<S: StringOrBuilder>(&mut self, text: S)
        ensures
            final(self)@ == old(self)@ + cmd_arg_line("subparagraph"@, text.str_view()),
    {
        let t = text.merge_str();
        self.push_cmd_arg_line("subparagraph", t.as_str());
    }

    /// Appends a footnote.
    pub fn footnote<S: StringOrBuilder>(&mut self, text: S)
        ensures
            final(self)@ == old(self)@ + cmd_arg("footnote"@, text.str_view()),
    {
        let t = text.merge_str();
        self.push_cmd_arg("footnote", t.as_str());
    }

    /// Appends a reference to a label.
    pub fn ref_label<S: StringOrBuilder>(&mut self, label: S)
        ensures
            final(self)@ == old(self)@ + cmd_arg("ref"@, label.str_view()),
    {
        let text = label.merge_str();
        self.push_cmd_arg("ref", text.as_str());
    }

    /// Appends a horizontal-space command.
    pub fn hspace<S: StringOrBuilder>(&mut self, length: S)
        ensures
            final(self)@ == old(self)@ + cmd_arg("hspace"@, length.str_view()),
    {
        let text = length.merge_str();
        self.push_cmd_arg("hspace", text.as_str());
    }

    /// Appends a vertical-space command.
    pub fn vspace<S: StringOrBuilder>(&mut self, length: S)
        ensures
            final(self)@ == old(self)@ + cmd_arg("vspace"@, length.str_view()),
    {
        let text = length.merge_str();
        self.push_cmd_arg("vspace", text.as_str());
    }

    /// Appends the fixed page-clearing command.
    pub fn clear_page(&mut self)
        ensures
            final(self)@ == old(self)@ + "\\clearpage\n"@,
    {
        self.push_text("\\clearpage\n");
    }

    /// Appends the fixed page-starting command.
    pub fn new_page(&mut self)
        ensures
            final(self)@ == old(self)@ + "\\newpage\n"@,
    {
        self.push_text("\\newpage\n");
    }

    /// Appends the fixed line-break command.
    pub fn line_break(&mut self)
        ensures
            final(self)@ == old(self)@ + "\\linebreak\n"@,
    {
        self.push_text("\\linebreak\n");
    }

    /// Appends the fixed page-break command.
    pub fn page_break(&mut self)
        ensures
            final(self)@ == old(self)@ + "\\pagebreak\n"@,
    {
        self.push_text("\\pagebreak\n");
    }

    /// Appends the fixed indentation-suppressing command.
    pub fn no_indent(&mut self)
        ensures
            final(self)@ == old(self)@ + "\\noindent\n"@,
    {
        self.push_text("\\noindent\n");
    }

    /// Appends the fixed centering command.
    pub fn centering(&mut self)
        ensures
            final(self)@ == old(self)@ + "\\centering\n"@,
    {
        self.push_text("\\centering\n");
    }

    /// Appends a citation, with its optional subcitation in brackets.
    pub fn cite<S: StringOrBuilder, V: StringOrBuilder>(&mut self, citation: S, subcitation: Option<
        V,
    >)
        ensures
            final(self)@ == old(self)@ + "\\cite"@ + fragments::opt_bracket(
                opt_arg_view(subcitation),
            ) + fragments::brace_group(citation.str_view()),
    {
        self.push_text("\\cite");
        match subcitation {
            Some(sub) => {
                let text = sub.merge_str();
                self.push_bracketed(text.as_str());
            },
            None => {},
        }
        let key = citation.merge_str();
        self.push_braced(key.as_str());
        proof {
            assert(self@ =~= old(self)@ + "\\cite"@ + fragments::opt_bracket(
                opt_arg_view(subcitation),
            ) + fragments::brace_group(citation.str_view()));
        }
    }

    /// Appends colored text, with its optional color model in brackets.
    pub fn text_color<S: StringOrBuilder, V: StringOrBuilder>(
        &mut self,
        text: S,
        color: V,
        color_model: Option<ColorModel>,
    )
        ensures
            final(self)@ == old(self)@ + "\\textcolor"@ + fragments::opt_bracket(
                models::opt_model_keyword(color_model),
            ) + fragments::brace_group(color.str_view()) + fragments::brace_group(text.str_view()),
    {
        self.push_text("\\textcolor");
        match &color_model {
            Some(model) => {
                let keyword = model.to_string();
                self.push_bracketed(keyword.as_str());
            },
            None => {},
        }
        let color_text = color.merge_str();
        self.push_braced(color_text.as_str());
        let body = text.merge_str();
        self.push_braced(body.as_str());
        proof {
            assert(self@ =~= old(self)@ + "\\textcolor"@ + fragments::opt_bracket(
                models::opt_model_keyword(color_model),
            ) + fragments::brace_group(color.str_view()) + fragments::brace_group(
                text.str_view(),
            ));
        }
    }

    /// Appends a file-inclusion command that starts a fresh page.
    pub fn include_file<S: StringOrBuilder>(&mut self, filename: S)
        ensures
            final(self)@ == old(self)@ + cmd_arg_line("include"@, filename.str_view()),
    {
        let text = filename.merge_str();
        self.push_cmd_arg_line("include", text.as_str());
    }

    /// Appends a file-input command that reads in place.
    pub fn input<S: StringOrBuilder>(&mut self, filename: S)
        ensures
            final(self)@ == old(self)@ + cmd_arg_line("input"@, filename.str_view()),
    {
        let text = filename.merge_str();
        self.push_cmd_arg_line("input", text.as_str());
    }

    /// Appends one item of an itemized list.
    pub fn itemize<S: StringOrBuilder>(&mut self, content: S)
        ensures
            final(self)@ == old(self)@ + "\\item "@ + fragments::brace_group(content.str_view())
                + "\n"@,
    {
        let text = content.merge_str();
        self.push_text("\\item ");
        self.push_braced(text.as_str());
        self.push_text("\n");
        proof {
            assert(self@ =~= old(self)@ + "\\item "@ + fragments::brace_group(content.str_view())
                + "\n"@);
        }
    }

    /// Appends the parameter segment of an environment's opening marker.
    #[verifier::rlimit(50)]
    fn push_env_params(&mut self, env: &Environment<'_>)
        ensures
            final(self)@ == old(self)@ + env.param_text(),
    {
        match env {
            Environment::Array(p) => {
                match &p.pos {
                    Some(pos) => self.push_bracketed(pos.as_str()),
                    None => {},
                }
                self.push_braced(p.cols.as_str());
                proof {
                    assert(self@ =~= old(self)@ + env.param_text());
                }
            },
            Environment::Figure(p) => {
                self.push_text(p.placement.as_str());
            },
            Environment::FileContents(p) => {
                match &p.option {
                    Some(option) => {
                        let keyword = option.to_string();
                        self.push_bracketed(keyword.as_str());
                    },
                    None => {},
                }
                self.push_braced(p.filename.as_str());
                proof {
                    assert(self@ =~= old(self)@ + env.param_text());
                }
            },
            Environment::List(p) => {
                self.push_text(p.labeling.as_str());
                self.push_text(p.spacing.as_str());
                proof {
                    assert(self@ =~= old(self)@ + env.param_text());
                }
            },
            Environment::Minipage(p) => {
                match &p.position {
                    Some(position) => self.push_bracketed(position.as_str()),
                    None => {
                        self.push_text("[");
                        self.push_text("]");
                    },
                }
                match &p.height {
                    Some(height) => self.push_bracketed(height.as_str()),
                    None => {
                        self.push_text("[");
                        self.push_text("]");
                    },
                }
                match &p.inner_pos {
                    Some(inner_pos) => self.push_bracketed(inner_pos.as_str()),
                    None => {
                        self.push_text("[");
                        self.push_text("]");
                    },
                }
                self.push_braced(p.width.as_str());
                proof {
                    assert(self@ =~= old(self)@ + env.param_text());
                }
            },
            Environment::Picture(p) => {
                self.push_text("(");
                self.push_text(p.size.0.as_str());
                self.push_text(",");
                self.push_text(p.size.1.as_str());
                self.push_text(")");
                match &p.offset {
                    Some(offset) => {
                        self.push_text("(");
                        self.push_text(offset.0.as_str());
                        self.push_text(",");
                        self.push_text(offset.1.as_str());
                        self.push_text(")");
                    },
                    None => {},
                }
                proof {
                    assert(self@ =~= old(self)@ + env.param_text());
                }
            },
            Environment::Table(p) => {
                match &p.placement {
                    Some(placement) => self.push_bracketed(placement.as_str()),
                    None => {},
                }
                proof {
                    assert(self@ =~= old(self)@ + env.param_text());
                }
            },
            Environment::Tabular(p) => {
                match &p.pos {
                    Some(pos) => self.push_bracketed(pos.as_str()),
                    None => {},
                }
                self.push_braced(p.cols.as_str());
                proof {
                    assert(self@ =~= old(self)@ + env.param_text());
                }
            },
            Environment::TheBibliography(p) => {
                self.push_braced(p.widest_label.as_str());
                proof {
                    assert(self@ =~= old(self)@ + env.param_text());
                }
            },
            _ => {
                proof {
                    assert(self@ =~= old(self)@ + env.param_text());
                }
            },
        }
    }

    /// Appends a whole environment block: the opening marker with the
    /// environment's parameter segment, the content on its own line, and
    /// the closing marker, with the same keyword inside both markers.
    pub fn env<S: StringOrBuilder>(&mut self, env: Environment<'_>, content: S)
        ensures
            final(self)@ == old(self)@ + fragments::env_block(
                env.spec_keyword(),
                env.param_text(),
                content.str_view(),
            ),
    {
        let name = env.to_string();
        self.push_text("\\begin");
        self.push_braced(name.as_str());
        self.push_env_params(&env);
        self.push_text("\n");
        let text = content.merge_str();
        self.push_text(text.as_str());
        self.push_text("\n");
        self.push_text("\\end");
        self.push_braced(name.as_str());
        self.push_text("\n");
        proof {
            assert(self@ =~= old(self)@ + fragments::env_block(
                env.spec_keyword(),
                env.param_text(),
                content.str_view(),
            ));
        }
    }
}

} // verus!
