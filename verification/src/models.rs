//! The typed configuration values the builder consumes: document classes,
//! class options, color models, environments, and the per-environment
//! parameter bags.
//!
//! Each enumerated variant maps one-to-one to a markup keyword; a custom
//! variant carries an arbitrary caller-supplied keyword. Each parameter
//! bag has a spec function giving the exact parameter segment it renders
//! to inside the opening marker of its environment.

use vstd::prelude::*;

use crate::StringOrBuilder;
use crate::fragments::{brace_group, bracket_group, opt_bracket, paren_pair};
use crate::opt_arg_view;

verus! {

/// The text of an optional argument that is already plain text.
pub open spec fn opt_text(o: Option<String>) -> Option<Seq<char>> {
    match o {
        Some(s) => Some(s@),
        None => None,
    }
}

/// The characters of an optional argument, empty when absent.
pub open spec fn opt_chars(o: Option<String>) -> Seq<char> {
    match o {
        Some(s) => s@,
        None => Seq::empty(),
    }
}

/// The document class of a document.
pub enum DocumentClass {
    /// The `article` document class.
    Article,
    /// The `book` document class.
    Book,
    /// The `letter` document class.
    Letter,
    /// The `report` document class.
    Report,
    /// The `slides` document class.
    Slides,
    /// A document class under a caller-supplied keyword.
    Custom(String),
}

impl DocumentClass {
    /// The keyword this class renders to.
    pub open spec fn spec_keyword(self) -> Seq<char> {
        match self {
            DocumentClass::Article => "article"@,
            DocumentClass::Book => "book"@,
            DocumentClass::Letter => "letter"@,
            DocumentClass::Report => "report"@,
            DocumentClass::Slides => "slides"@,
            DocumentClass::Custom(custom) => custom@,
        }
    }

    /// Returns the keyword this class renders to.
    pub fn to_string(&self) -> (r: String)
        ensures
            r@ == self.spec_keyword(),
    {
        match self {
            DocumentClass::Article => "article".to_owned(),
            DocumentClass::Book => "book".to_owned(),
            DocumentClass::Letter => "letter".to_owned(),
            DocumentClass::Report => "report".to_owned(),
            DocumentClass::Slides => "slides".to_owned(),
            DocumentClass::Custom(custom) => custom.clone(),
        }
    }
}

/// Options for document classes.
pub enum DocumentClassOptions {
    /// The `a4paper` option.
    A4Paper,
    /// The `a5paper` option.
    A5Paper,
    /// The `b5paper` option.
    B5Paper,
    /// The `executivepaper` option.
    ExecutivePaper,
    /// The `legalpaper` option.
    LegalPaper,
    /// The `letterpaper` option.
    LetterPaper,
    /// The `draft` option.
    Draft,
    /// The `final` option.
    Final,
    /// The `fleqn` option.
    Fleqn,
    /// The `landscape` option.
    Landscape,
    /// The `leqno` option.
    Leqno,
    /// The `openbib` option.
    OpenBib,
    /// The `titlepage` option.
    TitlePage,
    /// The `notitlepage` option.
    NotTitlePage,
    /// The `onecolumn` option.
    OneColumn,
    /// The `twocolumn` option.
    TwoColumn,
    /// The `oneside` option.
    OneSide,
    /// The `twoside` option.
    TwoSide,
    /// The `openright` option.
    OpenRight,
    /// The `openany` option.
    OpenAny,
    /// An option under a caller-supplied keyword.
    Custom(String),
}

impl DocumentClassOptions {
    /// The keyword this option renders to.
    pub open spec fn spec_keyword(self) -> Seq<char> {
        match self {
            DocumentClassOptions::A4Paper => "a4paper"@,
            DocumentClassOptions::A5Paper => "a5paper"@,
            DocumentClassOptions::B5Paper => "b5paper"@,
            DocumentClassOptions::ExecutivePaper => "executivepaper"@,
            DocumentClassOptions::LegalPaper => "legalpaper"@,
            DocumentClassOptions::LetterPaper => "letterpaper"@,
            DocumentClassOptions::Draft => "draft"@,
            DocumentClassOptions::Final => "final"@,
            DocumentClassOptions::Fleqn => "fleqn"@,
            DocumentClassOptions::Landscape => "landscape"@,
            DocumentClassOptions::Leqno => "leqno"@,
            DocumentClassOptions::OpenBib => "openbib"@,
            DocumentClassOptions::TitlePage => "titlepage"@,
            DocumentClassOptions::NotTitlePage => "notitlepage"@,
            DocumentClassOptions::OneColumn => "onecolumn"@,
            DocumentClassOptions::TwoColumn => "twocolumn"@,
            DocumentClassOptions::OneSide => "oneside"@,
            DocumentClassOptions::TwoSide => "twoside"@,
            DocumentClassOptions::OpenRight => "openright"@,
            DocumentClassOptions::OpenAny => "openany"@,
            DocumentClassOptions::Custom(custom) => custom@,
        }
    }

    /// Returns the keyword this option renders to.
    pub fn to_string(&self) -> (r: String)
        ensures
            r@ == self.spec_keyword(),
    {
        match self {
            DocumentClassOptions::A4Paper => "a4paper".to_owned(),
            DocumentClassOptions::A5Paper => "a5paper".to_owned(),
            DocumentClassOptions::B5Paper => "b5paper".to_owned(),
            DocumentClassOptions::ExecutivePaper => "executivepaper".to_owned(),
            DocumentClassOptions::LegalPaper => "legalpaper".to_owned(),
            DocumentClassOptions::LetterPaper => "letterpaper".to_owned(),
            DocumentClassOptions::Draft => "draft".to_owned(),
            DocumentClassOptions::Final => "final".to_owned(),
            DocumentClassOptions::Fleqn => "fleqn".to_owned(),
            DocumentClassOptions::Landscape => "landscape".to_owned(),
            DocumentClassOptions::Leqno => "leqno".to_owned(),
            DocumentClassOptions::OpenBib => "openbib".to_owned(),
            DocumentClassOptions::TitlePage => "titlepage".to_owned(),
            DocumentClassOptions::NotTitlePage => "notitlepage".to_owned(),
            DocumentClassOptions::OneColumn => "onecolumn".to_owned(),
            DocumentClassOptions::TwoColumn => "twocolumn".to_owned(),
            DocumentClassOptions::OneSide => "oneside".to_owned(),
            DocumentClassOptions::TwoSide => "twoside".to_owned(),
            DocumentClassOptions::OpenRight => "openright".to_owned(),
            DocumentClassOptions::OpenAny => "openany".to_owned(),
            DocumentClassOptions::Custom(custom) => custom.clone(),
        }
    }
}

/// Color models for colored text.
pub enum ColorModel {
    /// The `cmyk` color model.
    CMYK,
    /// The `gray` color model.
    Gray,
    /// The `rgb` color model.
    RGB,
    /// The `RGB` color model.
    RGBFull,
    /// The `named` color model.
    Named,
}

impl ColorModel {
    /// The keyword this color model renders to.
    pub open spec fn spec_keyword(self) -> Seq<char> {
        match self {
            ColorModel::CMYK => "cmyk"@,
            ColorModel::Gray => "gray"@,
            ColorModel::RGB => "rgb"@,
            ColorModel::RGBFull => "RGB"@,
            ColorModel::Named => "named"@,
        }
    }

    /// Returns the keyword this color model renders to.
    pub fn to_string(&self) -> (r: String)
        ensures
            r@ == self.spec_keyword(),
    {
        match self {
            ColorModel::CMYK => "cmyk".to_owned(),
            ColorModel::Gray => "gray".to_owned(),
            ColorModel::RGB => "rgb".to_owned(),
            ColorModel::RGBFull => "RGB".to_owned(),
            ColorModel::Named => "named".to_owned(),
        }
    }
}

/// The keyword of an optional color model.
pub open spec fn opt_model_keyword(o: Option<ColorModel>) -> Option<Seq<char>> {
    match o {
        Some(m) => Some(m.spec_keyword()),
        None => None,
    }
}

/// Parameters for the `array` environment.
pub struct ArrayParams {
    /// The column specification: number of columns, their alignment, and
    /// the intercolumn formatting.
    pub cols: String,
    /// The optional vertical position.
    pub pos: Option<String>,
}

impl ArrayParams {
    /// The parameter segment this bag renders to: the position in
    /// brackets when present, then the column specification in braces.
    pub open spec fn param_text(self) -> Seq<char> {
        opt_bracket(opt_text(self.pos)) + brace_group(self.cols@)
    }

    /// Creates a parameter bag from the column specification and the
    /// optional position.
    pub fn new<S: StringOrBuilder, V: StringOrBuilder>(cols: S, pos: Option<V>) -> (r: ArrayParams)
        ensures
            r.cols@ == cols.str_view(),
            opt_text(r.pos) == opt_arg_view(pos),
    {
        ArrayParams {
            pos: match pos {
                Some(p) => Some(p.merge_str()),
                None => None,
            },
            cols: cols.merge_str(),
        }
    }
}

/// Parameters for the `figure` environment.
pub struct FigureParams {
    /// The placement specifier.
    pub placement: String,
}

impl FigureParams {
    /// The parameter segment this bag renders to: the placement text,
    /// unwrapped.
    pub open spec fn param_text(self) -> Seq<char> {
        self.placement@
    }

    /// Creates a parameter bag from the placement specifier.
    pub fn new<S: StringOrBuilder>(placement: S) -> (r: FigureParams)
        ensures
            r.placement@ == placement.str_view(),
    {
        FigureParams { placement: placement.merge_str() }
    }
}

/// Options for the `filecontents` environment.
pub enum FileContentsOption {
    /// The `force` option.
    Force,
    /// The `overwrite` option.
    Overwrite,
    /// The `noheader` option.
    NoHeader,
    /// The `nosearch` option.
    NoSearch,
    /// An option under a caller-supplied keyword.
    Custom(String),
}

impl FileContentsOption {
    /// The keyword this option renders to.
    pub open spec fn spec_keyword(self) -> Seq<char> {
        match self {
            FileContentsOption::Force => "force"@,
            FileContentsOption::Overwrite => "overwrite"@,
            FileContentsOption::NoHeader => "noheader"@,
            FileContentsOption::NoSearch => "nosearch"@,
            FileContentsOption::Custom(custom) => custom@,
        }
    }

    /// Returns the keyword this option renders to.
    pub fn to_string(&self) -> (r: String)
        ensures
            r@ == self.spec_keyword(),
    {
        match self {
            FileContentsOption::Force => "force".to_owned(),
            FileContentsOption::Overwrite => "overwrite".to_owned(),
            FileContentsOption::NoHeader => "noheader".to_owned(),
            FileContentsOption::NoSearch => "nosearch".to_owned(),
            FileContentsOption::Custom(custom) => custom.clone(),
        }
    }
}

/// The keyword of an optional `filecontents` option.
pub open spec fn opt_fc_keyword(o: Option<FileContentsOption>) -> Option<Seq<char>> {
    match o {
        Some(fco) => Some(fco.spec_keyword()),
        None => None,
    }
}

/// Parameters for the `filecontents` environment.
pub struct FileContentsParams {
    /// The name of the file to be created or written to.
    pub filename: String,
    /// The optional `filecontents` option.
    pub option: Option<FileContentsOption>,
}

impl FileContentsParams {
    /// The parameter segment this bag renders to: the option keyword in
    /// brackets when present, then the filename in braces.
    pub open spec fn param_text(self) -> Seq<char> {
        opt_bracket(opt_fc_keyword(self.option)) + brace_group(self.filename@)
    }

    /// Creates a parameter bag from the filename and the optional option.
    pub fn new<S: StringOrBuilder>(filename: S, option: Option<FileContentsOption>) -> (r:
        FileContentsParams)
        ensures
            r.filename@ == filename.str_view(),
            r.option == option,
    {
        FileContentsParams { filename: filename.merge_str(), option }
    }
}

/// Parameters for the `list` environment.
pub struct ListParams {
    /// The default labeling of list items.
    pub labeling: String,
    /// The list of spacing commands.
    pub spacing: String,
}

impl ListParams {
    /// The parameter segment this bag renders to: the labeling text then
    /// the spacing text, both unwrapped.
    pub open spec fn param_text(self) -> Seq<char> {
        self.labeling@ + self.spacing@
    }

    /// Creates a parameter bag from the labeling and the spacing.
    pub fn new<S: StringOrBuilder, V: StringOrBuilder>(labeling: S, spacing: V) -> (r: ListParams)
        ensures
            r.labeling@ == labeling.str_view(),
            r.spacing@ == spacing.str_view(),
    {
        ListParams { labeling: labeling.merge_str(), spacing: spacing.merge_str() }
    }
}

/// Parameters for the `minipage` environment.
pub struct MinipageParams {
    /// How the minipage vertically aligns with the surrounding material.
    pub position: Option<String>,
    /// The height of the minipage.
    pub height: Option<String>,
    /// The inner position of the minipage.
    pub inner_pos: Option<String>,
    /// The width of the box into which the contents are typeset.
    pub width: String,
}

impl MinipageParams {
    /// The parameter segment this bag renders to: three bracket pairs,
    /// each empty when its argument is absent, then the width in braces.
    pub open spec fn param_text(self) -> Seq<char> {
        bracket_group(opt_chars(self.position)) + bracket_group(opt_chars(self.height))
            + bracket_group(opt_chars(self.inner_pos)) + brace_group(self.width@)
    }

    /// Creates a parameter bag from the three optional arguments and the
    /// width.
    pub fn new<S: StringOrBuilder, V: StringOrBuilder, T: StringOrBuilder, U: StringOrBuilder>(
        position: Option<S>,
        height: Option<V>,
        inner_pos: Option<T>,
        width: U,
    ) -> (r: MinipageParams)
        ensures
            opt_text(r.position) == opt_arg_view(position),
            opt_text(r.height) == opt_arg_view(height),
            opt_text(r.inner_pos) == opt_arg_view(inner_pos),
            r.width@ == width.str_view(),
    {
        MinipageParams {
            position: match position {
                Some(p) => Some(p.merge_str()),
                None => None,
            },
            height: match height {
                Some(h) => Some(h.merge_str()),
                None => None,
            },
            inner_pos: match inner_pos {
                Some(i) => Some(i.merge_str()),
                None => None,
            },
            width: width.merge_str(),
        }
    }
}

/// Parameters for the `picture` environment.
pub struct PictureParams {
    /// The size of the picture.
    pub size: (String, String),
    /// The optional offset of the picture.
    pub offset: Option<(String, String)>,
}

impl PictureParams {
    /// The parameter segment this bag renders to: the size pair in
    /// parentheses, then the offset pair in parentheses when present.
    pub open spec fn param_text(self) -> Seq<char> {
        paren_pair(self.size.0@, self.size.1@) + match self.offset {
            Some(o) => paren_pair(o.0@, o.1@),
            None => Seq::empty(),
        }
    }

    /// Creates a parameter bag from the size pair and the optional offset
    /// pair.
    pub fn new<S: StringOrBuilder, V: StringOrBuilder>(size: (S, S), offset: Option<(V, V)>) -> (r:
        PictureParams)
        ensures
            r.size.0@ == size.0.str_view(),
            r.size.1@ == size.1.str_view(),
            match (r.offset, offset) {
                (Some(ro), Some(o)) => ro.0@ == o.0.str_view() && ro.1@ == o.1.str_view(),
                (None, None) => true,
                _ => false,
            },
    {
        PictureParams {
            size: (size.0.merge_str(), size.1.merge_str()),
            offset: match offset {
                Some(o) => Some((o.0.merge_str(), o.1.merge_str())),
                None => None,
            },
        }
    }
}

/// Parameters for the `table` environment.
pub struct TableParams {
    /// The optional placement of the table.
    pub placement: Option<String>,
}

impl TableParams {
    /// The parameter segment this bag renders to: the placement in
    /// brackets when present, nothing otherwise.
    pub open spec fn param_text(self) -> Seq<char> {
        opt_bracket(opt_text(self.placement))
    }

    /// Creates a parameter bag from the optional placement specifier.
    pub fn new<S: StringOrBuilder>(placement: Option<S>) -> (r: TableParams)
        ensures
            opt_text(r.placement) == opt_arg_view(placement),
    {
        TableParams {
            placement: match placement {
                Some(p) => Some(p.merge_str()),
                None => None,
            },
        }
    }
}

/// Parameters for the `tabular` environment.
pub struct TabularParams {
    /// The column specification: number of columns, their alignment, and
    /// the intercolumn formatting.
    pub cols: String,
    /// The optional vertical position.
    pub pos: Option<String>,
}

impl TabularParams {
    /// The parameter segment this bag renders to: the position in
    /// brackets when present, then the column specification in braces.
    pub open spec fn param_text(self) -> Seq<char> {
        opt_bracket(opt_text(self.pos)) + brace_group(self.cols@)
    }

    /// Creates a parameter bag from the column specification and the
    /// optional position.
    pub fn new<S: StringOrBuilder, V: StringOrBuilder>(cols: S, pos: Option<V>) -> (r:
        TabularParams)
        ensures
            r.cols@ == cols.str_view(),
            opt_text(r.pos) == opt_arg_view(pos),
    {
        TabularParams {
            pos: match pos {
                Some(p) => Some(p.merge_str()),
                None => None,
            },
            cols: cols.merge_str(),
        }
    }
}

/// Parameters for the `thebibliography` environment.
pub struct TheBubliographyParams {
    /// The widest label in the bibliography.
    pub widest_label: String,
}

impl TheBubliographyParams {
    /// The parameter segment this bag renders to: the widest label in
    /// braces.
    pub open spec fn param_text(self) -> Seq<char> {
        brace_group(self.widest_label@)
    }

    /// Creates a parameter bag from the widest label.
    pub fn new<S: StringOrBuilder>(widest_label: S) -> (r: TheBubliographyParams)
        ensures
            r.widest_label@ == widest_label.str_view(),
    {
        TheBubliographyParams { widest_label: widest_label.merge_str() }
    }
}

/// The environments a document can hold, each with the parameter bag its
/// opening marker takes.
pub enum Environment<'a> {
    /// The `abstract` environment.
    Abstract,
    /// The `array` environment.
    Array(&'a ArrayParams),
    /// The `center` environment.
    Center,
    /// The `description` environment.
    Description,
    /// The `displaymath` environment.
    DisplayMath,
    /// The `document` environment.
    Document,
    /// The `enumerate` environment.
    Enumerate,
    /// The `eqnarray` environment.
    EqnArray,
    /// The `equation` environment.
    Equation,
    /// The `figure` environment.
    Figure(&'a FigureParams),
    /// The `filecontents` environment.
    FileContents(&'a FileContentsParams),
    /// The `flushleft` environment.
    FlushLeft,
    /// The `flushright` environment.
    FlushRight,
    /// The `itemize` environment.
    Itemize,
    /// The `list` environment.
    List(&'a ListParams),
    /// The `math` environment.
    Math,
    /// The `minipage` environment.
    Minipage(&'a MinipageParams),
    /// The `picture` environment.
    Picture(&'a PictureParams),
    /// The `quotation` environment.
    Quotation,
    /// The `quote` environment.
    Quote,
    /// The `tabbing` environment.
    Tabbing,
    /// The `table` environment.
    Table(&'a TableParams),
    /// The `tabular` environment.
    Tabular(&'a TabularParams),
    /// The `thebibliography` environment.
    TheBibliography(&'a TheBubliographyParams),
    /// The `theorem` environment.
    Theorem,
    /// The `titlepage` environment.
    TitlePage,
    /// The `trivlist` environment.
    TrivList,
    /// The `verbatim` environment.
    Verbatim,
    /// The `verse` environment.
    Verse,
}

impl<'a> Environment<'a> {
    /// The keyword this environment renders to, the same inside the
    /// opening and the closing marker.
    pub open spec fn spec_keyword(self) -> Seq<char> {
        match self {
            Environment::Abstract => "abstract"@,
            Environment::Array(_) => "array"@,
            Environment::Center => "center"@,
            Environment::Description => "description"@,
            Environment::DisplayMath => "displaymath"@,
            Environment::Document => "document"@,
            Environment::Enumerate => "enumerate"@,
            Environment::EqnArray => "eqnarray"@,
            Environment::Equation => "equation"@,
            Environment::Figure(_) => "figure"@,
            Environment::FileContents(_) => "filecontents"@,
            Environment::FlushLeft => "flushleft"@,
            Environment::FlushRight => "flushright"@,
            Environment::Itemize => "itemize"@,
            Environment::List(_) => "list"@,
            Environment::Math => "math"@,
            Environment::Minipage(_) => "minipage"@,
            Environment::Picture(_) => "picture"@,
            Environment::Quotation => "quotation"@,
            Environment::Quote => "quote"@,
            Environment::Tabbing => "tabbing"@,
            Environment::Table(_) => "table"@,
            Environment::Tabular(_) => "tabular"@,
            Environment::TheBibliography(_) => "thebibliography"@,
            Environment::Theorem => "theorem"@,
            Environment::TitlePage => "titlepage"@,
            Environment::TrivList => "trivlist"@,
            Environment::Verbatim => "verbatim"@,
            Environment::Verse => "verse"@,
        }
    }

    /// The parameter segment this environment's opening marker carries
    /// after the keyword.
    pub open spec fn param_text(self) -> Seq<char> {
        match self {
            Environment::Array(p) => p.param_text(),
            Environment::Figure(p) => p.param_text(),
            Environment::FileContents(p) => p.param_text(),
            Environment::List(p) => p.param_text(),
            Environment::Minipage(p) => p.param_text(),
            Environment::Picture(p) => p.param_text(),
            Environment::Table(p) => p.param_text(),
            Environment::Tabular(p) => p.param_text(),
            Environment::TheBibliography(p) => p.param_text(),
            _ => Seq::empty(),
        }
    }

    /// Returns the keyword this environment renders to.
    pub fn to_string(&self) -> (r: String)
        ensures
            r@ == self.spec_keyword(),
    {
        match self {
            Environment::Abstract => "abstract".to_owned(),
            Environment::Array(_) => "array".to_owned(),
            Environment::Center => "center".to_owned(),
            Environment::Description => "description".to_owned(),
            Environment::DisplayMath => "displaymath".to_owned(),
            Environment::Document => "document".to_owned(),
            Environment::Enumerate => "enumerate".to_owned(),
            Environment::EqnArray => "eqnarray".to_owned(),
            Environment::Equation => "equation".to_owned(),
            Environment::Figure(_) => "figure".to_owned(),
            Environment::FileContents(_) => "filecontents".to_owned(),
            Environment::FlushLeft => "flushleft".to_owned(),
            Environment::FlushRight => "flushright".to_owned(),
            Environment::Itemize => "itemize".to_owned(),
            Environment::List(_) => "list".to_owned(),
            Environment::Math => "math".to_owned(),
            Environment::Minipage(_) => "minipage".to_owned(),
            Environment::Picture(_) => "picture".to_owned(),
            Environment::Quotation => "quotation".to_owned(),
            Environment::Quote => "quote".to_owned(),
            Environment::Tabbing => "tabbing".to_owned(),
            Environment::Table(_) => "table".to_owned(),
            Environment::Tabular(_) => "tabular".to_owned(),
            Environment::TheBibliography(_) => "thebibliography".to_owned(),
            Environment::Theorem => "theorem".to_owned(),
            Environment::TitlePage => "titlepage".to_owned(),
            Environment::TrivList => "trivlist".to_owned(),
            Environment::Verbatim => "verbatim".to_owned(),
            Environment::Verse => "verse".to_owned(),
        }
    }
}

} // verus!
