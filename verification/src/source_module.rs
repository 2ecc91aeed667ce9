//! A parsed module: its text, and what the module graph knows of its dependencies.

use vstd::prelude::*;
use vstd::string::*;
use vstd::utf8::*;

use deno_graph::analysis;

use crate::text::{chars_of, string_of};

verus! {

/// A place in a text: a line, and a number of characters from the line's start.
#[derive(Debug, Clone, Copy, PartialEq, Eq, Structural)]
pub struct Position {
    pub line: usize,
    pub character: usize,
}

#[derive(Debug, Clone, Copy, PartialEq, Eq, Structural)]
pub struct PositionRange {
    pub start: Position,
    pub end: Position,
}

impl PositionRange {
    pub fn new(
        start_line: usize,
        start_character: usize,
        end_line: usize,
        end_character: usize,
    ) -> (r: PositionRange)
        ensures
            r.start == (Position { line: start_line, character: start_character }),
            r.end == (Position { line: end_line, character: end_character }),
    {
        PositionRange {
            start: Position { line: start_line, character: start_character },
            end: Position { line: end_line, character: end_character },
        }
    }
}

/// A specifier in a comment, and where it stands.
#[derive(Debug, Clone, PartialEq, Eq)]
pub struct SpecifierWithRange {
    pub text: String,
    pub range: PositionRange,
}

/// What a module imports.
#[derive(Debug, Clone, PartialEq, Eq)]
pub enum DependencySpecifier {
    /// The specifier of a static import or export.
    Static(String),
    /// The text that a dynamic import has as its argument.
    DynamicString(String),
    /// The parts of the template that a dynamic import has as its argument: a text, or `None` for
    /// an expression.
    DynamicTemplate(Vec<Option<String>>),
    /// A dynamic import has another expression as its argument.
    DynamicExpr,
}

/// An import, and where its specifier or its argument stands.
#[derive(Debug, Clone, PartialEq, Eq)]
pub struct DependencyDescriptor {
    pub specifier: DependencySpecifier,
    pub range: PositionRange,
}

/// The dependencies of a module.
#[derive(Debug, Clone, PartialEq, Eq)]
pub struct ModuleInfo {
    pub dependencies: Vec<DependencyDescriptor>,
    /// Triple slash references.
    pub ts_references: Vec<SpecifierWithRange>,
    pub jsdoc_imports: Vec<SpecifierWithRange>,
    pub jsx_import_source: Option<SpecifierWithRange>,
}

/// A module's text and its dependencies.
#[derive(Debug, Clone, PartialEq, Eq)]
pub struct SourceModule {
    pub text: String,
    pub module_info: ModuleInfo,
}

/// What a [`SpecifierWithRange`] holds.
#[verifier::ext_equal]
pub struct SpecifierView {
    pub text: Seq<char>,
    pub range: PositionRange,
}

/// What a [`DependencySpecifier`] holds.
#[verifier::ext_equal]
pub enum DependencySpecifierView {
    Static(Seq<char>),
    DynamicString(Seq<char>),
    DynamicTemplate(Seq<Option<Seq<char>>>),
    DynamicExpr,
}

/// What a [`DependencyDescriptor`] holds.
#[verifier::ext_equal]
pub struct DependencyView {
    pub specifier: DependencySpecifierView,
    pub range: PositionRange,
}

/// What a [`ModuleInfo`] holds.
#[verifier::ext_equal]
pub struct ModuleInfoView {
    pub dependencies: Seq<DependencyView>,
    pub ts_references: Seq<SpecifierView>,
    pub jsdoc_imports: Seq<SpecifierView>,
    pub jsx_import_source: Option<SpecifierView>,
}

impl View for SpecifierWithRange {
    type V = SpecifierView;

    open spec fn view(&self) -> SpecifierView {
        SpecifierView { text: self.text@, range: self.range }
    }
}

impl View for DependencySpecifier {
    type V = DependencySpecifierView;

    open spec fn view(&self) -> DependencySpecifierView {
        match self {
            DependencySpecifier::Static(text) => DependencySpecifierView::Static(text@),
            DependencySpecifier::DynamicString(text) => DependencySpecifierView::DynamicString(
                text@,
            ),
            DependencySpecifier::DynamicTemplate(parts) => DependencySpecifierView::DynamicTemplate(
                part_views(parts@),
            ),
            DependencySpecifier::DynamicExpr => DependencySpecifierView::DynamicExpr,
        }
    }
}

impl View for DependencyDescriptor {
    type V = DependencyView;

    open spec fn view(&self) -> DependencyView {
        DependencyView { specifier: self.specifier@, range: self.range }
    }
}

impl View for ModuleInfo {
    type V = ModuleInfoView;

    open spec fn view(&self) -> ModuleInfoView {
        ModuleInfoView {
            dependencies: dependency_views(self.dependencies@),
            ts_references: specifier_views(self.ts_references@),
            jsdoc_imports: specifier_views(self.jsdoc_imports@),
            jsx_import_source: opt_specifier(self.jsx_import_source),
        }
    }
}

pub open spec fn part_views(parts: Seq<Option<String>>) -> Seq<Option<Seq<char>>> {
    parts.map_values(|part: Option<String>| crate::text::opt_text(part))
}

pub open spec fn dependency_views(dependencies: Seq<DependencyDescriptor>) -> Seq<DependencyView> {
    dependencies.map_values(|d: DependencyDescriptor| d@)
}

pub open spec fn specifier_views(specifiers: Seq<SpecifierWithRange>) -> Seq<SpecifierView> {
    specifiers.map_values(|s: SpecifierWithRange| s@)
}

pub open spec fn opt_specifier(specifier: Option<SpecifierWithRange>) -> Option<SpecifierView> {
    match specifier {
        Some(s) => Some(s@),
        None => None,
    }
}

/// A module as the parser leaves it.
#[verifier::external_type_specification]
#[verifier::external_body]
pub struct ExDenoAstSource(deno_ast::ParsedSource);

/// The dependencies that `deno_graph::ast::ParserModuleAnalyzer::module_info` finds in a parsed
/// module, in order, with the specifiers in its comments.
pub uninterp spec fn source_module(source: deno_ast::ParsedSource) -> ModuleInfoView;

/// The dependencies of the module with the given specifier and text, or `None` where the
/// specifier is no URL or the text does not parse: what `deno_ast::parse_module` and the module
/// analyzer make of them.
pub uninterp spec fn analyzed_module(
    specifier: Seq<char>,
    text: Seq<char>,
) -> Option<ModuleInfoView>;

/// Text that begins with a byte order mark.
pub open spec fn has_bom(text: Seq<char>) -> bool {
    text.len() > 0 && text[0] == '\u{FEFF}'
}

/// The text without the byte order mark that it begins with.
pub open spec fn without_bom(text: Seq<char>) -> Seq<char> {
    if has_bom(text) {
        text.skip(1)
    } else {
        text
    }
}

/// A text that the parser takes: it has no byte order mark, and its bytes can be counted in 31
/// bits.
pub open spec fn is_source_text(text: Seq<char>) -> bool {
    !has_bom(text) && encode_utf8(text).len() <= 0x7FFF_FFFF
}

/// Calls `deno_ast::parse_module`, with the media type of the specifier. What the parser finds is
/// a function of the specifier and the text. A debug build of the parser panics on a byte order
/// mark, and positions are numbers of 32 bits. Every range that the module analyzer finds in what was
/// parsed is that of a part of the text.
#[verifier::external_body]
fn parse_with_deno_ast(specifier: &str, text: &str) -> (r: Option<deno_ast::ParsedSource>)
    requires
        is_source_text(text@),
    ensures
        match r {
            Some(source) => {
                &&& analyzed_module(specifier@, text@) == Some(source_module(source))
                &&& ranges_lie_in(source_module(source), text@)
            },
            None => analyzed_module(specifier@, text@) is None,
        },
{
    let specifier = url::Url::parse(specifier).ok()?;
    deno_ast::parse_module(deno_ast::ParseParams {
        media_type: deno_ast::MediaType::from_specifier(&specifier),
        specifier,
        text: text.into(),
        capture_tokens: false,
        maybe_syntax: None,
        scope_analysis: false,
    }).ok()
}

/// Calls `deno_graph::ast::ParserModuleAnalyzer::module_info` for what a module imports, in the
/// order in which the analyzer gives it.
#[verifier::external_body]
fn dependency_specifiers_of(source: &deno_ast::ParsedSource) -> (r: Vec<DependencySpecifier>)
    ensures
        r@.map_values(|s: DependencySpecifier| s@) == source_module(
            *source,
        ).dependencies.map_values(|d: DependencyView| d.specifier),
{
    let info = deno_graph::ast::ParserModuleAnalyzer::module_info(source);
    info.dependencies.into_iter().map(|d| match d {
        analysis::DependencyDescriptor::Static(d) => DependencySpecifier::Static(d.specifier),
        analysis::DependencyDescriptor::Dynamic(d) => match d.argument {
            analysis::DynamicArgument::String(s) => DependencySpecifier::DynamicString(s),
            analysis::DynamicArgument::Template(parts) => {
                DependencySpecifier::DynamicTemplate(parts.into_iter().map(|part| match part {
                    analysis::DynamicTemplatePart::String { value } => Some(value),
                    analysis::DynamicTemplatePart::Expr => None,
                }).collect())
            },
            analysis::DynamicArgument::Expr => DependencySpecifier::DynamicExpr,
        },
    }).collect()
}

/// Calls `deno_graph::ast::ParserModuleAnalyzer::module_info` for the ranges of a module's
/// imports, in the same order: that of the specifier of a static import, that of the argument of a
/// dynamic one.
#[verifier::external_body]
fn dependency_ranges_of(source: &deno_ast::ParsedSource) -> (r: Vec<PositionRange>)
    ensures
        r@ == source_module(*source).dependencies.map_values(|d: DependencyView| d.range),
{
    let info = deno_graph::ast::ParserModuleAnalyzer::module_info(source);
    info.dependencies.into_iter().map(|d| {
        let r = match d {
            analysis::DependencyDescriptor::Static(d) => d.specifier_range,
            analysis::DependencyDescriptor::Dynamic(d) => d.argument_range,
        };
        PositionRange::new(r.start.line, r.start.character, r.end.line, r.end.character)
    }).collect()
}

/// Calls `deno_graph::ast::ParserModuleAnalyzer::module_info` for the specifiers in a module's
/// comments: those of triple slash references and of JSDoc imports, in order, and the JSX import
/// source.
#[verifier::external_body]
fn comment_specifiers_of(source: &deno_ast::ParsedSource) -> (r: (
    Vec<SpecifierWithRange>,
    Vec<SpecifierWithRange>,
    Option<SpecifierWithRange>,
))
    ensures
        specifier_views(r.0@) == source_module(*source).ts_references,
        specifier_views(r.1@) == source_module(*source).jsdoc_imports,
        opt_specifier(r.2) == source_module(*source).jsx_import_source,
{
    let info = deno_graph::ast::ParserModuleAnalyzer::module_info(source);
    let own = |s: analysis::SpecifierWithRange| {
        let (start, end) = (s.range.start, s.range.end);
        let range = PositionRange::new(start.line, start.character, end.line, end.character);
        SpecifierWithRange { text: s.text, range }
    };
    let references = info.ts_references.into_iter().map(|r| match r {
        analysis::TypeScriptReference::Path(s) => own(s),
        analysis::TypeScriptReference::Types { specifier, .. } => own(specifier),
    }).collect();
    let jsdoc = info.jsdoc_imports.into_iter().map(|i| own(i.specifier)).collect();
    (references, jsdoc, info.jsx_import_source.map(own))
}

/// Why source code is no module.
#[derive(Debug, Clone, Copy, PartialEq, Eq, Structural)]
pub enum ParseFailure {
    /// The parser does not take the text: it has more than one byte order mark, or too many bytes.
    NoSourceText,
    /// The specifier is no URL, or the text does not parse.
    NotParsed,
}

impl SourceModule {
    /// Parses a module. `None` where the specifier is no URL or the text does not parse.
    pub fn parse(specifier: &str, text: &str) -> (r: Option<SourceModule>)
        requires
            is_source_text(text@),
        ensures
            match r {
                Some(source) => {
                    &&& source.text@ == text@
                    &&& analyzed_module(specifier@, text@) == Some(source.module_info@)
                    &&& ranges_lie_in(source.module_info@, text@)
                },
                None => analyzed_module(specifier@, text@) is None,
            },
    {
        let source = match parse_with_deno_ast(specifier, text) {
            Some(source) => source,
            None => {
                return None;
            },
        };
        let specifiers = dependency_specifiers_of(&source);
        let ranges = dependency_ranges_of(&source);
        let ghost module = source_module(source);
        assert(specifiers@.map_values(|s: DependencySpecifier| s@).len() == ranges@.len());
        let ghost specifiers_before = specifiers@;
        let mut dependencies: Vec<DependencyDescriptor> = Vec::new();
        let mut i: usize = 0;
        let mut rest = specifiers;
        while i < ranges.len()
            invariant
                i <= ranges.len(),
                ranges@.len() == module.dependencies.len(),
                specifiers_before.len() == ranges@.len(),
                specifiers_before.map_values(|s: DependencySpecifier| s@)
                    == module.dependencies.map_values(|d: DependencyView| d.specifier),
                ranges@ == module.dependencies.map_values(|d: DependencyView| d.range),
                rest@ == specifiers_before.skip(i as int),
                dependency_views(dependencies@) == module.dependencies.take(i as int),
            decreases ranges.len() - i,
        {
            let specifier = rest.remove(0);
            assert(specifier@ == specifiers_before.map_values(
                |s: DependencySpecifier| s@,
            )[i as int]);
            let ghost before = dependencies@;
            dependencies.push(DependencyDescriptor { specifier, range: ranges[i] });
            assert(dependency_views(dependencies@) =~= dependency_views(before).push(
                dependencies@[i as int]@,
            ));
            assert(dependencies@[i as int]@ == module.dependencies[i as int]);
            assert(module.dependencies.take(i + 1) =~= module.dependencies.take(i as int).push(
                module.dependencies[i as int],
            ));
            i += 1;
        }
        assert(module.dependencies.take(i as int) =~= module.dependencies);
        let (ts_references, jsdoc_imports, jsx_import_source) = comment_specifiers_of(&source);
        let module_info = ModuleInfo {
            dependencies,
            ts_references,
            jsdoc_imports,
            jsx_import_source,
        };
        assert(module_info@ =~= module);
        Some(SourceModule { text: text.to_owned(), module_info })
    }

    /// Parses the source code of a module, with or without a byte order mark before it.
    pub fn parse_source_code(specifier: &str, source_code: &str) -> (r: Result<
        SourceModule,
        ParseFailure,
    >)
        ensures
            ({
                let text = without_bom(source_code@);
                match r {
                    Ok(source) => {
                        &&& is_source_text(text)
                        &&& source.text@ == text
                        &&& analyzed_module(specifier@, text) == Some(source.module_info@)
                        &&& ranges_lie_in(source.module_info@, text)
                    },
                    Err(ParseFailure::NoSourceText) => !is_source_text(text),
                    Err(ParseFailure::NotParsed) => is_source_text(text) && analyzed_module(
                        specifier@,
                        text,
                    ) is None,
                }
            }),
    {
        let chars = chars_of(source_code);
        let from: usize = if chars.len() > 0 && chars[0] == '\u{FEFF}' {
            1
        } else {
            0
        };
        let text = string_of(&chars, from, chars.len());
        assert(text@ =~= without_bom(source_code@));
        if (chars.len() > from && chars[from] == '\u{FEFF}') || text.as_str().as_bytes().len()
            > 0x7FFF_FFFF {
            return Err(ParseFailure::NoSourceText);
        }
        match SourceModule::parse(specifier, text.as_str()) {
            Some(source) => Ok(source),
            None => Err(ParseFailure::NotParsed),
        }
    }
}

/// Where a line begins that is `line` lines below the one that holds position `from`.
pub open spec fn line_start_from(text: Seq<char>, from: int, line: nat) -> Option<int>
    decreases text.len() - from,
{
    if line == 0 {
        Some(from)
    } else if from < 0 || from >= text.len() {
        None
    } else if text[from] == '\n' {
        line_start_from(text, from + 1, (line - 1) as nat)
    } else {
        line_start_from(text, from + 1, line)
    }
}

/// Where a line begins, if the text has that many lines.
pub open spec fn line_start(text: Seq<char>, line: nat) -> Option<int> {
    line_start_from(text, 0, line)
}

/// The first line feed at or after a position, or the end of the text.
pub open spec fn line_feed_from(text: Seq<char>, from: int) -> int
    decreases text.len() - from,
{
    if from < 0 || from >= text.len() {
        text.len() as int
    } else if text[from] == '\n' {
        from
    } else {
        line_feed_from(text, from + 1)
    }
}

/// Where the line that begins at `start` ends: before its line feed, and before the carriage
/// return that belongs to the line feed.
pub open spec fn line_end(text: Seq<char>, start: int) -> int {
    let end = line_feed_from(text, start);
    if start < end < text.len() && text[end - 1] == '\r' {
        end - 1
    } else {
        end
    }
}

/// The number of bytes before a character.
pub open spec fn bytes_before(text: Seq<char>, index: int) -> int {
    encode_utf8(text.take(index)).len() as int
}

/// The byte that a position stands for, if the text has that line. A position past the end of its
/// line stands for that end.
pub open spec fn byte_index(text: Seq<char>, position: Position) -> Option<int> {
    match line_start(text, position.line as nat) {
        Some(start) => {
            let end = line_end(text, start);
            let index = if start + position.character <= end {
                start + position.character
            } else {
                end
            };
            Some(bytes_before(text, index))
        },
        None => None,
    }
}

/// The position is that of a character of the text, or of the end of one of its lines.
pub open spec fn position_lies_in(position: Position, text: Seq<char>) -> bool {
    line_start(text, position.line as nat) matches Some(start) && start + position.character
        <= line_feed_from(text, start)
}

/// Both ends of the range lie in the text, and the start is not behind the end.
pub open spec fn range_lies_in(range: PositionRange, text: Seq<char>) -> bool {
    &&& position_lies_in(range.start, text)
    &&& position_lies_in(range.end, text)
    &&& byte_index(text, range.start)->Some_0 <= byte_index(text, range.end)->Some_0
}

/// All ranges of a module lie in the text.
pub open spec fn ranges_lie_in(module: ModuleInfoView, text: Seq<char>) -> bool {
    &&& forall|i: int|
        0 <= i < module.dependencies.len() ==> range_lies_in(
            (#[trigger] module.dependencies[i]).range,
            text,
        )
    &&& specifiers_lie_in(module.ts_references, text)
    &&& specifiers_lie_in(module.jsdoc_imports, text)
    &&& module.jsx_import_source matches Some(specifier) ==> range_lies_in(specifier.range, text)
}

/// The ranges of specifiers in comments lie in the text.
pub open spec fn specifiers_lie_in(specifiers: Seq<SpecifierView>, text: Seq<char>) -> bool {
    forall|i: int|
        0 <= i < specifiers.len() ==> range_lies_in((#[trigger] specifiers[i]).range, text)
}

/// The byte that a line begins with, if the text has that line.
pub open spec fn line_start_byte(text: Seq<char>, line: nat) -> Option<int> {
    match line_start(text, line) {
        Some(start) => Some(bytes_before(text, start)),
        None => None,
    }
}

fn find_line_start(text: &Vec<char>, line: usize) -> (r: Option<usize>)
    ensures
        match r {
            Some(start) => line_start(text@, line as nat) == Some(start as int) && start
                <= text@.len(),
            None => line_start(text@, line as nat) is None,
        },
{
    let mut from: usize = 0;
    let mut left: usize = line;
    while left > 0 && from < text.len()
        invariant
            from <= text.len(),
            line_start(text@, line as nat) == line_start_from(text@, from as int, left as nat),
        decreases text.len() - from,
    {
        if text[from] == '\n' {
            left -= 1;
        }
        from += 1;
    }
    if left == 0 {
        Some(from)
    } else {
        None
    }
}

/// Calls `deno_graph::PositionRange::as_source_range` and `deno_ast::SourceRange::as_byte_range`
/// on the lines of the text: the bytes that the two positions stand for. They panic where the text
/// has fewer lines.
#[verifier::external_body]
fn range_with_deno_graph(text: &str, range: PositionRange) -> (r: (usize, usize))
    requires
        is_source_text(text@),
        line_start(text@, range.start.line as nat) is Some,
        line_start(text@, range.end.line as nat) is Some,
        range.start.character <= text@.len(),
        range.end.character <= text@.len(),
    ensures
        byte_index(text@, range.start) == Some(r.0 as int),
        byte_index(text@, range.end) == Some(r.1 as int),
{
    let info = deno_ast::SourceTextInfo::from_string(text.to_owned());
    let start = deno_graph::Position::new(range.start.line, range.start.character);
    let end = deno_graph::Position::new(range.end.line, range.end.character);
    let range = deno_graph::PositionRange { start, end }.as_source_range(&info);
    let bytes = range.as_byte_range(info.range().start);
    (bytes.start, bytes.end)
}

/// Calls `deno_ast::SourceTextInfo::line_start`: the byte that the line begins with. It panics
/// where the text has fewer lines.
#[verifier::external_body]
fn line_start_with_deno_ast(text: &str, line: usize) -> (r: usize)
    requires
        is_source_text(text@),
        line_start(text@, line as nat) is Some,
    ensures
        line_start_byte(text@, line as nat) == Some(r as int),
{
    let info = deno_ast::SourceTextInfo::from_string(text.to_owned());
    info.line_start(line).as_byte_index(info.range().start)
}

proof fn line_feed_range(text: Seq<char>, from: int)
    requires
        0 <= from <= text.len(),
    ensures
        from <= line_feed_from(text, from) <= text.len(),
    decreases text.len() - from,
{
    if from < text.len() && text[from] != '\n' {
        line_feed_range(text, from + 1);
    }
}

/// A position past the end of the text stands for the same byte as one at its length.
proof fn clamped_position(text: Seq<char>, position: Position, character: usize)
    requires
        character == if position.character <= text.len() {
            position.character as int
        } else {
            text.len() as int
        },
        line_start(text, position.line as nat) matches Some(start) && 0 <= start <= text.len(),
    ensures
        byte_index(text, position) == byte_index(
            text,
            Position { line: position.line, character },
        ),
{
    line_feed_range(text, line_start(text, position.line as nat)->Some_0);
}

proof fn line_start_range(text: Seq<char>, from: int, line: nat)
    requires
        0 <= from <= text.len(),
    ensures
        line_start_from(text, from, line) matches Some(start) ==> from <= start <= text.len(),
    decreases text.len() - from,
{
    if line > 0 && from < text.len() {
        if text[from] == '\n' {
            line_start_range(text, from + 1, (line - 1) as nat);
        } else {
            line_start_range(text, from + 1, line);
        }
    }
}

/// A position in the text stands for a boundary between its characters, and is near enough to the
/// start of its line to be counted from there in 32 bits.
pub proof fn position_is_boundary(position: Position, text: Seq<char>)
    requires
        is_source_text(text),
        position_lies_in(position, text),
    ensures
        byte_index(text, position) matches Some(index) && 0 <= index <= encode_utf8(text).len()
            && is_char_boundary(encode_utf8(text), index),
        line_start_byte(text, position.line as nat) matches Some(start) && 0 <= start
            && start + position.character < 0xFFFF_FFFF,
{
    let start = line_start(text, position.line as nat)->Some_0;
    line_start_range(text, 0, position.line as nat);
    line_feed_range(text, start);
    let end = line_end(text, start);
    let index = if start + position.character <= end {
        start + position.character
    } else {
        end
    };
    crate::boundaries::characters_end_at_boundary(text, index);
    crate::boundaries::characters_end_at_boundary(text, start);
    crate::boundaries::encoding_is_not_shorter(text);
}

impl SourceModule {
    /// The module's text is one that the parser takes.
    pub open spec fn wf(self) -> bool {
        is_source_text(self.text@)
    }

    /// The bytes of the text that a range stands for. `None` where the text has fewer lines.
    pub fn byte_range(&self, range: PositionRange) -> (r: Option<(usize, usize)>)
        requires
            self.wf(),
        ensures
            match r {
                Some((start, end)) => {
                    &&& byte_index(self.text@, range.start) == Some(start as int)
                    &&& byte_index(self.text@, range.end) == Some(end as int)
                },
                None => byte_index(self.text@, range.start) is None || byte_index(
                    self.text@,
                    range.end,
                ) is None,
            },
    {
        let text = chars_of(self.text.as_str());
        if find_line_start(&text, range.start.line).is_none() || find_line_start(
            &text,
            range.end.line,
        ).is_none() {
            return None;
        }
        let length: usize = text.len();
        let start: usize = if range.start.character <= length {
            range.start.character
        } else {
            length
        };
        let end: usize = if range.end.character <= length {
            range.end.character
        } else {
            length
        };
        proof {
            clamped_position(self.text@, range.start, start);
            clamped_position(self.text@, range.end, end);
        }
        let clamped = PositionRange::new(range.start.line, start, range.end.line, end);
        Some(range_with_deno_graph(self.text.as_str(), clamped))
    }

    /// The byte of the text that a line begins with. `None` where the text has fewer lines.
    pub fn line_start(&self, line: usize) -> (r: Option<usize>)
        requires
            self.wf(),
        ensures
            match r {
                Some(index) => line_start_byte(self.text@, line as nat) == Some(index as int),
                None => line_start_byte(self.text@, line as nat) is None,
            },
    {
        let text = chars_of(self.text.as_str());
        if find_line_start(&text, line).is_none() {
            return None;
        }
        Some(line_start_with_deno_ast(self.text.as_str(), line))
    }
}

/// A line begins behind as many line feeds as its number says, directly behind the last of them, and a text
/// has that line exactly where it has that many line feeds.
pub proof fn lines_begin_behind_line_feeds(text: Seq<char>, line: nat)
    ensures
        line_start(text, line) is Some <==> text.filter(|c: char| c == '\n').len() >= line,
        line_start(text, line) matches Some(start) ==> {
            &&& 0 <= start <= text.len()
            &&& text.take(start).filter(|c: char| c == '\n').len() == line
            &&& line > 0 ==> start > 0 && text[start - 1] == '\n'
            &&& line == 0 ==> start == 0
        },
{
    assert(text.take(0) =~= Seq::empty());
    assert(text.take(0).filter(|c: char| c == '\n').len() == 0) by {
        reveal(Seq::filter);
    }
    lines_are_counted_from(text, 0, line, 0);
}

proof fn lines_are_counted_from(text: Seq<char>, from: int, line: nat, passed: nat)
    requires
        0 <= from <= text.len(),
        text.take(from).filter(|c: char| c == '\n').len() == passed,
        passed > 0 && line == 0 ==> from > 0 && text[from - 1] == '\n',
    ensures
        line_start_from(text, from, line) is Some <==> text.filter(|c: char| c == '\n').len()
            >= passed + line,
        line_start_from(text, from, line) matches Some(start) ==> {
            &&& from <= start <= text.len()
            &&& text.take(start).filter(|c: char| c == '\n').len() == passed + line
            &&& passed + line > 0 ==> start > 0 && text[start - 1] == '\n'
            &&& line == 0 ==> start == from
        },
    decreases text.len() - from,
{
    let is_feed = |c: char| c == '\n';
    reveal(Seq::filter);
    if line == 0 {
        more_characters_have_more_line_feeds(text, from);
    } else if from < text.len() {
        assert(text.take(from + 1).drop_last() =~= text.take(from));
        assert(text.take(from + 1).last() == text[from]);
        if text[from] == '\n' {
            lines_are_counted_from(text, from + 1, (line - 1) as nat, passed + 1);
        } else {
            lines_are_counted_from(text, from + 1, line, passed);
        }
    } else {
        assert(text.take(from) =~= text);
    }
}

proof fn more_characters_have_more_line_feeds(text: Seq<char>, to: int)
    requires
        0 <= to <= text.len(),
    ensures
        text.take(to).filter(|c: char| c == '\n').len() <= text.filter(|c: char| c == '\n').len(),
    decreases text.len() - to,
{
    reveal(Seq::filter);
    if to < text.len() {
        more_characters_have_more_line_feeds(text, to + 1);
        assert(text.take(to + 1).drop_last() =~= text.take(to));
    } else {
        assert(text.take(to) =~= text);
    }
}

/// A position on a line stands for the byte behind that many characters of the line, and one past the line's
/// end for that end, which is before its line feed.
pub proof fn positions_stay_on_their_line(text: Seq<char>, position: Position) -> (index: int)
    requires
        line_start(text, position.line as nat) is Some,
    ensures
        ({
            let start = line_start(text, position.line as nat)->Some_0;
            &&& byte_index(text, position) == Some(encode_utf8(text.take(index)).len() as int)
            &&& start <= index <= start + position.character
            &&& index <= text.len()
            &&& forall|k: int| start <= k < index ==> #[trigger] text[k] != '\n'
            &&& index < start + position.character ==> index == text.len() || text[index] == '\n'
                || (index + 1 < text.len() && text[index] == '\r' && text[index + 1] == '\n')
        }),
{
    let start = line_start(text, position.line as nat)->Some_0;
    line_start_range(text, 0, position.line as nat);
    line_feed_range(text, start);
    line_feed_is_the_first(text, start);
    let end = line_end(text, start);
    if start + position.character <= end {
        start + position.character
    } else {
        end
    }
}

proof fn line_feed_is_the_first(text: Seq<char>, from: int)
    requires
        0 <= from <= text.len(),
    ensures
        forall|k: int| from <= k < line_feed_from(text, from) ==> #[trigger] text[k] != '\n',
        line_feed_from(text, from) < text.len() ==> text[line_feed_from(text, from)] == '\n',
    decreases text.len() - from,
{
    if from < text.len() && text[from] != '\n' {
        line_feed_is_the_first(text, from + 1);
    }
}

/// A byte order mark before source code does not count: with it, the code is the same module as without.
pub proof fn byte_order_mark_does_not_count(
    specifier: &str,
    code: &str,
    marked: &str,
    r: Result<SourceModule, ParseFailure>,
    marked_r: Result<SourceModule, ParseFailure>,
)
    requires
        marked@ == seq!['\u{FEFF}'] + code@,
        code@.len() > 0 ==> code@[0] != '\u{FEFF}',
        call_ensures(SourceModule::parse_source_code, (specifier, code), r),
        call_ensures(SourceModule::parse_source_code, (specifier, marked), marked_r),
    ensures
        r is Ok <==> marked_r is Ok,
        r matches Ok(source) ==> source.text@ == code@ && marked_r->Ok_0.text@ == code@
            && marked_r->Ok_0.module_info@ == source.module_info@,
        r matches Err(failure) ==> marked_r == Err::<SourceModule, ParseFailure>(failure),
{
    assert((seq!['\u{FEFF}'] + code@).skip(1) =~= code@);
}

/// Source code is refused without a look at it only where it has two byte order marks or more bytes than can
/// be counted in 31 bits; otherwise it is what the parser makes of it.
pub proof fn parser_decides_on_source_code(
    specifier: &str,
    code: &str,
    r: Result<SourceModule, ParseFailure>,
)
    requires
        call_ensures(SourceModule::parse_source_code, (specifier, code), r),
        code@.len() > 0 ==> code@[0] != '\u{FEFF}',
        encode_utf8(code@).len() <= 0x7FFF_FFFF,
    ensures
        r is Ok <==> analyzed_module(specifier@, code@) is Some,
        r matches Ok(source) ==> source.text@ == code@ && Some(source.module_info@)
            == analyzed_module(specifier@, code@),
        r matches Err(failure) ==> failure is NotParsed,
{
}

} // verus!
