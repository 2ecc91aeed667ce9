//! Unfurling: rewriting a module's imports to what the import map makes of them.

use vstd::prelude::*;
use vstd::string::*;
use vstd::utf8::*;

use crate::source_module::{
    DependencyDescriptor, DependencySpecifier, DependencySpecifierView, DependencyView,
    ModuleInfoView, Position, PositionRange, SourceModule, SpecifierView, SpecifierWithRange,
};
use crate::text::{has_prefix, str_eq};
use crate::text_changes::{apply_text_changes, can_apply, TextChange, TextChangeView};
use crate::url::make_relative;

verus! {

/// What the import map makes of a specifier in the module with the URL `referrer`.
#[derive(Debug, Clone)]
pub struct MappedResolution {
    pub specifier: String,
    pub referrer: String,
    pub resolved: String,
}

/// The answers of an import map.
#[derive(Debug, Clone)]
pub struct MappedSpecifierResolver {
    pub answers: Vec<MappedResolution>,
}

/// What the answers say about a specifier; the later answer counts. `None` where the import map
/// does not map it.
pub open spec fn resolution(
    answers: Seq<MappedResolution>,
    specifier: Seq<char>,
    referrer: Seq<char>,
) -> Option<Seq<char>>
    decreases answers.len(),
{
    if answers.len() == 0 {
        None
    } else {
        let answer = answers.last();
        if answer.specifier@ == specifier && answer.referrer@ == referrer {
            Some(answer.resolved@)
        } else {
            resolution(answers.drop_last(), specifier, referrer)
        }
    }
}

impl MappedSpecifierResolver {
    /// What the import map makes of a specifier.
    pub open spec fn maps(self, specifier: Seq<char>, referrer: Seq<char>) -> Option<Seq<char>> {
        resolution(self.answers@, specifier, referrer)
    }

    pub fn new() -> (r: MappedSpecifierResolver)
        ensures
            forall|specifier: Seq<char>, referrer: Seq<char>|
                #[trigger] r.maps(specifier, referrer) is None,
    {
        MappedSpecifierResolver { answers: Vec::new() }
    }

    /// Adds an answer of the import map.
    pub fn add_answer(&mut self, specifier: &str, referrer: &str, resolved: &str)
        ensures
            forall|s: Seq<char>, r: Seq<char>|
                #[trigger] final(self).maps(s, r) == if s == specifier@ && r == referrer@ {
                    Some(resolved@)
                } else {
                    old(self).maps(s, r)
                },
            final(self).answers@.len() == old(self).answers@.len() + 1,
            final(self).answers@.drop_last() == old(self).answers@,
            final(self).answers@.last().specifier@ == specifier@,
            final(self).answers@.last().referrer@ == referrer@,
            final(self).answers@.last().resolved@ == resolved@,
    {
        let ghost before = self.answers@;
        self.answers.push(
            MappedResolution {
                specifier: specifier.to_owned(),
                referrer: referrer.to_owned(),
                resolved: resolved.to_owned(),
            },
        );
        assert(self.answers@.drop_last() =~= before);
    }

    /// What the import map makes of a specifier, if it maps it.
    pub fn resolve(&self, specifier: &str, referrer: &str) -> (r: Option<String>)
        ensures
            crate::text::opt_text(r) == self.maps(specifier@, referrer@),
    {
        let mut n: usize = self.answers.len();
        assert(self.answers@.take(n as int) =~= self.answers@);
        while n > 0
            invariant
                n <= self.answers.len(),
                self.maps(specifier@, referrer@) == resolution(
                    self.answers@.take(n as int),
                    specifier@,
                    referrer@,
                ),
            decreases n,
        {
            assert(self.answers@.take(n as int).drop_last() =~= self.answers@.take(n - 1));
            let answer = &self.answers[n - 1];
            if str_eq(answer.specifier.as_str(), specifier) && str_eq(
                answer.referrer.as_str(),
                referrer,
            ) {
                return Some(answer.resolved.clone());
            }
            n -= 1;
        }
        None
    }
}

/// What the user is told about an import that stays as it is.
#[derive(Debug, Clone, PartialEq, Eq)]
pub enum ImportMapUnfurlDiagnostic {
    UnanalyzableDynamicImport {
        /// The module.
        specifier: String,
        /// The text of the module.
        text: String,
        /// The bytes of the text where the import's argument begins and ends.
        start: usize,
        end: usize,
    },
}

/// What an [`ImportMapUnfurlDiagnostic`] holds.
#[verifier::ext_equal]
pub struct DiagnosticView {
    pub specifier: Seq<char>,
    pub text: Seq<char>,
    pub start: int,
    pub end: int,
}

impl View for ImportMapUnfurlDiagnostic {
    type V = DiagnosticView;

    open spec fn view(&self) -> DiagnosticView {
        match self {
            ImportMapUnfurlDiagnostic::UnanalyzableDynamicImport {
                specifier,
                text,
                start,
                end,
            } => DiagnosticView {
                specifier: specifier@,
                text: text@,
                start: *start as int,
                end: *end as int,
            },
        }
    }
}

/// What a sequence of diagnostics holds.
pub open spec fn diagnostic_views(
    diagnostics: Seq<ImportMapUnfurlDiagnostic>,
) -> Seq<DiagnosticView> {
    diagnostics.map_values(|d: ImportMapUnfurlDiagnostic| d@)
}

impl ImportMapUnfurlDiagnostic {
    pub fn code(&self) -> (r: &'static str)
        ensures
            r@ == "unanalyzable-dynamic-import"@,
    {
        match self {
            Self::UnanalyzableDynamicImport { .. } => "unanalyzable-dynamic-import",
        }
    }

    pub fn message(&self) -> (r: &'static str)
        ensures
            r@ == "unable to analyze dynamic import"@,
    {
        match self {
            Self::UnanalyzableDynamicImport { .. } => "unable to analyze dynamic import",
        }
    }
}

/// How a module at `from` refers to the URL `to`: by a relative path within the file system, and
/// by the URL elsewhere. `None` where no relative path leads there.
pub open spec fn relative_to(to: Seq<char>, relative: Option<Seq<char>>) -> Option<Seq<char>> {
    if crate::text::starts_with_text(to, "file:"@) {
        match relative {
            Some(path) => Some("./"@ + path),
            None => None,
        }
    } else {
        Some(to)
    }
}

/// How a module refers to the URL `to`, given the relative path that leads there.
pub fn make_relative_by(to: &str, relative: Option<String>) -> (r: Option<String>)
    ensures
        crate::text::opt_text(r) == relative_to(to@, crate::text::opt_text(relative)),
{
    if has_prefix(to, "file:") {
        match relative {
            Some(path) => {
                let mut text: String = "./".to_owned();
                text.append(path.as_str());
                Some(text)
            },
            None => None,
        }
    } else {
        Some(to.to_owned())
    }
}

/// How the module with the URL `from` refers to the URL `to`.
pub fn make_relative_to(from: &str, to: &str) -> (r: Option<String>)
    ensures
        crate::text::opt_text(r) == relative_to(to@, crate::url::relative_url(from@, to@)),
{
    make_relative_by(to, make_relative(from, to))
}

/// A single or a double quotation mark.
pub open spec fn is_quote(byte: u8) -> bool {
    byte == 0x22 || byte == 0x27
}

/// The bytes that a range of the text stands for, without the quotation marks at its ends. `None`
/// where the range does not lie in the text.
pub open spec fn unquoted_range(text: Seq<char>, range: PositionRange) -> Option<(int, int)> {
    let bytes = encode_utf8(text);
    match (
        crate::source_module::byte_index(text, range.start),
        crate::source_module::byte_index(text, range.end),
    ) {
        (Some(start), Some(end)) => if 0 <= start <= end <= bytes.len() {
            let first = if start < end && is_quote(bytes[start]) {
                start + 1
            } else {
                start
            };
            let last = if start < end && is_quote(bytes[end - 1]) {
                end - 1
            } else {
                end
            };
            Some((first, last))
        } else {
            None
        },
        _ => None,
    }
}

/// The bytes that a range of the text stands for, without the quotation marks at its ends.
pub fn to_range(source: &SourceModule, range: PositionRange) -> (r: Option<(usize, usize)>)
    requires
        source.wf(),
    ensures
        match r {
            Some((start, end)) => unquoted_range(source.text@, range) == Some(
                (start as int, end as int),
            ) && start <= encode_utf8(source.text@).len(),
            None => unquoted_range(source.text@, range) is None,
        },
{
    let (start, end): (usize, usize) = match source.byte_range(range) {
        Some(bytes) => bytes,
        None => {
            return None;
        },
    };
    let bytes = source.text.as_str().as_bytes();
    if start > end || end > bytes.len() {
        return None;
    }
    let first: usize = if start < end && (bytes[start] == 0x22 || bytes[start] == 0x27) {
        start + 1
    } else {
        start
    };
    let last: usize = if start < end && (bytes[end - 1] == 0x22 || bytes[end - 1] == 0x27) {
        end - 1
    } else {
        end
    };
    Some((first, last))
}

/// The first place at or after `from` where `needle` stands in `bytes`.
pub open spec fn find_from(bytes: Seq<u8>, needle: Seq<u8>, from: int) -> Option<int>
    decreases bytes.len() - from + 1,
{
    if from < 0 || from + needle.len() > bytes.len() {
        None
    } else if bytes.subrange(from, from + needle.len()) == needle {
        Some(from)
    } else {
        find_from(bytes, needle, from + 1)
    }
}

fn stands_at(bytes: &[u8], needle: &[u8], at: usize) -> (r: bool)
    requires
        at + needle@.len() <= bytes@.len(),
    ensures
        r == (bytes@.subrange(at as int, at + needle@.len()) == needle@),
{
    let mut i: usize = 0;
    let length: usize = bytes.len();
    while i < needle.len()
        invariant
            i <= needle@.len(),
            at + needle@.len() <= bytes@.len(),
            length == bytes@.len(),
            forall|k: int| 0 <= k < i ==> bytes@[at + k] == needle@[k],
        decreases needle.len() - i,
    {
        if bytes[at + i] != needle[i] {
            assert(bytes@.subrange(at as int, at + needle@.len())[i as int] != needle@[i as int]);
            return false;
        }
        i += 1;
    }
    assert(bytes@.subrange(at as int, at + needle@.len()) =~= needle@);
    true
}

fn find_bytes(bytes: &[u8], needle: &[u8], from: usize) -> (r: Option<usize>)
    ensures
        match r {
            Some(at) => find_from(bytes@, needle@, from as int) == Some(at as int) && at
                + needle@.len() <= bytes@.len(),
            None => find_from(bytes@, needle@, from as int) is None,
        },
{
    let mut at: usize = from;
    while at <= bytes.len() && needle.len() <= bytes.len() - at
        invariant
            from <= at,
            find_from(bytes@, needle@, from as int) == find_from(bytes@, needle@, at as int),
        decreases bytes.len() - at + 1,
    {
        if stands_at(bytes, needle, at) {
            return Some(at);
        }
        if at == bytes.len() {
            assert(find_from(bytes@, needle@, at + 1) is None);
            return None;
        }
        at += 1;
    }
    None
}

/// What becomes of a dynamic import.
pub enum DynamicUnfurl {
    /// It cannot be analyzed.
    Failed,
    /// It stays as it is.
    Kept,
    /// It is changed.
    Changed(TextChangeView),
}

/// The change that puts a reference to `resolved` in the place of `value`, where it stands first
/// at or after the range's start. An import that does not hold the value literally, or whose value
/// the import map does not map, cannot be analyzed. `None` where the module cannot be rewritten.
pub open spec fn value_unfurl(
    url: Seq<char>,
    text: Seq<char>,
    range: PositionRange,
    value: Seq<char>,
    resolved: Option<Seq<char>>,
) -> Option<DynamicUnfurl> {
    match unquoted_range(text, range) {
        None => None,
        Some((start, _)) => match (
            find_from(encode_utf8(text), encode_utf8(value), start),
            resolved,
        ) {
            (Some(at), Some(resolved)) => match relative_to(
                resolved,
                crate::url::relative_url(url, resolved),
            ) {
                None => None,
                Some(new_text) => Some(
                    DynamicUnfurl::Changed(
                        TextChangeView {
                            start: at,
                            end: at + encode_utf8(value).len(),
                            new_text,
                        },
                    ),
                ),
            },
            _ => Some(DynamicUnfurl::Failed),
        },
    }
}

/// What becomes of a dynamic import. A text is looked up. Of a template only its leading text is
/// looked at: a relative one is kept, one that ends in a slash is looked up, and every other one
/// cannot be analyzed. `None` where the module cannot be rewritten.
pub open spec fn dynamic_unfurl(
    resolver: MappedSpecifierResolver,
    url: Seq<char>,
    text: Seq<char>,
    specifier: DependencySpecifierView,
    range: PositionRange,
) -> Option<DynamicUnfurl> {
    match specifier {
        DependencySpecifierView::DynamicString(value) => value_unfurl(
            url,
            text,
            range,
            value,
            resolver.maps(value, url),
        ),
        DependencySpecifierView::DynamicTemplate(parts) => if parts.len()
            == 0 {
            Some(DynamicUnfurl::Kept)
        } else {
            match parts[0] {
                None => Some(DynamicUnfurl::Failed),
                Some(value) => if crate::text::starts_with_text(value, "./"@)
                    || crate::text::starts_with_text(value, "../"@) {
                    Some(DynamicUnfurl::Kept)
                } else if value.len() == 0 || value.last() != '/' || resolver.maps(
                    value,
                    url,
                ) is None {
                    Some(DynamicUnfurl::Failed)
                } else {
                    value_unfurl(url, text, range, value, resolver.maps(value, url))
                },
            }
        },
        _ => Some(DynamicUnfurl::Failed),
    }
}

/// Looks a value up where it stands in the module. `None` where the module cannot be rewritten;
/// otherwise whether the import could be analyzed.
fn unfurl_value(
    module_url: &str,
    source: &SourceModule,
    range: PositionRange,
    value: &String,
    resolved: Option<String>,
    text_changes: &mut Vec<TextChange>,
) -> (r: Option<bool>)
    requires
        source.wf(),
    ensures
        match value_unfurl(
            module_url@,
            source.text@,
            range,
            value@,
            crate::text::opt_text(resolved),
        ) {
            None => r is None,
            Some(DynamicUnfurl::Failed) => r == Some(false),
            Some(_) => r == Some(true),
        },
        crate::text_changes::change_views(final(text_changes)@) == match value_unfurl(
            module_url@,
            source.text@,
            range,
            value@,
            crate::text::opt_text(resolved),
        ) {
            Some(DynamicUnfurl::Changed(change)) => crate::text_changes::change_views(
                old(text_changes)@,
            ).push(change),
            _ => crate::text_changes::change_views(old(text_changes)@),
        },
{
    let (start, _end): (usize, usize) = match to_range(source, range) {
        Some(bytes) => bytes,
        None => {
            return None;
        },
    };
    let needle = value.as_str().as_bytes();
    let at: usize = match find_bytes(source.text.as_str().as_bytes(), needle, start) {
        Some(at) => at,
        None => {
            return Some(false);
        },
    };
    let resolved = match resolved {
        Some(resolved) => resolved,
        None => {
            return Some(false);
        },
    };
    let new_text = match make_relative_to(module_url, resolved.as_str()) {
        Some(new_text) => new_text,
        None => {
            return None;
        },
    };
    let end: usize = at + needle.len();
    let ghost before = text_changes@;
    text_changes.push(TextChange { start: at, end, new_text });
    assert(crate::text_changes::change_views(text_changes@)
        =~= crate::text_changes::change_views(before).push(text_changes@.last()@));
    Some(true)
}

fn ends_with_slash(text: &str) -> (r: bool)
    ensures
        r == (text@.len() > 0 && text@.last() == '/'),
{
    let chars = crate::text::chars_of(text);
    chars.len() > 0 && chars[chars.len() - 1] == '/'
}

/// Attempts to unfurl the dynamic dependency, returning `true` on success and `false` when the
/// import was not analyzable; `None` where the module cannot be rewritten.
pub fn try_unfurl_dynamic_dep(
    mapped_resolver: &MappedSpecifierResolver,
    module_url: &str,
    source: &SourceModule,
    specifier: &DependencySpecifier,
    range: PositionRange,
    text_changes: &mut Vec<TextChange>,
) -> (r: Option<bool>)
    requires
        source.wf(),
    ensures
        match dynamic_unfurl(
            *mapped_resolver,
            module_url@,
            source.text@,
            specifier@,
            range,
        ) {
            None => r is None,
            Some(DynamicUnfurl::Failed) => r == Some(false),
            Some(_) => r == Some(true),
        },
        crate::text_changes::change_views(final(text_changes)@) == match dynamic_unfurl(
            *mapped_resolver,
            module_url@,
            source.text@,
            specifier@,
            range,
        ) {
            Some(DynamicUnfurl::Changed(change)) => crate::text_changes::change_views(
                old(text_changes)@,
            ).push(change),
            _ => crate::text_changes::change_views(old(text_changes)@),
        },
{
    match specifier {
        DependencySpecifier::DynamicString(value) => {
            let resolved = mapped_resolver.resolve(value.as_str(), module_url);
            unfurl_value(module_url, source, range, value, resolved, text_changes)
        },
        DependencySpecifier::DynamicTemplate(parts) => {
            if parts.len() == 0 {
                return Some(true);  // ignore
            }
            assert(crate::source_module::part_views(parts@)[0] == crate::text::opt_text(parts@[0]));
            match &parts[0] {
                Some(value) => {
                    // relative doesn't need to be modified
                    if has_prefix(value.as_str(), "./") || has_prefix(value.as_str(), "../") {
                        return Some(true);
                    }
                    if !ends_with_slash(value.as_str()) {
                        return Some(false);
                    }
                    let resolved = mapped_resolver.resolve(value.as_str(), module_url);
                    if resolved.is_none() {
                        return Some(false);
                    }
                    unfurl_value(module_url, source, range, value, resolved, text_changes)
                },
                None => Some(false),  // failed analyzing
            }
        },
        _ => Some(false),  // failed analyzing
    }
}

/// The change that an import map makes to a specifier, if it maps it; `None` where the module
/// cannot be rewritten.
pub open spec fn specifier_unfurl(
    resolver: MappedSpecifierResolver,
    url: Seq<char>,
    text: Seq<char>,
    specifier: Seq<char>,
    range: PositionRange,
) -> Option<Seq<TextChangeView>> {
    match resolver.maps(specifier, url) {
        None => Some(Seq::empty()),
        Some(resolved) => match (
            unquoted_range(text, range),
            relative_to(resolved, crate::url::relative_url(url, resolved)),
        ) {
            (Some((start, end)), Some(new_text)) => Some(
                seq![TextChangeView { start, end, new_text }],
            ),
            _ => None,
        },
    }
}

/// Where a diagnostic says that an import's argument begins or ends: that many bytes after the
/// start of the line. `None` where the text has fewer lines or the sum is too large.
pub open spec fn diagnostic_byte(
    text: Seq<char>,
    position: Position,
) -> Option<int> {
    match crate::source_module::line_start_byte(text, position.line as nat) {
        Some(start) => if start + position.character < 0xFFFF_FFFF {
            Some(start + position.character)
        } else {
            None
        },
        None => None,
    }
}

/// The changes and the diagnostics that a dependency leads to; `None` where the module cannot be
/// rewritten.
pub open spec fn dependency_unfurl(
    resolver: MappedSpecifierResolver,
    url: Seq<char>,
    text: Seq<char>,
    dependency: DependencyView,
) -> Option<(Seq<TextChangeView>, Seq<DiagnosticView>)> {
    match dependency.specifier {
        DependencySpecifierView::Static(specifier) => match specifier_unfurl(
            resolver,
            url,
            text,
            specifier,
            dependency.range,
        ) {
            Some(changes) => Some((changes, Seq::empty())),
            None => None,
        },
        dynamic => match dynamic_unfurl(resolver, url, text, dynamic, dependency.range) {
            None => None,
            Some(DynamicUnfurl::Kept) => Some((Seq::empty(), Seq::empty())),
            Some(DynamicUnfurl::Changed(change)) => Some((seq![change], Seq::empty())),
            Some(DynamicUnfurl::Failed) => match (
                diagnostic_byte(text, dependency.range.start),
                diagnostic_byte(text, dependency.range.end),
            ) {
                (Some(start), Some(end)) => Some(
                    (
                        Seq::empty(),
                        seq![DiagnosticView { specifier: url, text, start, end }],
                    ),
                ),
                _ => None,
            },
        },
    }
}

/// The changes and the diagnostics that the first `n` dependencies lead to, in order.
pub open spec fn dependencies_unfurl(
    resolver: MappedSpecifierResolver,
    url: Seq<char>,
    text: Seq<char>,
    dependencies: Seq<DependencyView>,
    n: nat,
) -> Option<(Seq<TextChangeView>, Seq<DiagnosticView>)>
    decreases n,
{
    if n == 0 {
        Some((Seq::empty(), Seq::empty()))
    } else {
        match (
            dependencies_unfurl(resolver, url, text, dependencies, (n - 1) as nat),
            dependency_unfurl(resolver, url, text, dependencies[n - 1]),
        ) {
            (Some(before), Some(added)) => Some((before.0 + added.0, before.1 + added.1)),
            _ => None,
        }
    }
}

/// The changes that the first `n` specifiers in comments lead to, in order.
pub open spec fn references_unfurl(
    resolver: MappedSpecifierResolver,
    url: Seq<char>,
    text: Seq<char>,
    references: Seq<SpecifierView>,
    n: nat,
) -> Option<Seq<TextChangeView>>
    decreases n,
{
    if n == 0 {
        Some(Seq::empty())
    } else {
        match (
            references_unfurl(resolver, url, text, references, (n - 1) as nat),
            specifier_unfurl(
                resolver,
                url,
                text,
                references[n - 1].text,
                references[n - 1].range,
            ),
        ) {
            (Some(before), Some(added)) => Some(before + added),
            _ => None,
        }
    }
}

/// The changes that a list of specifiers in comments leads to.
pub open spec fn all_references_unfurl(
    resolver: MappedSpecifierResolver,
    url: Seq<char>,
    text: Seq<char>,
    references: Seq<SpecifierView>,
) -> Option<Seq<TextChangeView>> {
    references_unfurl(resolver, url, text, references, references.len())
}

/// The optional specifier as a list.
pub open spec fn opt_as_list(
    specifier: Option<SpecifierView>,
) -> Seq<SpecifierView> {
    match specifier {
        Some(s) => seq![s],
        None => Seq::empty(),
    }
}

/// The changes to a module and the diagnostics about it: those of its dependencies, and the
/// changes of its triple slash references, its JSDoc imports and its JSX import source. `None`
/// where the module cannot be rewritten.
pub open spec fn module_unfurl(
    resolver: MappedSpecifierResolver,
    url: Seq<char>,
    text: Seq<char>,
    module: ModuleInfoView,
) -> Option<(Seq<TextChangeView>, Seq<DiagnosticView>)> {
    match (
        dependencies_unfurl(resolver, url, text, module.dependencies, module.dependencies.len()),
        all_references_unfurl(resolver, url, text, module.ts_references),
        all_references_unfurl(resolver, url, text, module.jsdoc_imports),
        all_references_unfurl(resolver, url, text, opt_as_list(module.jsx_import_source)),
    ) {
        (Some(dependencies), Some(references), Some(jsdoc), Some(jsx)) => Some(
            (dependencies.0 + references + jsdoc + jsx, dependencies.1),
        ),
        _ => None,
    }
}

/// Rewrites the imports of modules to what an import map makes of them.
pub struct ImportMapUnfurler<'a> {
    pub import_map: &'a MappedSpecifierResolver,
}

impl<'a> ImportMapUnfurler<'a> {
    pub fn new(import_map: &'a MappedSpecifierResolver) -> (r: ImportMapUnfurler<'a>)
        ensures
            *r.import_map == *import_map,
    {
        ImportMapUnfurler { import_map }
    }

    /// Adds the change that the import map makes to a specifier. `false` where the module cannot
    /// be rewritten.
    fn analyze_specifier(
        &self,
        url: &str,
        source: &SourceModule,
        specifier: &str,
        range: PositionRange,
        text_changes: &mut Vec<TextChange>,
    ) -> (r: bool)
        requires
            source.wf(),
        ensures
            match specifier_unfurl(*self.import_map, url@, source.text@, specifier@, range) {
                Some(added) => r && crate::text_changes::change_views(final(text_changes)@)
                    == crate::text_changes::change_views(old(text_changes)@) + added,
                None => !r,
            },
    {
        let ghost before = crate::text_changes::change_views(text_changes@);
        let resolved = match self.import_map.resolve(specifier, url) {
            Some(resolved) => resolved,
            None => {
                assert(before + Seq::empty() =~= before);
                return true;
            },
        };
        let (start, end): (usize, usize) = match to_range(source, range) {
            Some(bytes) => bytes,
            None => {
                return false;
            },
        };
        let new_text = match make_relative_to(url, resolved.as_str()) {
            Some(new_text) => new_text,
            None => {
                return false;
            },
        };
        text_changes.push(TextChange { start, end, new_text });
        assert(crate::text_changes::change_views(text_changes@) =~= before + seq![
            text_changes@.last()@,
        ]);
        true
    }

    /// Adds the changes to a list of specifiers in comments.
    fn analyze_references(
        &self,
        url: &str,
        source: &SourceModule,
        references: &Vec<SpecifierWithRange>,
        text_changes: &mut Vec<TextChange>,
    ) -> (r: bool)
        requires
            source.wf(),
        ensures
            match all_references_unfurl(
                *self.import_map,
                url@,
                source.text@,
                crate::source_module::specifier_views(references@),
            ) {
                Some(added) => r && crate::text_changes::change_views(final(text_changes)@)
                    == crate::text_changes::change_views(old(text_changes)@) + added,
                None => !r,
            },
    {
        let ghost views = crate::source_module::specifier_views(references@);
        let ghost before = crate::text_changes::change_views(text_changes@);
        assert(before + Seq::empty() =~= before);
        let mut i: usize = 0;
        while i < references.len()
            invariant
                i <= references.len(),
                source.wf(),
                views == crate::source_module::specifier_views(references@),
                references_unfurl(
                    *self.import_map,
                    url@,
                    source.text@,
                    views,
                    i as nat,
                ) matches Some(added) && crate::text_changes::change_views(text_changes@) == before
                    + added,
            decreases references.len() - i,
        {
            let reference = &references[i];
            assert(views[i as int] == reference@);
            let ghost current = crate::text_changes::change_views(text_changes@);
            if !self.analyze_specifier(
                url,
                source,
                reference.text.as_str(),
                reference.range,
                text_changes,
            ) {
                proof {
                    references_cannot_recover(
                        *self.import_map,
                        url@,
                        source.text@,
                        views,
                        (i + 1) as nat,
                        views.len(),
                    );
                }
                return false;
            }
            proof {
                let added = references_unfurl(
                    *self.import_map,
                    url@,
                    source.text@,
                    views,
                    i as nat,
                )->Some_0;
                let more = specifier_unfurl(
                    *self.import_map,
                    url@,
                    source.text@,
                    reference.text@,
                    reference.range,
                )->Some_0;
                assert((before + added) + more =~= before + (added + more));
            }
            i += 1;
        }
        true
    }
}

impl<'a> ImportMapUnfurler<'a> {
    /// The byte that a diagnostic gives for a position.
    fn diagnostic_position(source: &SourceModule, position: Position) -> (r: Option<usize>)
        requires
            source.wf(),
        ensures
            match r {
                Some(byte) => diagnostic_byte(source.text@, position) == Some(byte as int),
                None => diagnostic_byte(source.text@, position) is None,
            },
    {
        match source.line_start(position.line) {
            Some(start) => {
                if start < 0xFFFF_FFFF && position.character < 0xFFFF_FFFF - start {
                    Some(start + position.character)
                } else {
                    None
                }
            },
            None => None,
        }
    }

    /// Adds the change and the diagnostic that a dependency leads to. `false` where the module
    /// cannot be rewritten.
    fn analyze_dependency(
        &self,
        url: &str,
        source: &SourceModule,
        dependency: &DependencyDescriptor,
        text_changes: &mut Vec<TextChange>,
        diagnostics: &mut Vec<ImportMapUnfurlDiagnostic>,
    ) -> (r: bool)
        requires
            source.wf(),
        ensures
            match dependency_unfurl(*self.import_map, url@, source.text@, dependency@) {
                Some(added) => {
                    &&& r
                    &&& crate::text_changes::change_views(final(text_changes)@)
                        == crate::text_changes::change_views(old(text_changes)@) + added.0
                    &&& diagnostic_views(final(diagnostics)@) == diagnostic_views(
                        old(diagnostics)@,
                    ) + added.1
                },
                None => !r,
            },
    {
        let ghost changes_before = crate::text_changes::change_views(text_changes@);
        let ghost diagnostics_before = diagnostic_views(diagnostics@);
        proof {
            assert(changes_before + Seq::empty() =~= changes_before);
            assert(diagnostics_before + Seq::empty() =~= diagnostics_before);
        }
        if let DependencySpecifier::Static(specifier) = &dependency.specifier {
            return self.analyze_specifier(
                url,
                source,
                specifier.as_str(),
                dependency.range,
                text_changes,
            );
        }
        let success = match try_unfurl_dynamic_dep(
            self.import_map,
            url,
            source,
            &dependency.specifier,
            dependency.range,
            text_changes,
        ) {
            Some(success) => success,
            None => {
                return false;
            },
        };
        if success {
            proof {
                if let Some(DynamicUnfurl::Changed(change)) = dynamic_unfurl(
                    *self.import_map,
                    url@,
                    source.text@,
                    dependency.specifier@,
                    dependency.range,
                ) {
                    assert(changes_before.push(change) =~= changes_before + seq![change]);
                }
            }
            return true;
        }
        let start = Self::diagnostic_position(source, dependency.range.start);
        let end = Self::diagnostic_position(source, dependency.range.end);
        match (start, end) {
            (Some(start), Some(end)) => {
                diagnostics.push(
                    ImportMapUnfurlDiagnostic::UnanalyzableDynamicImport {
                        specifier: url.to_owned(),
                        text: source.text.clone(),
                        start,
                        end,
                    },
                );
                assert(diagnostic_views(diagnostics@) =~= diagnostics_before + seq![
                    diagnostics@.last()@,
                ]);
                true
            },
            _ => false,
        }
    }

    /// The text of a module in which every import that the import map maps is what it maps to. The
    /// imports that cannot be analyzed stay, with a diagnostic for each of them. `None`, without
    /// diagnostics, where the module cannot be rewritten: a range does not lie in the text, no
    /// relative path leads to a mapped file, or changes overlap.
    pub fn unfurl(
        &self,
        url: &str,
        source: &SourceModule,
        diagnostics: &mut Vec<ImportMapUnfurlDiagnostic>,
    ) -> (r: Option<String>)
        requires
            source.wf(),
        ensures
            match module_unfurl(*self.import_map, url@, source.text@, source.module_info@) {
                Some((changes, found)) => {
                    let bytes = encode_utf8(source.text@);
                    &&& r is Some <==> crate::text_changes::applicable(bytes, changes)
                    &&& r matches Some(text) ==> {
                        &&& encode_utf8(text@) == crate::text_changes::changed(bytes, changes)
                        &&& diagnostic_views(final(diagnostics)@) == diagnostic_views(
                            old(diagnostics)@,
                        ) + found
                    }
                },
                None => r is None,
            },
            r is None ==> final(diagnostics)@ == old(diagnostics)@,
    {
        let mut text_changes: Vec<TextChange> = Vec::new();
        let mut found: Vec<ImportMapUnfurlDiagnostic> = Vec::new();
        let ghost dependencies = crate::source_module::dependency_views(
            source.module_info.dependencies@,
        );
        proof {
            assert(crate::text_changes::change_views(text_changes@) =~= Seq::empty());
            assert(diagnostic_views(found@) =~= Seq::empty());
        }
        let mut i: usize = 0;
        while i < source.module_info.dependencies.len()
            invariant
                i <= source.module_info.dependencies.len(),
                source.wf(),
                dependencies == crate::source_module::dependency_views(
                    source.module_info.dependencies@,
                ),
                dependencies_unfurl(
                    *self.import_map,
                    url@,
                    source.text@,
                    dependencies,
                    i as nat,
                ) == Some(
                    (
                        crate::text_changes::change_views(text_changes@),
                        diagnostic_views(found@),
                    ),
                ),
            decreases source.module_info.dependencies.len() - i,
        {
            let dependency = &source.module_info.dependencies[i];
            assert(dependencies[i as int] == dependency@);
            if !self.analyze_dependency(url, source, dependency, &mut text_changes, &mut found) {
                proof {
                    dependencies_cannot_recover(
                        *self.import_map,
                        url@,
                        source.text@,
                        dependencies,
                        (i + 1) as nat,
                        dependencies.len(),
                    );
                }
                return None;
            }
            i += 1;
        }
        if !self.analyze_references(
            url,
            source,
            &source.module_info.ts_references,
            &mut text_changes,
        ) {
            return None;
        }
        if !self.analyze_references(
            url,
            source,
            &source.module_info.jsdoc_imports,
            &mut text_changes,
        ) {
            return None;
        }
        let ghost before_jsx = crate::text_changes::change_views(text_changes@);
        if let Some(reference) = &source.module_info.jsx_import_source {
            let analyzed = self.analyze_specifier(
                url,
                source,
                reference.text.as_str(),
                reference.range,
                &mut text_changes,
            );
            proof {
                let list = seq![reference@];
                reveal_with_fuel(references_unfurl, 2);
                assert(list[0] == reference@);
                if let Some(added) = specifier_unfurl(
                    *self.import_map,
                    url@,
                    source.text@,
                    reference.text@,
                    reference.range,
                ) {
                    assert(Seq::<TextChangeView>::empty() + added =~= added);
                }
            }
            if !analyzed {
                return None;
            }
        } else {
            assert(before_jsx + Seq::empty() =~= before_jsx);
        }
        if !can_apply(source.text.as_str(), &text_changes) {
            return None;
        }
        let ghost reported = diagnostics@;
        let ghost added = found@;
        let text = apply_text_changes(source.text.as_str(), text_changes);
        diagnostics.append(&mut found);
        assert(diagnostic_views(diagnostics@) =~= diagnostic_views(reported) + diagnostic_views(
            added,
        ));
        Some(text)
    }
}

/// Where the first specifiers cannot be rewritten, more of them do not help.
proof fn references_cannot_recover(
    resolver: MappedSpecifierResolver,
    url: Seq<char>,
    text: Seq<char>,
    references: Seq<SpecifierView>,
    n: nat,
    m: nat,
)
    requires
        n <= m,
        references_unfurl(resolver, url, text, references, n) is None,
    ensures
        references_unfurl(resolver, url, text, references, m) is None,
    decreases m,
{
    if n < m {
        references_cannot_recover(resolver, url, text, references, n, (m - 1) as nat);
    }
}

/// Where the first dependencies cannot be rewritten, more of them do not help.
proof fn dependencies_cannot_recover(
    resolver: MappedSpecifierResolver,
    url: Seq<char>,
    text: Seq<char>,
    dependencies: Seq<DependencyView>,
    n: nat,
    m: nat,
)
    requires
        n <= m,
        dependencies_unfurl(resolver, url, text, dependencies, n) is None,
    ensures
        dependencies_unfurl(resolver, url, text, dependencies, m) is None,
    decreases m,
{
    if n < m {
        dependencies_cannot_recover(resolver, url, text, dependencies, n, (m - 1) as nat);
    }
}

/// A text that is looked up where it is the leading text of a template: not a relative one, and only
/// one that ends in a slash.
pub open spec fn is_leading_directory(value: Seq<char>) -> bool {
    &&& !crate::text::starts_with_text(value, "./"@)
    &&& !crate::text::starts_with_text(value, "../"@)
    &&& value.len() > 0 && value.last() == '/'
}

/// The specifier that is looked up for a dependency, if any: that of a static import, the text of
/// a dynamic one that stands literally in the module, or the leading text of a template where it is a
/// directory.
pub open spec fn looked_up(text: Seq<char>, dependency: DependencyView) -> Option<Seq<char>> {
    match dependency.specifier {
        DependencySpecifierView::Static(value) => Some(value),
        DependencySpecifierView::DynamicString(value) => match unquoted_range(
            text,
            dependency.range,
        ) {
            Some((start, _)) => if find_from(encode_utf8(text), encode_utf8(value), start) is Some {
                Some(value)
            } else {
                None
            },
            None => None,
        },
        DependencySpecifierView::DynamicTemplate(parts) => if parts.len() > 0 {
            match parts[0] {
                Some(value) => if is_leading_directory(value) {
                    Some(value)
                } else {
                    None
                },
                None => None,
            }
        } else {
            None
        },
        DependencySpecifierView::DynamicExpr => None,
    }
}

/// The specifiers that are looked up for the first `n` dependencies, in order.
pub open spec fn dependencies_looked_up(
    text: Seq<char>,
    dependencies: Seq<DependencyView>,
    n: nat,
) -> Seq<Seq<char>>
    decreases n,
{
    if n == 0 {
        Seq::empty()
    } else {
        let before = dependencies_looked_up(text, dependencies, (n - 1) as nat);
        match looked_up(text, dependencies[n - 1]) {
            Some(value) => before.push(value),
            None => before,
        }
    }
}

/// The specifiers of a module that are looked up in the import map: those of its dependencies, and
/// those in its comments.
pub open spec fn module_looked_up(text: Seq<char>, module: ModuleInfoView) -> Seq<Seq<char>> {
    dependencies_looked_up(text, module.dependencies, module.dependencies.len())
        + reference_texts(module.ts_references) + reference_texts(module.jsdoc_imports)
        + reference_texts(opt_as_list(module.jsx_import_source))
}

/// The texts of specifiers in comments.
pub open spec fn reference_texts(
    references: Seq<SpecifierView>,
) -> Seq<Seq<char>> {
    references.map_values(|r: SpecifierView| r.text)
}

fn push_reference_texts(references: &Vec<SpecifierWithRange>, texts: &mut Vec<String>)
    ensures
        crate::text::texts(final(texts)@) == crate::text::texts(old(texts)@) + reference_texts(
            crate::source_module::specifier_views(references@),
        ),
{
    let ghost before = crate::text::texts(texts@);
    let ghost all = reference_texts(crate::source_module::specifier_views(references@));
    assert(before + all.take(0) =~= before);
    let mut i: usize = 0;
    while i < references.len()
        invariant
            i <= references.len(),
            all == reference_texts(crate::source_module::specifier_views(references@)),
            crate::text::texts(texts@) == before + all.take(i as int),
        decreases references.len() - i,
    {
        let ghost current = texts@;
        texts.push(references[i].text.clone());
        assert(crate::text::texts(texts@) =~= crate::text::texts(current).push(
            references@[i as int].text@,
        ));
        assert(all[i as int] == references@[i as int].text@);
        assert(before + all.take(i + 1) =~= (before + all.take(i as int)).push(all[i as int]));
        i += 1;
    }
    assert(all.take(i as int) =~= all);
}

/// The specifier that is looked up for a dependency, if any.
fn specifier_to_resolve(source: &SourceModule, dependency: &DependencyDescriptor) -> (r: Option<
    String,
>)
    requires
        source.wf(),
    ensures
        crate::text::opt_text(r) == looked_up(source.text@, dependency@),
{
    match &dependency.specifier {
        DependencySpecifier::Static(value) => Some(value.clone()),
        DependencySpecifier::DynamicString(value) => {
            let (start, _end): (usize, usize) = match to_range(source, dependency.range) {
                Some(bytes) => bytes,
                None => {
                    return None;
                },
            };
            let text = source.text.as_str().as_bytes();
            if find_bytes(text, value.as_str().as_bytes(), start).is_some() {
                Some(value.clone())
            } else {
                None
            }
        },
        DependencySpecifier::DynamicTemplate(parts) => {
            if parts.len() == 0 {
                return None;
            }
            assert(crate::source_module::part_views(parts@)[0] == crate::text::opt_text(parts@[0]));
            match &parts[0] {
                Some(value) => if !has_prefix(value.as_str(), "./") && !has_prefix(
                    value.as_str(),
                    "../",
                ) && ends_with_slash(value.as_str()) {
                    Some(value.clone())
                } else {
                    None
                },
                None => None,
            }
        },
        DependencySpecifier::DynamicExpr => None,
    }
}

/// The specifiers that the import map is asked about when the module is unfurled.
pub fn specifiers_to_resolve(source: &SourceModule) -> (r: Vec<String>)
    requires
        source.wf(),
    ensures
        crate::text::texts(r@) == module_looked_up(source.text@, source.module_info@),
{
    let mut texts: Vec<String> = Vec::new();
    let ghost dependencies = source.module_info@.dependencies;
    assert(crate::text::texts(texts@) =~= Seq::empty());
    let mut i: usize = 0;
    while i < source.module_info.dependencies.len()
        invariant
            i <= source.module_info.dependencies.len(),
            source.wf(),
            dependencies == source.module_info@.dependencies,
            crate::text::texts(texts@) == dependencies_looked_up(
                source.text@,
                dependencies,
                i as nat,
            ),
        decreases source.module_info.dependencies.len() - i,
    {
        let dependency = &source.module_info.dependencies[i];
        assert(dependencies[i as int] == dependency@);
        let text = specifier_to_resolve(source, dependency);
        if let Some(text) = text {
            let ghost current = texts@;
            texts.push(text);
            assert(crate::text::texts(texts@) =~= crate::text::texts(current).push(text@));
        }
        i += 1;
    }
    push_reference_texts(&source.module_info.ts_references, &mut texts);
    push_reference_texts(&source.module_info.jsdoc_imports, &mut texts);
    let ghost before_jsx = crate::text::texts(texts@);
    match &source.module_info.jsx_import_source {
        Some(reference) => {
            texts.push(reference.text.clone());
            assert(reference_texts(seq![reference@]) =~= seq![reference.text@]);
            assert(crate::text::texts(texts@) =~= before_jsx + seq![reference.text@]);
        },
        None => {
            assert(reference_texts(Seq::empty()) =~= Seq::empty());
            assert(before_jsx + Seq::empty() =~= before_jsx);
        },
    }
    texts
}

/// The resolvers say the same about each of the specifiers.
pub open spec fn agree(
    a: MappedSpecifierResolver,
    b: MappedSpecifierResolver,
    url: Seq<char>,
    specifiers: Seq<Seq<char>>,
) -> bool {
    forall|i: int|
        0 <= i < specifiers.len() ==> a.maps(#[trigger] specifiers[i], url) == b.maps(
            specifiers[i],
            url,
        )
}

proof fn dependencies_depend_on_answers(
    a: MappedSpecifierResolver,
    b: MappedSpecifierResolver,
    url: Seq<char>,
    text: Seq<char>,
    dependencies: Seq<DependencyView>,
    n: nat,
)
    requires
        n <= dependencies.len(),
        agree(a, b, url, dependencies_looked_up(text, dependencies, n)),
    ensures
        dependencies_unfurl(a, url, text, dependencies, n) == dependencies_unfurl(
            b,
            url,
            text,
            dependencies,
            n,
        ),
    decreases n,
{
    if n > 0 {
        let before = dependencies_looked_up(text, dependencies, (n - 1) as nat);
        let all = dependencies_looked_up(text, dependencies, n);
        assert forall|i: int| 0 <= i < before.len() implies a.maps(#[trigger] before[i], url)
            == b.maps(before[i], url) by {
            assert(all[i] == before[i]);
        }
        if looked_up(text, dependencies[n - 1]) is Some {
            assert(all[before.len() as int] == looked_up(text, dependencies[n - 1])->Some_0);
        }
        dependencies_depend_on_answers(a, b, url, text, dependencies, (n - 1) as nat);
    }
}

proof fn references_depend_on_answers(
    a: MappedSpecifierResolver,
    b: MappedSpecifierResolver,
    url: Seq<char>,
    text: Seq<char>,
    references: Seq<SpecifierView>,
    n: nat,
)
    requires
        n <= references.len(),
        agree(a, b, url, reference_texts(references)),
    ensures
        references_unfurl(a, url, text, references, n) == references_unfurl(
            b,
            url,
            text,
            references,
            n,
        ),
    decreases n,
{
    if n > 0 {
        assert(reference_texts(references)[n - 1] == references[n - 1].text);
        references_depend_on_answers(a, b, url, text, references, (n - 1) as nat);
    }
}

/// What becomes of a module depends on nothing of the import map but what it says about the
/// specifiers that are looked up.
pub proof fn unfurl_depends_on_looked_up_specifiers(
    a: MappedSpecifierResolver,
    b: MappedSpecifierResolver,
    url: Seq<char>,
    text: Seq<char>,
    module: ModuleInfoView,
)
    requires
        agree(a, b, url, module_looked_up(text, module)),
    ensures
        module_unfurl(a, url, text, module) == module_unfurl(b, url, text, module),
{
    let all = module_looked_up(text, module);
    let deps = dependencies_looked_up(text, module.dependencies, module.dependencies.len());
    let ts = reference_texts(module.ts_references);
    let jsdoc = reference_texts(module.jsdoc_imports);
    let jsx = reference_texts(opt_as_list(module.jsx_import_source));
    assert forall|i: int| 0 <= i < deps.len() implies a.maps(#[trigger] deps[i], url) == b.maps(
        deps[i],
        url,
    ) by {
        assert(all[i] == deps[i]);
    }
    assert forall|i: int| 0 <= i < ts.len() implies a.maps(#[trigger] ts[i], url) == b.maps(
        ts[i],
        url,
    ) by {
        assert(all[deps.len() + i] == ts[i]);
    }
    assert forall|i: int| 0 <= i < jsdoc.len() implies a.maps(#[trigger] jsdoc[i], url) == b.maps(
        jsdoc[i],
        url,
    ) by {
        assert(all[deps.len() + ts.len() + i] == jsdoc[i]);
    }
    assert forall|i: int| 0 <= i < jsx.len() implies a.maps(#[trigger] jsx[i], url) == b.maps(
        jsx[i],
        url,
    ) by {
        assert(all[deps.len() + ts.len() + jsdoc.len() + i] == jsx[i]);
    }
    dependencies_depend_on_answers(
        a,
        b,
        url,
        text,
        module.dependencies,
        module.dependencies.len(),
    );
    references_depend_on_answers(a, b, url, text, module.ts_references, module.ts_references.len());
    references_depend_on_answers(a, b, url, text, module.jsdoc_imports, module.jsdoc_imports.len());
    references_depend_on_answers(
        a,
        b,
        url,
        text,
        opt_as_list(module.jsx_import_source),
        opt_as_list(module.jsx_import_source).len(),
    );
}

proof fn unmapped_dependencies_stay(
    resolver: MappedSpecifierResolver,
    url: Seq<char>,
    text: Seq<char>,
    dependencies: Seq<DependencyView>,
    n: nat,
)
    requires
        forall|specifier: Seq<char>| #[trigger] resolver.maps(specifier, url) is None,
    ensures
        dependencies_unfurl(resolver, url, text, dependencies, n) matches Some(found)
            ==> found.0.len() == 0,
    decreases n,
{
    if n > 0 {
        unmapped_dependencies_stay(resolver, url, text, dependencies, (n - 1) as nat);
    }
}

proof fn unmapped_references_stay(
    resolver: MappedSpecifierResolver,
    url: Seq<char>,
    text: Seq<char>,
    references: Seq<SpecifierView>,
    n: nat,
)
    requires
        forall|specifier: Seq<char>| #[trigger] resolver.maps(specifier, url) is None,
    ensures
        references_unfurl(resolver, url, text, references, n) matches Some(changes) && changes.len()
            == 0,
    decreases n,
{
    if n > 0 {
        unmapped_references_stay(resolver, url, text, references, (n - 1) as nat);
    }
}

/// A module whose specifiers the import map does not map keeps its text, whatever is reported
/// about it.
pub proof fn unmapped_module_keeps_its_text(
    resolver: MappedSpecifierResolver,
    url: Seq<char>,
    text: Seq<char>,
    module: ModuleInfoView,
)
    requires
        forall|specifier: Seq<char>| #[trigger] resolver.maps(specifier, url) is None,
    ensures
        module_unfurl(resolver, url, text, module) matches Some((changes, found)) ==> {
            &&& crate::text_changes::applicable(encode_utf8(text), changes)
            &&& crate::text_changes::changed(encode_utf8(text), changes) == encode_utf8(text)
        },
{
    unmapped_dependencies_stay(resolver, url, text, module.dependencies, module.dependencies.len());
    unmapped_references_stay(
        resolver,
        url,
        text,
        module.ts_references,
        module.ts_references.len(),
    );
    unmapped_references_stay(
        resolver,
        url,
        text,
        module.jsdoc_imports,
        module.jsdoc_imports.len(),
    );
    unmapped_references_stay(
        resolver,
        url,
        text,
        opt_as_list(module.jsx_import_source),
        opt_as_list(module.jsx_import_source).len(),
    );
    if let Some((changes, found)) = module_unfurl(resolver, url, text, module) {
        assert(changes =~= Seq::empty());
        crate::text_changes::no_changes_keep_the_text(encode_utf8(text));
    }
}

/// Where the import map maps a specifier of the module to a file, a relative path leads there.
pub open spec fn can_refer_to_answers(resolver: MappedSpecifierResolver, url: Seq<char>) -> bool {
    forall|specifier: Seq<char>|
        (#[trigger] resolver.maps(specifier, url)) matches Some(to) ==> relative_to(
            to,
            crate::url::relative_url(url, to),
        ) is Some
}

/// The range is that of a single quotation mark, which is taken for the first and for the last one.
pub open spec fn is_lone_quote(text: Seq<char>, range: PositionRange) -> bool {
    match (
        crate::source_module::byte_index(text, range.start),
        crate::source_module::byte_index(text, range.end),
    ) {
        (Some(start), Some(end)) => end == start + 1 && is_quote(encode_utf8(text)[start]),
        _ => false,
    }
}

/// None of the specifiers in comments is a single quotation mark.
pub open spec fn have_no_lone_quote(text: Seq<char>, references: Seq<SpecifierView>) -> bool {
    forall|i: int|
        0 <= i < references.len() ==> !is_lone_quote(text, (#[trigger] references[i]).range)
}

/// None of the specifiers of a module is a single quotation mark.
pub open spec fn has_no_lone_quote(text: Seq<char>, module: ModuleInfoView) -> bool {
    &&& forall|i: int|
        0 <= i < module.dependencies.len() ==> !is_lone_quote(
            text,
            (#[trigger] module.dependencies[i]).range,
        )
    &&& have_no_lone_quote(text, module.ts_references)
    &&& have_no_lone_quote(text, module.jsdoc_imports)
    &&& have_no_lone_quote(text, opt_as_list(module.jsx_import_source))
}

/// All changes fit the text.
pub open spec fn all_fit(text: Seq<char>, changes: Seq<TextChangeView>) -> bool {
    forall|i: int|
        0 <= i < changes.len() ==> crate::text_changes::fits(
            encode_utf8(text),
            #[trigger] changes[i],
        )
}

/// No two changes overlap.
pub open spec fn all_apart(changes: Seq<TextChangeView>) -> bool {
    forall|i: int, j: int|
        0 <= i < j < changes.len() ==> crate::text_changes::apart(
            #[trigger] changes[i],
            #[trigger] changes[j],
        )
}

proof fn range_can_be_unquoted(text: Seq<char>, range: PositionRange)
    requires
        crate::source_module::is_source_text(text),
        crate::source_module::range_lies_in(range, text),
    ensures
        unquoted_range(text, range) matches Some((start, end)) && {
            &&& is_char_boundary(encode_utf8(text), start)
            &&& is_char_boundary(encode_utf8(text), end)
            &&& 0 <= start <= encode_utf8(text).len()
            &&& 0 <= end <= encode_utf8(text).len()
            &&& !is_lone_quote(text, range) ==> start <= end
        },
{
    let bytes = encode_utf8(text);
    encode_utf8_valid_utf8(text);
    crate::source_module::position_is_boundary(range.start, text);
    crate::source_module::position_is_boundary(range.end, text);
    let start = crate::source_module::byte_index(text, range.start)->Some_0;
    let end = crate::source_module::byte_index(text, range.end)->Some_0;
    if start < end && is_quote(bytes[start]) {
        crate::boundaries::ascii_lies_between_boundaries(bytes, start);
    }
    if start < end && is_quote(bytes[end - 1]) {
        crate::boundaries::ascii_lies_between_boundaries(bytes, end - 1);
    }
}

proof fn specifier_can_be_rewritten(
    resolver: MappedSpecifierResolver,
    url: Seq<char>,
    text: Seq<char>,
    specifier: Seq<char>,
    range: PositionRange,
)
    requires
        crate::source_module::is_source_text(text),
        crate::source_module::range_lies_in(range, text),
        can_refer_to_answers(resolver, url),
    ensures
        specifier_unfurl(resolver, url, text, specifier, range) matches Some(changes) && (
        !is_lone_quote(text, range) ==> all_fit(text, changes)),
{
    range_can_be_unquoted(text, range);
}

proof fn found_value_stands_there(bytes: Seq<u8>, needle: Seq<u8>, from: int)
    requires
        0 <= from,
    ensures
        find_from(bytes, needle, from) matches Some(at) ==> {
            &&& from <= at
            &&& at + needle.len() <= bytes.len()
            &&& bytes.subrange(at, at + needle.len()) == needle
            &&& needle.len() == 0 ==> at == from
        },
    decreases bytes.len() - from + 1,
{
    if from + needle.len() <= bytes.len() {
        if needle.len() == 0 {
            assert(bytes.subrange(from, from) =~= needle);
        } else if bytes.subrange(from, from + needle.len()) != needle {
            found_value_stands_there(bytes, needle, from + 1);
        }
    }
}

proof fn value_can_be_rewritten(
    url: Seq<char>,
    text: Seq<char>,
    range: PositionRange,
    value: Seq<char>,
    resolved: Option<Seq<char>>,
)
    requires
        crate::source_module::is_source_text(text),
        crate::source_module::range_lies_in(range, text),
        resolved matches Some(to) ==> relative_to(to, crate::url::relative_url(url, to)) is Some,
    ensures
        value_unfurl(url, text, range, value, resolved) matches Some(unfurled) && (
        unfurled matches DynamicUnfurl::Changed(change) ==> crate::text_changes::fits(
            encode_utf8(text),
            change,
        )),
{
    let bytes = encode_utf8(text);
    encode_utf8_valid_utf8(text);
    range_can_be_unquoted(text, range);
    let (start, _) = unquoted_range(text, range)->Some_0;
    found_value_stands_there(bytes, encode_utf8(value), start);
    if let Some(at) = find_from(bytes, encode_utf8(value), start) {
        if value.len() > 0 {
            crate::boundaries::encoding_within_lies_between_boundaries(bytes, at, value);
        }
    }
}

proof fn dependency_can_be_rewritten(
    resolver: MappedSpecifierResolver,
    url: Seq<char>,
    text: Seq<char>,
    dependency: DependencyView,
)
    requires
        crate::source_module::is_source_text(text),
        crate::source_module::range_lies_in(dependency.range, text),
        can_refer_to_answers(resolver, url),
    ensures
        dependency_unfurl(resolver, url, text, dependency) matches Some((changes, _)) && (
        !is_lone_quote(text, dependency.range) ==> all_fit(text, changes)),
{
    let range = dependency.range;
    crate::source_module::position_is_boundary(range.start, text);
    crate::source_module::position_is_boundary(range.end, text);
    match dependency.specifier {
        DependencySpecifierView::Static(specifier) => {
            specifier_can_be_rewritten(resolver, url, text, specifier, range);
        },
        DependencySpecifierView::DynamicString(value) => {
            value_can_be_rewritten(url, text, range, value, resolver.maps(value, url));
        },
        DependencySpecifierView::DynamicTemplate(parts) => {
            if parts.len() > 0 {
                if let Some(value) = parts[0] {
                    value_can_be_rewritten(url, text, range, value, resolver.maps(value, url));
                }
            }
        },
        DependencySpecifierView::DynamicExpr => {},
    }
}

proof fn dependencies_can_be_rewritten(
    resolver: MappedSpecifierResolver,
    url: Seq<char>,
    text: Seq<char>,
    module: ModuleInfoView,
    n: nat,
)
    requires
        crate::source_module::is_source_text(text),
        crate::source_module::ranges_lie_in(module, text),
        can_refer_to_answers(resolver, url),
        n <= module.dependencies.len(),
    ensures
        dependencies_unfurl(resolver, url, text, module.dependencies, n) matches Some((changes, _))
            && (has_no_lone_quote(text, module) ==> all_fit(text, changes)),
    decreases n,
{
    if n > 0 {
        dependencies_can_be_rewritten(resolver, url, text, module, (n - 1) as nat);
        dependency_can_be_rewritten(resolver, url, text, module.dependencies[n - 1]);
    }
}

proof fn references_can_be_rewritten(
    resolver: MappedSpecifierResolver,
    url: Seq<char>,
    text: Seq<char>,
    references: Seq<SpecifierView>,
    n: nat,
)
    requires
        crate::source_module::is_source_text(text),
        crate::source_module::specifiers_lie_in(references, text),
        can_refer_to_answers(resolver, url),
        n <= references.len(),
    ensures
        references_unfurl(resolver, url, text, references, n) matches Some(changes) && (
        have_no_lone_quote(text, references) ==> all_fit(text, changes)),
    decreases n,
{
    if n > 0 {
        references_can_be_rewritten(resolver, url, text, references, (n - 1) as nat);
        specifier_can_be_rewritten(
            resolver,
            url,
            text,
            references[n - 1].text,
            references[n - 1].range,
        );
    }
}

/// A module whose ranges lie in its text can be rewritten wherever its imports can refer to what they
/// are mapped to: only changes that overlap stand in the way, unless a single quotation mark is taken
/// for a specifier.
pub proof fn module_can_be_rewritten(
    resolver: MappedSpecifierResolver,
    url: Seq<char>,
    text: Seq<char>,
    module: ModuleInfoView,
)
    requires
        crate::source_module::is_source_text(text),
        crate::source_module::ranges_lie_in(module, text),
        can_refer_to_answers(resolver, url),
    ensures
        module_unfurl(resolver, url, text, module) matches Some((changes, _)) && (has_no_lone_quote(
            text,
            module,
        ) ==> {
            &&& all_fit(text, changes)
            &&& crate::text_changes::applicable(encode_utf8(text), changes) <==> all_apart(changes)
        }),
{
    let jsx = opt_as_list(module.jsx_import_source);
    assert(crate::source_module::specifiers_lie_in(jsx, text));
    dependencies_can_be_rewritten(resolver, url, text, module, module.dependencies.len());
    references_can_be_rewritten(resolver, url, text, module.ts_references, module.ts_references.len());
    references_can_be_rewritten(resolver, url, text, module.jsdoc_imports, module.jsdoc_imports.len());
    references_can_be_rewritten(resolver, url, text, jsx, jsx.len());
}

proof fn mapped_reference_is_rewritten(
    resolver: MappedSpecifierResolver,
    url: Seq<char>,
    text: Seq<char>,
    references: Seq<SpecifierView>,
    n: nat,
    i: int,
    to: Seq<char>,
) -> (k: int)
    requires
        references_unfurl(resolver, url, text, references, n) is Some,
        0 <= i < n <= references.len(),
        resolver.maps(references[i].text, url) == Some(to),
    ensures
        ({
            let changes = references_unfurl(resolver, url, text, references, n)->Some_0;
            &&& 0 <= k < changes.len()
            &&& unquoted_range(text, references[i].range) == Some(
                (changes[k].start, changes[k].end),
            )
            &&& relative_to(to, crate::url::relative_url(url, to)) == Some(changes[k].new_text)
        }),
    decreases n,
{
    let changes = references_unfurl(resolver, url, text, references, n)->Some_0;
    let before = references_unfurl(resolver, url, text, references, (n - 1) as nat)->Some_0;
    if i == n - 1 {
        before.len() as int
    } else {
        let k = mapped_reference_is_rewritten(
            resolver,
            url,
            text,
            references,
            (n - 1) as nat,
            i,
            to,
        );
        assert(changes[k] == before[k]);
        k
    }
}

proof fn mapped_references_are_counted(
    resolver: MappedSpecifierResolver,
    url: Seq<char>,
    text: Seq<char>,
    references: Seq<SpecifierView>,
    n: nat,
)
    requires
        references_unfurl(resolver, url, text, references, n) is Some,
        n <= references.len(),
    ensures
        references_unfurl(resolver, url, text, references, n)->Some_0.len() == references.take(
            n as int,
        ).filter(|r: SpecifierView| resolver.maps(r.text, url) is Some).len(),
    decreases n,
{
    reveal(Seq::filter);
    let first = references.take(n as int);
    if n > 0 {
        mapped_references_are_counted(resolver, url, text, references, (n - 1) as nat);
        assert(first.drop_last() =~= references.take(n - 1));
        assert(first.last() == references[n - 1]);
    }
}

/// Every triple slash reference that the import map maps is rewritten to what it is mapped to, however
/// many of them there are.
pub proof fn mapped_triple_slash_reference_is_rewritten(
    resolver: MappedSpecifierResolver,
    url: Seq<char>,
    text: Seq<char>,
    module: ModuleInfoView,
    i: int,
    to: Seq<char>,
) -> (k: int)
    requires
        module_unfurl(resolver, url, text, module) is Some,
        0 <= i < module.ts_references.len(),
        resolver.maps(module.ts_references[i].text, url) == Some(to),
    ensures
        ({
            let changes = module_unfurl(resolver, url, text, module)->Some_0.0;
            &&& 0 <= k < changes.len()
            &&& unquoted_range(text, module.ts_references[i].range) == Some(
                (changes[k].start, changes[k].end),
            )
            &&& relative_to(to, crate::url::relative_url(url, to)) == Some(changes[k].new_text)
        }),
{
    let references = module.ts_references;
    let at = mapped_reference_is_rewritten(
        resolver,
        url,
        text,
        references,
        references.len(),
        i,
        to,
    );
    let changes = module_unfurl(resolver, url, text, module)->Some_0.0;
    let own = all_references_unfurl(resolver, url, text, references)->Some_0;
    let before = dependencies_unfurl(
        resolver,
        url,
        text,
        module.dependencies,
        module.dependencies.len(),
    )->Some_0.0.len();
    assert(changes[before + at] == own[at]);
    before + at
}

/// Every JSDoc import that the import map maps is rewritten to what it is mapped to, however many of
/// them there are.
pub proof fn mapped_jsdoc_import_is_rewritten(
    resolver: MappedSpecifierResolver,
    url: Seq<char>,
    text: Seq<char>,
    module: ModuleInfoView,
    i: int,
    to: Seq<char>,
) -> (k: int)
    requires
        module_unfurl(resolver, url, text, module) is Some,
        0 <= i < module.jsdoc_imports.len(),
        resolver.maps(module.jsdoc_imports[i].text, url) == Some(to),
    ensures
        ({
            let changes = module_unfurl(resolver, url, text, module)->Some_0.0;
            &&& 0 <= k < changes.len()
            &&& unquoted_range(text, module.jsdoc_imports[i].range) == Some(
                (changes[k].start, changes[k].end),
            )
            &&& relative_to(to, crate::url::relative_url(url, to)) == Some(changes[k].new_text)
        }),
{
    let references = module.jsdoc_imports;
    let at = mapped_reference_is_rewritten(
        resolver,
        url,
        text,
        references,
        references.len(),
        i,
        to,
    );
    let changes = module_unfurl(resolver, url, text, module)->Some_0.0;
    let own = all_references_unfurl(resolver, url, text, references)->Some_0;
    let before = dependencies_unfurl(
        resolver,
        url,
        text,
        module.dependencies,
        module.dependencies.len(),
    )->Some_0.0.len() + all_references_unfurl(resolver, url, text, module.ts_references)->Some_0.len();
    assert(changes[before + at] == own[at]);
    before + at
}

/// The JSX import source is rewritten to what it is mapped to, where the import map maps it.
pub proof fn mapped_jsx_import_source_is_rewritten(
    resolver: MappedSpecifierResolver,
    url: Seq<char>,
    text: Seq<char>,
    module: ModuleInfoView,
    to: Seq<char>,
) -> (k: int)
    requires
        module_unfurl(resolver, url, text, module) is Some,
        module.jsx_import_source is Some,
        resolver.maps(module.jsx_import_source->Some_0.text, url) == Some(to),
    ensures
        ({
            let changes = module_unfurl(resolver, url, text, module)->Some_0.0;
            &&& k == changes.len() - 1
            &&& unquoted_range(text, module.jsx_import_source->Some_0.range) == Some(
                (changes[k].start, changes[k].end),
            )
            &&& relative_to(to, crate::url::relative_url(url, to)) == Some(changes[k].new_text)
        }),
{
    let references = opt_as_list(module.jsx_import_source);
    let at = mapped_reference_is_rewritten(resolver, url, text, references, 1, 0, to);
    mapped_references_are_counted(resolver, url, text, references, 1);
    let changes = module_unfurl(resolver, url, text, module)->Some_0.0;
    let own = all_references_unfurl(resolver, url, text, references)->Some_0;
    assert(references.take(1) =~= references);
    references.lemma_filter_len(|r: SpecifierView| resolver.maps(r.text, url) is Some);
    assert(changes[changes.len() - own.len() + at] == own[at]);
    changes.len() - 1
}

/// What a dependency leads to stands among what all of them lead to.
proof fn dependency_takes_part(
    resolver: MappedSpecifierResolver,
    url: Seq<char>,
    text: Seq<char>,
    dependencies: Seq<DependencyView>,
    n: nat,
    i: int,
) -> (at: (int, int))
    requires
        dependencies_unfurl(resolver, url, text, dependencies, n) is Some,
        0 <= i < n <= dependencies.len(),
    ensures
        dependency_unfurl(resolver, url, text, dependencies[i]) is Some,
        ({
            let all = dependencies_unfurl(resolver, url, text, dependencies, n)->Some_0;
            let own = dependency_unfurl(resolver, url, text, dependencies[i])->Some_0;
            &&& 0 <= at.0 <= at.0 + own.0.len() <= all.0.len()
            &&& 0 <= at.1 <= at.1 + own.1.len() <= all.1.len()
            &&& all.0.subrange(at.0, at.0 + own.0.len()) == own.0
            &&& all.1.subrange(at.1, at.1 + own.1.len()) == own.1
        }),
    decreases n,
{
    let all = dependencies_unfurl(resolver, url, text, dependencies, n)->Some_0;
    let own = dependency_unfurl(resolver, url, text, dependencies[i])->Some_0;
    let before = dependencies_unfurl(resolver, url, text, dependencies, (n - 1) as nat)->Some_0;
    if i == n - 1 {
        let at = (before.0.len() as int, before.1.len() as int);
        assert(all.0.subrange(at.0, at.0 + own.0.len()) =~= own.0);
        assert(all.1.subrange(at.1, at.1 + own.1.len()) =~= own.1);
        at
    } else {
        let at = dependency_takes_part(resolver, url, text, dependencies, (n - 1) as nat, i);
        assert(all.0.subrange(at.0, at.0 + own.0.len()) =~= before.0.subrange(
            at.0,
            at.0 + own.0.len(),
        ));
        assert(all.1.subrange(at.1, at.1 + own.1.len()) =~= before.1.subrange(
            at.1,
            at.1 + own.1.len(),
        ));
        at
    }
}

/// Every static import and export that the import map maps is rewritten to what it is mapped to.
pub proof fn mapped_static_import_is_rewritten(
    resolver: MappedSpecifierResolver,
    url: Seq<char>,
    text: Seq<char>,
    module: ModuleInfoView,
    i: int,
    specifier: Seq<char>,
    to: Seq<char>,
) -> (k: int)
    requires
        module_unfurl(resolver, url, text, module) is Some,
        0 <= i < module.dependencies.len(),
        module.dependencies[i].specifier == DependencySpecifierView::Static(specifier),
        resolver.maps(specifier, url) == Some(to),
    ensures
        ({
            let changes = module_unfurl(resolver, url, text, module)->Some_0.0;
            &&& 0 <= k < changes.len()
            &&& unquoted_range(text, module.dependencies[i].range) == Some(
                (changes[k].start, changes[k].end),
            )
            &&& relative_to(to, crate::url::relative_url(url, to)) == Some(changes[k].new_text)
        }),
{
    let n = module.dependencies.len();
    let changes = module_unfurl(resolver, url, text, module)->Some_0.0;
    let all = dependencies_unfurl(resolver, url, text, module.dependencies, n)->Some_0.0;
    let own = dependency_unfurl(resolver, url, text, module.dependencies[i])->Some_0.0;
    let at = dependency_takes_part(resolver, url, text, module.dependencies, n, i);
    assert(all.subrange(at.0, at.0 + own.len())[0] == own[0]);
    assert(changes[at.0] == all[at.0]);
    at.0
}

/// Every dynamic import of a text that the import map maps is rewritten to what it is mapped to, at
/// the first place from the range's start on where the text stands.
pub proof fn mapped_dynamic_import_is_rewritten(
    resolver: MappedSpecifierResolver,
    url: Seq<char>,
    text: Seq<char>,
    module: ModuleInfoView,
    i: int,
    value: Seq<char>,
    to: Seq<char>,
    stands_at: int,
) -> (k: int)
    requires
        module_unfurl(resolver, url, text, module) is Some,
        0 <= i < module.dependencies.len(),
        module.dependencies[i].specifier == DependencySpecifierView::DynamicString(value) || (
        module.dependencies[i].specifier matches DependencySpecifierView::DynamicTemplate(parts)
            && parts.len() > 0 && parts[0] == Some(value) && value.len() > 0 && value.last() == '/'
            && !"./"@.is_prefix_of(value) && !"../"@.is_prefix_of(value)),
        resolver.maps(value, url) == Some(to),
        unquoted_range(text, module.dependencies[i].range) matches Some((start, _)) && 0 <= start
            <= stands_at <= encode_utf8(text).len() - encode_utf8(value).len(),
        encode_utf8(text).subrange(stands_at, stands_at + encode_utf8(value).len()) == encode_utf8(
            value,
        ),
    ensures
        ({
            let changes = module_unfurl(resolver, url, text, module)->Some_0.0;
            let (start, _) = unquoted_range(text, module.dependencies[i].range)->Some_0;
            &&& 0 <= k < changes.len()
            &&& start <= changes[k].start <= stands_at
            &&& changes[k].end == changes[k].start + encode_utf8(value).len()
            &&& encode_utf8(text).subrange(changes[k].start, changes[k].end) == encode_utf8(value)
            &&& relative_to(to, crate::url::relative_url(url, to)) == Some(changes[k].new_text)
        }),
{
    let n = module.dependencies.len();
    let changes = module_unfurl(resolver, url, text, module)->Some_0.0;
    let all = dependencies_unfurl(resolver, url, text, module.dependencies, n)->Some_0.0;
    let at = dependency_takes_part(resolver, url, text, module.dependencies, n, i);
    let own = dependency_unfurl(resolver, url, text, module.dependencies[i])->Some_0.0;
    let (start, _) = unquoted_range(text, module.dependencies[i].range)->Some_0;
    crate::text::starts_with_a_prefix(value, "./"@);
    crate::text::starts_with_a_prefix(value, "../"@);
    first_place_is_found(encode_utf8(text), encode_utf8(value), start);
    assert(own.len() == 1);
    assert(all.subrange(at.0, at.0 + own.len())[0] == own[0]);
    assert(changes[at.0] == all[at.0]);
    at.0
}

/// The text does not stand in the module from the start of the range on.
pub open spec fn stands_nowhere(text: Seq<char>, range: PositionRange, value: Seq<char>) -> bool {
    unquoted_range(text, range) matches Some((start, _)) && 0 <= start && forall|p: int|
        start <= p <= encode_utf8(text).len() - encode_utf8(value).len()
            ==> #[trigger] encode_utf8(text).subrange(p, p + encode_utf8(value).len())
            != encode_utf8(value)
}

/// Every dynamic import that cannot be analyzed is reported, with the module, its text and the place
/// of the import's argument: one of an expression, one of a text that the import map does not map,
/// one of a text that does not stand literally in the module, and one of a template that does not begin
/// with a text, or begins with one that is neither relative nor a directory that the import map maps.
pub proof fn unanalyzable_import_is_reported(
    resolver: MappedSpecifierResolver,
    url: Seq<char>,
    text: Seq<char>,
    module: ModuleInfoView,
    i: int,
) -> (k: int)
    requires
        module_unfurl(resolver, url, text, module) is Some,
        0 <= i < module.dependencies.len(),
        match module.dependencies[i].specifier {
            DependencySpecifierView::Static(_) => false,
            DependencySpecifierView::DynamicExpr => true,
            DependencySpecifierView::DynamicString(value) => resolver.maps(value, url) is None
                || stands_nowhere(text, module.dependencies[i].range, value),
            DependencySpecifierView::DynamicTemplate(parts) => parts.len() > 0 && match parts[0] {
                None => true,
                Some(value) => !"./"@.is_prefix_of(value) && !"../"@.is_prefix_of(value) && (
                value.len() == 0 || value.last() != '/' || resolver.maps(value, url) is None
                    || stands_nowhere(text, module.dependencies[i].range, value)),
            },
        },
    ensures
        ({
            let found = module_unfurl(resolver, url, text, module)->Some_0.1;
            let range = module.dependencies[i].range;
            &&& 0 <= k < found.len()
            &&& found[k].specifier == url
            &&& found[k].text == text
            &&& crate::source_module::line_start_byte(text, range.start.line as nat) == Some(
                found[k].start - range.start.character,
            )
            &&& crate::source_module::line_start_byte(text, range.end.line as nat) == Some(
                found[k].end - range.end.character,
            )
        }),
{
    let n = module.dependencies.len();
    let found = module_unfurl(resolver, url, text, module)->Some_0.1;
    let at = dependency_takes_part(resolver, url, text, module.dependencies, n, i);
    let own = dependency_unfurl(resolver, url, text, module.dependencies[i])->Some_0.1;
    if let Some((start, _)) = unquoted_range(text, module.dependencies[i].range) {
        if let DependencySpecifierView::DynamicTemplate(parts) = module.dependencies[i].specifier {
            if let Some(value) = parts[0] {
                crate::text::starts_with_a_prefix(value, "./"@);
                crate::text::starts_with_a_prefix(value, "../"@);
                if start >= 0 {
                    first_place_is_found(encode_utf8(text), encode_utf8(value), start);
                }
            }
        }
        if let DependencySpecifierView::DynamicString(value) = module.dependencies[i].specifier {
            if start >= 0 {
                first_place_is_found(encode_utf8(text), encode_utf8(value), start);
            }
        }
    } else if let DependencySpecifierView::DynamicTemplate(parts) =
        module.dependencies[i].specifier {
        if let Some(value) = parts[0] {
            crate::text::starts_with_a_prefix(value, "./"@);
            crate::text::starts_with_a_prefix(value, "../"@);
        }
    }
    assert(own.len() == 1);
    assert(found.subrange(at.1, at.1 + own.len())[0] == own[0]);
    at.1
}

proof fn dependencies_are_counted(
    resolver: MappedSpecifierResolver,
    url: Seq<char>,
    text: Seq<char>,
    dependencies: Seq<DependencyView>,
    n: nat,
)
    requires
        dependencies_unfurl(resolver, url, text, dependencies, n) is Some,
        n <= dependencies.len(),
    ensures
        ({
            let found = dependencies_unfurl(resolver, url, text, dependencies, n)->Some_0;
            let first = dependencies.take(n as int);
            &&& found.0.len() + found.1.len() <= n
            &&& found.1.len() <= first.filter(
                |d: DependencyView| !(d.specifier is Static),
            ).len()
            &&& found.0.len() >= first.filter(
                |d: DependencyView|
                    d.specifier matches DependencySpecifierView::Static(specifier)
                        && resolver.maps(specifier, url) is Some,
            ).len()
            &&& (forall|i: int|
                0 <= i < n ==> (#[trigger] dependencies[i]).specifier is Static) ==> found.0.len()
                == first.filter(
                |d: DependencyView|
                    d.specifier matches DependencySpecifierView::Static(specifier)
                        && resolver.maps(specifier, url) is Some,
            ).len()
        }),
    decreases n,
{
    reveal(Seq::filter);
    let first = dependencies.take(n as int);
    if n > 0 {
        dependencies_are_counted(resolver, url, text, dependencies, (n - 1) as nat);
        assert(first.drop_last() =~= dependencies.take(n - 1));
        assert(first.last() == dependencies[n - 1]);
    }
}

/// There is one change for each specifier in a comment that the import map maps, and at most one change
/// or one report for each import; where all imports are static, one change for each of them that the
/// import map maps, and no report.
pub proof fn changes_are_counted(
    resolver: MappedSpecifierResolver,
    url: Seq<char>,
    text: Seq<char>,
    module: ModuleInfoView,
)
    requires
        module_unfurl(resolver, url, text, module) is Some,
    ensures
        ({
            let (changes, found) = module_unfurl(resolver, url, text, module)->Some_0;
            let mapped = |r: SpecifierView| resolver.maps(r.text, url) is Some;
            let in_comments = module.ts_references.filter(mapped).len()
                + module.jsdoc_imports.filter(mapped).len() + (
            if module.jsx_import_source matches Some(source) && resolver.maps(
                source.text,
                url,
            ) is Some {
                1nat
            } else {
                0nat
            });
            let static_imports = module.dependencies.filter(
                |d: DependencyView|
                    d.specifier matches DependencySpecifierView::Static(specifier)
                        && resolver.maps(specifier, url) is Some,
            ).len();
            &&& in_comments + static_imports <= changes.len()
            &&& changes.len() + found.len() <= in_comments + module.dependencies.len()
            &&& found.len() <= module.dependencies.filter(
                |d: DependencyView| !(d.specifier is Static),
            ).len()
            &&& (forall|i: int|
                0 <= i < module.dependencies.len() ==> (
                #[trigger] module.dependencies[i]).specifier is Static) ==> changes.len()
                == in_comments + static_imports && found.len() == 0
        }),
{
    let n = module.dependencies.len();
    let mapped = |r: SpecifierView| resolver.maps(r.text, url) is Some;
    let ts = module.ts_references;
    let jsdoc = module.jsdoc_imports;
    let jsx = opt_as_list(module.jsx_import_source);
    dependencies_are_counted(resolver, url, text, module.dependencies, n);
    mapped_references_are_counted(resolver, url, text, ts, ts.len());
    mapped_references_are_counted(resolver, url, text, jsdoc, jsdoc.len());
    mapped_references_are_counted(resolver, url, text, jsx, jsx.len());
    assert(module.dependencies.take(n as int) =~= module.dependencies);
    assert(ts.take(ts.len() as int) =~= ts);
    assert(jsdoc.take(jsdoc.len() as int) =~= jsdoc);
    assert(jsx.take(jsx.len() as int) =~= jsx);
    reveal(Seq::filter);
    reveal_with_fuel(Seq::filter, 2);
    if module.jsx_import_source is Some {
        assert(jsx.drop_last() =~= Seq::empty());
        assert(jsx.last() == module.jsx_import_source->Some_0);
    }
    if forall|i: int|
        0 <= i < module.dependencies.len() ==> (
        #[trigger] module.dependencies[i]).specifier is Static {
        no_static_import_is_dynamic(module.dependencies);
    }
}

proof fn no_static_import_is_dynamic(dependencies: Seq<DependencyView>)
    requires
        forall|i: int|
            0 <= i < dependencies.len() ==> (#[trigger] dependencies[i]).specifier is Static,
    ensures
        dependencies.filter(|d: DependencyView| !(d.specifier is Static)).len() == 0,
    decreases dependencies.len(),
{
    reveal(Seq::filter);
    if dependencies.len() > 0 {
        assert forall|i: int| 0 <= i < dependencies.drop_last().len() implies (
        #[trigger] dependencies.drop_last()[i]).specifier is Static by {
            assert(dependencies.drop_last()[i] == dependencies[i]);
        }
        assert(dependencies[dependencies.len() - 1].specifier is Static);
        no_static_import_is_dynamic(dependencies.drop_last());
    }
}

/// What is found is the first place from `from` on where the bytes stand, and where they stand nowhere
/// from there on, nothing is found.
pub proof fn first_place_is_found(bytes: Seq<u8>, needle: Seq<u8>, from: int)
    requires
        0 <= from,
    ensures
        match find_from(bytes, needle, from) {
            Some(at) => {
                &&& from <= at <= at + needle.len() <= bytes.len()
                &&& bytes.subrange(at, at + needle.len()) == needle
                &&& forall|p: int|
                    from <= p < at ==> #[trigger] bytes.subrange(p, p + needle.len()) != needle
            },
            None => forall|p: int|
                from <= p <= bytes.len() - needle.len() ==> #[trigger] bytes.subrange(
                    p,
                    p + needle.len(),
                ) != needle,
        },
    decreases bytes.len() - from + 1,
{
    if from + needle.len() <= bytes.len() {
        if bytes.subrange(from, from + needle.len()) != needle {
            first_place_is_found(bytes, needle, from + 1);
        }
    }
}

/// The range of a quoted text is that of what stands between its quotation marks, and the range of a
/// text without quotation marks at its ends is that of all of it.
pub proof fn quotation_marks_are_left_alone(
    text: Seq<char>,
    range: PositionRange,
    start: int,
    end: int,
)
    requires
        crate::source_module::byte_index(text, range.start) == Some(start),
        crate::source_module::byte_index(text, range.end) == Some(end),
        0 <= start <= end <= encode_utf8(text).len(),
    ensures
        ({
            let bytes = encode_utf8(text);
            unquoted_range(text, range) matches Some((first, last)) && {
                &&& start == end ==> first == start && last == end
                &&& start < end && (bytes[start] == 0x22 || bytes[start] == 0x27) ==> first == start
                    + 1
                &&& start < end && (bytes[end - 1] == 0x22 || bytes[end - 1] == 0x27) ==> last
                    == end - 1
                &&& start < end && bytes[start] != 0x22 && bytes[start] != 0x27 ==> first == start
                &&& start < end && bytes[end - 1] != 0x22 && bytes[end - 1] != 0x27 ==> last == end
            }
        }),
{
}

/// A module refers to a file by a path that begins with `./`, and to everything else by its URL.
pub proof fn only_files_are_relative(to: Seq<char>, relative: Option<Seq<char>>)
    ensures
        "file:"@.is_prefix_of(to) ==> match relative {
            Some(path) => relative_to(to, relative) == Some("./"@ + path),
            None => relative_to(to, relative) is None,
        },
        !"file:"@.is_prefix_of(to) ==> relative_to(to, relative) == Some(to),
{
    crate::text::starts_with_a_prefix(to, "file:"@);
}

/// What an import map makes of a specifier is its latest answer about it in that module; what it has
/// said about other specifiers and in other modules does not matter.
pub proof fn latest_answer_counts(
    answers: Seq<MappedResolution>,
    specifier: Seq<char>,
    referrer: Seq<char>,
    i: int,
)
    requires
        0 <= i < answers.len(),
        answers[i].specifier@ == specifier,
        answers[i].referrer@ == referrer,
        forall|j: int|
            i < j < answers.len() ==> (#[trigger] answers[j]).specifier@ != specifier
                || answers[j].referrer@ != referrer,
    ensures
        resolution(answers, specifier, referrer) == Some(answers[i].resolved@),
    decreases answers.len(),
{
    if i < answers.len() - 1 {
        assert(answers[answers.len() - 1].specifier@ != specifier || answers[answers.len()
            - 1].referrer@ != referrer);
        latest_answer_counts(answers.drop_last(), specifier, referrer, i);
    }
}

/// Without an answer about a specifier in that module, the specifier is not mapped.
pub proof fn nothing_is_mapped_without_an_answer(
    answers: Seq<MappedResolution>,
    specifier: Seq<char>,
    referrer: Seq<char>,
)
    requires
        forall|j: int|
            0 <= j < answers.len() ==> (#[trigger] answers[j]).specifier@ != specifier
                || answers[j].referrer@ != referrer,
    ensures
        resolution(answers, specifier, referrer) is None,
    decreases answers.len(),
{
    if answers.len() > 0 {
        assert(answers[answers.len() - 1].specifier@ != specifier || answers[answers.len()
            - 1].referrer@ != referrer);
        nothing_is_mapped_without_an_answer(answers.drop_last(), specifier, referrer);
    }
}

/// The import map is asked about every specifier of a static import and about every one in a comment.
pub proof fn every_specifier_is_looked_up(text: Seq<char>, module: ModuleInfoView)
    ensures
        forall|i: int|
            0 <= i < module.dependencies.len() ==> ((
            #[trigger] module.dependencies[i]).specifier matches DependencySpecifierView::Static(
                specifier,
            ) ==> module_looked_up(text, module).contains(specifier)),
        forall|i: int|
            0 <= i < module.ts_references.len() ==> module_looked_up(text, module).contains(
                (#[trigger] module.ts_references[i]).text,
            ),
        forall|i: int|
            0 <= i < module.jsdoc_imports.len() ==> module_looked_up(text, module).contains(
                (#[trigger] module.jsdoc_imports[i]).text,
            ),
        module.jsx_import_source matches Some(source) ==> module_looked_up(text, module).contains(
            source.text,
        ),
{
    let all = module_looked_up(text, module);
    let n = module.dependencies.len();
    let deps = dependencies_looked_up(text, module.dependencies, n);
    let ts = reference_texts(module.ts_references);
    let jsdoc = reference_texts(module.jsdoc_imports);
    let jsx = reference_texts(opt_as_list(module.jsx_import_source));
    assert forall|i: int| 0 <= i < n implies ((
    #[trigger] module.dependencies[i]).specifier matches DependencySpecifierView::Static(specifier)
        ==> all.contains(specifier)) by {
        if let DependencySpecifierView::Static(specifier) = module.dependencies[i].specifier {
            let k = static_specifier_is_looked_up(text, module.dependencies, n, i, specifier);
            assert(all[k] == deps[k]);
        }
    }
    assert forall|i: int| 0 <= i < module.ts_references.len() implies all.contains(
        (#[trigger] module.ts_references[i]).text,
    ) by {
        assert(all[deps.len() + i] == ts[i]);
    }
    assert forall|i: int| 0 <= i < module.jsdoc_imports.len() implies all.contains(
        (#[trigger] module.jsdoc_imports[i]).text,
    ) by {
        assert(all[deps.len() + ts.len() + i] == jsdoc[i]);
    }
    if module.jsx_import_source is Some {
        assert(all[deps.len() + ts.len() + jsdoc.len() + 0int] == jsx[0]);
    }
}

proof fn static_specifier_is_looked_up(
    text: Seq<char>,
    dependencies: Seq<DependencyView>,
    n: nat,
    i: int,
    specifier: Seq<char>,
) -> (k: int)
    requires
        0 <= i < n <= dependencies.len(),
        dependencies[i].specifier == DependencySpecifierView::Static(specifier),
    ensures
        0 <= k < dependencies_looked_up(text, dependencies, n).len(),
        dependencies_looked_up(text, dependencies, n)[k] == specifier,
    decreases n,
{
    let before = dependencies_looked_up(text, dependencies, (n - 1) as nat);
    if i == n - 1 {
        before.len() as int
    } else {
        static_specifier_is_looked_up(text, dependencies, (n - 1) as nat, i, specifier)
    }
}

/// A static import that the import map does not map, and a template that begins with a relative text, are left
/// alone: with one of them more, a module has the same changes and the same reports.
pub proof fn unmapped_and_relative_imports_are_left_alone(
    resolver: MappedSpecifierResolver,
    url: Seq<char>,
    text: Seq<char>,
    module: ModuleInfoView,
    added: DependencyView,
)
    requires
        match added.specifier {
            DependencySpecifierView::Static(specifier) => resolver.maps(specifier, url) is None,
            DependencySpecifierView::DynamicTemplate(parts) => parts.len() == 0 || (
            parts[0] matches Some(value) && ("./"@.is_prefix_of(value) || "../"@.is_prefix_of(
                value,
            ))),
            _ => false,
        },
    ensures
        module_unfurl(
            resolver,
            url,
            text,
            ModuleInfoView { dependencies: module.dependencies.push(added), ..module },
        ) == module_unfurl(resolver, url, text, module),
{
    let more = module.dependencies.push(added);
    let n = module.dependencies.len();
    if let DependencySpecifierView::DynamicTemplate(parts) = added.specifier {
        if parts.len() > 0 {
            crate::text::starts_with_a_prefix(parts[0]->Some_0, "./"@);
            crate::text::starts_with_a_prefix(parts[0]->Some_0, "../"@);
        }
    }
    first_dependencies_decide(resolver, url, text, module.dependencies, more, n);
    assert(more[n as int] == added);
    if let Some(before) = dependencies_unfurl(resolver, url, text, module.dependencies, n) {
        assert(before.0 + Seq::empty() =~= before.0);
        assert(before.1 + Seq::empty() =~= before.1);
    }
    assert(dependencies_unfurl(resolver, url, text, more, n + 1) == dependencies_unfurl(
        resolver,
        url,
        text,
        module.dependencies,
        n,
    ));
}

proof fn first_dependencies_decide(
    resolver: MappedSpecifierResolver,
    url: Seq<char>,
    text: Seq<char>,
    a: Seq<DependencyView>,
    b: Seq<DependencyView>,
    n: nat,
)
    requires
        n <= a.len(),
        n <= b.len(),
        forall|i: int| 0 <= i < n ==> a[i] == b[i],
    ensures
        dependencies_unfurl(resolver, url, text, a, n) == dependencies_unfurl(
            resolver,
            url,
            text,
            b,
            n,
        ),
    decreases n,
{
    if n > 0 {
        first_dependencies_decide(resolver, url, text, a, b, (n - 1) as nat);
    }
}

/// An unfurled module keeps what was reported before and adds its own reports behind it; one that cannot be
/// rewritten reports nothing. What is reported and what is changed is what its imports and comments lead
/// to.
pub proof fn unfurled_module_is_changed_and_reported(
    unfurler: &ImportMapUnfurler<'_>,
    url: &str,
    source: &SourceModule,
    diagnostics: &mut Vec<ImportMapUnfurlDiagnostic>,
    r: Option<String>,
)
    requires
        call_ensures(ImportMapUnfurler::unfurl, (unfurler, url, source, diagnostics), r),
    ensures
        r is None ==> final(diagnostics)@ == old(diagnostics)@,
        r is Some ==> module_unfurl(
            *unfurler.import_map,
            url@,
            source.text@,
            source.module_info@,
        ) is Some,
        r matches Some(text) ==> {
            let (changes, found) = module_unfurl(
                *unfurler.import_map,
                url@,
                source.text@,
                source.module_info@,
            )->Some_0;
            &&& final(diagnostics)@.len() == old(diagnostics)@.len() + found.len()
            &&& forall|i: int|
                0 <= i < old(diagnostics)@.len() ==> (#[trigger] final(diagnostics)@[i])@ == old(diagnostics)@[i]@
            &&& forall|i: int|
                0 <= i < found.len() ==> (#[trigger] final(diagnostics)@[old(diagnostics)@.len()
                    + i])@ == found[i]
            &&& changes.len() == 0 ==> encode_utf8(text@) == encode_utf8(source.text@)
        },
{
    if let Some(text) = r {
        let (changes, found) = module_unfurl(
            *unfurler.import_map,
            url@,
            source.text@,
            source.module_info@,
        )->Some_0;
        let after = diagnostic_views(final(diagnostics)@);
        let before = diagnostic_views(old(diagnostics)@);
        assert(after == before + found);
        assert(after.len() == final(diagnostics)@.len());
        assert forall|i: int| 0 <= i < old(diagnostics)@.len() implies (
        #[trigger] final(diagnostics)@[i])@ == old(diagnostics)@[i]@ by {
            assert(after[i] == before[i]);
        }
        assert forall|i: int| 0 <= i < found.len() implies (
        #[trigger] final(diagnostics)@[old(diagnostics)@.len() + i])@ == found[i] by {
            assert(after[before.len() + i] == found[i]);
        }
        if changes.len() == 0 {
            assert(changes =~= Seq::empty());
            crate::text_changes::no_changes_keep_the_text(encode_utf8(source.text@));
        }
    }
}

/// A report about an import has its code and its message.
pub proof fn reports_have_their_texts(
    diagnostic: &ImportMapUnfurlDiagnostic,
    code: &'static str,
    message: &'static str,
)
    requires
        call_ensures(ImportMapUnfurlDiagnostic::code, (diagnostic,), code),
        call_ensures(ImportMapUnfurlDiagnostic::message, (diagnostic,), message),
    ensures
        code@ == "unanalyzable-dynamic-import"@,
        message@ == "unable to analyze dynamic import"@,
{
}

/// The dynamic imports that the import map is asked about: those of a text that stands in the module, and those
/// of a template that begins with a directory. Nothing else is looked up for a dynamic import.
pub proof fn looked_up_dynamic_imports(text: Seq<char>, dependency: DependencyView)
    ensures
        match dependency.specifier {
            DependencySpecifierView::Static(specifier) => looked_up(text, dependency) == Some(
                specifier,
            ),
            DependencySpecifierView::DynamicString(value) => {
                &&& looked_up(text, dependency) matches Some(specifier) ==> specifier == value
                &&& stands_nowhere(text, dependency.range, value) ==> looked_up(
                    text,
                    dependency,
                ) is None
            },
            DependencySpecifierView::DynamicTemplate(parts) => {
                &&& parts.len() == 0 || parts[0] is None ==> looked_up(text, dependency) is None
                &&& parts.len() > 0 && parts[0] is Some ==> {
                    let value = parts[0]->Some_0;
                    looked_up(text, dependency) == if value.len() > 0 && value.last() == '/'
                        && !"./"@.is_prefix_of(value) && !"../"@.is_prefix_of(value) {
                        Some(value)
                    } else {
                        None
                    }
                }
            },
            DependencySpecifierView::DynamicExpr => looked_up(text, dependency) is None,
        },
{
    match dependency.specifier {
        DependencySpecifierView::DynamicString(value) => {
            if let Some((start, _)) = unquoted_range(text, dependency.range) {
                if start >= 0 {
                    first_place_is_found(encode_utf8(text), encode_utf8(value), start);
                }
            }
        },
        DependencySpecifierView::DynamicTemplate(parts) => {
            if parts.len() > 0 && parts[0] is Some {
                crate::text::starts_with_a_prefix(parts[0]->Some_0, "./"@);
                crate::text::starts_with_a_prefix(parts[0]->Some_0, "../"@);
            }
        },
        _ => {},
    }
}

/// The bytes of a range that lies in the text are those between its quotation marks, and a range that does not
/// lie there has none.
pub proof fn range_without_quotation_marks(
    source: &SourceModule,
    range: PositionRange,
    r: Option<(usize, usize)>,
    start: int,
    end: int,
)
    requires
        call_ensures(to_range, (source, range), r),
        crate::source_module::byte_index(source.text@, range.start) == Some(start),
        crate::source_module::byte_index(source.text@, range.end) == Some(end),
    ensures
        !(0 <= start <= end <= encode_utf8(source.text@).len()) ==> r is None,
        0 <= start <= end <= encode_utf8(source.text@).len() ==> {
            let bytes = encode_utf8(source.text@);
            r matches Some((first, last)) && {
                &&& start == end ==> first == start && last == end
                &&& start < end && (bytes[start] == 0x22 || bytes[start] == 0x27) ==> first == start
                    + 1
                &&& start < end && (bytes[end - 1] == 0x22 || bytes[end - 1] == 0x27) ==> last
                    == end - 1
                &&& start < end && bytes[start] != 0x22 && bytes[start] != 0x27 ==> first == start
                &&& start < end && bytes[end - 1] != 0x22 && bytes[end - 1] != 0x27 ==> last == end
            }
        },
{
    if 0 <= start <= end <= encode_utf8(source.text@).len() {
        quotation_marks_are_left_alone(source.text@, range, start, end);
    }
}

/// A module refers to a file by `./` and the path that leads there, and cannot where none does; it refers to
/// everything else by its URL.
pub proof fn files_are_referred_to_by_paths(
    to: &str,
    relative: Option<String>,
    r: Option<String>,
)
    requires
        call_ensures(make_relative_by, (to, relative), r),
    ensures
        !"file:"@.is_prefix_of(to@) ==> (r matches Some(text) && text@ == to@),
        "file:"@.is_prefix_of(to@) && relative is None ==> r is None,
        "file:"@.is_prefix_of(to@) && relative is Some ==> (r matches Some(text) && text@ == "./"@
            + relative->Some_0@),
{
    crate::text::starts_with_a_prefix(to@, "file:"@);
}

/// What becomes of a dynamic import of an expression, and of a template that begins with a relative text: the
/// first cannot be analyzed, the second can, and neither is changed.
pub proof fn some_dynamic_imports_are_not_changed(
    resolver: &MappedSpecifierResolver,
    url: &str,
    source: &SourceModule,
    specifier: &DependencySpecifier,
    range: PositionRange,
    text_changes: &mut Vec<TextChange>,
    r: Option<bool>,
)
    requires
        call_ensures(
            try_unfurl_dynamic_dep,
            (resolver, url, source, specifier, range, text_changes),
            r,
        ),
    ensures
        specifier is DynamicExpr ==> r == Some(false),
        specifier matches DependencySpecifier::DynamicTemplate(parts) ==> {
            &&& parts@.len() == 0 ==> r == Some(true)
            &&& parts@.len() > 0 && parts@[0] is None ==> r == Some(false)
            &&& parts@.len() > 0 && (parts@[0] matches Some(value) && ("./"@.is_prefix_of(value@)
                || "../"@.is_prefix_of(value@))) ==> r == Some(true)
        },
        specifier is DynamicExpr || (specifier matches DependencySpecifier::DynamicTemplate(parts)
            && (parts@.len() == 0 || parts@[0] is None || (parts@[0] matches Some(value) && (
        "./"@.is_prefix_of(value@) || "../"@.is_prefix_of(value@))))) ==> final(text_changes)@.len()
            == old(text_changes)@.len(),
{
    let after = crate::text_changes::change_views(final(text_changes)@);
    let before = crate::text_changes::change_views(old(text_changes)@);
    assert(after.len() == final(text_changes)@.len());
    assert(before.len() == old(text_changes)@.len());
    if let DependencySpecifier::DynamicTemplate(parts) = specifier {
        if parts@.len() > 0 {
            assert(crate::source_module::part_views(parts@)[0] == crate::text::opt_text(parts@[0]));
            if let Some(value) = parts@[0] {
                crate::text::starts_with_a_prefix(value@, "./"@);
                crate::text::starts_with_a_prefix(value@, "../"@);
            }
        }
    }
}

/// The import map is asked about every specifier of a static import and every one in a comment.
pub proof fn all_specifiers_are_to_be_resolved(source: &SourceModule, r: Vec<String>, i: int)
    requires
        call_ensures(specifiers_to_resolve, (source,), r),
    ensures
        0 <= i < source.module_info@.dependencies.len() ==> (
        source.module_info@.dependencies[i].specifier matches DependencySpecifierView::Static(
            specifier,
        ) ==> crate::text::texts(r@).contains(specifier)),
        0 <= i < source.module_info@.ts_references.len() ==> crate::text::texts(r@).contains(
            source.module_info@.ts_references[i].text,
        ),
        0 <= i < source.module_info@.jsdoc_imports.len() ==> crate::text::texts(r@).contains(
            source.module_info@.jsdoc_imports[i].text,
        ),
        source.module_info@.jsx_import_source matches Some(specifier) ==> crate::text::texts(
            r@,
        ).contains(specifier.text),
{
    every_specifier_is_looked_up(source.text@, source.module_info@);
}

/// An answer that is added counts for its specifier in its module, and changes nothing for the others.
pub proof fn added_answer_counts(
    resolver: &mut MappedSpecifierResolver,
    specifier: &str,
    referrer: &str,
    resolved: &str,
    other: Seq<char>,
    other_referrer: Seq<char>,
)
    requires
        call_ensures(
            MappedSpecifierResolver::add_answer,
            (resolver, specifier, referrer, resolved),
            (),
        ),
        other != specifier@ || other_referrer != referrer@,
    ensures
        final(resolver).maps(specifier@, referrer@) == Some(resolved@),
        final(resolver).maps(other, other_referrer) == old(resolver).maps(other, other_referrer),
{
}

/// The number of changes that come from the triple slash references of a module is the number of those that the
/// import map maps, and so it is for its JSDoc imports: without them, a module has that many changes less.
pub proof fn changes_of_comments_are_counted(
    resolver: MappedSpecifierResolver,
    url: Seq<char>,
    text: Seq<char>,
    module: ModuleInfoView,
)
    requires
        module_unfurl(resolver, url, text, module) is Some,
    ensures
        ({
            let changes = module_unfurl(resolver, url, text, module)->Some_0.0;
            let without_references = module_unfurl(
                resolver,
                url,
                text,
                ModuleInfoView { ts_references: Seq::empty(), ..module },
            );
            let without_jsdoc = module_unfurl(
                resolver,
                url,
                text,
                ModuleInfoView { jsdoc_imports: Seq::empty(), ..module },
            );
            &&& without_references is Some
            &&& without_jsdoc is Some
            &&& changes.len() == without_references->Some_0.0.len() + module.ts_references.filter(
                |r: SpecifierView| resolver.maps(r.text, url) is Some,
            ).len()
            &&& changes.len() == without_jsdoc->Some_0.0.len() + module.jsdoc_imports.filter(
                |r: SpecifierView| resolver.maps(r.text, url) is Some,
            ).len()
            &&& without_references->Some_0.1 == module_unfurl(
                resolver,
                url,
                text,
                module,
            )->Some_0.1
            &&& without_jsdoc->Some_0.1 == without_references->Some_0.1
        }),
{
    let ts = module.ts_references;
    let jsdoc = module.jsdoc_imports;
    mapped_references_are_counted(resolver, url, text, ts, ts.len());
    mapped_references_are_counted(resolver, url, text, jsdoc, jsdoc.len());
    assert(ts.take(ts.len() as int) =~= ts);
    assert(jsdoc.take(jsdoc.len() as int) =~= jsdoc);
}

} // verus!
