//! Looking the imports of a module up in an import map, and unfurling the module by what was found.

use vstd::prelude::*;
use vstd::utf8::*;

use crate::source_module::{ModuleInfoView, SourceModule};
use crate::text::{has_prefix, has_suffix, str_eq};
use crate::unfurl::{
    specifiers_to_resolve, ImportMapUnfurlDiagnostic, ImportMapUnfurler, MappedSpecifierResolver,
};
use crate::url::{join_url, parse_url};

verus! {

/// An import map of the `import_map` crate.
#[verifier::external_type_specification]
#[verifier::external_body]
pub struct ExImportMap(::import_map::ImportMap);

/// The import map that `import_map::parse_from_json` reads in a JSON text, with the URL that relative
/// addresses in it start from; `None` where one of the texts is wrong.
pub uninterp spec fn parsed_import_map(base_url: Seq<char>, json: Seq<char>) -> Option<
    ::import_map::ImportMap,
>;

/// What `import_map::ImportMap::resolve` makes of a specifier in the module with the URL `referrer`;
/// `None` where it finds an error or the referrer is no URL.
pub uninterp spec fn import_map_answer(
    import_map: ::import_map::ImportMap,
    specifier: Seq<char>,
    referrer: Seq<char>,
) -> Option<Seq<char>>;

/// The keys and addresses of the entries that `import_map::ImportMap::entries_for_referrer` gives for
/// the module with the URL `referrer`, in the order in which they are tried: those of the scopes that
/// the module is in, and those of the imports. `None` where the referrer is no URL.
pub uninterp spec fn import_map_entries(
    import_map: ::import_map::ImportMap,
    referrer: Seq<char>,
) -> Option<Seq<(Seq<char>, Option<Seq<char>>)>>;

/// Calls `import_map::parse_from_json`, whose result is a function of the two texts.
#[verifier::external_body]
fn parse_with_import_map(base_url: &str, json: &str) -> (r: Option<::import_map::ImportMap>)
    ensures
        r == parsed_import_map(base_url@, json@),
{
    let base_url = url::Url::parse(base_url).ok()?;
    Some(::import_map::parse_from_json(base_url, json).ok()?.import_map)
}

/// What entries hold.
pub open spec fn entry_texts(entries: Seq<(String, Option<String>)>) -> Seq<
    (Seq<char>, Option<Seq<char>>),
> {
    entries.map_values(|e: (String, Option<String>)| (e.0@, crate::text::opt_text(e.1)))
}

/// What optional entries hold.
pub open spec fn opt_entry_texts(entries: Option<Vec<(String, Option<String>)>>) -> Option<
    Seq<(Seq<char>, Option<Seq<char>>)>,
> {
    match entries {
        Some(entries) => Some(entry_texts(entries@)),
        None => None,
    }
}

/// Calls `import_map::ImportMap::entries_for_referrer`, whose result is a function of the import map
/// and the referrer.
#[verifier::external_body]
fn entries_with_import_map(import_map: &::import_map::ImportMap, referrer: &str) -> (r: Option<
    Vec<(String, Option<String>)>,
>)
    ensures
        opt_entry_texts(r) == import_map_entries(*import_map, referrer@),
{
    let referrer = url::Url::parse(referrer).ok()?;
    let entries = import_map.entries_for_referrer(&referrer);
    Some(entries.map(|e| (e.key.to_string(), e.value.map(|v| v.to_string()))).collect())
}

/// A specifier that leads somewhere from the module itself, not by its name.
pub open spec fn is_path_like(specifier: Seq<char>) -> bool {
    ||| crate::text::starts_with_text(specifier, "/"@)
    ||| crate::text::starts_with_text(specifier, "./"@)
    ||| crate::text::starts_with_text(specifier, "../"@)
}

/// The URL that a specifier stands for in a module, if it stands for one.
pub open spec fn specifier_url(specifier: Seq<char>, referrer: Seq<char>) -> Option<Seq<char>> {
    if is_path_like(specifier) && crate::url::joined_url(referrer, specifier) is Some {
        crate::url::joined_url(referrer, specifier)
    } else {
        match crate::url::parsed_url(specifier) {
            Ok(url) => Some(url),
            Err(_) => None,
        }
    }
}

/// A URL with one of the schemes that have hosts or files behind them.
pub open spec fn is_special(url: Seq<char>) -> bool {
    ||| crate::text::starts_with_text(url, "ftp:"@)
    ||| crate::text::starts_with_text(url, "file:"@)
    ||| crate::text::starts_with_text(url, "http:"@)
    ||| crate::text::starts_with_text(url, "https:"@)
    ||| crate::text::starts_with_text(url, "ws:"@)
    ||| crate::text::starts_with_text(url, "wss:"@)
}

/// What is looked up in an import map for a specifier, and whether keys that it begins with count: the
/// URL that it stands for, where only special ones go by their beginnings, or the specifier itself.
pub open spec fn looked_up(specifier: Seq<char>, referrer: Seq<char>) -> (Seq<char>, bool) {
    match specifier_url(specifier, referrer) {
        Some(url) => (url, is_special(url)),
        None => (specifier, true),
    }
}

/// The entry is one for what is looked up: its key is the same, or ends with a slash and is a
/// beginning that counts.
pub open spec fn applies(
    entry: (Seq<char>, Option<Seq<char>>),
    asked: (Seq<char>, bool),
) -> bool {
    ||| entry.0 == asked.0
    ||| {
        &&& asked.1
        &&& crate::text::ends_with_text(entry.0, "/"@)
        &&& crate::text::starts_with_text(asked.0, entry.0)
    }
}

/// The entry is one for what is looked up, but its address does not end with a slash, so that what
/// follows the key cannot be put behind it.
pub open spec fn misleads(
    entry: (Seq<char>, Option<Seq<char>>),
    asked: (Seq<char>, bool),
) -> bool {
    &&& applies(entry, asked)
    &&& entry.0 != asked.0
    &&& entry.1 matches Some(address) && !crate::text::ends_with_text(address, "/"@)
}

/// The first entry of the import map for a specifier, if there is one, does not mislead it.
pub open spec fn can_resolve(
    import_map: ::import_map::ImportMap,
    specifier: Seq<char>,
    referrer: Seq<char>,
) -> bool {
    import_map_entries(import_map, referrer) matches Some(entries) ==> {
        let asked = looked_up(specifier, referrer);
        forall|i: int|
            0 <= i < entries.len() && misleads(#[trigger] entries[i], asked) ==> exists|j: int|
                0 <= j < i && applies(#[trigger] entries[j], asked)
    }
}

/// The import map misleads none of the first `n` specifiers.
pub open spec fn can_resolve_all(
    import_map: ::import_map::ImportMap,
    specifiers: Seq<Seq<char>>,
    n: int,
    referrer: Seq<char>,
) -> bool {
    forall|i: int| 0 <= i < n ==> can_resolve(import_map, #[trigger] specifiers[i], referrer)
}

/// The import map misleads no specifier that is looked up in a module.
pub open spec fn can_resolve_for(
    import_map: ::import_map::ImportMap,
    url: Seq<char>,
    text: Seq<char>,
    module: ModuleInfoView,
) -> bool {
    let specifiers = crate::unfurl::module_looked_up(text, module);
    can_resolve_all(import_map, specifiers, specifiers.len() as int, url)
}

/// The URL that a specifier stands for in a module, if it stands for one.
fn url_of_specifier(specifier: &str, referrer: &str) -> (r: Option<String>)
    ensures
        crate::text::opt_text(r) == specifier_url(specifier@, referrer@),
{
    if has_prefix(specifier, "/") || has_prefix(specifier, "./") || has_prefix(specifier, "../") {
        if let Some(url) = join_url(referrer, specifier) {
            return Some(url);
        }
    }
    match parse_url(specifier) {
        Ok(url) => Some(url),
        Err(_) => None,
    }
}

/// What is looked up for a specifier, and whether keys that it begins with count.
fn asked_for(specifier: &str, referrer: &str) -> (r: (String, bool))
    ensures
        (r.0@, r.1) == looked_up(specifier@, referrer@),
{
    match url_of_specifier(specifier, referrer) {
        Some(url) => {
            let text = url.as_str();
            let special = has_prefix(text, "ftp:") || has_prefix(text, "file:") || has_prefix(
                text,
                "http:",
            ) || has_prefix(text, "https:") || has_prefix(text, "ws:") || has_prefix(text, "wss:");
            (url, special)
        },
        None => (specifier.to_owned(), true),
    }
}

/// Whether the import map does not mislead a specifier.
fn is_resolvable(
    import_map: &::import_map::ImportMap,
    specifier: &str,
    referrer: &str,
) -> (r: bool)
    ensures
        r == can_resolve(*import_map, specifier@, referrer@),
{
    let entries = match entries_with_import_map(import_map, referrer) {
        Some(entries) => entries,
        None => {
            return true;
        },
    };
    let (text, beginnings_count) = asked_for(specifier, referrer);
    let ghost texts = entry_texts(entries@);
    let ghost asked = looked_up(specifier@, referrer@);
    assert(import_map_entries(*import_map, referrer@)->Some_0 == texts);
    let mut i: usize = 0;
    while i < entries.len()
        invariant
            i <= entries.len(),
            texts == entry_texts(entries@),
            import_map_entries(*import_map, referrer@) == Some(texts),
            asked == looked_up(specifier@, referrer@),
            asked == (text@, beginnings_count),
            forall|j: int| 0 <= j < i ==> !applies(#[trigger] texts[j], asked),
        decreases entries.len() - i,
    {
        let (key, address) = &entries[i];
        assert(texts[i as int] == (key@, crate::text::opt_text(*address)));
        if str_eq(key.as_str(), text.as_str()) {
            assert(applies(texts[i as int], asked) && !misleads(texts[i as int], asked));
            return true;
        }
        if beginnings_count && has_suffix(key.as_str(), "/") && has_prefix(
            text.as_str(),
            key.as_str(),
        ) {
            assert(applies(texts[i as int], asked));
            let r = match address {
                Some(address) => has_suffix(address.as_str(), "/"),
                None => true,
            };
            assert(r == !misleads(texts[i as int], asked));
            return r;
        }
        i += 1;
    }
    true
}

/// Calls `import_map::ImportMap::resolve`, whose result is a function of the import map, the
/// specifier and the referrer. It goes by the first entry for the specifier in the order of
/// `entries_for_referrer`, and panics where that entry misleads the specifier.
#[verifier::external_body]
fn resolve_with_import_map(
    import_map: &::import_map::ImportMap,
    specifier: &str,
    referrer: &str,
) -> (r: Option<String>)
    requires
        can_resolve(*import_map, specifier@, referrer@),
    ensures
        crate::text::opt_text(r) == import_map_answer(*import_map, specifier@, referrer@),
{
    let referrer = url::Url::parse(referrer).ok()?;
    Some(import_map.resolve(specifier, &referrer).ok()?.to_string())
}

/// The resolver says about each of the first `n` specifiers what the import map says.
pub open spec fn follows(
    resolver: MappedSpecifierResolver,
    import_map: ::import_map::ImportMap,
    url: Seq<char>,
    specifiers: Seq<Seq<char>>,
    n: int,
) -> bool {
    forall|i: int|
        0 <= i < n ==> resolver.maps(#[trigger] specifiers[i], url) == import_map_answer(
            import_map,
            specifiers[i],
            url,
        )
}

/// The resolver says about the specifiers that are looked up in a module what the import map says.
pub open spec fn follows_for(
    resolver: MappedSpecifierResolver,
    import_map: ::import_map::ImportMap,
    url: Seq<char>,
    text: Seq<char>,
    module: ModuleInfoView,
) -> bool {
    let specifiers = crate::unfurl::module_looked_up(text, module);
    follows(resolver, import_map, url, specifiers, specifiers.len() as int)
}

/// Asks the import map about the specifiers of a module. `None` where it misleads one of them.
fn look_up(import_map: &::import_map::ImportMap, url: &str, source: &SourceModule) -> (r: Option<
    MappedSpecifierResolver,
>)
    requires
        source.wf(),
    ensures
        r is Some <==> can_resolve_for(*import_map, url@, source.text@, source.module_info@),
        r matches Some(resolver) ==> follows_for(resolver, *import_map, url@, source.text@, source.module_info@),
{
    let specifiers = specifiers_to_resolve(source);
    let ghost texts = crate::text::texts(specifiers@);
    let mut resolver = MappedSpecifierResolver::new();
    let mut i: usize = 0;
    while i < specifiers.len()
        invariant
            i <= specifiers.len(),
            texts == crate::text::texts(specifiers@),
            texts == crate::unfurl::module_looked_up(source.text@, source.module_info@),
            can_resolve_all(*import_map, texts, i as int, url@),
            follows(resolver, *import_map, url@, texts, i as int),
            forall|s: Seq<char>|
                (#[trigger] resolver.maps(s, url@)) is Some ==> resolver.maps(s, url@)
                    == import_map_answer(*import_map, s, url@),
        decreases specifiers.len() - i,
    {
        let specifier = specifiers[i].as_str();
        assert(texts[i as int] == specifier@);
        if !is_resolvable(import_map, specifier, url) {
            return None;
        }
        if let Some(resolved) = resolve_with_import_map(import_map, specifier, url) {
            resolver.add_answer(specifier, url, resolved.as_str());
        }
        i += 1;
    }
    Some(resolver)
}

/// Why a module was not unfurled.
#[derive(Debug, Clone, Copy, PartialEq, Eq, Structural)]
pub enum UnfurlFailure {
    /// The texts make no import map.
    NoImportMap,
    /// An entry of the import map misleads an import: its key is a beginning of the import that ends
    /// with a slash, and its address does not end with one.
    MisleadingEntry,
    /// A range does not lie in the text, no relative path leads to a mapped file, or changes overlap.
    NotRewritable,
}

/// What comes of unfurling a module by a resolver: the text and the new diagnostics, or `None` where
/// the module cannot be rewritten.
pub open spec fn is_unfurled(
    resolver: MappedSpecifierResolver,
    url: Seq<char>,
    source: SourceModule,
    unfurled: Option<Seq<char>>,
    found: Seq<crate::unfurl::DiagnosticView>,
) -> bool {
    match crate::unfurl::module_unfurl(resolver, url, source.text@, source.module_info@) {
        Some((changes, diagnostics)) => {
            let bytes = encode_utf8(source.text@);
            &&& unfurled is Some <==> crate::text_changes::applicable(bytes, changes)
            &&& unfurled matches Some(text) ==> {
                &&& encode_utf8(text) == crate::text_changes::changed(bytes, changes)
                &&& found == diagnostics
            }
        },
        None => unfurled is None,
    }
}

/// What comes of unfurling a module by an import map is what comes of unfurling it by a resolver.
pub open spec fn is_result_of(
    resolver: MappedSpecifierResolver,
    url: Seq<char>,
    source: SourceModule,
    r: Result<(String, Vec<ImportMapUnfurlDiagnostic>), UnfurlFailure>,
) -> bool {
    match r {
        Ok((text, found)) => is_unfurled(
            resolver,
            url,
            source,
            Some(text@),
            crate::unfurl::diagnostic_views(found@),
        ),
        Err(failure) => failure is NotRewritable && is_unfurled(
            resolver,
            url,
            source,
            None,
            Seq::empty(),
        ),
    }
}

/// Unfurls a module by the import map in a JSON text: every import that the import map maps becomes
/// what it maps to.
pub fn unfurl_by_import_map(
    base_url: &str,
    json: &str,
    url: &str,
    source: &SourceModule,
) -> (r: Result<(String, Vec<ImportMapUnfurlDiagnostic>), UnfurlFailure>)
    requires
        source.wf(),
    ensures
        match parsed_import_map(base_url@, json@) {
            None => r matches Err(failure) && failure is NoImportMap,
            Some(import_map) => if can_resolve_for(import_map, url@, source.text@, source.module_info@) {
                &&& exists|resolver: MappedSpecifierResolver| #[trigger]
                    follows_for(resolver, import_map, url@, source.text@, source.module_info@)
                        && is_result_of(resolver, url@, *source, r)
                &&& forall|resolver: MappedSpecifierResolver| #[trigger]
                    follows_for(resolver, import_map, url@, source.text@, source.module_info@)
                        ==> is_result_of(resolver, url@, *source, r)
            } else {
                r matches Err(failure) && failure is MisleadingEntry
            },
        },
{
    let import_map = match parse_with_import_map(base_url, json) {
        Some(import_map) => import_map,
        None => {
            return Err(UnfurlFailure::NoImportMap);
        },
    };
    let resolver = match look_up(&import_map, url, source) {
        Some(resolver) => resolver,
        None => {
            return Err(UnfurlFailure::MisleadingEntry);
        },
    };
    proof {
        assert forall|other: MappedSpecifierResolver| #[trigger]
            follows_for(other, import_map, url@, source.text@, source.module_info@) implies
            crate::unfurl::module_unfurl(other, url@, source.text@, source.module_info@)
            == crate::unfurl::module_unfurl(resolver, url@, source.text@, source.module_info@) by {
            crate::unfurl::unfurl_depends_on_looked_up_specifiers(
                other,
                resolver,
                url@,
                source.text@,
                source.module_info@,
            );
        }
    }
    let mut found: Vec<ImportMapUnfurlDiagnostic> = Vec::new();
    assert(crate::unfurl::diagnostic_views(found@) =~= Seq::empty());
    match ImportMapUnfurler::new(&resolver).unfurl(url, source, &mut found) {
        Some(text) => {
            proof {
                let new = crate::unfurl::module_unfurl(
                    resolver,
                    url@,
                    source.text@,
                    source.module_info@,
                )->Some_0.1;
                assert(Seq::empty() + new =~= new);
            }
            Ok((text, found))
        },
        None => Err(UnfurlFailure::NotRewritable),
    }
}

/// What is looked up for a specifier is the URL that it stands for, if any: one that begins with `/`, `./`
/// or `../` leads there from the module, every other one is a URL itself. Keys that end with a slash count
/// for special URLs and for specifiers that stand for none.
pub proof fn urls_are_looked_up(specifier: Seq<char>, referrer: Seq<char>)
    ensures
        ({
            let (asked, beginnings_count) = looked_up(specifier, referrer);
            let path_like = "/"@.is_prefix_of(specifier) || "./"@.is_prefix_of(specifier)
                || "../"@.is_prefix_of(specifier);
            let joined = crate::url::joined_url(referrer, specifier);
            let parsed = crate::url::parsed_url(specifier);
            &&& path_like && joined is Some ==> Some(asked) == joined
            &&& !(path_like && joined is Some) && parsed is Ok ==> Ok::<Seq<char>, Seq<char>>(asked)
                == parsed
            &&& !(path_like && joined is Some) && parsed is Err ==> asked == specifier
                && beginnings_count
            &&& (path_like && joined is Some) || parsed is Ok ==> (beginnings_count
                <==> "ftp:"@.is_prefix_of(asked) || "file:"@.is_prefix_of(asked)
                || "http:"@.is_prefix_of(asked) || "https:"@.is_prefix_of(asked)
                || "ws:"@.is_prefix_of(asked) || "wss:"@.is_prefix_of(asked))
        }),
{
    let asked = looked_up(specifier, referrer).0;
    crate::text::starts_with_a_prefix(specifier, "/"@);
    crate::text::starts_with_a_prefix(specifier, "./"@);
    crate::text::starts_with_a_prefix(specifier, "../"@);
    crate::text::starts_with_a_prefix(asked, "ftp:"@);
    crate::text::starts_with_a_prefix(asked, "file:"@);
    crate::text::starts_with_a_prefix(asked, "http:"@);
    crate::text::starts_with_a_prefix(asked, "https:"@);
    crate::text::starts_with_a_prefix(asked, "ws:"@);
    crate::text::starts_with_a_prefix(asked, "wss:"@);
}

/// An entry is one for what is looked up where its key is the same, or is a beginning of it that ends with
/// a slash, where beginnings count.
pub proof fn entries_go_by_their_keys(entry: (Seq<char>, Option<Seq<char>>), asked: (Seq<char>, bool))
    ensures
        applies(entry, asked) <==> entry.0 == asked.0 || (asked.1 && "/"@.is_suffix_of(entry.0)
            && entry.0.is_prefix_of(asked.0)),
{
    crate::text::ends_with_a_suffix(entry.0, "/"@);
    crate::text::starts_with_a_prefix(asked.0, entry.0);
}

/// Whether an import map misleads a specifier is decided by the first entry for it: one whose key is the
/// same never does, and another one does only where its address is not one of a directory. Without an
/// entry, it does not.
pub proof fn first_entry_decides(
    import_map: ::import_map::ImportMap,
    specifier: Seq<char>,
    referrer: Seq<char>,
    entries: Seq<(Seq<char>, Option<Seq<char>>)>,
    i: int,
)
    requires
        import_map_entries(import_map, referrer) == Some(entries),
        0 <= i <= entries.len(),
        forall|j: int|
            0 <= j < i ==> !applies(#[trigger] entries[j], looked_up(specifier, referrer)),
        i < entries.len() ==> applies(entries[i], looked_up(specifier, referrer)),
    ensures
        i == entries.len() ==> can_resolve(import_map, specifier, referrer),
        i < entries.len() ==> (can_resolve(import_map, specifier, referrer) <==> entries[i].0
            == looked_up(specifier, referrer).0 || entries[i].1 is None || "/"@.is_suffix_of(
            entries[i].1->Some_0,
        )),
{
    let asked = looked_up(specifier, referrer);
    if i < entries.len() {
        if let Some(address) = entries[i].1 {
            crate::text::ends_with_a_suffix(address, "/"@);
        }
        if misleads(entries[i], asked) {
            assert(!exists|j: int| 0 <= j < i && applies(#[trigger] entries[j], asked));
        } else {
            assert forall|k: int| 0 <= k < entries.len() && misleads(#[trigger] entries[k], asked)
                implies exists|j: int| 0 <= j < k && applies(#[trigger] entries[j], asked) by {
                if k > i {
                    assert(applies(entries[i], asked));
                }
            }
        }
    }
}

/// Unfurling a module by an import map changes every static import and every specifier in its comments that
/// the import map has an answer for: at the place of the specifier, without its quotation marks, stands
/// what leads to the answer.
pub proof fn answered_imports_are_rewritten(
    base_url: &str,
    json: &str,
    url: &str,
    source: &SourceModule,
    text: String,
    found: Vec<ImportMapUnfurlDiagnostic>,
    import_map: ::import_map::ImportMap,
) -> (changes: Seq<crate::text_changes::TextChangeView>)
    requires
        call_ensures(unfurl_by_import_map, (base_url, json, url, source), Ok((text, found))),
        parsed_import_map(base_url@, json@) == Some(import_map),
    ensures
        encode_utf8(text@) == crate::text_changes::changed(encode_utf8(source.text@), changes),
        forall|i: int|
            0 <= i < source.module_info@.jsdoc_imports.len() ==> is_rewritten(
                import_map,
                url@,
                source.text@,
                (#[trigger] source.module_info@.jsdoc_imports[i]).text,
                source.module_info@.jsdoc_imports[i].range,
                changes,
            ),
        forall|i: int|
            0 <= i < source.module_info@.ts_references.len() ==> is_rewritten(
                import_map,
                url@,
                source.text@,
                (#[trigger] source.module_info@.ts_references[i]).text,
                source.module_info@.ts_references[i].range,
                changes,
            ),
        forall|i: int|
            0 <= i < source.module_info@.dependencies.len() ==> ((
            #[trigger] source.module_info@.dependencies[i]).specifier matches crate::source_module::DependencySpecifierView::Static(
                specifier,
            ) ==> is_rewritten(
                import_map,
                url@,
                source.text@,
                specifier,
                source.module_info@.dependencies[i].range,
                changes,
            )),
{
    let module = source.module_info@;
    let specifiers = crate::unfurl::module_looked_up(source.text@, module);
    let resolver = choose|resolver: MappedSpecifierResolver| #[trigger]
        follows_for(resolver, import_map, url@, source.text@, module) && is_result_of(
            resolver,
            url@,
            *source,
            Ok((text, found)),
        );
    let changes = crate::unfurl::module_unfurl(resolver, url@, source.text@, module)->Some_0.0;
    crate::unfurl::every_specifier_is_looked_up(source.text@, module);
    assert forall|i: int| 0 <= i < module.jsdoc_imports.len() implies is_rewritten(
        import_map,
        url@,
        source.text@,
        (#[trigger] module.jsdoc_imports[i]).text,
        module.jsdoc_imports[i].range,
        changes,
    ) by {
        let at = specifiers.index_of(module.jsdoc_imports[i].text);
        assert(specifiers.contains(module.jsdoc_imports[i].text));
        assert(specifiers[at] == module.jsdoc_imports[i].text);
        if let Some(to) = import_map_answer(import_map, module.jsdoc_imports[i].text, url@) {
            let k = crate::unfurl::mapped_jsdoc_import_is_rewritten(
                resolver,
                url@,
                source.text@,
                module,
                i,
                to,
            );
            assert(changes[k].start == changes[k].start);
        }
    }
    assert forall|i: int| 0 <= i < module.ts_references.len() implies is_rewritten(
        import_map,
        url@,
        source.text@,
        (#[trigger] module.ts_references[i]).text,
        module.ts_references[i].range,
        changes,
    ) by {
        let at = specifiers.index_of(module.ts_references[i].text);
        assert(specifiers.contains(module.ts_references[i].text));
        assert(specifiers[at] == module.ts_references[i].text);
        if let Some(to) = import_map_answer(import_map, module.ts_references[i].text, url@) {
            let k = crate::unfurl::mapped_triple_slash_reference_is_rewritten(
                resolver,
                url@,
                source.text@,
                module,
                i,
                to,
            );
            assert(changes[k].start == changes[k].start);
        }
    }
    assert forall|i: int| 0 <= i < module.dependencies.len() implies ((
    #[trigger] module.dependencies[i]).specifier matches crate::source_module::DependencySpecifierView::Static(
        specifier,
    ) ==> is_rewritten(
        import_map,
        url@,
        source.text@,
        specifier,
        module.dependencies[i].range,
        changes,
    )) by {
        if let crate::source_module::DependencySpecifierView::Static(specifier) =
            module.dependencies[i].specifier {
            let at = specifiers.index_of(specifier);
            assert(specifiers.contains(specifier));
            assert(specifiers[at] == specifier);
            if let Some(to) = import_map_answer(import_map, specifier, url@) {
                let k = crate::unfurl::mapped_static_import_is_rewritten(
                    resolver,
                    url@,
                    source.text@,
                    module,
                    i,
                    specifier,
                    to,
                );
                assert(changes[k].start == changes[k].start);
            }
        }
    }
    changes
}

/// Where the import map has an answer for the specifier, one of the changes puts what leads to the answer
/// in the specifier's place.
pub open spec fn is_rewritten(
    import_map: ::import_map::ImportMap,
    url: Seq<char>,
    text: Seq<char>,
    specifier: Seq<char>,
    range: crate::source_module::PositionRange,
    changes: Seq<crate::text_changes::TextChangeView>,
) -> bool {
    import_map_answer(import_map, specifier, url) matches Some(to) ==> exists|k: int|
        {
            &&& 0 <= k < changes.len()
            &&& crate::unfurl::unquoted_range(text, range) == Some(
                ((#[trigger] changes[k]).start, changes[k].end),
            )
            &&& crate::unfurl::relative_to(to, crate::url::relative_url(url, to)) == Some(
                changes[k].new_text,
            )
        }
}

/// Unfurling fails without an import map exactly where the texts make none, because of a misleading entry
/// exactly where one of the specifiers that are looked up is misled, and otherwise only where the module
/// cannot be rewritten.
pub proof fn failure_says_what_is_wrong(
    base_url: &str,
    json: &str,
    url: &str,
    source: &SourceModule,
    r: Result<(String, Vec<ImportMapUnfurlDiagnostic>), UnfurlFailure>,
)
    requires
        call_ensures(unfurl_by_import_map, (base_url, json, url, source), r),
    ensures
        ({
            let specifiers = crate::unfurl::module_looked_up(source.text@, source.module_info@);
            let failed = match r {
                Ok(_) => None,
                Err(failure) => Some(failure),
            };
            &&& failed == Some(UnfurlFailure::NoImportMap) <==> parsed_import_map(
                base_url@,
                json@,
            ) is None
            &&& parsed_import_map(base_url@, json@) matches Some(import_map) ==> (failed == Some(
                UnfurlFailure::MisleadingEntry,
            ) <==> exists|i: int|
                0 <= i < specifiers.len() && !can_resolve(
                    import_map,
                    #[trigger] specifiers[i],
                    url@,
                ))
        }),
{
    if let Some(import_map) = parsed_import_map(base_url@, json@) {
        let specifiers = crate::unfurl::module_looked_up(source.text@, source.module_info@);
        if can_resolve_for(import_map, url@, source.text@, source.module_info@) {
            assert forall|i: int| 0 <= i < specifiers.len() implies can_resolve(
                import_map,
                #[trigger] specifiers[i],
                url@,
            ) by {}
        }
    }
}

} // verus!
