//! The packages that the import map of a configuration file depends on.

use vstd::prelude::*;
use vstd::string::*;

use crate::package_version::{is_endless, reference_is_endless};
use crate::text::str_eq;

verus! {

/// A JSON value, as far as an import map looks into it.
#[derive(Debug)]
pub enum Json {
    /// The members of an object, in order.
    Object(Vec<(String, Json)>),
    Text(String),
    Other,
}

/// The texts among the values of an object's first `n` members, in order.
pub open spec fn member_texts(members: Seq<(String, Json)>, n: nat) -> Seq<Seq<char>>
    decreases n,
{
    if n == 0 {
        Seq::<Seq<char>>::empty()
    } else {
        let before = member_texts(members, (n - 1) as nat);
        match members[n - 1].1 {
            Json::Text(value) => before.push(value@),
            _ => before,
        }
    }
}

/// The texts that an `imports` object maps to; none where there is no such object.
pub open spec fn imports_texts(value: Option<Json>) -> Seq<Seq<char>> {
    match value {
        Some(Json::Object(members)) => member_texts(members@, members@.len()),
        _ => Seq::<Seq<char>>::empty(),
    }
}

/// The texts that the first `n` scopes map to, in order.
pub open spec fn scope_member_texts(members: Seq<(String, Json)>, n: nat) -> Seq<Seq<char>>
    decreases n,
{
    if n == 0 {
        Seq::<Seq<char>>::empty()
    } else {
        scope_member_texts(members, (n - 1) as nat) + imports_texts(Some(members[n - 1].1))
    }
}

/// The texts that a `scopes` object maps to; none where there is no such object.
pub open spec fn scopes_texts(value: Option<Json>) -> Seq<Seq<char>> {
    match value {
        Some(Json::Object(members)) => scope_member_texts(members@, members@.len()),
        _ => Seq::<Seq<char>>::empty(),
    }
}

/// What an optional reference refers to.
pub open spec fn opt_json(value: Option<&Json>) -> Option<Json> {
    match value {
        Some(json) => Some(*json),
        None => None,
    }
}

/// The texts that an `imports` object maps to.
pub fn imports_values(value: Option<&Json>) -> (r: Vec<String>)
    ensures
        crate::text::texts(r@) == imports_texts(opt_json(value)),
{
    let mut items: Vec<String> = Vec::new();
    assert(crate::text::texts(items@) =~= Seq::<Seq<char>>::empty());
    if let Some(Json::Object(members)) = value {
        let mut i: usize = 0;
        while i < members.len()
            invariant
                i <= members.len(),
                crate::text::texts(items@) == member_texts(members@, i as nat),
            decreases members.len() - i,
        {
            if let Json::Text(value) = &members[i].1 {
                let ghost before = items@;
                items.push(value.clone());
                assert(crate::text::texts(items@) =~= crate::text::texts(before).push(value@));
            }
            i += 1;
        }
    }
    items
}

/// The texts that a `scopes` object maps to.
pub fn scope_values(value: Option<&Json>) -> (r: Vec<String>)
    ensures
        crate::text::texts(r@) == scopes_texts(opt_json(value)),
{
    let mut items: Vec<String> = Vec::new();
    assert(crate::text::texts(items@) =~= Seq::<Seq<char>>::empty());
    if let Some(Json::Object(members)) = value {
        let mut i: usize = 0;
        while i < members.len()
            invariant
                i <= members.len(),
                crate::text::texts(items@) == scope_member_texts(members@, i as nat),
            decreases members.len() - i,
        {
            let mut imports = imports_values(Some(&members[i].1));
            let ghost before = items@;
            let ghost added = imports@;
            items.append(&mut imports);
            assert(crate::text::texts(items@) =~= crate::text::texts(before)
                + crate::text::texts(added));
            i += 1;
        }
    }
    items
}

/// The registry that a package comes from.
#[derive(Debug, Clone, Copy, PartialEq, Eq, Structural)]
pub enum PackageKind {
    Jsr,
    Npm,
}

/// A dependency on a package: its registry, its name and the text of its version requirement.
#[derive(Debug, Clone, PartialEq, Eq)]
pub struct JsrDepPackageReq {
    pub kind: PackageKind,
    pub name: String,
    pub version_req: String,
}

/// What a [`JsrDepPackageReq`] holds.
#[verifier::ext_equal]
pub struct JsrDepPackageReqView {
    pub kind: PackageKind,
    pub name: Seq<char>,
    pub version_req: Seq<char>,
}

impl View for JsrDepPackageReq {
    type V = JsrDepPackageReqView;

    open spec fn view(&self) -> JsrDepPackageReqView {
        JsrDepPackageReqView {
            kind: self.kind,
            name: self.name@,
            version_req: self.version_req@,
        }
    }
}

/// What a sequence of dependencies holds.
pub open spec fn req_views(reqs: Seq<JsrDepPackageReq>) -> Seq<JsrDepPackageReqView> {
    reqs.map_values(|r: JsrDepPackageReq| r@)
}

/// The package name and the text of the version requirement that
/// `deno_semver::jsr::JsrPackageReqReference::from_str` reads in a specifier.
pub uninterp spec fn jsr_reference(specifier: Seq<char>) -> Option<(Seq<char>, Seq<char>)>;

/// The package name and the text of the version requirement that
/// `deno_semver::npm::NpmPackageReqReference::from_str` reads in a specifier.
pub uninterp spec fn npm_reference(specifier: Seq<char>) -> Option<(Seq<char>, Seq<char>)>;

/// The two texts are read as the same version requirement by
/// `deno_semver::VersionReq::parse_from_specifier`.
pub uninterp spec fn same_version_req(a: Seq<char>, b: Seq<char>) -> bool;

/// The texts of an optional pair.
pub open spec fn pair_texts(r: Option<(String, String)>) -> Option<(Seq<char>, Seq<char>)> {
    match r {
        Some((a, b)) => Some((a@, b@)),
        None => None,
    }
}

/// Calls `deno_semver::jsr::JsrPackageReqReference::from_str`, whose result is a function of the
/// specifier. It reads specifiers that begin with `jsr:` only. It counts up the
/// number that the range of the version requirement ends behind, without a check.
#[verifier::external_body]
fn parse_jsr_reference(specifier: &str) -> (r: Option<(String, String)>)
    requires
        !crate::package_version::has_endless_version(specifier@),
    ensures
        pair_texts(r) == jsr_reference(specifier@),
        r is Some ==> crate::text::starts_with_text(specifier@, "jsr:"@),
{
    let req = deno_semver::jsr::JsrPackageReqReference::from_str(specifier).ok()?.into_inner().req;
    Some((req.name.to_string(), req.version_req.version_text().to_string()))
}

/// Calls `deno_semver::npm::NpmPackageReqReference::from_str`, whose result is a function of the
/// specifier. It reads specifiers that begin with `npm:` only. It counts up the
/// number that the range of the version requirement ends behind, without a check.
#[verifier::external_body]
fn parse_npm_reference(specifier: &str) -> (r: Option<(String, String)>)
    requires
        !crate::package_version::has_endless_version(specifier@),
    ensures
        pair_texts(r) == npm_reference(specifier@),
        r is Some ==> crate::text::starts_with_text(specifier@, "npm:"@),
{
    let req = deno_semver::npm::NpmPackageReqReference::from_str(specifier).ok()?.into_inner().req;
    Some((req.name.to_string(), req.version_req.version_text().to_string()))
}

/// Compares what `deno_semver::VersionReq::parse_from_specifier` reads in two texts, which is a
/// function of the texts. Reading counts up the number that the range ends behind,
/// without a check.
#[verifier::external_body]
fn are_same_version_req(a: &str, b: &str) -> (r: bool)
    requires
        !crate::package_version::ends_behind_all(a@),
        !crate::package_version::ends_behind_all(b@),
    ensures
        r == same_version_req(a@, b@),
        a@ == b@ ==> r,
{
    let read = |text: &str| deno_semver::VersionReq::parse_from_specifier(text).ok();
    read(a) == read(b)
}

/// The dependency that a specifier in an import map stands for, if it stands for one. One whose range
/// of versions ends behind the greatest number of 64 bits stands for none.
pub open spec fn dependency_of(specifier: Seq<char>) -> Option<JsrDepPackageReqView> {
    if crate::package_version::has_endless_version(specifier) {
        None
    } else {
        match jsr_reference(specifier) {
            Some((name, version_req)) => Some(
                JsrDepPackageReqView { kind: PackageKind::Jsr, name, version_req },
            ),
            None => match npm_reference(specifier) {
                Some((name, version_req)) => Some(
                    JsrDepPackageReqView { kind: PackageKind::Npm, name, version_req },
                ),
                None => None,
            },
        }
    }
}

/// Two texts of version requirements stand for the same requirement. One whose range
/// ends behind the greatest number of 64 bits is the same as no other text.
pub open spec fn are_same_req(a: Seq<char>, b: Seq<char>) -> bool {
    if crate::package_version::ends_behind_all(a) || crate::package_version::ends_behind_all(b) {
        a == b
    } else {
        same_version_req(a, b)
    }
}

/// The two dependencies are the same, however their version requirements are written.
pub open spec fn same_dependency(a: JsrDepPackageReqView, b: JsrDepPackageReqView) -> bool {
    a.kind == b.kind && a.name == b.name && are_same_req(a.version_req, b.version_req)
}

/// The dependency is among `reqs`.
pub open spec fn is_among(reqs: Seq<JsrDepPackageReqView>, req: JsrDepPackageReqView) -> bool {
    exists|i: int| 0 <= i < reqs.len() && same_dependency(#[trigger] reqs[i], req)
}

/// The dependencies that the specifiers stand for, each of them once, as it is written first.
pub open spec fn dependency_set(specifiers: Seq<Seq<char>>) -> Seq<JsrDepPackageReqView>
    decreases specifiers.len(),
{
    if specifiers.len() == 0 {
        Seq::<JsrDepPackageReqView>::empty()
    } else {
        let before = dependency_set(specifiers.drop_last());
        match dependency_of(specifiers.last()) {
            Some(req) if !is_among(before, req) => before.push(req),
            _ => before,
        }
    }
}

impl JsrDepPackageReq {
    /// Reads the dependency that a specifier stands for.
    pub fn from_specifier(specifier: &str) -> (r: Option<JsrDepPackageReq>)
        ensures
            match r {
                Some(req) => dependency_of(specifier@) == Some(req@),
                None => dependency_of(specifier@) is None,
            },
    {
        if reference_is_endless(specifier) {
            None
        } else if let Some((name, version_req)) = parse_jsr_reference(specifier) {
            Some(JsrDepPackageReq { kind: PackageKind::Jsr, name, version_req })
        } else if let Some((name, version_req)) = parse_npm_reference(specifier) {
            Some(JsrDepPackageReq { kind: PackageKind::Npm, name, version_req })
        } else {
            None
        }
    }

    /// Whether both are the same dependency.
    pub fn same(&self, other: &JsrDepPackageReq) -> (r: bool)
        ensures
            r == same_dependency(self@, other@),
    {
        if self.kind != other.kind || !str_eq(self.name.as_str(), other.name.as_str()) {
            return false;
        }
        let a = self.version_req.as_str();
        let b = other.version_req.as_str();
        if is_endless(a) || is_endless(b) {
            str_eq(a, b)
        } else {
            are_same_version_req(a, b)
        }
    }
}

/// Adds a dependency to a set of them, unless it is there already.
pub fn insert_dependency(entries: &mut Vec<JsrDepPackageReq>, req: JsrDepPackageReq)
    ensures
        req_views(final(entries)@) == if is_among(req_views(old(entries)@), req@) {
            req_views(old(entries)@)
        } else {
            req_views(old(entries)@).push(req@)
        },
{
    let mut i: usize = 0;
    while i < entries.len()
        invariant
            i <= entries.len(),
            *entries == *old(entries),
            forall|j: int|
                0 <= j < i ==> !same_dependency(#[trigger] req_views(entries@)[j], req@),
        decreases entries.len() - i,
    {
        assert(req_views(entries@)[i as int] == entries@[i as int]@);
        if entries[i].same(&req) {
            return ;
        }
        i += 1;
    }
    let ghost before = entries@;
    entries.push(req);
    assert(req_views(entries@) =~= req_views(before).push(req@));
}

/// The dependencies that the specifiers stand for, each of them once.
pub fn values_to_set(values: &Vec<String>) -> (r: Vec<JsrDepPackageReq>)
    ensures
        req_views(r@) == dependency_set(crate::text::texts(values@)),
{
    let mut entries: Vec<JsrDepPackageReq> = Vec::new();
    let ghost specifiers = crate::text::texts(values@);
    assert(req_views(entries@) =~= dependency_set(specifiers.take(0)));
    let mut i: usize = 0;
    while i < values.len()
        invariant
            i <= values.len(),
            specifiers == crate::text::texts(values@),
            req_views(entries@) == dependency_set(specifiers.take(i as int)),
        decreases values.len() - i,
    {
        assert(specifiers.take(i + 1).drop_last() =~= specifiers.take(i as int));
        assert(specifiers.take(i + 1).last() == values@[i as int]@);
        if let Some(req) = JsrDepPackageReq::from_specifier(values[i].as_str()) {
            insert_dependency(&mut entries, req);
        }
        i += 1;
    }
    assert(specifiers.take(i as int) =~= specifiers);
    entries
}

/// The dependencies that a configuration file has by its `imports` and its `scopes`, each of them
/// once.
pub fn deno_json_deps(imports: Option<&Json>, scopes: Option<&Json>) -> (r: Vec<JsrDepPackageReq>)
    ensures
        req_views(r@) == dependency_set(
            imports_texts(opt_json(imports)) + scopes_texts(opt_json(scopes)),
        ),
{
    let mut values = imports_values(imports);
    let mut scoped = scope_values(scopes);
    let ghost before = values@;
    let ghost added = scoped@;
    values.append(&mut scoped);
    assert(crate::text::texts(values@) =~= crate::text::texts(before) + crate::text::texts(added));
    values_to_set(&values)
}

/// No dependency is twice in the set.
pub proof fn dependencies_are_distinct(specifiers: Seq<Seq<char>>, i: int, j: int)
    requires
        0 <= i < j < dependency_set(specifiers).len(),
    ensures
        !same_dependency(dependency_set(specifiers)[i], dependency_set(specifiers)[j]),
    decreases specifiers.len(),
{
    let before = dependency_set(specifiers.drop_last());
    if j < before.len() {
        dependencies_are_distinct(specifiers.drop_last(), i, j);
    } else {
        assert(dependency_set(specifiers)[i] == before[i]);
    }
}

/// Every specifier that stands for a dependency has it in the set, as it is written or in another
/// form.
pub proof fn dependencies_are_complete(specifiers: Seq<Seq<char>>, i: int)
    requires
        0 <= i < specifiers.len(),
    ensures
        dependency_of(specifiers[i]) matches Some(req) ==> dependency_set(specifiers).contains(req)
            || is_among(dependency_set(specifiers), req),
    decreases specifiers.len(),
{
    let before = dependency_set(specifiers.drop_last());
    let all = dependency_set(specifiers);
    if dependency_of(specifiers[i]) is Some {
        let req = dependency_of(specifiers[i])->Some_0;
        if i == specifiers.len() - 1 {
            if !is_among(before, req) {
                assert(all[before.len() as int] == req);
            }
        } else {
            dependencies_are_complete(specifiers.drop_last(), i);
            assert(forall|k: int| 0 <= k < before.len() ==> all[k] == before[k]);
            if before.contains(req) {
                let k = choose|k: int| 0 <= k < before.len() && before[k] == req;
                assert(all[k] == req);
            } else {
                let k = choose|k: int|
                    0 <= k < before.len() && same_dependency(#[trigger] before[k], req);
                assert(same_dependency(all[k], req));
            }
        }
    }
}

/// Nothing is in the set but what a specifier stands for.
pub proof fn dependencies_are_sound(specifiers: Seq<Seq<char>>, k: int) -> (i: int)
    requires
        0 <= k < dependency_set(specifiers).len(),
    ensures
        0 <= i < specifiers.len(),
        dependency_of(specifiers[i]) == Some(dependency_set(specifiers)[k]),
    decreases specifiers.len(),
{
    let before = dependency_set(specifiers.drop_last());
    if k < before.len() {
        dependencies_are_sound(specifiers.drop_last(), k)
    } else {
        specifiers.len() - 1
    }
}

/// The texts of an `imports` object are the values of those of its members that are texts, in their
/// order. What a member's key is does not matter.
pub proof fn all_texts_are_collected(members: Vec<(String, Json)>)
    ensures
        imports_texts(Some(Json::Object(members))) == members@.filter(
            |m: (String, Json)| m.1 is Text,
        ).map_values(|m: (String, Json)| m.1->Text_0@),
        forall|i: int|
            0 <= i < members@.len() && (#[trigger] members@[i]).1 is Text ==> imports_texts(
                Some(Json::Object(members)),
            ).contains(members@[i].1->Text_0@),
{
    let n = members@.len();
    first_texts_are_collected(members@, n);
    assert(members@.take(n as int) =~= members@);
    assert forall|i: int| 0 <= i < n && (#[trigger] members@[i]).1 is Text implies imports_texts(
        Some(Json::Object(members)),
    ).contains(members@[i].1->Text_0@) by {
        text_is_collected(members@, n, i);
    }
}

/// The texts of a `scopes` object are those of all its scopes: the value of every member of every
/// scope that is a text is among them, whatever the keys are.
pub proof fn texts_of_all_scopes_are_collected(
    scopes: Vec<(String, Json)>,
    i: int,
    members: Vec<(String, Json)>,
    k: int,
)
    requires
        0 <= i < scopes@.len(),
        scopes@[i].1 == Json::Object(members),
        0 <= k < members@.len(),
        members@[k].1 is Text,
    ensures
        scopes_texts(Some(Json::Object(scopes))).contains(members@[k].1->Text_0@),
{
    text_is_collected(members@, members@.len(), k);
    scope_text_is_collected(scopes@, scopes@.len(), i, members@[k].1->Text_0@);
}

/// Nothing is collected but the text of a member: of the `imports` object, or of a scope.
pub proof fn only_texts_are_collected(text: Seq<char>, scopes: Vec<(String, Json)>) -> (found: (
    int,
    int,
))
    requires
        scopes_texts(Some(Json::Object(scopes))).contains(text),
    ensures
        0 <= found.0 < scopes@.len(),
        scopes@[found.0].1 matches Json::Object(members) && 0 <= found.1 < members@.len()
            && members@[found.1].1 is Text && members@[found.1].1->Text_0@ == text,
{
    scope_text_has_a_source(scopes@, scopes@.len(), text)
}

/// Only an object has members: of every other value, and where there is none, nothing is collected.
pub proof fn only_objects_have_texts(value: Option<Json>)
    requires
        !(value matches Some(json) && json is Object),
    ensures
        imports_texts(value).len() == 0,
        scopes_texts(value).len() == 0,
{
}

/// The values of an `imports` object are the texts among the values of its members, in their order, whatever
/// the keys are; of every other value, and where there is none, there are none.
pub proof fn values_are_the_texts_of_members(value: Option<&Json>, r: Vec<String>)
    requires
        call_ensures(imports_values, (value,), r),
    ensures
        match value {
            Some(json) => match *json {
                Json::Object(members) => crate::text::texts(r@) == members@.filter(
                    |m: (String, Json)| m.1 is Text,
                ).map_values(|m: (String, Json)| m.1->Text_0@),
                _ => r@.len() == 0,
            },
            None => r@.len() == 0,
        },
{
    assert(crate::text::texts(r@).len() == r@.len());
    if let Some(json) = value {
        if let Json::Object(members) = *json {
            all_texts_are_collected(members);
        }
    }
}

/// The values of a `scopes` object are the texts of all members of all scopes, and nothing else.
pub proof fn values_of_scopes_are_those_of_all_scopes(
    scopes: Vec<(String, Json)>,
    value: &Json,
    r: Vec<String>,
    text: Seq<char>,
)
    requires
        *value == Json::Object(scopes),
        call_ensures(scope_values, (Some(value),), r),
    ensures
        crate::text::texts(r@).contains(text) <==> exists|i: int, k: int|
            0 <= i < scopes@.len() && #[trigger] is_text_of_scope(scopes@[i].1, k, text),
{
    let texts = crate::text::texts(r@);
    if texts.contains(text) {
        let (i, k) = only_texts_are_collected(text, scopes);
        assert(is_text_of_scope(scopes@[i].1, k, text));
    }
    if exists|i: int, k: int|
        0 <= i < scopes@.len() && #[trigger] is_text_of_scope(scopes@[i].1, k, text) {
        let (i, k) = choose|i: int, k: int|
            0 <= i < scopes@.len() && #[trigger] is_text_of_scope(scopes@[i].1, k, text);
        let members = scopes@[i].1->Object_0;
        texts_of_all_scopes_are_collected(scopes, i, members, k);
    }
}

/// The scope is an object whose member at the given place is the text.
pub open spec fn is_text_of_scope(scope: Json, k: int, text: Seq<char>) -> bool {
    scope matches Json::Object(members) && 0 <= k < members@.len() && members@[k].1 is Text
        && members@[k].1->Text_0@ == text
}

/// Every text value of the `imports` object that stands for a package has it in the dependencies of
/// the configuration file: from the same registry, under the same name, and with the same version
/// requirement, as it is written or in another form.
pub proof fn imported_packages_are_dependencies(
    members: Vec<(String, Json)>,
    imports: &Json,
    scopes: Option<&Json>,
    r: Vec<JsrDepPackageReq>,
    i: int,
) -> (k: int)
    requires
        *imports == Json::Object(members),
        call_ensures(deno_json_deps, (Some(imports), scopes), r),
        0 <= i < members@.len(),
        members@[i].1 is Text,
        dependency_of(members@[i].1->Text_0@) is Some,
    ensures
        ({
            let req = dependency_of(members@[i].1->Text_0@)->Some_0;
            &&& 0 <= k < r@.len()
            &&& r@[k].kind == req.kind
            &&& r@[k].name@ == req.name
            &&& r@[k].version_req@ == req.version_req || same_version_req(
                r@[k].version_req@,
                req.version_req,
            )
        }),
{
    let text = members@[i].1->Text_0@;
    let imported = imports_texts(Some(Json::Object(members)));
    let all = imported + scopes_texts(opt_json(scopes));
    text_is_collected(members@, members@.len(), i);
    let at = choose|at: int| 0 <= at < imported.len() && imported[at] == text;
    assert(all[at] == text);
    let k = named_package_is_found(all, at);
    assert(req_views(r@)[k] == r@[k]@);
    k
}

/// Every text value of a scope that stands for a package has it in the dependencies of the
/// configuration file.
pub proof fn scoped_packages_are_dependencies(
    imports: Option<&Json>,
    scopes: Vec<(String, Json)>,
    value: &Json,
    i: int,
    members: Vec<(String, Json)>,
    m: int,
    r: Vec<JsrDepPackageReq>,
) -> (k: int)
    requires
        *value == Json::Object(scopes),
        call_ensures(deno_json_deps, (imports, Some(value)), r),
        0 <= i < scopes@.len(),
        scopes@[i].1 == Json::Object(members),
        0 <= m < members@.len(),
        members@[m].1 is Text,
        dependency_of(members@[m].1->Text_0@) is Some,
    ensures
        ({
            let req = dependency_of(members@[m].1->Text_0@)->Some_0;
            &&& 0 <= k < r@.len()
            &&& r@[k].kind == req.kind
            &&& r@[k].name@ == req.name
            &&& r@[k].version_req@ == req.version_req || same_version_req(
                r@[k].version_req@,
                req.version_req,
            )
        }),
{
    let text = members@[m].1->Text_0@;
    let imported = imports_texts(opt_json(imports));
    let scoped = scopes_texts(Some(Json::Object(scopes)));
    let all = imported + scoped;
    texts_of_all_scopes_are_collected(scopes, i, members, m);
    let at = choose|at: int| 0 <= at < scoped.len() && scoped[at] == text;
    assert(all[imported.len() + at] == text);
    let k = named_package_is_found(all, imported.len() + at);
    assert(req_views(r@)[k] == r@[k]@);
    k
}

/// No package is twice among the dependencies of a configuration file, and each of them is one that a text of
/// the file stands for.
pub proof fn dependencies_come_from_texts(
    imports: Option<&Json>,
    scopes: Option<&Json>,
    r: Vec<JsrDepPackageReq>,
    a: int,
    b: int,
)
    requires
        call_ensures(deno_json_deps, (imports, scopes), r),
        0 <= a < b < r@.len(),
    ensures
        r@[a].kind == r@[b].kind && r@[a].name@ == r@[b].name@
            && !crate::package_version::ends_behind_all(r@[a].version_req@)
            && !crate::package_version::ends_behind_all(r@[b].version_req@) ==> !same_version_req(
            r@[a].version_req@,
            r@[b].version_req@,
        ),
        exists|text: Seq<char>|
            (imports_texts(opt_json(imports)).contains(text) || scopes_texts(
                opt_json(scopes),
            ).contains(text)) && #[trigger] dependency_of(text) == Some(r@[a]@),
{
    let imported = imports_texts(opt_json(imports));
    let scoped = scopes_texts(opt_json(scopes));
    let all = imported + scoped;
    assert(req_views(r@).len() == r@.len());
    assert(req_views(r@)[a] == r@[a]@);
    assert(req_views(r@)[b] == r@[b]@);
    dependencies_are_distinct(all, a, b);
    let i = dependencies_are_sound(all, a);
    if i < imported.len() {
        assert(imported[i] == all[i]);
    } else {
        assert(scoped[i - imported.len()] == all[i]);
    }
    assert(dependency_of(all[i]) == Some(r@[a]@));
}

/// A specifier of a JSR package stands for that package, and one that is none but is one of an npm
/// package stands for that; every other specifier stands for nothing.
pub proof fn registry_follows_the_specifier(specifier: Seq<char>)
    requires
        !crate::package_version::has_endless_version(specifier),
    ensures
        dependency_of(specifier) is Some <==> jsr_reference(specifier) is Some || npm_reference(
            specifier,
        ) is Some,
        dependency_of(specifier) matches Some(req) ==> match req.kind {
            PackageKind::Jsr => jsr_reference(specifier) == Some((req.name, req.version_req)),
            PackageKind::Npm => jsr_reference(specifier) is None && npm_reference(specifier)
                == Some((req.name, req.version_req)),
        },
{
}

/// Two packages of one configuration file are one dependency only where the registry and the name
/// are the same.
pub proof fn other_packages_are_other_dependencies(
    a: JsrDepPackageReqView,
    b: JsrDepPackageReqView,
)
    ensures
        same_dependency(a, b) ==> a.kind == b.kind && a.name == b.name,
        a.kind == b.kind && a.name == b.name && same_version_req(a.version_req, b.version_req)
            && !crate::package_version::ends_behind_all(a.version_req)
            && !crate::package_version::ends_behind_all(b.version_req) ==> same_dependency(a, b),
{
}

proof fn first_texts_are_collected(members: Seq<(String, Json)>, n: nat)
    requires
        n <= members.len(),
    ensures
        member_texts(members, n) == members.take(n as int).filter(
            |m: (String, Json)| m.1 is Text,
        ).map_values(|m: (String, Json)| m.1->Text_0@),
    decreases n,
{
    reveal(Seq::filter);
    let first = members.take(n as int);
    if n > 0 {
        first_texts_are_collected(members, (n - 1) as nat);
        assert(first.drop_last() =~= members.take(n - 1));
        assert(first.last() == members[n - 1]);
    }
    assert(member_texts(members, n) =~= first.filter(
        |m: (String, Json)| m.1 is Text,
    ).map_values(|m: (String, Json)| m.1->Text_0@));
}

proof fn text_is_collected(members: Seq<(String, Json)>, n: nat, i: int)
    requires
        0 <= i < n <= members.len(),
        members[i].1 is Text,
    ensures
        member_texts(members, n).contains(members[i].1->Text_0@),
    decreases n,
{
    let all = member_texts(members, n);
    let before = member_texts(members, (n - 1) as nat);
    let text = members[i].1->Text_0@;
    if i == n - 1 {
        assert(all[before.len() as int] == text);
    } else {
        text_is_collected(members, (n - 1) as nat, i);
        let k = choose|k: int| 0 <= k < before.len() && before[k] == text;
        assert(all[k] == text);
    }
}

proof fn scope_text_is_collected(
    scopes: Seq<(String, Json)>,
    n: nat,
    i: int,
    text: Seq<char>,
)
    requires
        0 <= i < n <= scopes.len(),
        imports_texts(Some(scopes[i].1)).contains(text),
    ensures
        scope_member_texts(scopes, n).contains(text),
    decreases n,
{
    let all = scope_member_texts(scopes, n);
    let before = scope_member_texts(scopes, (n - 1) as nat);
    if i == n - 1 {
        let added = imports_texts(Some(scopes[i].1));
        let k = choose|k: int| 0 <= k < added.len() && added[k] == text;
        assert(all[before.len() + k] == text);
    } else {
        scope_text_is_collected(scopes, (n - 1) as nat, i, text);
        let k = choose|k: int| 0 <= k < before.len() && before[k] == text;
        assert(all[k] == text);
    }
}

proof fn text_has_a_source(members: Seq<(String, Json)>, n: nat, text: Seq<char>) -> (i: int)
    requires
        n <= members.len(),
        member_texts(members, n).contains(text),
    ensures
        0 <= i < n,
        members[i].1 is Text,
        members[i].1->Text_0@ == text,
    decreases n,
{
    let all = member_texts(members, n);
    let before = member_texts(members, (n - 1) as nat);
    let k = choose|k: int| 0 <= k < all.len() && all[k] == text;
    if k < before.len() {
        assert(before[k] == text);
        text_has_a_source(members, (n - 1) as nat, text)
    } else {
        n - 1
    }
}

proof fn scope_text_has_a_source(scopes: Seq<(String, Json)>, n: nat, text: Seq<char>) -> (found: (
    int,
    int,
))
    requires
        n <= scopes.len(),
        scope_member_texts(scopes, n).contains(text),
    ensures
        0 <= found.0 < n,
        scopes[found.0].1 matches Json::Object(members) && 0 <= found.1 < members@.len()
            && members@[found.1].1 is Text && members@[found.1].1->Text_0@ == text,
    decreases n,
{
    let all = scope_member_texts(scopes, n);
    let before = scope_member_texts(scopes, (n - 1) as nat);
    let k = choose|k: int| 0 <= k < all.len() && all[k] == text;
    if k < before.len() {
        assert(before[k] == text);
        scope_text_has_a_source(scopes, (n - 1) as nat, text)
    } else {
        let added = imports_texts(Some(scopes[n - 1].1));
        assert(added[k - before.len()] == text);
        assert(added.contains(text));
        let members = scopes[n - 1].1->Object_0;
        (n - 1, text_has_a_source(members@, members@.len(), text))
    }
}

proof fn named_package_is_found(specifiers: Seq<Seq<char>>, i: int) -> (k: int)
    requires
        0 <= i < specifiers.len(),
        dependency_of(specifiers[i]) is Some,
    ensures
        ({
            let req = dependency_of(specifiers[i])->Some_0;
            let all = dependency_set(specifiers);
            &&& 0 <= k < all.len()
            &&& all[k].kind == req.kind
            &&& all[k].name == req.name
            &&& all[k].version_req == req.version_req || same_version_req(
                all[k].version_req,
                req.version_req,
            )
        }),
{
    let req = dependency_of(specifiers[i])->Some_0;
    let all = dependency_set(specifiers);
    dependencies_are_complete(specifiers, i);
    if all.contains(req) {
        choose|k: int| 0 <= k < all.len() && all[k] == req
    } else {
        choose|k: int| 0 <= k < all.len() && same_dependency(#[trigger] all[k], req)
    }
}

} // verus!
