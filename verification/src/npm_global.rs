//! Resolution of packages in the global npm cache.

use vstd::prelude::*;
use vstd::string::*;

use crate::shared::AnyError;

verus! {

/// The error about a referrer that is in no npm package.
pub open spec fn no_package_for(referrer: Seq<char>) -> Seq<char> {
    "could not find npm package for '"@ + referrer + "'"@
}

/// The package that a referrer is in, which is to resolve the name. `referrer_pkg_id` is what the
/// cache says about the referrer.
pub fn referrer_package(referrer: &str, referrer_pkg_id: Option<String>) -> (r: Result<
    String,
    AnyError,
>)
    ensures
        match referrer_pkg_id {
            Some(id) => r == Ok::<String, AnyError>(id),
            None => r matches Err(e) && e@ == seq![no_package_for(referrer@)],
        },
{
    match referrer_pkg_id {
        Some(id) => Ok(id),
        None => {
            let mut message: String = "could not find npm package for '".to_owned();
            message.append(referrer);
            message.append("'");
            Err(AnyError::new(message))
        },
    }
}

/// Resolves packages from the global npm cache.
#[derive(Debug, PartialEq, Eq)]
pub struct GlobalNpmPackageResolver {
    /// The URL of the cache's root.
    pub root_dir_url: String,
}

impl GlobalNpmPackageResolver {
    pub fn new(root_dir_url: String) -> (r: GlobalNpmPackageResolver)
        ensures
            r.root_dir_url == root_dir_url,
    {
        GlobalNpmPackageResolver { root_dir_url }
    }

    pub fn root_dir_url(&self) -> (r: &String)
        ensures
            *r == self.root_dir_url,
    {
        &self.root_dir_url
    }

    /// The global cache has no directory of node modules.
    pub fn node_modules_path(&self) -> (r: Option<String>)
        ensures
            r is None,
    {
        None
    }

    /// The folder of a package. `folder` is the folder of the copy of the package that the
    /// resolution knows: every resolved package has one.
    pub fn package_folder(&self, folder: Option<String>) -> (r: Result<String, AnyError>)
        requires
            folder is Some,
        ensures
            r == Ok::<String, AnyError>(folder->Some_0),
    {
        match folder {
            Some(folder) => Ok(folder),
            None => Ok(String::new()),
        }
    }

    /// The folder of a package that a referrer asks for by name. `referrer_pkg_id` is what the
    /// cache says about the referrer, `package_id` what the resolution of the name within the
    /// referrer's package gave, and `folder` the folder of that package.
    pub fn resolve_package_folder_from_package(
        &self,
        referrer: &str,
        referrer_pkg_id: Option<String>,
        package_id: Result<String, AnyError>,
        folder: Option<String>,
    ) -> (r: Result<String, AnyError>)
        requires
            referrer_pkg_id is Some && package_id is Ok ==> folder is Some,
        ensures
            match (referrer_pkg_id, package_id) {
                (None, _) => r matches Err(e) && e@ == seq![no_package_for(referrer@)],
                (Some(_), Err(e)) => r == Err::<String, AnyError>(e),
                (Some(_), Ok(_)) => r == Ok::<String, AnyError>(folder->Some_0),
            },
    {
        match referrer_package(referrer, referrer_pkg_id) {
            Err(e) => Err(e),
            Ok(_) => match package_id {
                Err(e) => Err(e),
                Ok(_) => self.package_folder(folder),
            },
        }
    }

    /// The id of the package folder that a specifier is in, as the cache knows it.
    pub fn resolve_package_cache_folder_id_from_specifier(
        &self,
        folder_id: Option<String>,
    ) -> (r: Result<Option<String>, AnyError>)
        ensures
            r == Ok::<Option<String>, AnyError>(folder_id),
    {
        Ok(folder_id)
    }

    /// Begins to bring all packages into the cache: the packages themselves come first, and the
    /// folders of the copies with the given ids next.
    pub fn cache_packages(&self, copies: Vec<String>) -> (r: (CachePackages, CacheAction))
        ensures
            r.0.copies == copies,
            r.1 is CachePackages,
    {
        (CachePackages { copies }, CacheAction::CachePackages)
    }
}

/// What is done next to bring all packages into the cache.
#[derive(Debug, PartialEq, Eq)]
pub enum CacheAction {
    /// Download the packages.
    CachePackages,
    /// Make the folder of the copy with this id.
    EnsureCopy(String),
    Finish(Result<(), AnyError>),
}

/// How far the packages are.
#[derive(Debug, PartialEq, Eq)]
pub struct CachePackages {
    /// The ids of the copies whose folders are not made yet.
    pub copies: Vec<String>,
}

impl CachePackages {
    /// Goes on after an action: the folders of the copies are made one after another, and the first
    /// error ends it.
    pub fn step(self, done: Result<(), AnyError>) -> (r: (CachePackages, CacheAction))
        ensures
            match done {
                Err(e) => r.1 == CacheAction::Finish(Err(e)) && r.0.copies@.len() == 0,
                Ok(_) => if self.copies@.len() == 0 {
                    r.1 == CacheAction::Finish(Ok(())) && r.0.copies@.len() == 0
                } else {
                    r.1 == CacheAction::EnsureCopy(self.copies@[0]) && r.0.copies@
                        == self.copies@.drop_first()
                },
            },
    {
        if let Err(e) = done {
            return (CachePackages { copies: Vec::new() }, CacheAction::Finish(Err(e)));
        }
        let mut copies = self.copies;
        if copies.len() == 0 {
            return (CachePackages { copies }, CacheAction::Finish(Ok(())));
        }
        let ghost before = copies@;
        let copy = copies.remove(0);
        assert(copies@ =~= before.drop_first());
        (CachePackages { copies }, CacheAction::EnsureCopy(copy))
    }
}

/// The copies that are left after that many steps that went well.
pub open spec fn left_after(copies: Seq<String>, steps: nat) -> Seq<String>
    decreases steps,
{
    if steps == 0 {
        copies
    } else {
        left_after(copies, (steps - 1) as nat).drop_first()
    }
}

/// Where all goes well, each copy is made once, and in order: after as many steps as there are copies
/// before it, a copy is the next one, and after all of them none is left.
pub proof fn each_copy_is_made_once(copies: Seq<String>, steps: nat)
    requires
        steps <= copies.len(),
    ensures
        left_after(copies, steps) == copies.skip(steps as int),
        steps < copies.len() ==> left_after(copies, steps)[0] == copies[steps as int],
        steps == copies.len() ==> left_after(copies, steps).len() == 0,
    decreases steps,
{
    if steps == 0 {
        assert(copies.skip(0) =~= copies);
    } else {
        each_copy_is_made_once(copies, (steps - 1) as nat);
        assert(copies.skip(steps - 1).drop_first() =~= copies.skip(steps as int));
    }
}

/// A package is resolved only from within a package: a referrer that is in none is an error that names it.
/// What the resolution of the name gave is handed on, and its folder is the one of the package.
pub proof fn only_packages_resolve_packages(
    resolver: &GlobalNpmPackageResolver,
    referrer: &str,
    referrer_pkg_id: Option<String>,
    package_id: Result<String, AnyError>,
    folder: Option<String>,
    r: Result<String, AnyError>,
)
    requires
        call_ensures(
            GlobalNpmPackageResolver::resolve_package_folder_from_package,
            (resolver, referrer, referrer_pkg_id, package_id, folder),
            r,
        ),
        referrer_pkg_id is Some && package_id is Ok ==> folder is Some,
    ensures
        referrer_pkg_id is None ==> (r matches Err(e) && e@ == seq![
            "could not find npm package for '"@ + referrer@ + "'"@,
        ]),
        referrer_pkg_id is Some && package_id is Err ==> (r matches Err(e) && e
            == package_id->Err_0),
        referrer_pkg_id is Some && package_id is Ok ==> (r matches Ok(path) && folder == Some(path)),
{
}

/// The packages come first, and the copies next, one after another and in order; after the last copy, and
/// after the first error, there is nothing left to do.
pub proof fn packages_come_before_copies(
    resolver: &GlobalNpmPackageResolver,
    copies: Vec<String>,
    first: (CachePackages, CacheAction),
    done: Result<(), AnyError>,
    second: (CachePackages, CacheAction),
)
    requires
        call_ensures(GlobalNpmPackageResolver::cache_packages, (resolver, copies), first),
        call_ensures(CachePackages::step, (first.0, done), second),
    ensures
        first.1 is CachePackages,
        done matches Err(e) ==> second.1 == CacheAction::Finish(Err(e)),
        done is Ok && copies@.len() == 0 ==> second.1 == CacheAction::Finish(Ok(())),
        done is Ok && copies@.len() > 0 ==> second.1 == CacheAction::EnsureCopy(copies@[0])
            && second.0.copies@ == copies@.skip(1),
{
    if copies@.len() > 0 {
        assert(copies@.drop_first() =~= copies@.skip(1));
    }
}

/// The global cache has no directory of node modules, and says of a specifier what it knows.
pub proof fn global_cache_has_no_node_modules(
    resolver: &GlobalNpmPackageResolver,
    path: Option<String>,
    folder_id: Option<String>,
    r: Result<Option<String>, AnyError>,
)
    requires
        call_ensures(GlobalNpmPackageResolver::node_modules_path, (resolver,), path),
        call_ensures(
            GlobalNpmPackageResolver::resolve_package_cache_folder_id_from_specifier,
            (resolver, folder_id),
            r,
        ),
    ensures
        path is None,
        r == Ok::<Option<String>, AnyError>(folder_id),
{
}

} // verus!
