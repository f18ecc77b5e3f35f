//! Ecosystem abstraction: unified package reference and registry types.
//!
//! `Ecosystem` discriminates between package registries (PyPI, npm).
//! `PackageRef` is the cross-ecosystem package descriptor used throughout
//! the analysis pipeline. `PyPIRegistry` and `NpmRegistry` describe the
//! per-ecosystem feeds.
use vstd::prelude::*;
use crate::feed::pypi::PythonPackage;

verus! {

/// The package registry a package comes from.
#[derive(Debug, Clone, Copy, PartialEq, Eq, Hash, Structural)]
pub enum Ecosystem {
    PyPI,
    Npm,
}

/// The lower-case name of an ecosystem, as it is serialised.
pub open spec fn ecosystem_label(e: Ecosystem) -> Seq<char> {
    match e {
        Ecosystem::PyPI => "pypi"@,
        Ecosystem::Npm => "npm"@,
    }
}

impl Ecosystem {
    /// The lower-case name of the ecosystem (`pypi` or `npm`).
    pub fn label(&self) -> (r: &'static str)
        ensures
            r@ == ecosystem_label(*self),
    {
        match self {
            Ecosystem::PyPI => {
                proof {
                    reveal_strlit("pypi");
                }
                "pypi"
            },
            Ecosystem::Npm => {
                proof {
                    reveal_strlit("npm");
                }
                "npm"
            },
        }
    }
}

/// A package of either ecosystem, as the analysis pipeline sees it.
#[derive(Debug, Clone)]
pub struct PackageRef {
    pub ecosystem: Ecosystem,
    pub name: String,
    pub version: Option<String>,
    pub title: Option<String>,
    pub description: Option<String>,
    pub link: Option<String>,
    pub author: Option<String>,
    pub published_date: Option<String>,
}

/// The text of an optional string, empty when absent.
pub open spec fn text_or_empty(s: Option<String>) -> Seq<char> {
    match s {
        Some(t) => t@,
        None => Seq::empty(),
    }
}

impl PackageRef {
    /// The package name, as PyPI spells it.
    pub fn pypi_name(&self) -> (r: &str)
        ensures
            r@ == self.name@,
    {
        self.name.as_str()
    }

    /// The package reference for a PyPI feed entry: its title is its name.
    pub fn from_python_package(pkg: PythonPackage) -> (r: PackageRef)
        ensures
            r.ecosystem == Ecosystem::PyPI,
            r.name@ == text_or_empty(pkg.title),
            r.version is None,
            r.title == pkg.title,
            r.description == pkg.description,
            r.link == pkg.link,
            r.author == pkg.author,
            r.published_date == pkg.published_date,
    {
        let name = match &pkg.title {
            Some(t) => t.clone(),
            None => String::new(),
        };
        PackageRef {
            ecosystem: Ecosystem::PyPI,
            name,
            version: None,
            title: pkg.title,
            description: pkg.description,
            link: pkg.link,
            author: pkg.author,
            published_date: pkg.published_date,
        }
    }
}

/// The PyPI registry: its RSS feed and the list of popular packages.
#[derive(Debug, Clone)]
pub struct PyPIRegistry {
    pub feed_endpoint: String,
    pub popular_packages_endpoint: String,
}

impl PyPIRegistry {
    /// A registry reading the given endpoints.
    pub fn new(feed_endpoint: &str, popular_packages_endpoint: &str) -> (r: Self)
        ensures
            r.feed_endpoint@ == feed_endpoint@,
            r.popular_packages_endpoint@ == popular_packages_endpoint@,
    {
        PyPIRegistry {
            feed_endpoint: feed_endpoint.to_owned(),
            popular_packages_endpoint: popular_packages_endpoint.to_owned(),
        }
    }

    /// The registry's ecosystem: PyPI.
    pub fn ecosystem(&self) -> (r: Ecosystem)
        ensures
            r == Ecosystem::PyPI,
    {
        Ecosystem::PyPI
    }
}

/// The npm registry's change feed, read from a sequence cursor.
#[derive(Debug, Clone, Default)]
pub struct NpmRegistry {
    pub since_cursor: Option<String>,
}

impl NpmRegistry {
    /// The registry's ecosystem: npm.
    pub fn ecosystem(&self) -> (r: Ecosystem)
        ensures
            r == Ecosystem::Npm,
    {
        Ecosystem::Npm
    }
}

/// Which ecosystems are watched.
#[derive(Debug, Clone)]
pub struct EcosystemsConfig {
    pub pypi_enabled: bool,
    pub npm_enabled: bool,
    pub npm_since_cursor: Option<String>,
}

/// PyPI is watched unless configured otherwise.
pub fn default_pypi_enabled() -> (r: bool)
    ensures
        r,
{
    true
}

/// npm is not watched unless configured otherwise.
pub fn default_npm_enabled() -> (r: bool)
    ensures
        !r,
{
    false
}

impl Default for EcosystemsConfig {
    fn default() -> (r: Self)
        ensures
            r.pypi_enabled,
            !r.npm_enabled,
            r.npm_since_cursor is None,
    {
        EcosystemsConfig { pypi_enabled: true, npm_enabled: false, npm_since_cursor: None }
    }
}

} // verus!
