//! Package feeds: the PyPI RSS feed and the npm change feed.
pub mod ecosystem;
pub mod npm;
pub mod pypi;

use vstd::prelude::*;
use crate::feed::ecosystem::{Ecosystem, PackageRef};
use crate::feed::pypi::PythonPackage;
use crate::text::{chars_of, first_occurrence, index_of, slice_chars, string_of, trim, trim_ws};

verus! {

/// The package name in a PyPI feed title: the text before the first
/// `" added to PyPI"`, else before `" updated on PyPI"`, else before
/// `" added to"`, else before `" updated"`, else the whole title; trimmed.
pub open spec fn package_name_of(title: Seq<char>) -> Seq<char> {
    let a = first_occurrence(title, " added to PyPI"@);
    let b = first_occurrence(title, " updated on PyPI"@);
    let c = first_occurrence(title, " added to"@);
    let d = first_occurrence(title, " updated"@);
    if a >= 0 {
        trim_ws(title.take(a))
    } else if b >= 0 {
        trim_ws(title.take(b))
    } else if c >= 0 {
        trim_ws(title.take(c))
    } else if d >= 0 {
        trim_ws(title.take(d))
    } else {
        trim_ws(title)
    }
}

/// Extract the package name from a PyPI RSS title, such as
/// `"packageName added to PyPI"` or `"packageName updated on PyPI"`.
pub fn extract_package_name(title: &str) -> (r: String)
    ensures
        r@ == package_name_of(title@),
{
    let t = chars_of(title);
    let a = index_of(&t, &chars_of(" added to PyPI"));
    let cut: Option<usize> = match a {
        Some(k) => Some(k),
        None => match index_of(&t, &chars_of(" updated on PyPI")) {
            Some(k) => Some(k),
            None => match index_of(&t, &chars_of(" added to")) {
                Some(k) => Some(k),
                None => index_of(&t, &chars_of(" updated")),
            },
        },
    };
    let r = match cut {
        Some(k) => {
            let head = slice_chars(&t, 0, k);
            assert(head@ == t@.take(k as int));
            trim(&head)
        },
        None => trim(&t),
    };
    string_of(&r)
}

/// One item of the PyPI RSS channel, as the feed reader hands it over.
#[derive(Debug, Clone)]
pub struct FeedItem {
    pub title: Option<String>,
    pub link: Option<String>,
    pub description: Option<String>,
    pub author: Option<String>,
    pub pub_date: Option<String>,
}

/// The feed item turned into a package: the title reduced to the name.
pub open spec fn package_from_item(p: PythonPackage, item: FeedItem) -> bool {
    &&& (p.title is Some <==> item.title is Some)
    &&& (p.title matches Some(t) ==> t@ == package_name_of(item.title->0@))
    &&& p.link == item.link
    &&& p.description == item.description
    &&& p.author == item.author
    &&& p.published_date == item.pub_date
}

/// One package per feed item, in order.
pub fn serialize_packages(items: Vec<FeedItem>) -> (r: Vec<PythonPackage>)
    ensures
        r@.len() == items@.len(),
        forall|i: int| 0 <= i < items@.len() ==> package_from_item(#[trigger] r@[i], items@[i]),
{
    let mut packages: Vec<PythonPackage> = Vec::new();
    let n = items.len();
    for i in 0..n
        invariant
            n == items@.len(),
            packages@.len() == i,
            forall|j: int| 0 <= j < i ==> package_from_item(#[trigger] packages@[j], items@[j]),
    {
        let item = &items[i];
        let title = match &item.title {
            Some(t) => Some(extract_package_name(t.as_str())),
            None => None,
        };
        let p = PythonPackage {
            title,
            link: item.link.clone(),
            description: item.description.clone(),
            author: item.author.clone(),
            published_date: item.pub_date.clone(),
        };
        packages.push(p);
    }
    packages
}

/// The items `rss::Channel::read_from` finds in a feed document (title,
/// link, description, author, publication date of each, in order), or the
/// parse error's message. Parsing depends on the bytes alone.
pub uninterp spec fn rss_items(xml: Seq<u8>) -> Result<Seq<FeedItem>, Seq<char>>;

/// `rss::Channel::read_from` on the document's bytes, each item taken field
/// by field.
#[verifier::external_body]
fn parse_rss(xml: &[u8]) -> (r: Result<Vec<FeedItem>, String>)
    ensures
        match r {
            Ok(v) => rss_items(xml@) == Ok::<Seq<FeedItem>, Seq<char>>(v@),
            Err(e) => rss_items(xml@) == Err::<Seq<FeedItem>, Seq<char>>(e@),
        },
{
    match rss::Channel::read_from(xml) {
        Ok(channel) => Ok(channel.items().iter().map(|i| FeedItem {
            title: i.title().map(|s| s.to_string()),
            link: i.link().map(|s| s.to_string()),
            description: i.description().map(|s| s.to_string()),
            author: i.author().map(|s| s.to_string()),
            pub_date: i.pub_date().map(|s| s.to_string()),
        }).collect()),
        Err(e) => Err(e.to_string()),
    }
}

/// The packages of a PyPI RSS document as the watcher reads them, one per
/// item, in order; the parse error's message when the document is not RSS.
pub fn packages_from_xml(xml: &[u8]) -> (r: Result<Vec<PythonPackage>, String>)
    ensures
        match rss_items(xml@) {
            Ok(items) => r matches Ok(v) && v@.len() == items.len() && forall|i: int|
                0 <= i < items.len() ==> package_from_item(#[trigger] v@[i], items[i]),
            Err(e) => r matches Err(x) && x@ == e,
        },
{
    match parse_rss(xml) {
        Ok(items) => Ok(serialize_packages(items)),
        Err(e) => Err(e),
    }
}

/// The PyPI package reference made of a feed item: the title reduced to the
/// name, which is also the reference's name.
pub open spec fn pypi_ref_of_item(r: PackageRef, item: FeedItem) -> bool {
    &&& r.ecosystem == Ecosystem::PyPI
    &&& r.version is None
    &&& (r.title is Some <==> item.title is Some)
    &&& (r.title matches Some(t) ==> t@ == package_name_of(item.title->0@) && r.name@ == t@)
    &&& (r.title is None ==> r.name@.len() == 0)
    &&& r.link == item.link
    &&& r.description == item.description
    &&& r.author == item.author
    &&& r.published_date == item.pub_date
}

/// The packages of a PyPI RSS document, one per item, in order; the parse
/// error's message when the document is not RSS.
pub fn feed_from_xml(xml: &[u8]) -> (r: Result<Vec<PackageRef>, String>)
    ensures
        match rss_items(xml@) {
            Ok(items) => r matches Ok(v) && v@.len() == items.len() && forall|i: int|
                0 <= i < items.len() ==> pypi_ref_of_item(#[trigger] v@[i], items[i]),
            Err(e) => r matches Err(x) && x@ == e,
        },
{
    let items = match parse_rss(xml) {
        Ok(items) => items,
        Err(e) => return Err(e),
    };
    let ghost its = items@;
    let packages = serialize_packages(items);
    let mut out: Vec<PackageRef> = Vec::new();
    let n = packages.len();
    for i in 0..n
        invariant
            n == packages@.len(),
            n == its.len(),
            forall|j: int| 0 <= j < its.len() ==> package_from_item(#[trigger] packages@[j], its[j]),
            out@.len() == i,
            forall|j: int| 0 <= j < i ==> pypi_ref_of_item(#[trigger] out@[j], its[j]),
    {
        let p = PythonPackage {
            title: packages[i].title.clone(),
            link: packages[i].link.clone(),
            description: packages[i].description.clone(),
            author: packages[i].author.clone(),
            published_date: packages[i].published_date.clone(),
        };
        assert(package_from_item(packages@[i as int], its[i as int]));
        out.push(PackageRef::from_python_package(p));
    }
    Ok(out)
}

} // verus!
