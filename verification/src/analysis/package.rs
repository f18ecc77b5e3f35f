//! Choosing what to download for a package and what of it the LLM reads:
//! the release file, the fallback link, the archive format, and the
//! byte-bounded source excerpt.
use vstd::prelude::*;
use crate::text::{
    append_all, byte_len, char_index, chars_of, contains, contains_seq, decimal, decimal_chars,
    ends_with, first_occurrence, has_suffix, index_of, lemma_byte_len_prefix_strict,
    lemma_byte_len_push, lemma_char_index_range, lines_of, slice_chars, split_lines,
    str_byte_len, string_of, views, width_of, find_char, lemma_char_index,
};

verus! {

/// The link target of the first `href="..."` in an HTML line.
pub open spec fn href_in(line: Seq<char>) -> Option<Seq<char>> {
    let k = first_occurrence(line, "href=\""@);
    if k < 0 {
        None
    } else {
        let rest = line.skip(k + 6);
        let e = char_index(rest, '"');
        if e < 0 {
            None
        } else {
            Some(rest.take(e))
        }
    }
}

/// Extract the `href` value from an HTML line.
pub fn extract_href(line: &str) -> (r: Option<String>)
    ensures
        match href_in(line@) {
            Some(h) => r matches Some(x) && x@ == h,
            None => r is None,
        },
{
    let l = chars_of(line);
    let pat = chars_of("href=\"");
    proof {
        reveal_strlit("href=\"");
    }
    assert(pat@.len() == 6);
    match index_of(&l, &pat) {
        None => None,
        Some(k) => {
            let len = l.len();
            assert(k + 6 <= len);
            let rest = slice_chars(&l, k + 6, len);
            assert(rest@ == l@.skip(k + 6));
            match find_char(&rest, '"') {
                None => None,
                Some(e) => Some(string_of(&slice_chars(&rest, 0, e))),
            }
        },
    }
}

/// The link of the first line holding `ext` and `href=`, if that line has
/// an `href`.
pub open spec fn link_with(lines: Seq<Seq<char>>, ext: Seq<char>) -> Option<Seq<char>>
    decreases lines.len(),
{
    if lines.len() == 0 {
        None
    } else if contains_seq(lines[0], ext) && contains_seq(lines[0], "href="@) {
        href_in(lines[0])
    } else {
        link_with(lines.skip(1), ext)
    }
}

/// The download link on a PyPI simple-index page: the source distribution
/// when its line has a link, else the wheel.
pub open spec fn distribution_link(html: Seq<char>) -> Option<Seq<char>> {
    match link_with(split_lines(html), ".tar.gz"@) {
        Some(l) => Some(l),
        None => link_with(split_lines(html), ".whl"@),
    }
}

fn first_link_with(lines: &Vec<Vec<char>>, ext: &str) -> (r: Option<String>)
    ensures
        match link_with(views(lines@), ext@) {
            Some(h) => r matches Some(x) && x@ == h,
            None => r is None,
        },
{
    let e = chars_of(ext);
    let href = chars_of("href=");
    let ghost ls = views(lines@);
    let n = lines.len();
    let mut i: usize = 0;
    assert(ls.skip(0) == ls);
    while i < n
        invariant
            n == lines@.len(),
            ls == views(lines@),
            i <= n,
            e@ == ext@,
            href@ == "href="@,
            link_with(ls, ext@) == link_with(ls.skip(i as int), ext@),
        decreases n - i,
    {
        assert(ls.skip(i as int)[0] == lines@[i as int]@);
        if contains(&lines[i], &e) && contains(&lines[i], &href) {
            return extract_href(string_of(&lines[i]).as_str());
        }
        assert(ls.skip(i as int).skip(1) == ls.skip(i + 1));
        i = i + 1;
    }
    None
}

/// The download link on a PyPI simple-index page.
pub fn find_distribution_link(html: &str) -> (r: Option<String>)
    ensures
        match distribution_link(html@) {
            Some(h) => r matches Some(x) && x@ == h,
            None => r is None,
        },
{
    let lines = lines_of(&chars_of(html));
    match first_link_with(&lines, ".tar.gz") {
        Some(l) => Some(l),
        None => first_link_with(&lines, ".whl"),
    }
}

/// One file of a release, as the PyPI JSON API lists it.
#[derive(Debug, Clone)]
pub struct ReleaseFile {
    pub filename: Option<String>,
    pub url: Option<String>,
}

/// The URL to download from the files of a release: the first source
/// distribution with a URL, else the URL of the first wheel.
pub open spec fn release_url(files: Seq<ReleaseFile>, wheel: Option<Option<String>>) -> Option<String>
    decreases files.len(),
{
    if files.len() == 0 {
        match wheel {
            Some(w) => w,
            None => None,
        }
    } else {
        let f = files[0];
        match f.filename {
            Some(name) => if has_suffix(name@, ".tar.gz"@) {
                match f.url {
                    Some(u) => Some(u),
                    None => release_url(files.skip(1), wheel),
                }
            } else if has_suffix(name@, ".whl"@) && (wheel is None || wheel == Some(
                None::<String>,
            )) {
                release_url(files.skip(1), Some(f.url))
            } else {
                release_url(files.skip(1), wheel)
            },
            None => release_url(files.skip(1), wheel),
        }
    }
}

/// Pick the URL to download from the files of a release.
pub fn pick_release_url(files: &[ReleaseFile]) -> (r: Option<String>)
    ensures
        r == release_url(files@, None),
{
    let n = files.len();
    let mut wheel: Option<String> = None;
    let mut i: usize = 0;
    assert(files@.skip(0) == files@);
    assert(release_url(files@, None) == release_url(files@, Some(None::<String>))) by {
        lemma_release_url_unset(files@);
    }
    while i < n
        invariant
            n == files@.len(),
            i <= n,
            release_url(files@, None) == release_url(files@.skip(i as int), Some(wheel)),
        decreases n - i,
    {
        let f = &files[i];
        assert(files@.skip(i as int)[0] == files@[i as int]);
        assert(files@.skip(i as int).skip(1) == files@.skip(i + 1));
        if let Some(name) = &f.filename {
            let nc = chars_of(name.as_str());
            if ends_with(&nc, &chars_of(".tar.gz")) {
                if let Some(u) = &f.url {
                    return Some(u.clone());
                }
            } else if ends_with(&nc, &chars_of(".whl")) && wheel.is_none() {
                wheel = f.url.clone();
            }
        }
        i = i + 1;
    }
    wheel
}

/// No wheel seen and a wheel entry without a URL pick alike.
proof fn lemma_release_url_unset(files: Seq<ReleaseFile>)
    ensures
        release_url(files, None) == release_url(files, Some(None::<String>)),
    decreases files.len(),
{
    if files.len() > 0 {
        lemma_release_url_unset(files.skip(1));
    }
}

/// The archive formats a package may be downloaded as.
#[derive(Debug, Clone, Copy, PartialEq, Eq, Structural)]
pub enum ArchiveFormat {
    TarGz,
    Wheel,
}

/// The archive format of a download, by the URL's ending.
pub open spec fn format_of(url: Seq<char>) -> Option<ArchiveFormat> {
    if has_suffix(url, ".tar.gz"@) {
        Some(ArchiveFormat::TarGz)
    } else if has_suffix(url, ".whl"@) {
        Some(ArchiveFormat::Wheel)
    } else {
        None
    }
}

/// The archive format of a download, or the error for any other.
pub fn archive_format(url: &str) -> (r: Result<ArchiveFormat, String>)
    ensures
        match format_of(url@) {
            Some(f) => r matches Ok(x) && x == f,
            None => r matches Err(e) && e@
                == "Unsupported distribution format (expected .tar.gz or .whl)"@,
        },
{
    let u = chars_of(url);
    if ends_with(&u, &chars_of(".tar.gz")) {
        Ok(ArchiveFormat::TarGz)
    } else if ends_with(&u, &chars_of(".whl")) {
        Ok(ArchiveFormat::Wheel)
    } else {
        Err("Unsupported distribution format (expected .tar.gz or .whl)".to_owned())
    }
}

/// The longest prefix of `s` whose UTF-8 encoding fits in `max` bytes.
pub open spec fn fits_prefix(s: Seq<char>, max: int, k: int) -> bool {
    0 <= k <= s.len() && byte_len(s.take(k)) <= max && (k == s.len() || byte_len(s.take(k + 1)) > max)
}

/// A source file as the LLM reads it: cut to whole characters within
/// `max_bytes` bytes, with a note of the original size, when it is longer.
pub open spec fn excerpt_of(content: Seq<char>, max_bytes: int, k: int) -> Seq<char> {
    if byte_len(content) > max_bytes {
        content.take(k) + "\n... (truncated from "@ + decimal(byte_len(content)) + " bytes)"@
    } else {
        content
    }
}

/// Cut a source file to whole characters within `max_bytes` bytes, noting
/// the original size when it was longer.
pub fn truncate_source(content: &str, max_bytes: usize) -> (r: String)
    requires
        byte_len(content@) <= usize::MAX,
    ensures
        exists|k: int| fits_prefix(content@, max_bytes as int, k) && r@ == excerpt_of(content@, max_bytes as int, k),
{
    let total = str_byte_len(content);
    let cs = chars_of(content);
    if total <= max_bytes {
        proof {
            assert(cs@.take(cs@.len() as int) == cs@);
            assert(fits_prefix(content@, max_bytes as int, cs@.len() as int));
        }
        return content.to_owned();
    }
    let n = cs.len();
    let mut i: usize = 0;
    let mut used: usize = 0;
    assert(cs@.take(0).len() == 0);
    while i < n
        invariant
            n == cs@.len(),
            cs@ == content@,
            i <= n,
            used == byte_len(cs@.take(i as int)),
            used <= max_bytes,
        ensures
            i <= n,
            used == byte_len(cs@.take(i as int)),
            used <= max_bytes,
            i == n || (i < n && byte_len(cs@.take(i + 1)) > max_bytes),
        decreases n - i,
    {
        let w = width_of(cs[i]);
        proof {
            assert(cs@.take(i + 1) == cs@.take(i as int).push(cs@[i as int]));
            lemma_byte_len_push(cs@.take(i as int), cs@[i as int]);
        }
        if w > max_bytes - used {
            break;
        }
        used = used + w;
        i = i + 1;
    }
    proof {
        if i == n {
            assert(cs@.take(n as int) == cs@);
        }
    }
    let mut out = slice_chars(&cs, 0, i);
    append_all(&mut out, &chars_of("\n... (truncated from "));
    append_all(&mut out, &decimal_chars(total as u64));
    append_all(&mut out, &chars_of(" bytes)"));
    let r = string_of(&out);
    assert(fits_prefix(content@, max_bytes as int, i as int));
    assert(r@ == excerpt_of(content@, max_bytes as int, i as int));
    r
}

/// The section of the combined source that one file contributes.
pub open spec fn source_section(path: Seq<char>, excerpt: Seq<char>) -> Seq<char> {
    "\n# File: "@ + path + "\n"@ + excerpt + "\n"@
}

/// The section of the combined source for one file.
pub fn file_section(path: &str, excerpt: &str) -> (r: String)
    ensures
        r@ == source_section(path@, excerpt@),
{
    let mut out = chars_of("\n# File: ");
    append_all(&mut out, &chars_of(path));
    append_all(&mut out, &chars_of("\n"));
    append_all(&mut out, &chars_of(excerpt));
    append_all(&mut out, &chars_of("\n"));
    string_of(&out)
}

} // verus!
