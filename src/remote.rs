use vstd::prelude::*;
use crate::config::Config;
use crate::target::archive_filename_of;
use crate::version::{Version, VersionView, precedes, semver_parse, version_text};

verus! {

/// The texts of the elements that a CSS selector picks from an HTML fragment,
/// in the order in which scraper's `select` yields them, or `None` where the
/// selector does not parse.
pub uninterp spec fn selected_texts(document: Seq<char>, selector: Seq<char>) -> Option<
    Seq<Seq<char>>,
>;

/// The URL that joining `relative` onto the URL `base` gives, or `None`
/// where either does not parse.
pub uninterp spec fn url_join(base: Seq<char>, relative: Seq<char>) -> Option<Seq<char>>;

/// Relies on scraper: `Html::parse_fragment`, `Selector::parse` and
/// `Html::select`; each selected element's text nodes are concatenated.
#[verifier::external_body]
fn select_texts(document: &str, selector: &str) -> (r: Option<Vec<String>>)
    ensures
        r is None <==> selected_texts(document@, selector@) is None,
        r matches Some(v) ==> selected_texts(document@, selector@) == Some(
            v@.map_values(|t: String| t@),
        ),
{
    let selector = scraper::Selector::parse(selector).ok()?;
    let fragment = scraper::Html::parse_fragment(document);
    Some(fragment.select(&selector).map(|e| e.text().collect::<String>()).collect())
}

/// Relies on url's `Url::parse` and `Url::join` (as re-exported by reqwest),
/// and the joined URL's serialization.
#[verifier::external_body]
fn join_url(base: &str, relative: &str) -> (r: Option<String>)
    ensures
        r is None <==> url_join(base@, relative@) is None,
        r matches Some(u) ==> url_join(base@, relative@) == Some(u@),
{
    let base = reqwest::Url::parse(base).ok()?;
    base.join(relative).ok().map(|u| u.to_string())
}

/// The selector of the version links in a mirror listing: every anchor.
pub open spec fn link_selector() -> Seq<char> {
    "a"@
}

/// The versions among some texts, in order, without those that do not parse.
pub open spec fn parsed_versions(texts: Seq<Seq<char>>) -> Seq<VersionView>
    decreases texts.len(),
{
    if texts.len() == 0 {
        Seq::empty()
    } else {
        let rest = parsed_versions(texts.drop_last());
        match semver_parse(texts.last()) {
            Some(v) => rest.push(v),
            None => rest,
        }
    }
}

/// The versions that a listing's anchors name, in the order selected.
pub open spec fn listing_versions(body: Seq<char>) -> Seq<VersionView> {
    match selected_texts(body, link_selector()) {
        Some(texts) => parsed_versions(texts),
        None => Seq::empty(),
    }
}

/// `v` is one of `vs` and no other version among them ranks above it.
pub open spec fn ranks_highest(v: VersionView, vs: Seq<VersionView>) -> bool {
    &&& vs.contains(v)
    &&& forall|j: int| 0 <= j < vs.len() ==> vs[j] == v || !precedes(v, #[trigger] vs[j])
}

/// A URL text that ends in `/`, so that a join keeps its last segment.
pub open spec fn as_directory(url: Seq<char>) -> Seq<char> {
    if url.len() > 0 && url.last() == '/' {
        url
    } else {
        url + "/"@
    }
}

/// The archive URL of a version on a mirror: the mirror URL (with a `/`
/// appended where it lacks one) joined with
/// `<version>/`, then with the archive's file name.
pub open spec fn archive_url_of(mirror: Seq<char>, tuple: crate::target::Tuple, v: VersionView) -> Option<
    Seq<char>,
> {
    match url_join(as_directory(mirror), version_text(v) + "/"@) {
        Some(dir) => url_join(dir, archive_filename_of(tuple, v)),
        None => None,
    }
}

/// Why the newest published version could not be determined.
#[derive(Clone, Copy, Debug, PartialEq, Eq, Structural)]
pub enum RemoteError {
    /// The listing names no version that parses.
    NoVersionsFound,
}

/// The versions among some link texts, in order, skipping those that do not
/// parse.
pub fn parse_versions(texts: &Vec<String>) -> (r: Vec<Version>)
    ensures
        r@.map_values(|v: Version| v@) == parsed_versions(texts@.map_values(|t: String| t@)),
{
    let ghost views = texts@.map_values(|t: String| t@);
    let mut r: Vec<Version> = Vec::new();
    let mut i: usize = 0;
    while i < texts.len()
        invariant
            i <= texts.len(),
            views == texts@.map_values(|t: String| t@),
            r@.map_values(|v: Version| v@) == parsed_versions(views.take(i as int)),
        decreases texts.len() - i,
    {
        assert(views.take(i + 1).drop_last() == views.take(i as int));
        let parsed = Version::parse(texts[i].as_str());
        match parsed {
            Some(v) => {
                r.push(v);
            },
            None => {},
        }
        assert(r@.map_values(|v: Version| v@) =~= parsed_versions(views.take(i + 1)));
        i = i + 1;
    }
    assert(views.take(texts.len() as int) == views);
    r
}

/// The versions that a listing document's anchors name, in the order
/// selected, skipping anchors whose text is no version.
pub fn versions(listing_body: &str) -> (r: Vec<Version>)
    ensures
        r@.map_values(|v: Version| v@) == listing_versions(listing_body@),
{
    match select_texts(listing_body, "a") {
        Some(texts) => parse_versions(&texts),
        None => {
            let r: Vec<Version> = Vec::new();
            assert(r@.map_values(|v: Version| v@) =~= Seq::empty());
            r
        },
    }
}

/// The position of a version that ranks highest among `vs`; `None` when
/// `vs` is empty.
pub fn latest_index(vs: &Vec<Version>) -> (r: Option<usize>)
    ensures
        r is None <==> vs@.len() == 0,
        r matches Some(i) ==> i < vs@.len() && ranks_highest(
            vs@[i as int]@,
            vs@.map_values(|v: Version| v@),
        ),
{
    if vs.len() == 0 {
        return None;
    }
    let ghost views = vs@.map_values(|v: Version| v@);
    let mut best: usize = 0;
    let mut i: usize = 0;
    while i < vs.len()
        invariant
            0 < vs.len(),
            i <= vs.len(),
            best < vs.len(),
            views == vs@.map_values(|v: Version| v@),
            forall|j: int|
                0 <= j < i ==> views[j] == views[best as int] || !precedes(
                    views[best as int],
                    #[trigger] views[j],
                ),
        decreases vs.len() - i,
    {
        let order = vs[best].precedence(&vs[i]);
        match order {
            core::cmp::Ordering::Less => {
                assert forall|j: int| 0 <= j < i + 1 implies views[j] == views[i as int]
                    || !precedes(views[i as int], #[trigger] views[j]) by {
                    if j < i && precedes(views[i as int], views[j]) {
                        assert(precedes(views[best as int], views[j]));
                    }
                }
                best = i;
            },
            _ => {},
        }
        i = i + 1;
    }
    assert(views.contains(views[best as int]));
    Some(best)
}

/// The newest version that a mirror listing names. Links whose text is no
/// version are skipped; a listing without any version is an error.
pub fn latest_version(listing_body: &str) -> (r: Result<Version, RemoteError>)
    ensures
        r is Err <==> listing_versions(listing_body@).len() == 0,
        r matches Ok(v) ==> ranks_highest(v@, listing_versions(listing_body@)),
{
    let mut found = versions(listing_body);
    match latest_index(&found) {
        Some(i) => {
            let v = found.swap_remove(i);
            Ok(v)
        },
        None => Err(RemoteError::NoVersionsFound),
    }
}

/// The URL of the archive for a version: the mirror URL, with a `/`
/// appended where it lacks one, joined with `<version>/`, then with the
/// archive's file name. `None` where the mirror URL does not parse or a
/// join fails.
pub fn remote_archive_path(config: &Config, target: &Version) -> (r: Option<String>)
    ensures
        r is None <==> archive_url_of(config.mirror_url@, config.target_tuple, target@) is None,
        r matches Some(u) ==> archive_url_of(config.mirror_url@, config.target_tuple, target@)
            == Some(u@),
{
    proof {
        reveal_strlit("/");
    }
    let mirror = config.mirror_url.as_str();
    let n = mirror.unicode_len();
    let mut base = mirror.to_owned();
    if n == 0 || mirror.get_char(n - 1) != '/' {
        base.append("/");
    }
    let mut dir = target.to_text();
    dir.append("/");
    let version_url = join_url(base.as_str(), dir.as_str());
    match version_url {
        Some(base) => {
            let file_name = config.target_tuple.archive_filename(target);
            join_url(base.as_str(), file_name.as_str())
        },
        None => None,
    }
}

} // verus!
