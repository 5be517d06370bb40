use vstd::prelude::*;
use core::cmp::Ordering;

verus! {

/// The character of a decimal digit.
pub open spec fn digit_char(d: nat) -> char {
    seq!['0', '1', '2', '3', '4', '5', '6', '7', '8', '9'][d as int]
}

/// The decimal rendering of a natural number, without leading zeros.
pub open spec fn decimal(n: nat) -> Seq<char>
    decreases n,
{
    if n < 10 {
        seq![digit_char(n)]
    } else {
        decimal(n / 10).push(digit_char(n % 10))
    }
}

fn digit_str(d: u64) -> (r: &'static str)
    requires
        d < 10,
    ensures
        r@ == seq![digit_char(d as nat)],
{
    proof {
        reveal_strlit("0");
        reveal_strlit("1");
        reveal_strlit("2");
        reveal_strlit("3");
        reveal_strlit("4");
        reveal_strlit("5");
        reveal_strlit("6");
        reveal_strlit("7");
        reveal_strlit("8");
        reveal_strlit("9");
    }
    match d {
        0 => "0",
        1 => "1",
        2 => "2",
        3 => "3",
        4 => "4",
        5 => "5",
        6 => "6",
        7 => "7",
        8 => "8",
        _ => "9",
    }
}

/// Renders `n` in decimal.
pub fn decimal_text(n: u64) -> (r: String)
    ensures
        r@ == decimal(n as nat),
    decreases n,
{
    let last = digit_str(n % 10);
    if n < 10 {
        String::from_str(last)
    } else {
        let mut s = decimal_text(n / 10);
        s.append(last);
        s
    }
}

/// The plain content of a semantic version.
pub struct VersionView {
    pub major: u64,
    pub minor: u64,
    pub patch: u64,
    pub pre: Seq<char>,
    pub build: Seq<char>,
}

/// What `semver::Version::parse` yields for a text, or `None` where it
/// rejects the text.
pub uninterp spec fn semver_parse(text: Seq<char>) -> Option<VersionView>;

/// Whether `semver::Prerelease::new` accepts a text.
pub uninterp spec fn prerelease_accepted(text: Seq<char>) -> bool;

/// How `semver::Prerelease`'s `Ord` ranks two pre-release texts.
pub uninterp spec fn prerelease_order(a: Seq<char>, b: Seq<char>) -> Ordering;

/// A semantic version: `major.minor.patch`, an optional pre-release tag and
/// optional build metadata. Only parsing makes one, so its pre-release tag is
/// always one that semver accepts.
pub struct Version {
    major: u64,
    minor: u64,
    patch: u64,
    pre: String,
    build: String,
}

impl View for Version {
    type V = VersionView;

    closed spec fn view(&self) -> VersionView {
        VersionView {
            major: self.major,
            minor: self.minor,
            patch: self.patch,
            pre: self.pre@,
            build: self.build@,
        }
    }
}

/// The text of a version: `major.minor.patch`, then `-pre` and `+build`
/// where those are present.
pub open spec fn version_text(v: VersionView) -> Seq<char> {
    let core = decimal(v.major as nat) + seq!['.'] + decimal(v.minor as nat) + seq!['.'] + decimal(
        v.patch as nat,
    );
    let with_pre = if v.pre.len() == 0 {
        core
    } else {
        core + seq!['-'] + v.pre
    };
    if v.build.len() == 0 {
        with_pre
    } else {
        with_pre + seq!['+'] + v.build
    }
}

/// Semantic-version precedence: major, then minor, then patch, then the
/// pre-release tag. Build metadata takes no part in it.
pub open spec fn precedence(a: VersionView, b: VersionView) -> Ordering {
    if a.major != b.major {
        if a.major < b.major { Ordering::Less } else { Ordering::Greater }
    } else if a.minor != b.minor {
        if a.minor < b.minor { Ordering::Less } else { Ordering::Greater }
    } else if a.patch != b.patch {
        if a.patch < b.patch { Ordering::Less } else { Ordering::Greater }
    } else {
        prerelease_order(a.pre, b.pre)
    }
}

/// `a` ranks strictly below `b`.
pub open spec fn precedes(a: VersionView, b: VersionView) -> bool {
    precedence(a, b) == Ordering::Less
}

/// Relies on semver::Version::parse, whose fields are copied out as they are.
/// The pre-release tag that it keeps was read by the same identifier grammar
/// that `semver::Prerelease::new` uses, so that function accepts it.
#[verifier::external_body]
fn parse_semver(text: &str) -> (r: Option<Version>)
    ensures
        r is None <==> semver_parse(text@) is None,
        r matches Some(v) ==> semver_parse(text@) == Some(v@) && prerelease_accepted(v.pre@),
{
    let v = semver::Version::parse(text).ok()?;
    Some(
        Version {
            major: v.major,
            minor: v.minor,
            patch: v.patch,
            pre: v.pre.as_str().to_string(),
            build: v.build.as_str().to_string(),
        },
    )
}

/// Relies on semver::Prerelease::new and the `Ord` of `semver::Prerelease`:
/// a total order under which two tags are equal exactly when their texts are,
/// and under which a release (no tag) ranks above any pre-release.
#[verifier::external_body]
fn compare_prerelease(a: &str, b: &str) -> (r: Ordering)
    requires
        prerelease_accepted(a@),
        prerelease_accepted(b@),
    ensures
        r == prerelease_order(a@, b@),
        (r == Ordering::Equal) == (a@ == b@),
        r == Ordering::Less ==> prerelease_order(b@, a@) == Ordering::Greater,
        a@.len() == 0 && b@.len() != 0 ==> r == Ordering::Greater,
        a@.len() != 0 && b@.len() == 0 ==> r == Ordering::Less,
        r == Ordering::Less ==> forall|c: Seq<char>|
            #[trigger] prerelease_order(b@, c) == Ordering::Less ==> prerelease_order(a@, c)
                == Ordering::Less,
{
    let a = semver::Prerelease::new(a).unwrap();
    let b = semver::Prerelease::new(b).unwrap();
    a.cmp(&b)
}

/// Relies on semver's `Prerelease::EMPTY`: its text is empty, and
/// `semver::Prerelease::new` accepts that text.
#[verifier::external_body]
fn empty_prerelease() -> (r: String)
    ensures
        r@ == Seq::<char>::empty(),
        prerelease_accepted(r@),
{
    semver::Prerelease::EMPTY.as_str().to_string()
}

impl Version {
    #[verifier::type_invariant]
    spec fn tag_accepted(self) -> bool {
        prerelease_accepted(self.pre@)
    }

    /// Parses a version text; `None` where semver rejects it.
    pub fn parse(text: &str) -> (r: Option<Version>)
        ensures
            r is None <==> semver_parse(text@) is None,
            r matches Some(v) ==> semver_parse(text@) == Some(v@),
    {
        parse_semver(text)
    }

    /// The release version `major.minor.patch`, with no pre-release tag and
    /// no build metadata.
    pub fn new(major: u64, minor: u64, patch: u64) -> (r: Version)
        ensures
            r@ == (VersionView {
                major,
                minor,
                patch,
                pre: Seq::<char>::empty(),
                build: Seq::<char>::empty(),
            }),
    {
        Version { major, minor, patch, pre: empty_prerelease(), build: String::new() }
    }

    pub fn major(&self) -> (r: u64)
        ensures
            r == self@.major,
    {
        self.major
    }

    pub fn minor(&self) -> (r: u64)
        ensures
            r == self@.minor,
    {
        self.minor
    }

    pub fn patch(&self) -> (r: u64)
        ensures
            r == self@.patch,
    {
        self.patch
    }

    pub fn pre(&self) -> (r: &str)
        ensures
            r@ == self@.pre,
    {
        self.pre.as_str()
    }

    pub fn build(&self) -> (r: &str)
        ensures
            r@ == self@.build,
    {
        self.build.as_str()
    }

    /// Ranks `self` against `other` by semantic-version precedence.
    pub fn precedence(&self, other: &Version) -> (r: Ordering)
        ensures
            r == precedence(self@, other@),
            r == Ordering::Equal ==> self@.pre == other@.pre,
            self@.major == other@.major && self@.minor == other@.minor && self@.patch
                == other@.patch && self@.pre.len() == 0 && other@.pre.len() != 0 ==> r
                == Ordering::Greater,
            r == Ordering::Less ==> precedence(other@, self@) == Ordering::Greater,
            r == Ordering::Less ==> forall|c: VersionView|
                #[trigger] precedes(other@, c) ==> precedes(self@, c),
    {
        if self.major != other.major {
            if self.major < other.major {
                Ordering::Less
            } else {
                Ordering::Greater
            }
        } else if self.minor != other.minor {
            if self.minor < other.minor {
                Ordering::Less
            } else {
                Ordering::Greater
            }
        } else if self.patch != other.patch {
            if self.patch < other.patch {
                Ordering::Less
            } else {
                Ordering::Greater
            }
        } else {
            proof {
                use_type_invariant(self);
                use_type_invariant(other);
            }
            compare_prerelease(self.pre.as_str(), other.pre.as_str())
        }
    }

    /// Whether `self` ranks strictly below `other`.
    pub fn is_older_than(&self, other: &Version) -> (r: bool)
        ensures
            r == precedes(self@, other@),
    {
        match self.precedence(other) {
            Ordering::Less => true,
            _ => false,
        }
    }

    /// The version's text, as semver displays it.
    pub fn to_text(&self) -> (r: String)
        ensures
            r@ == version_text(self@),
    {
        proof {
            reveal_strlit(".");
            reveal_strlit("-");
            reveal_strlit("+");
        }
        let mut s = decimal_text(self.major);
        s.append(".");
        s.append(decimal_text(self.minor).as_str());
        s.append(".");
        s.append(decimal_text(self.patch).as_str());
        if !self.pre.as_str().is_empty() {
            s.append("-");
            s.append(self.pre.as_str());
        }
        if !self.build.as_str().is_empty() {
            s.append("+");
            s.append(self.build.as_str());
        }
        s
    }
}

} // verus!
