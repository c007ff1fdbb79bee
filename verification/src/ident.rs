//! Package identifiers: `origin/name`, optionally with a version and a release.

use vstd::prelude::*;
use vstd::string::*;
use crate::error::Error;
use crate::numbers::{parse_int, parse_unsigned};
use crate::text::{copy_opt_text, opt_text, same_opt_text, split, split_text, texts};

verus! {

/// Names a package, fully (with version and release) or in part.
#[derive(Debug, PartialEq, Eq)]
pub struct PackageIdent {
    pub origin: String,
    pub name: String,
    pub version: Option<String>,
    pub release: Option<String>,
}

/// The mathematical value of a `PackageIdent`.
pub struct PackageIdentView {
    pub origin: Seq<char>,
    pub name: Seq<char>,
    pub version: Option<Seq<char>>,
    pub release: Option<Seq<char>>,
}

impl View for PackageIdent {
    type V = PackageIdentView;

    open spec fn view(&self) -> PackageIdentView {
        PackageIdentView {
            origin: self.origin@,
            name: self.name@,
            version: opt_text(self.version),
            release: opt_text(self.release),
        }
    }
}

impl PackageIdentView {
    /// The identifier that names nothing: every part empty or absent.
    pub open spec fn empty() -> PackageIdentView {
        PackageIdentView {
            origin: Seq::<char>::empty(),
            name: Seq::<char>::empty(),
            version: None,
            release: None,
        }
    }

    /// Whether both version and release are given.
    pub open spec fn fully_qualified(self) -> bool {
        self.version is Some && self.release is Some
    }

    /// The identifier as text: the parts that are given, `/` between them.
    /// A release is only written behind a version.
    pub open spec fn text(self) -> Seq<char> {
        let base = self.origin.push('/') + self.name;
        match self.version {
            None => base,
            Some(v) => match self.release {
                None => base.push('/') + v,
                Some(r) => (base.push('/') + v).push('/') + r,
            },
        }
    }

    /// What the pieces of a text between its `/` name, if they are two to four.
    pub open spec fn from_parts(parts: Seq<Seq<char>>) -> Option<PackageIdentView> {
        if parts.len() == 2 {
            Some(PackageIdentView { origin: parts[0], name: parts[1], version: None, release: None })
        } else if parts.len() == 3 {
            Some(
                PackageIdentView {
                    origin: parts[0],
                    name: parts[1],
                    version: Some(parts[2]),
                    release: None,
                },
            )
        } else if parts.len() == 4 {
            Some(
                PackageIdentView {
                    origin: parts[0],
                    name: parts[1],
                    version: Some(parts[2]),
                    release: Some(parts[3]),
                },
            )
        } else {
            None
        }
    }

    /// What a text names: `origin/name`, `origin/name/version` or
    /// `origin/name/version/release`; nothing with fewer or more parts.
    pub open spec fn parse(s: Seq<char>) -> Option<PackageIdentView> {
        Self::from_parts(split(s, '/'))
    }
}

impl Clone for PackageIdent {
    fn clone(&self) -> (r: Self)
        ensures
            r@ == self@,
    {
        PackageIdent {
            origin: self.origin.clone(),
            name: self.name.clone(),
            version: copy_opt_text(&self.version),
            release: copy_opt_text(&self.release),
        }
    }
}

impl Default for PackageIdent {
    fn default() -> (r: Self)
        ensures
            r@ == PackageIdentView::empty(),
    {
        PackageIdent { origin: String::new(), name: String::new(), version: None, release: None }
    }
}

impl PackageIdent {
    /// An identifier of the given parts.
    pub fn new(origin: &str, name: &str, version: Option<&str>, release: Option<&str>) -> (r: Self)
        ensures
            r@.origin == origin@,
            r@.name == name@,
            r@.version == match version {
                Some(v) => Some(v@),
                None => None,
            },
            r@.release == match release {
                Some(v) => Some(v@),
                None => None,
            },
    {
        PackageIdent {
            origin: origin.to_owned(),
            name: name.to_owned(),
            version: match version {
                Some(v) => Some(v.to_owned()),
                None => None,
            },
            release: match release {
                Some(v) => Some(v.to_owned()),
                None => None,
            },
        }
    }

    /// Reads an identifier from `origin/name[/version[/release]]`.
    pub fn from_str(s: &str) -> (r: Result<PackageIdent, Error>)
        ensures
            match r {
                Ok(ident) => PackageIdentView::parse(s@) == Some(ident@),
                Err(e) => {
                    &&& PackageIdentView::parse(s@) is None
                    &&& e matches Error::InvalidPackageIdent(t)
                    &&& t@ == s@
                },
            },
    {
        let mut parts = split_text(s, '/');
        let n = parts.len();
        assert(texts(parts@).len() == n);
        if n < 2 || n > 4 {
            return Err(Error::InvalidPackageIdent(s.to_owned()));
        }
        let ghost all = texts(parts@);
        assert(forall|i: int| 0 <= i < n ==> all[i] == #[trigger] parts@[i]@);
        let release = if n == 4 {
            parts.pop()
        } else {
            None
        };
        let version = if n >= 3 {
            parts.pop()
        } else {
            None
        };
        let name = parts.pop().unwrap();
        let origin = parts.pop().unwrap();
        Ok(PackageIdent { origin, name, version, release })
    }

    /// Whether both version and release are given.
    pub fn fully_qualified(&self) -> (r: bool)
        ensures
            r == self@.fully_qualified(),
    {
        self.version.is_some() && self.release.is_some()
    }

    /// Whether this is the identifier that names nothing.
    pub fn is_empty(&self) -> (r: bool)
        ensures
            r == (self@ == PackageIdentView::empty()),
    {
        let e = String::new();
        let r = self.origin == e && self.name == e && self.version.is_none()
            && self.release.is_none();
        r
    }

    /// Whether `other` names the same package in every part.
    pub fn same(&self, other: &PackageIdent) -> (r: bool)
        ensures
            r == (self@ == other@),
    {
        self.origin == other.origin && self.name == other.name && same_opt_text(
            &self.version,
            &other.version,
        ) && same_opt_text(&self.release, &other.release)
    }

    /// The identifier as text.
    pub fn to_string(&self) -> (r: String)
        ensures
            r@ == self@.text(),
    {
        proof {
            reveal_strlit("/");
        }
        let mut out = self.origin.clone();
        out.append("/");
        assert(out@ =~= self.origin@.push('/'));
        out.append(self.name.as_str());
        match &self.version {
            None => {},
            Some(v) => {
                let ghost base = out@;
                out.append("/");
                assert(out@ =~= base.push('/'));
                out.append(v.as_str());
                match &self.release {
                    None => {},
                    Some(rel) => {
                        let ghost base2 = out@;
                        out.append("/");
                        assert(out@ =~= base2.push('/'));
                        out.append(rel.as_str());
                    },
                }
            },
        }
        out
    }
}

/// How one of two things stands to the other in an order.
#[derive(Debug, Clone, Copy, PartialEq, Eq, Structural)]
pub enum Order {
    Less,
    Equal,
    Greater,
}

/// The order of two texts as a dictionary has them: by their first
/// characters that differ, and a text before every longer text that starts
/// with it.
pub open spec fn text_order(a: Seq<char>, b: Seq<char>) -> Order
    decreases a.len(),
{
    if a.len() == 0 {
        if b.len() == 0 {
            Order::Equal
        } else {
            Order::Less
        }
    } else if b.len() == 0 {
        Order::Greater
    } else if a[0] < b[0] {
        Order::Less
    } else if a[0] > b[0] {
        Order::Greater
    } else {
        text_order(a.drop_first(), b.drop_first())
    }
}

/// The order of two parts of versions: as numbers, where both are
/// numbers that can be held; as texts otherwise.
pub open spec fn part_order(a: Seq<char>, b: Seq<char>) -> Order {
    match (parse_int(a, 0, u64::MAX as int), parse_int(b, 0, u64::MAX as int)) {
        (Some(x), Some(y)) => if x < y {
            Order::Less
        } else if x > y {
            Order::Greater
        } else {
            Order::Equal
        },
        _ => text_order(a, b),
    }
}

/// The order of two versions given by their parts: by their first parts
/// that differ, and a version before every longer version that starts
/// with it.
pub open spec fn parts_order(a: Seq<Seq<char>>, b: Seq<Seq<char>>) -> Order
    decreases a.len(),
{
    if a.len() == 0 {
        if b.len() == 0 {
            Order::Equal
        } else {
            Order::Less
        }
    } else if b.len() == 0 {
        Order::Greater
    } else {
        match part_order(a[0], b[0]) {
            Order::Equal => parts_order(a.drop_first(), b.drop_first()),
            other => other,
        }
    }
}

/// The order of two versions, whose parts have `.` between them.
pub open spec fn version_order(a: Seq<char>, b: Seq<char>) -> Order {
    parts_order(split(a, '.'), split(b, '.'))
}

impl PackageIdentView {
    /// Whether `candidate` is a newer release of the package than this
    /// one: both name the same package in full, and the candidate has the
    /// greater version, or the same version and the later release.
    pub open spec fn older_than(self, candidate: PackageIdentView) -> bool {
        &&& self.origin == candidate.origin
        &&& self.name == candidate.name
        &&& self.fully_qualified()
        &&& candidate.fully_qualified()
        &&& match version_order(self.version->0, candidate.version->0) {
            Order::Less => true,
            Order::Greater => false,
            Order::Equal => text_order(self.release->0, candidate.release->0) == Order::Less,
        }
    }
}

/// A text is equal to itself in the order of texts.
pub proof fn lemma_text_order_same(a: Seq<char>)
    ensures
        text_order(a, a) == Order::Equal,
    decreases a.len(),
{
    if a.len() > 0 {
        lemma_text_order_same(a.drop_first());
    }
}

/// A version is equal to itself in the order of versions given by parts.
pub proof fn lemma_parts_order_same(a: Seq<Seq<char>>)
    ensures
        parts_order(a, a) == Order::Equal,
    decreases a.len(),
{
    if a.len() > 0 {
        lemma_text_order_same(a[0]);
        lemma_parts_order_same(a.drop_first());
    }
}

/// No package is older than itself.
pub proof fn lemma_not_older_than_itself(ident: PackageIdentView)
    ensures
        !ident.older_than(ident),
{
    if ident.fully_qualified() {
        lemma_parts_order_same(split(ident.version->0, '.'));
        lemma_text_order_same(ident.release->0);
    }
}

/// The order of two texts as a dictionary has them.
pub fn compare_text(a: &str, b: &str) -> (r: Order)
    ensures
        r == text_order(a@, b@),
{
    let n = a.unicode_len();
    let m = b.unicode_len();
    let mut i: usize = 0;
    assert(a@.subrange(0, n as int) =~= a@);
    assert(b@.subrange(0, m as int) =~= b@);
    while i < n && i < m
        invariant
            i <= n,
            i <= m,
            n == a@.len(),
            m == b@.len(),
            text_order(a@, b@) == text_order(
                a@.subrange(i as int, n as int),
                b@.subrange(i as int, m as int),
            ),
        decreases n - i,
    {
        let x = a.get_char(i);
        let y = b.get_char(i);
        let ghost ra = a@.subrange(i as int, n as int);
        let ghost rb = b@.subrange(i as int, m as int);
        assert(ra[0] == x && rb[0] == y);
        if x < y {
            return Order::Less;
        }
        if x > y {
            return Order::Greater;
        }
        assert(ra.drop_first() =~= a@.subrange(i + 1, n as int));
        assert(rb.drop_first() =~= b@.subrange(i + 1, m as int));
        i = i + 1;
    }
    if i == n {
        if i == m {
            Order::Equal
        } else {
            Order::Less
        }
    } else {
        Order::Greater
    }
}

/// The order of two parts of versions.
pub fn compare_parts(a: &str, b: &str) -> (r: Order)
    ensures
        r == part_order(a@, b@),
{
    match (parse_unsigned(a, u64::MAX), parse_unsigned(b, u64::MAX)) {
        (Some(x), Some(y)) => {
            if x < y {
                Order::Less
            } else if x > y {
                Order::Greater
            } else {
                Order::Equal
            }
        },
        _ => compare_text(a, b),
    }
}

/// The order of two versions.
pub fn compare_versions(a: &str, b: &str) -> (r: Order)
    ensures
        r == version_order(a@, b@),
{
    let pa = split_text(a, '.');
    let pb = split_text(b, '.');
    let ghost va = texts(pa@);
    let ghost vb = texts(pb@);
    let n = pa.len();
    let m = pb.len();
    let mut i: usize = 0;
    assert(va.subrange(0, n as int) =~= va);
    assert(vb.subrange(0, m as int) =~= vb);
    while i < n && i < m
        invariant
            i <= n,
            i <= m,
            n == pa@.len(),
            m == pb@.len(),
            va == texts(pa@),
            vb == texts(pb@),
            va == split(a@, '.'),
            vb == split(b@, '.'),
            parts_order(va, vb) == parts_order(
                va.subrange(i as int, n as int),
                vb.subrange(i as int, m as int),
            ),
        decreases n - i,
    {
        let ghost ra = va.subrange(i as int, n as int);
        let ghost rb = vb.subrange(i as int, m as int);
        assert(ra[0] == pa@[i as int]@ && rb[0] == pb@[i as int]@);
        match compare_parts(pa[i].as_str(), pb[i].as_str()) {
            Order::Equal => {},
            other => {
                assert(parts_order(ra, rb) == other);
                return other;
            },
        }
        assert(ra.drop_first() =~= va.subrange(i + 1, n as int));
        assert(rb.drop_first() =~= vb.subrange(i + 1, m as int));
        i = i + 1;
    }
    if i == n {
        if i == m {
            Order::Equal
        } else {
            Order::Less
        }
    } else {
        Order::Greater
    }
}

impl PackageIdent {
    /// Whether `candidate` is a newer release of the package than this
    /// one.
    pub fn older_than(&self, candidate: &PackageIdent) -> (r: bool)
        ensures
            r == self@.older_than(candidate@),
    {
        if !(self.origin == candidate.origin && self.name == candidate.name) {
            return false;
        }
        match (&self.version, &self.release, &candidate.version, &candidate.release) {
            (Some(v1), Some(r1), Some(v2), Some(r2)) => match compare_versions(
                v1.as_str(),
                v2.as_str(),
            ) {
                Order::Less => true,
                Order::Greater => false,
                Order::Equal => match compare_text(r1.as_str(), r2.as_str()) {
                    Order::Less => true,
                    _ => false,
                },
            },
            _ => false,
        }
    }
}

} // verus!
