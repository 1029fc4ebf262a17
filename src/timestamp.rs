use vstd::prelude::*;

verus! {

/// The first second, counted from the Unix epoch, of the year 10000: RFC 3339
/// text exists only for earlier instants.
pub const END_OF_RFC3339_SECS: u64 = 253_402_300_800;

/// The number of nanoseconds in a second.
pub const NANOS_PER_SEC: u32 = 1_000_000_000;

/// An instant after the Unix epoch, at nanosecond resolution.
#[derive(Clone, Copy, Debug, PartialEq, Eq, Structural)]
pub struct Timestamp {
    pub secs: u64,
    pub nanos: u32,
}

impl Timestamp {
    /// A timestamp has a sub-second part under one second and falls before the
    /// year 10000, so that it can be written in RFC 3339.
    pub open spec fn is_valid(self) -> bool {
        self.nanos < NANOS_PER_SEC && self.secs < END_OF_RFC3339_SECS
    }

    /// The instant as a number of nanoseconds since the epoch.
    pub open spec fn total_nanos(self) -> int {
        self.secs * NANOS_PER_SEC + self.nanos
    }

    /// The timestamp `secs` seconds and `nanos` nanoseconds after the epoch, if it
    /// is a valid one.
    pub fn new(secs: u64, nanos: u32) -> (r: Option<Timestamp>)
        ensures
            r matches Some(t) ==> t.secs == secs && t.nanos == nanos,
            r is Some <==> (Timestamp { secs, nanos }).is_valid(),
    {
        if nanos < NANOS_PER_SEC && secs < END_OF_RFC3339_SECS {
            Some(Timestamp { secs, nanos })
        } else {
            None
        }
    }

    /// Whether `self` is a later instant than `other`.
    pub fn is_after(&self, other: &Timestamp) -> (r: bool)
        requires
            self.is_valid(),
            other.is_valid(),
        ensures
            r == (self.total_nanos() > other.total_nanos()),
    {
        proof {
            lemma_total_nanos_order(*self, *other);
        }
        self.secs > other.secs || (self.secs == other.secs && self.nanos > other.nanos)
    }
}

proof fn lemma_total_nanos_order(a: Timestamp, b: Timestamp)
    requires
        a.is_valid(),
        b.is_valid(),
    ensures
        (a.total_nanos() > b.total_nanos()) == (a.secs > b.secs || (a.secs == b.secs && a.nanos
            > b.nanos)),
{
    if a.secs > b.secs {
        assert(a.secs * NANOS_PER_SEC >= (b.secs + 1) * NANOS_PER_SEC) by (nonlinear_arith)
            requires
                a.secs >= b.secs + 1,
        ;
    } else if a.secs < b.secs {
        assert(b.secs * NANOS_PER_SEC >= (a.secs + 1) * NANOS_PER_SEC) by (nonlinear_arith)
            requires
                b.secs >= a.secs + 1,
        ;
    }
}

/// The RFC 3339 text that humantime writes for the instant `secs` seconds and
/// `nanos` nanoseconds after the epoch.
pub uninterp spec fn rfc3339_of(secs: u64, nanos: u32) -> Seq<char>;

/// The slug that the slug crate makes of a text.
pub uninterp spec fn slug_of(s: Seq<char>) -> Seq<char>;

/// A character that may stand in a slug.
pub open spec fn is_slug_char(c: char) -> bool {
    ('a' <= c && c <= 'z') || ('0' <= c && c <= '9') || c == '-'
}

/// Relies on humantime::format_rfc3339 (shown through its `Display` impl): the
/// RFC 3339 text of an instant, which depends on the instant alone. Its
/// formatting fails from the year 10000 on, which `to_string` turns into a panic.
#[verifier::external_body]
fn rfc3339(ts: Timestamp) -> (r: String)
    requires
        ts.is_valid(),
    ensures
        r@ == rfc3339_of(ts.secs, ts.nanos),
{
    let instant = std::time::UNIX_EPOCH + std::time::Duration::new(ts.secs, ts.nanos);
    humantime::format_rfc3339(instant).to_string()
}

/// Relies on slug::slugify: the slug depends on the text alone and, as its
/// documentation says, consists of `a`-`z`, `0`-`9` and `-`.
#[verifier::external_body]
fn slugify(s: &str) -> (r: String)
    ensures
        r@ == slug_of(s@),
        forall|i: int| 0 <= i < r@.len() ==> is_slug_char(#[trigger] r@[i]),
{
    slug::slugify(s)
}

/// The slug of a build's timestamp, which keeps private copies of different
/// builds apart.
pub open spec fn timestamp_slug_of(ts: Timestamp) -> Seq<char> {
    slug_of(rfc3339_of(ts.secs, ts.nanos))
}

/// The slug of the RFC 3339 text of `ts`.
pub fn timestamp_slug(ts: Timestamp) -> (r: String)
    requires
        ts.is_valid(),
    ensures
        r@ == timestamp_slug_of(ts),
        forall|i: int| 0 <= i < r@.len() ==> is_slug_char(#[trigger] r@[i]),
{
    let text = rfc3339(ts);
    slugify(text.as_str())
}

} // verus!
