//! A chainable reporter: items are added one by one, and the report is the
//! items' status lines joined with line breaks.

use vstd::prelude::*;

verus! {

use vstd::string::StringExecFns;

/// Anything that can describe its current status as one line of text.
pub trait Report {
    /// Which texts are valid status lines of this value.  A device whose
    /// reading lives in a concurrently written cell admits one text per
    /// possible reading; everything else admits exactly one.
    spec fn report_matches(&self, text: Seq<char>) -> bool;

    /// Produce the status line.
    fn get_status_report(&self) -> (r: String)
        ensures
            self.report_matches(r@),
    ;
}

/// A reporter over the items added so far.
pub struct Reporter<T> {
    inner: T,
}

impl Reporter<Identity> {
    /// A reporter with no items yet.
    pub fn new() -> (r: Reporter<Identity>)
        ensures
            r.spec_inner() == Identity,
    {
        Reporter { inner: Identity }
    }
}

impl Default for Reporter<Identity> {
    /// A reporter with no items yet.
    fn default() -> (r: Self)
        ensures
            r.spec_inner() == Identity,
    {
        Reporter::new()
    }
}

impl<T> Reporter<T> {
    /// What the reporter reports over.
    pub closed spec fn spec_inner(&self) -> T {
        self.inner
    }

    /// Extend the reporter with one more item.
    pub fn add_item<U: Report>(self, item: U) -> (r: Reporter<Both<T, U>>)
        ensures
            r.spec_inner().spec_first() == self.spec_inner(),
            r.spec_inner().spec_second() == item,
    {
        Reporter { inner: Both::new(self.inner, item) }
    }
}

impl<T: Report> Report for Reporter<T> {
    open spec fn report_matches(&self, text: Seq<char>) -> bool {
        self.spec_inner().report_matches(text)
    }

    fn get_status_report(&self) -> (r: String) {
        self.inner.get_status_report()
    }
}

/// The empty report.
#[derive(Clone, Copy, Debug, PartialEq, Eq, Structural)]
pub struct Identity;

impl Report for Identity {
    open spec fn report_matches(&self, text: Seq<char>) -> bool {
        text == Seq::<char>::empty()
    }

    fn get_status_report(&self) -> (r: String) {
        let out = String::new();
        proof {
            assert(out@ =~= Seq::<char>::empty());
        }
        out
    }
}

/// Two reports, one under the other.
pub struct Both<R1, R2> {
    inner1: R1,
    inner2: R2,
}

impl<R1, R2> Both<R1, R2> {
    /// The upper part.
    pub closed spec fn spec_first(&self) -> R1 {
        self.inner1
    }

    /// The lower part.
    pub closed spec fn spec_second(&self) -> R2 {
        self.inner2
    }

    /// Join two reportable values.
    pub fn new(inner1: R1, inner2: R2) -> (r: Both<R1, R2>)
        ensures
            r.spec_first() == inner1,
            r.spec_second() == inner2,
    {
        Both { inner1, inner2 }
    }
}

impl<R1: Report, R2: Report> Report for Both<R1, R2> {
    open spec fn report_matches(&self, text: Seq<char>) -> bool {
        exists|t1: Seq<char>, t2: Seq<char>|
            #[trigger] self.spec_first().report_matches(t1)
                && #[trigger] self.spec_second().report_matches(t2) && text == t1 + "\n"@ + t2
    }

    fn get_status_report(&self) -> (r: String) {
        let part1 = self.inner1.get_status_report();
        let part2 = self.inner2.get_status_report();
        let ghost t1 = part1@;
        let ghost t2 = part2@;
        let mut out = part1;
        out.append("\n");
        out.append(part2.as_str());
        proof {
            assert(self.spec_first().report_matches(t1) && self.spec_second().report_matches(t2)
                && out@ == t1 + "\n"@ + t2);
        }
        out
    }
}

} // verus!
