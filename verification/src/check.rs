//! Checking a system before sandboxes are made on it.
use crate::linux::check::SystemProbe;
use crate::linux::{Settings, UidRange};
use crate::text::string_views;
use vstd::prelude::*;
use vstd::string::*;

verus! {

/// Storage for the problems that the checks report. These problems are
/// for the administrator of the system to fix.
#[derive(Debug)]
pub struct CheckResult {
    errors: Vec<String>,
    warnings: Vec<String>,
}

/// The items of a report, each on a line of its own after a tab.
pub open spec fn items_text(items: Seq<Seq<char>>) -> Seq<char>
    decreases items.len(),
{
    if items.len() == 0 {
        Seq::<char>::empty()
    } else {
        items_text(items.drop_last()) + "\t"@ + items.last() + "\n"@
    }
}

/// A section of a report: nothing where there are no items, else the
/// title and the items.
pub open spec fn section_text(title: Seq<char>, items: Seq<Seq<char>>) -> Seq<char> {
    if items.len() == 0 {
        Seq::<char>::empty()
    } else {
        title + items_text(items)
    }
}

/// The report as text: `OK` where nothing was reported, else the errors
/// and then the warnings.
pub open spec fn report_text(errors: Seq<Seq<char>>, warnings: Seq<Seq<char>>) -> Seq<char> {
    if errors.len() == 0 && warnings.len() == 0 {
        "OK"@
    } else {
        section_text("Errors:\n"@, errors) + section_text("Warnings:\n"@, warnings)
    }
}

fn append_items(out: &mut String, items: &Vec<String>)
    ensures
        final(out)@ == old(out)@ + items_text(string_views(items@)),
{
    let mut i: usize = 0;
    assert(string_views(items@).take(0) == Seq::<Seq<char>>::empty());
    assert(out@ + Seq::<char>::empty() =~= out@);
    while i < items.len()
        invariant
            i <= items.len(),
            out@ == old(out)@ + items_text(string_views(items@).take(i as int)),
        decreases items.len() - i,
    {
        proof {
            let next = string_views(items@).take(i + 1);
            assert(next.drop_last() == string_views(items@).take(i as int));
            assert(next.last() == items@[i as int]@);
        }
        let ghost before = out@;
        out.append("\t");
        out.append(items[i].as_str());
        out.append("\n");
        assert(out@ =~= old(out)@ + (items_text(string_views(items@).take(i as int)) + "\t"@
            + items@[i as int]@ + "\n"@));
        i += 1;
    }
    assert(string_views(items@).take(items.len() as int) == string_views(items@));
}

impl CheckResult {
    /// The errors reported, in order.
    pub closed spec fn errors(&self) -> Seq<Seq<char>> {
        string_views(self.errors@)
    }

    /// The warnings reported, in order.
    pub closed spec fn warnings(&self) -> Seq<Seq<char>> {
        string_views(self.warnings@)
    }

    /// Creates an empty CheckResult.
    pub fn new() -> (r: CheckResult)
        ensures
            r.errors() == Seq::<Seq<char>>::empty(),
            r.warnings() == Seq::<Seq<char>>::empty(),
    {
        let r = CheckResult { errors: Vec::new(), warnings: Vec::new() };
        assert(r.errors() =~= Seq::<Seq<char>>::empty());
        assert(r.warnings() =~= Seq::<Seq<char>>::empty());
        r
    }

    /// Records an error.
    pub fn error(&mut self, message: &str)
        ensures
            final(self).errors() == old(self).errors().push(message@),
            final(self).warnings() == old(self).warnings(),
    {
        let s = message.to_owned();
        self.errors.push(s);
        assert(string_views(self.errors@) =~= string_views(old(self).errors@).push(message@));
    }

    /// Records a warning.
    pub fn warning(&mut self, message: &str)
        ensures
            final(self).warnings() == old(self).warnings().push(message@),
            final(self).errors() == old(self).errors(),
    {
        let s = message.to_owned();
        self.warnings.push(s);
        assert(string_views(self.warnings@) =~= string_views(old(self).warnings@).push(message@));
    }

    /// Checks if any errors were reported.
    pub fn has_errors(&self) -> (r: bool)
        ensures
            r == (self.errors().len() > 0),
    {
        self.errors.len() > 0
    }

    /// Checks if any warnings were reported.
    pub fn has_warnings(&self) -> (r: bool)
        ensures
            r == (self.warnings().len() > 0),
    {
        self.warnings.len() > 0
    }

    /// The report as text.
    pub fn render(&self) -> (r: String)
        ensures
            r@ == report_text(self.errors(), self.warnings()),
    {
        if self.errors.len() == 0 && self.warnings.len() == 0 {
            return "OK".to_owned();
        }
        let mut out = String::new();
        if self.errors.len() > 0 {
            out.append("Errors:\n");
            append_items(&mut out, &self.errors);
        }
        let ghost first = out@;
        assert(first =~= section_text("Errors:\n"@, self.errors()));
        if self.warnings.len() > 0 {
            out.append("Warnings:\n");
            append_items(&mut out, &self.warnings);
        }
        assert(out@ =~= first + section_text("Warnings:\n"@, self.warnings()));
        out
    }
}

impl Default for CheckResult {
    fn default() -> (r: CheckResult)
        ensures
            r.errors() == Seq::<Seq<char>>::empty(),
            r.warnings() == Seq::<Seq<char>>::empty(),
    {
        CheckResult::new()
    }
}

/// Checks what was found out about the system for configuration issues,
/// against the settings that a backend starts from.
pub fn check(probe: &SystemProbe, res: &mut CheckResult)
    ensures
        final(res).errors() == old(res).errors() + crate::linux::check::found_errors(
            false,
            UidRange { low: 1_000_000, high: 2_000_000 },
            *probe,
        ),
        final(res).warnings() == old(res).warnings() + crate::linux::check::found_warnings(
            false,
            *probe,
        ),
{
    let settings = Settings::new();
    crate::linux::check::check(&settings, probe, res);
}

} // verus!
