use vstd::prelude::*;
use crate::error::{CallReport, Error};
use crate::{Archive, Filter, Format};

verus! {

/// A write-mode archive session. In the current scope this is a
/// lifecycle-only placeholder: it can be created, can negotiate formats and
/// filters, and is released when it goes out of scope; no entry-writing and
/// no data-source attachment exist yet, and it must not be mistaken for a
/// complete write path.
#[derive(Debug)]
pub struct WriteArchive {
    formats: Vec<Format>,
    filters: Vec<Filter>,
}

impl WriteArchive {
    /// Allocates a fresh write-mode session with nothing registered. In the
    /// underlying design this fails only on memory exhaustion, which is
    /// unrecoverable, so no error path exists here.
    pub fn new() -> (a: WriteArchive)
        ensures
            a.formats_view() == Seq::<Format>::empty(),
            a.filters_view() == Seq::<Filter>::empty(),
    {
        WriteArchive { formats: Vec::new(), filters: Vec::new() }
    }
}

impl Archive for WriteArchive {
    closed spec fn formats_view(&self) -> Seq<Format> {
        self.formats@
    }

    closed spec fn filters_view(&self) -> Seq<Filter> {
        self.filters@
    }

    closed spec fn same_session_state(&self, other: &Self) -> bool {
        true
    }

    fn support_format(&mut self, format: Format, report: CallReport) -> (r: Result<(), Error>) {
        if matches!(format, Format::All) {
            self.formats.push(format);
            return Ok(());
        }
        match Error::from_code(report.status, report.errno, report.message) {
            Ok(()) => {
                self.formats.push(format);
                Ok(())
            },
            Err(e) => Err(e),
        }
    }

    fn support_filter(&mut self, filter: Filter, report: CallReport) -> (r: Result<(), Error>) {
        if matches!(filter, Filter::All) {
            self.filters.push(filter);
            return Ok(());
        }
        match Error::from_code(report.status, report.errno, report.message) {
            Ok(()) => {
                self.filters.push(filter);
                Ok(())
            },
            Err(e) => Err(e),
        }
    }
}

} // verus!
