use vstd::prelude::*;
use crate::entry::Entry;
use crate::error::{is_success, CallReport, Error, ErrorOrIo, IoError, ARCHIVE_OK, ERRNO_MISC};
use crate::{Archive, Filter, Format};

verus! {

/// Default read granularity, in bytes, handed to the engine when a
/// file-backed data source is attached.
pub const DEFAULT_BLOCK_SIZE: u64 = 10240;

/// The engine's answer to one next-header request: the status of the parse
/// step and, on success, the pathname it filled into the fresh entry.
#[derive(Debug)]
pub struct HeaderRecord {
    /// Status the parse step reported.
    pub status: i32,
    /// Pathname the engine filled in; a populated header always carries one,
    /// and its absence is a contract violation by the engine.
    pub pathname: Option<String>,
}

/// The mathematical content of a [`HeaderRecord`].
#[verifier::ext_equal]
pub struct HeaderRecordView {
    pub status: i32,
    pub pathname: Option<Seq<char>>,
}

impl View for HeaderRecord {
    type V = HeaderRecordView;

    open spec fn view(&self) -> HeaderRecordView {
        HeaderRecordView { status: self.status, pathname: self.pathname.deep_view() }
    }
}

impl DeepView for HeaderRecord {
    type V = HeaderRecordView;

    open spec fn deep_view(&self) -> HeaderRecordView {
        self.view()
    }
}

/// Everything the engine reports about one data source: the outcome of the
/// open call (a status with the handle's error number and message at that
/// moment) and its answers to the successive next-header requests.
#[derive(Debug)]
pub struct SourceReport {
    /// Status of the open call.
    pub status: i32,
    /// Error number on the handle after the open call.
    pub errno: i32,
    /// Message on the handle after the open call, when one was present.
    pub message: Option<String>,
    /// Answers to the successive next-header requests, in order.
    pub headers: Vec<HeaderRecord>,
}

/// Which of the engine's option facilities a triple was forwarded to.
#[derive(Clone, Copy, Debug, PartialEq, Eq, Structural)]
pub enum OptionTarget {
    /// The filter-option facility.
    FilterModules,
    /// The format-option facility.
    FormatModules,
    /// The general facility, which tries formats and filters alike.
    AnyModule,
}

/// One module/option/value triple the engine consumed for this session.
#[derive(Debug)]
pub struct OptionSetting {
    pub target: OptionTarget,
    pub module: String,
    pub name: String,
    pub value: String,
}

/// The mathematical content of an [`OptionSetting`].
#[verifier::ext_equal]
pub struct OptionSettingView {
    pub target: OptionTarget,
    pub module: Seq<char>,
    pub name: Seq<char>,
    pub value: Seq<char>,
}

impl View for OptionSetting {
    type V = OptionSettingView;

    open spec fn view(&self) -> OptionSettingView {
        OptionSettingView {
            target: self.target,
            module: self.module@,
            name: self.name@,
            value: self.value@,
        }
    }
}

impl DeepView for OptionSetting {
    type V = OptionSettingView;

    open spec fn deep_view(&self) -> OptionSettingView {
        self.view()
    }
}

/// The state of a read-mode session: what the engine was asked to recognize,
/// the options it consumed, the attached data source, the header responses
/// the source parsed into, and the read cursor over them.
#[verifier::ext_equal]
pub struct ReadArchiveView {
    pub formats: Seq<Format>,
    pub filters: Seq<Filter>,
    pub options: Seq<OptionSettingView>,
    pub option_lists: Seq<Seq<char>>,
    pub source: Option<Seq<u8>>,
    pub headers: Seq<HeaderRecordView>,
    pub cursor: int,
}

impl ReadArchiveView {
    /// A data source has been attached.
    pub open spec fn opened(&self) -> bool {
        self.source is Some
    }

    /// The next iteration request will yield an entry: a header response
    /// remains at the cursor and it reports a fully successful parse.
    pub open spec fn yields(&self) -> bool {
        &&& 0 <= self.cursor < self.headers.len()
        &&& self.headers[self.cursor].status == ARCHIVE_OK
    }

    /// The state of a session that was just created.
    pub open spec fn initial() -> ReadArchiveView {
        ReadArchiveView {
            formats: Seq::empty(),
            filters: Seq::empty(),
            options: Seq::empty(),
            option_lists: Seq::empty(),
            source: None,
            headers: Seq::empty(),
            cursor: 0,
        }
    }
}

/// A read-mode archive session. It negotiates which formats and filters the
/// engine should recognize, forwards option settings to the engine's
/// option-configuration facilities, attaches one data source, and hands the
/// parsed entry headers out one at a time through [`Self::next_entry`],
/// advancing its own read cursor.
///
/// Every engine call is made by the caller, whose answer enters as a
/// [`CallReport`] or [`SourceReport`]; the session translates the answer and
/// keeps the handle's state as a value. The session owns its state
/// exclusively for its entire lifetime and releases it exactly once, when the
/// value goes out of scope.
#[derive(Debug)]
pub struct ReadArchive {
    formats: Vec<Format>,
    filters: Vec<Filter>,
    options: Vec<OptionSetting>,
    option_lists: Vec<String>,
    source: Option<Vec<u8>>,
    headers: Vec<HeaderRecord>,
    cursor: usize,
}

impl View for ReadArchive {
    type V = ReadArchiveView;

    closed spec fn view(&self) -> ReadArchiveView {
        ReadArchiveView {
            formats: self.formats@,
            filters: self.filters@,
            options: self.options.deep_view(),
            option_lists: self.option_lists.deep_view(),
            source: self.source.deep_view(),
            headers: self.headers.deep_view(),
            cursor: self.cursor as int,
        }
    }
}

/// Message of the error answered when a request arrives after a data source
/// was already attached.
pub open spec fn out_of_order_message() -> Seq<char> {
    "data source already attached"@
}

/// The error a session answers when a request arrives after a data source was
/// already attached.
fn out_of_order_error() -> (e: Error)
    ensures
        e.code_spec() == ERRNO_MISC,
        e.message_spec() == Some(out_of_order_message()),
{
    Error::new(ERRNO_MISC, Some("data source already attached".to_owned()))
}

impl ReadArchive {
    /// Allocates a fresh read-mode session with nothing registered and no
    /// data source. In the underlying design this fails only on memory
    /// exhaustion, which is unrecoverable, so no error path exists here.
    pub fn new() -> (a: ReadArchive)
        ensures
            a@ == ReadArchiveView::initial(),
    {
        let a = ReadArchive {
            formats: Vec::new(),
            filters: Vec::new(),
            options: Vec::new(),
            option_lists: Vec::new(),
            source: None,
            headers: Vec::new(),
            cursor: 0,
        };
        proof {
            assert(a@ =~= ReadArchiveView::initial());
        }
        a
    }

    /// Records one format registration on the session.
    fn register_format(&mut self, format: Format)
        ensures
            final(self)@ == (ReadArchiveView {
                formats: old(self)@.formats.push(format),
                ..old(self)@
            }),
    {
        self.formats.push(format);
    }

    /// Records one filter registration on the session.
    fn register_filter(&mut self, filter: Filter)
        ensures
            final(self)@ == (ReadArchiveView {
                filters: old(self)@.filters.push(filter),
                ..old(self)@
            }),
    {
        self.filters.push(filter);
    }

    /// Attaches an in-memory byte region as the session's data source, given
    /// the engine's report on it. Any status other than success or warning
    /// becomes a structured error built from the reported error number and
    /// message; attaching a second source is answered with a typed error
    /// rather than being left to the engine's behaviour.
    pub fn open_buffer(&mut self, buf: Vec<u8>, report: SourceReport) -> (r: Result<(), Error>)
        ensures
            r is Ok <==> (!old(self)@.opened() && is_success(report.status)),
            old(self)@.opened() ==> (r matches Err(e) && e.code_spec() == ERRNO_MISC
                && e.message_spec() == Some(out_of_order_message())
                && final(self)@ == old(self)@),
            !old(self)@.opened() && is_success(report.status) ==> final(self)@ == (ReadArchiveView {
                source: Some(buf@),
                headers: report.headers.deep_view(),
                ..old(self)@
            }),
            !old(self)@.opened() && !is_success(report.status) ==> (r matches Err(e)
                && e.code_spec() == report.errno
                && e.message_spec() == report.message.deep_view()
                && final(self)@ == old(self)@),
    {
        if self.source.is_some() {
            return Err(out_of_order_error());
        }
        match Error::from_code(report.status, report.errno, report.message) {
            Ok(()) => {
                self.source = Some(buf);
                self.headers = report.headers;
                Ok(())
            },
            Err(e) => Err(e),
        }
    }

    /// Attaches the contents of a file as the session's data source. The
    /// caller reads the whole file and hands over the outcome: a failed read
    /// surfaces as an I/O error, kept distinct from engine-reported archive
    /// errors; a successful read is attached exactly as [`Self::open_buffer`]
    /// does.
    pub fn open(&mut self, data: Result<Vec<u8>, IoError>, report: SourceReport) -> (r: Result<
        (),
        ErrorOrIo,
    >)
        ensures
            r is Ok <==> (data is Ok && !old(self)@.opened() && is_success(report.status)),
            data matches Err(io) ==> (r matches Err(ErrorOrIo::Io(io2)) && io2 == io
                && final(self)@ == old(self)@),
            data is Ok && old(self)@.opened() ==> (r matches Err(ErrorOrIo::Archive(e))
                && e.code_spec() == ERRNO_MISC && e.message_spec() == Some(out_of_order_message())
                && final(self)@ == old(self)@),
            data is Ok && !old(self)@.opened() && is_success(report.status) ==> final(self)@ == (
            ReadArchiveView {
                source: Some(data->Ok_0@),
                headers: report.headers.deep_view(),
                ..old(self)@
            }),
            data is Ok && !old(self)@.opened() && !is_success(report.status) ==> (r matches Err(
                ErrorOrIo::Archive(e),
            ) && e.code_spec() == report.errno && e.message_spec() == report.message.deep_view()
                && final(self)@ == old(self)@),
    {
        match data {
            Err(io) => Err(ErrorOrIo::Io(io)),
            Ok(bytes) => match self.open_buffer(bytes, report) {
                Ok(()) => Ok(()),
                Err(e) => Err(ErrorOrIo::Archive(e)),
            },
        }
    }

    /// Builds a session prepared for every known format and filter and
    /// attaches the contents of a file, as read by the caller. The two
    /// all-selector registrations are documented never to fail, and their
    /// outcomes are discarded; a failed read surfaces as an I/O error, and a
    /// source the engine rejects surfaces as an archive error.
    pub fn from_path(data: Result<Vec<u8>, IoError>, report: SourceReport) -> (r: Result<
        ReadArchive,
        ErrorOrIo,
    >)
        ensures
            r is Ok <==> (data is Ok && is_success(report.status)),
            data matches Err(io) ==> (r matches Err(ErrorOrIo::Io(io2)) && io2 == io),
            data is Ok && is_success(report.status) ==> (r matches Ok(a) && a@ == (
            ReadArchiveView {
                formats: seq![Format::All],
                filters: seq![Filter::All],
                options: Seq::empty(),
                option_lists: Seq::empty(),
                source: Some(data->Ok_0@),
                headers: report.headers.deep_view(),
                cursor: 0,
            })),
            data is Ok && !is_success(report.status) ==> (r matches Err(ErrorOrIo::Archive(e))
                && e.code_spec() == report.errno && e.message_spec() == report.message.deep_view()),
    {
        let mut archive = ReadArchive::new();
        archive.register_format(Format::All);
        archive.register_filter(Filter::All);
        proof {
            assert(archive@.formats =~= seq![Format::All]);
            assert(archive@.filters =~= seq![Filter::All]);
        }
        match archive.open(data, report) {
            Ok(()) => Ok(archive),
            Err(e) => Err(e),
        }
    }

    /// Records the triple the engine consumed at the facility `target`.
    fn record_option(&mut self, target: OptionTarget, module: &str, option: &str, value: &str)
        ensures
            final(self)@ == (ReadArchiveView {
                options: old(self)@.options.push(
                    OptionSettingView { target, module: module@, name: option@, value: value@ },
                ),
                ..old(self)@
            }),
    {
        self.options.push(
            OptionSetting {
                target,
                module: module.to_owned(),
                name: option.to_owned(),
                value: value.to_owned(),
            },
        );
    }

    /// Forwards one module/option/value triple to the engine's filter-option
    /// facility: the caller makes the call and hands over the engine's
    /// answer. Any status other than success or warning becomes a structured
    /// error built from the reported error number and message, and the
    /// session keeps its prior state.
    pub fn set_filter_option(
        &mut self,
        module: &str,
        option: &str,
        value: &str,
        report: CallReport,
    ) -> (r: Result<(), Error>)
        ensures
            r is Ok <==> is_success(report.status),
            is_success(report.status) ==> final(self)@ == (ReadArchiveView {
                options: old(self)@.options.push(
                    OptionSettingView {
                        target: OptionTarget::FilterModules,
                        module: module@,
                        name: option@,
                        value: value@,
                    },
                ),
                ..old(self)@
            }),
            !is_success(report.status) ==> (r matches Err(e) && e.code_spec() == report.errno
                && e.message_spec() == report.message.deep_view()
                && final(self)@ == old(self)@),
    {
        match Error::from_code(report.status, report.errno, report.message) {
            Ok(()) => {
                self.record_option(OptionTarget::FilterModules, module, option, value);
                Ok(())
            },
            Err(e) => Err(e),
        }
    }

    /// Forwards one module/option/value triple to the engine's format-option
    /// facility, translated exactly as [`Self::set_filter_option`] is.
    pub fn set_format_option(
        &mut self,
        module: &str,
        option: &str,
        value: &str,
        report: CallReport,
    ) -> (r: Result<(), Error>)
        ensures
            r is Ok <==> is_success(report.status),
            is_success(report.status) ==> final(self)@ == (ReadArchiveView {
                options: old(self)@.options.push(
                    OptionSettingView {
                        target: OptionTarget::FormatModules,
                        module: module@,
                        name: option@,
                        value: value@,
                    },
                ),
                ..old(self)@
            }),
            !is_success(report.status) ==> (r matches Err(e) && e.code_spec() == report.errno
                && e.message_spec() == report.message.deep_view()
                && final(self)@ == old(self)@),
    {
        match Error::from_code(report.status, report.errno, report.message) {
            Ok(()) => {
                self.record_option(OptionTarget::FormatModules, module, option, value);
                Ok(())
            },
            Err(e) => Err(e),
        }
    }

    /// Forwards one module/option/value triple once to the engine's general
    /// option facility, which tries formats and filters alike, translated
    /// exactly as [`Self::set_filter_option`] is.
    pub fn set_option(
        &mut self,
        module: &str,
        option: &str,
        value: &str,
        report: CallReport,
    ) -> (r: Result<(), Error>)
        ensures
            r is Ok <==> is_success(report.status),
            is_success(report.status) ==> final(self)@ == (ReadArchiveView {
                options: old(self)@.options.push(
                    OptionSettingView {
                        target: OptionTarget::AnyModule,
                        module: module@,
                        name: option@,
                        value: value@,
                    },
                ),
                ..old(self)@
            }),
            !is_success(report.status) ==> (r matches Err(e) && e.code_spec() == report.errno
                && e.message_spec() == report.message.deep_view()
                && final(self)@ == old(self)@),
    {
        match Error::from_code(report.status, report.errno, report.message) {
            Ok(()) => {
                self.record_option(OptionTarget::AnyModule, module, option, value);
                Ok(())
            },
            Err(e) => Err(e),
        }
    }

    /// Forwards a comma-separated option list, verbatim, to the engine's
    /// option-string facility: the caller makes the call and hands over the
    /// engine's answer. Any status other than success or warning — as the
    /// engine answers for an option that nothing consumes, in particular on a
    /// freshly created, unconfigured session — becomes a structured error
    /// built from the reported error number and message, and the session
    /// keeps its prior state.
    pub fn set_options(&mut self, options: &str, report: CallReport) -> (r: Result<(), Error>)
        ensures
            r is Ok <==> is_success(report.status),
            is_success(report.status) ==> final(self)@ == (ReadArchiveView {
                option_lists: old(self)@.option_lists.push(options@),
                ..old(self)@
            }),
            !is_success(report.status) ==> (r matches Err(e) && e.code_spec() == report.errno
                && e.message_spec() == report.message.deep_view()
                && final(self)@ == old(self)@),
    {
        match Error::from_code(report.status, report.errno, report.message) {
            Ok(()) => {
                self.option_lists.push(options.to_owned());
                Ok(())
            },
            Err(e) => Err(e),
        }
    }

    /// Whether a data source has been attached, so that a caller can guard
    /// an engine call whose behaviour on a second open is undefined.
    pub fn is_open(&self) -> (r: bool)
        ensures
            r == self@.opened(),
    {
        self.source.is_some()
    }

    /// Asks for the next entry of the lazy, finite, forward-only iteration
    /// over this session's entries. Each request consumes the header response
    /// at the session's read cursor: a fully successful parse yields the
    /// populated entry and advances the cursor; any other status — end of the
    /// archive as well as a genuine parse error — terminates the sequence,
    /// the state stays as it is, and every later request terminates the same
    /// way. (The minimal surface deliberately collapses a clean end and a
    /// mid-stream error into the same termination signal; the status is kept
    /// in the pending records for a hardened caller to inspect.)
    ///
    /// The cursor belongs to the session: requesting entries changes nothing
    /// else, and iteration resumed later continues where it stopped. Each
    /// request takes the session exclusively, and a caller that holds it
    /// exclusively for a whole iteration gets the single-active-cursor
    /// discipline; the unverified rim offers an iterator adapter that borrows
    /// the session for exactly that purpose.
    pub fn next_entry(&mut self) -> (r: Option<Entry>)
        ensures
            old(self)@.yields() ==> (r matches Some(e) && e@ == old(self)@.headers[old(
                self,
            )@.cursor].pathname && final(self)@ == (ReadArchiveView {
                cursor: old(self)@.cursor + 1,
                ..old(self)@
            })),
            !old(self)@.yields() ==> (r is None && final(self)@ == old(self)@),
            yielded_pathnames(old(self)@.headers, old(self)@.cursor) == (match r {
                Some(e) => seq![e@] + yielded_pathnames(final(self)@.headers, final(self)@.cursor),
                None => Seq::<Option<Seq<char>>>::empty(),
            }),
    {
        if self.cursor < self.headers.len() {
            let step = &self.headers[self.cursor];
            if step.status == ARCHIVE_OK {
                let name = match &step.pathname {
                    Some(s) => Some(s.clone()),
                    None => None,
                };
                let entry = Entry::from_header(name);
                self.cursor = self.cursor + 1;
                return Some(entry);
            }
        }
        None
    }
}

impl Archive for ReadArchive {
    open spec fn formats_view(&self) -> Seq<Format> {
        self@.formats
    }

    open spec fn filters_view(&self) -> Seq<Filter> {
        self@.filters
    }

    open spec fn same_session_state(&self, other: &Self) -> bool {
        self@ == (ReadArchiveView { formats: self@.formats, filters: self@.filters, ..other@ })
    }

    fn support_format(&mut self, format: Format, report: CallReport) -> (r: Result<(), Error>) {
        if matches!(format, Format::All) {
            self.register_format(format);
            return Ok(());
        }
        match Error::from_code(report.status, report.errno, report.message) {
            Ok(()) => {
                self.register_format(format);
                Ok(())
            },
            Err(e) => Err(e),
        }
    }

    fn support_filter(&mut self, filter: Filter, report: CallReport) -> (r: Result<(), Error>) {
        if matches!(filter, Filter::All) {
            self.register_filter(filter);
            return Ok(());
        }
        match Error::from_code(report.status, report.errno, report.message) {
            Ok(()) => {
                self.register_filter(filter);
                Ok(())
            },
            Err(e) => Err(e),
        }
    }
}

/// The pathnames that iteration yields from position `pos` on: one for each
/// fully successful header response before the first response that is not a
/// full success, in order.
pub open spec fn yielded_pathnames(steps: Seq<HeaderRecordView>, pos: int) -> Seq<
    Option<Seq<char>>,
>
    decreases steps.len() - pos,
{
    if pos < 0 || pos >= steps.len() {
        Seq::empty()
    } else if steps[pos].status == ARCHIVE_OK {
        seq![steps[pos].pathname] + yielded_pathnames(steps, pos + 1)
    } else {
        Seq::empty()
    }
}

/// Law: iterating a validly opened source whose header responses are `N`
/// fully successful parses yields exactly `N` entries, in archive order, each
/// carrying the pathname of its header.
pub proof fn lemma_iteration_yields_each_header(steps: Seq<HeaderRecordView>)
    requires
        forall|i: int| 0 <= i < steps.len() ==> (#[trigger] steps[i]).status == ARCHIVE_OK,
    ensures
        yielded_pathnames(steps, 0) == steps.map_values(|s: HeaderRecordView| s.pathname),
        yielded_pathnames(steps, 0).len() == steps.len(),
{
    lemma_yielded_pathnames_suffix(steps, 0);
    assert(steps.subrange(0, steps.len() as int) =~= steps);
}

/// Law: iterating a validly opened empty source — one whose parse produced no
/// header responses at all — yields nothing, without surfacing an error.
pub proof fn lemma_empty_source_yields_nothing(steps: Seq<HeaderRecordView>)
    requires
        steps.len() == 0,
    ensures
        yielded_pathnames(steps, 0) == Seq::<Option<Seq<char>>>::empty(),
{
}

proof fn lemma_yielded_pathnames_suffix(steps: Seq<HeaderRecordView>, pos: int)
    requires
        0 <= pos <= steps.len(),
        forall|i: int| 0 <= i < steps.len() ==> (#[trigger] steps[i]).status == ARCHIVE_OK,
    ensures
        yielded_pathnames(steps, pos) == steps.subrange(pos, steps.len() as int).map_values(
            |s: HeaderRecordView| s.pathname,
        ),
    decreases steps.len() - pos,
{
    let f = |s: HeaderRecordView| s.pathname;
    if pos == steps.len() {
        assert(yielded_pathnames(steps, pos) =~= steps.subrange(pos, steps.len() as int).map_values(
            f,
        ));
    } else {
        lemma_yielded_pathnames_suffix(steps, pos + 1);
        assert(yielded_pathnames(steps, pos) =~= steps.subrange(pos, steps.len() as int).map_values(
            f,
        ));
    }
}

} // verus!
