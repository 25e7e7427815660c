//! A verified model of a safe binding layer around a native archive-handling
//! engine: read-mode sessions over compressed container formats, capability
//! negotiation, option configuration, and a lazy entry-iteration protocol.
//!
//! The engine that decodes formats and filters is a black box: given a byte
//! source and a set of enabled decoders, it either rejects the source or
//! parses it into a sequence of entry headers. Everything the engine answers
//! enters this crate as plain data (a [`read::SourceReport`] or an
//! [`error::CallReport`]), and everything the crate itself decides — the
//! session's lifecycle, when an operation is answered with a typed error, how
//! statuses translate into errors, and what each iteration step yields — is
//! verified.

use vstd::prelude::*;

pub mod archive_write;
pub mod entry;
pub mod error;
pub mod read;

pub use error::{Error, ErrorOrIo, IoError};

verus! {

/// Every decompression filter a session can be asked to recognize, or `All`
/// as a meta-selector that enables each of them in one call.
#[derive(Clone, Copy, Debug, PartialEq, Eq, Structural)]
pub enum Filter {
    /// Enables all available filters.
    All,
    /// Enables the `none` filter only: the source is handed to the format
    /// layer without any decompression transform.
    NoFilter,
    Bzip2,
    Compress,
    Grzip,
    Gzip,
    Lrzip,
    Lz4,
    Lzma,
    Lzop,
    Rpm,
    Uu,
    Xz,
    Zstd,
}

/// Every container format a session can be asked to recognize, or `All` as a
/// meta-selector that enables each of them in one call.
#[derive(Clone, Copy, Debug, PartialEq, Eq, Structural)]
pub enum Format {
    /// Enables all available formats.
    All,
    /// The format that recognizes empty input. This is not the same as
    /// [`Filter::NoFilter`].
    Empty,
    SevenZip,
    Ar,
    Cab,
    Cpio,
    Iso9660,
    Lha,
    Mtree,
    Rar,
    Raw,
    Tar,
    Xar,
    Zip,
}

/// The shared contract of read-mode and write-mode archives: each owns a
/// session that records which formats and filters the engine was asked to
/// recognize on its behalf.
///
/// The caller makes the engine's enable call and hands its answer over as a
/// [`error::CallReport`]; any status other than success or warning becomes a
/// structured error built from the reported error number and message, and the
/// session keeps its prior state. The `All` meta-selectors are the one
/// exception: they are documented never to fail, so for them the session
/// records the registration without consulting the report.
pub trait Archive: Sized {
    /// The formats this session was asked to recognize, in order of
    /// registration.
    spec fn formats_view(&self) -> Seq<Format>;

    /// The filters this session was asked to recognize, in order of
    /// registration.
    spec fn filters_view(&self) -> Seq<Filter>;

    /// Holds when the session state other than the two registration logs is
    /// the same in `self` and `other`.
    spec fn same_session_state(&self, other: &Self) -> bool;

    /// Enables one format family, or all of them through [`Format::All`],
    /// given the engine's answer to the enable call.
    fn support_format(&mut self, format: Format, report: error::CallReport) -> (r: Result<
        (),
        error::Error,
    >)
        ensures
            r is Ok <==> (format is All || error::is_success(report.status)),
            r is Ok ==> (final(self).formats_view() == old(self).formats_view().push(format)
                && final(self).filters_view() == old(self).filters_view()
                && final(self).same_session_state(old(self))),
            !(format is All) && !error::is_success(report.status) ==> (r matches Err(e)
                && e.code_spec() == report.errno
                && e.message_spec() == report.message.deep_view()
                && final(self).formats_view() == old(self).formats_view()
                && final(self).filters_view() == old(self).filters_view()
                && final(self).same_session_state(old(self))),
    ;

    /// Enables one filter family, or all of them through [`Filter::All`],
    /// given the engine's answer to the enable call.
    fn support_filter(&mut self, filter: Filter, report: error::CallReport) -> (r: Result<
        (),
        error::Error,
    >)
        ensures
            r is Ok <==> (filter is All || error::is_success(report.status)),
            r is Ok ==> (final(self).filters_view() == old(self).filters_view().push(filter)
                && final(self).formats_view() == old(self).formats_view()
                && final(self).same_session_state(old(self))),
            !(filter is All) && !error::is_success(report.status) ==> (r matches Err(e)
                && e.code_spec() == report.errno
                && e.message_spec() == report.message.deep_view()
                && final(self).filters_view() == old(self).filters_view()
                && final(self).formats_view() == old(self).formats_view()
                && final(self).same_session_state(old(self))),
    ;
}

} // verus!
