//! The status/log retrieval protocol.
//!
//! The graphics API reports the outcome of an asynchronous compile or link
//! through a two-call protocol: one call queries an integer parameter (the
//! boolean status, or the length of the diagnostic log counting a trailing
//! terminator byte), a second call copies the log text into a caller-supplied
//! buffer.  [`get_info_log`] runs that protocol once against any source of
//! such queries and returns `None` on success or the complete diagnostic
//! bytes on failure.

use crate::glenum::INFO_LOG_LENGTH;
use crate::glenum::STATUS_TRUE;
use vstd::prelude::*;

verus! {

/// How the underlying API reports the log length for a log of content `log`:
/// a log with text is reported as its length plus one for the trailing
/// terminator; an empty log is reported either as 0 (no log at all) or as 1
/// (a terminator-only log), depending on the driver.
pub open spec fn log_length_report(log: Seq<u8>, reported: int) -> bool {
    if log.len() == 0 {
        reported == 0 || reported == 1
    } else {
        reported == log.len() + 1
    }
}

/// The bytes a log query with buffer size `bufsize` hands back: the log
/// truncated to `bufsize - 1` content bytes (one byte of the buffer is
/// reserved for the terminator).
pub open spec fn log_prefix(log: Seq<u8>, bufsize: int) -> Seq<u8> {
    log.take(vstd::math::min(bufsize - 1, log.len() as int))
}

/// One queryable entity of the graphics API (a shader object or a program
/// object): the pair of accessor operations the status/log protocol needs,
/// together with the status selector that applies to this kind of entity.
pub trait StatusLogSource {
    /// The queries below answer meaningfully only for a well-formed source.
    spec fn inv(&self) -> bool;

    /// Whether the last compile or link of this entity succeeded.
    spec fn status_ok(&self) -> bool;

    /// The content bytes of this entity's information log (terminator
    /// excluded).
    spec fn log(&self) -> Seq<u8>;

    /// The integer parameter selector that carries this entity's status.
    spec fn status_param(&self) -> u32;

    /// Query an integer parameter: the status, or the reported log length.
    fn get_param(&self, pname: u32) -> (r: i32)
        requires
            self.inv(),
            pname == self.status_param() || pname == INFO_LOG_LENGTH,
        ensures
            pname == self.status_param() && pname != INFO_LOG_LENGTH ==> ((r == STATUS_TRUE)
                <==> self.status_ok()),
            pname == INFO_LOG_LENGTH ==> 0 <= r && log_length_report(self.log(), r as int),
    ;

    /// Copy the log into a fresh buffer of `bufsize` bytes; the terminator is
    /// not part of the result.  A buffer must have room for the terminator,
    /// so a retrieval call with `bufsize < 1` never occurs.
    fn get_log(&self, bufsize: i32) -> (r: Vec<u8>)
        requires
            self.inv(),
            1 <= bufsize,
        ensures
            r@ == log_prefix(self.log(), bufsize as int),
    ;
}

/// Law: the reported log length pins the log length down.  A report of 0 or 1
/// occurs exactly for an empty log (0 means no log, 1 means a terminator-only
/// log), and a report of `n > 1` means the log carries exactly `n - 1` bytes
/// of text.
pub proof fn lemma_log_length_report_exact(log: Seq<u8>, reported: int)
    requires
        log_length_report(log, reported),
    ensures
        (reported <= 1) <==> (log.len() == 0),
        reported > 1 ==> log.len() == reported - 1,
{
}

/// Run the status/log protocol once against `source`.
///
/// Returns `None` when the status query reports success, and `Some` of the
/// complete diagnostic bytes when it reports failure.  A failure with a
/// reported log length of 0 or 1 yields an empty (but present) diagnostic;
/// no buffer retrieval call is made when the reported length is 0.
pub fn get_info_log<S: StatusLogSource>(source: &S, status: u32) -> (r: Option<Vec<u8>>)
    requires
        source.inv(),
        status == source.status_param(),
        status != INFO_LOG_LENGTH,
    ensures
        (r is None) <==> source.status_ok(),
        r matches Some(log) ==> log@ == source.log(),
{
    let ret = source.get_param(status);

    if ret == STATUS_TRUE {
        return None;
    }

    let len = source.get_param(INFO_LOG_LENGTH);
    if len == 0 {
        // Retrieving a log of reported length 0 is left undefined by some
        // drivers; the empty diagnostic is returned without a second call.
        return Some(Vec::new());
    }

    // `len` counts the trailing terminator, so the text itself has `len - 1`
    // bytes; a report of 1 yields the empty diagnostic.
    let text = source.get_log(len);
    proof {
        assert(log_prefix(source.log(), len as int) =~= source.log());
    }
    Some(text)
}

} // verus!
