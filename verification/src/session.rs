//! The session that drives ingestion: at most one current table (or
//! none), the last attempted source path, and at most one pending
//! error — never a table and an error at once. Submitting a path
//! resets the session and either resolves at once (empty path, or an
//! unsupported extension) or hands back a decode request for the
//! chosen format; the unverified shell runs that decoder and reports
//! its outcome, which fully replaces either the table or the error.
//! A request is issued afresh on every submission — nothing is cached
//! — so resubmitting the same path re-reads and re-decodes the file.

use vstd::prelude::*;
use crate::reader::{spec_dispatch, spec_rejected_extension, dispatch, Format, IngestError};
use crate::table::Table;

verus! {

/// An order to run one decoder on one path, exactly once.
pub struct DecodeRequest {
    pub format: Format,
    pub path: String,
}

/// Session state. All fields are reached through the spec projections
/// below; the methods keep `wf` at every step.
pub struct Session {
    data: Option<Table>,
    source: Option<String>,
    error: Option<IngestError>,
    pending: bool,
}

impl Session {
    /// The currently loaded table, if any.
    pub closed spec fn spec_table(&self) -> Option<Table> {
        self.data
    }

    /// The last attempted source path, if any.
    pub closed spec fn spec_source(&self) -> Option<String> {
        self.source
    }

    /// The pending error, if any.
    pub closed spec fn spec_error(&self) -> Option<IngestError> {
        self.error
    }

    /// Whether a decode request has been issued and not yet resolved.
    pub closed spec fn spec_pending(&self) -> bool {
        self.pending
    }

    /// Loaded state and error state are mutually exclusive; while a
    /// decode is outstanding neither is set; a loaded table is
    /// well-formed.
    pub open spec fn wf(&self) -> bool {
        &&& !(self.spec_table() is Some && self.spec_error() is Some)
        &&& (self.spec_pending() ==> self.spec_table() is None && self.spec_error() is None)
        &&& (self.spec_table() matches Some(t) ==> t.wf())
    }

    /// A fresh session: no table, no error, no path.
    pub fn new() -> (s: Session)
        ensures
            s.wf(),
            s.spec_table() is None,
            s.spec_error() is None,
            s.spec_source() is None,
            !s.spec_pending(),
    {
        Session { data: None, source: None, error: None, pending: false }
    }

    /// The current table.
    pub fn table_ref(&self) -> (r: &Option<Table>)
        ensures
            *r == self.spec_table(),
    {
        &self.data
    }

    /// The pending error.
    pub fn error_ref(&self) -> (r: &Option<IngestError>)
        ensures
            *r == self.spec_error(),
    {
        &self.error
    }

    /// The last attempted source path.
    pub fn source_ref(&self) -> (r: &Option<String>)
        ensures
            *r == self.spec_source(),
    {
        &self.source
    }

    /// Whether a decode request is outstanding.
    pub fn is_pending(&self) -> (r: bool)
        ensures
            r == self.spec_pending(),
    {
        self.pending
    }

    /// Submits a path: clears the table and the error, records the
    /// path, and either resolves at once or issues a decode request.
    /// The request — whether one is issued, and for which format —
    /// depends on the submitted path alone, never on the prior state.
    pub fn submit(&mut self, path: String) -> (r: Option<DecodeRequest>)
        requires
            old(self).wf(),
        ensures
            final(self).wf(),
            submit_transition(*final(self), path, r),
    {
        self.data = None;
        self.error = None;
        self.pending = false;
        if path.as_str().unicode_len() == 0 {
            self.source = None;
            return None;
        }
        let verdict = dispatch(path.as_str());
        match verdict {
            Ok(format) => {
                let request = DecodeRequest { format, path: path.clone() };
                self.source = Some(path);
                self.pending = true;
                Some(request)
            },
            Err(err) => {
                self.source = Some(path);
                self.error = Some(err);
                None
            },
        }
    }

    /// Resolves an outstanding decode request with the decoder's
    /// outcome: a table fully replaces the (absent) table slot, a
    /// failure message fully replaces the error slot, verbatim.
    pub fn resolve(&mut self, outcome: Result<Table, String>)
        requires
            old(self).wf(),
            old(self).spec_pending(),
            outcome matches Ok(t) ==> t.wf(),
        ensures
            final(self).wf(),
            !final(self).spec_pending(),
            final(self).spec_source() == old(self).spec_source(),
            outcome matches Ok(t) ==> final(self).spec_table() == Some(t)
                && final(self).spec_error() is None,
            outcome matches Err(m) ==> final(self).spec_table() is None
                && (final(self).spec_error() matches Some(e)
                && e matches IngestError::DecodeError(msg) && msg@ == m@),
    {
        self.pending = false;
        match outcome {
            Ok(t) => {
                self.data = Some(t);
                self.error = None;
            },
            Err(m) => {
                self.data = None;
                self.error = Some(IngestError::DecodeError(m));
            },
        }
    }
}

/// What one submission does, as a relation on the post-state and the
/// returned request. The request side is a function of the path
/// alone.
pub open spec fn submit_transition(post: Session, path: String, r: Option<DecodeRequest>) -> bool {
    &&& post.spec_table() is None
    &&& (path@.len() == 0 ==> {
        &&& post.spec_source() is None
        &&& post.spec_error() is None
        &&& !post.spec_pending()
        &&& r is None
    })
    &&& (path@.len() > 0 ==> {
        &&& (post.spec_source() matches Some(s) && s@ == path@)
        &&& match spec_dispatch(path@) {
            Some(f) => {
                &&& post.spec_error() is None
                &&& post.spec_pending()
                &&& (r matches Some(q) && q.format == f && q.path@ == path@)
            },
            None => {
                &&& (post.spec_error() matches Some(e) && e matches IngestError::UnsupportedFormat(
                    x,
                ) && x@ == spec_rejected_extension(path@))
                &&& !post.spec_pending()
                &&& r is None
            },
        }
    })
}

/// Submissions are independent: two submissions of the same path,
/// from whatever prior states — in particular with the first one's
/// table already loaded — issue the same decode request, or none;
/// a loaded table never short-circuits a fresh decode.
pub proof fn lemma_resubmit_decodes_again(
    post1: Session,
    r1: Option<DecodeRequest>,
    post2: Session,
    r2: Option<DecodeRequest>,
    path1: String,
    path2: String,
)
    requires
        path1@ == path2@,
        submit_transition(post1, path1, r1),
        submit_transition(post2, path2, r2),
    ensures
        r1 is Some <==> r2 is Some,
        r1 matches Some(q1) ==> (r2 matches Some(q2) && q1.format == q2.format && q1.path@
            == q2.path@),
{
}

/// Loaded state and error state are mutually exclusive in every
/// well-formed session.
pub proof fn lemma_loaded_and_failed_exclusive(s: Session)
    requires
        s.wf(),
    ensures
        !(s.spec_table() is Some && s.spec_error() is Some),
{
}

} // verus!
