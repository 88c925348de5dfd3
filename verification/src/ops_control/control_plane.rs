//! Transport-independent request handling: the strict version check before
//! any handler runs, and the dispatch table from operations to handlers.

use vstd::prelude::*;

use crate::foundation::core_types::sink::UploadHistoryRecord;
use crate::foundation::core_types::status::{Health, StatusSnapshot};

use super::ipc::IpcError;
use super::protocol::{
    ConsentOp, ConsentView, ControlError, ControlOp, ControlRequest, ControlResponse, ControlResult,
    HistoryFilter, PROTO_VERSION, StopMode,
};

verus! {

/// The handlers the dispatch delegates to, one per operation. Methods with
/// side effects run only after the version check passed.
///
/// Each method is tied to a timeless relation of the implementation
/// (`reports_status`, `pauses`, ...): the results that method can give. The
/// signals `sync_now` and `stop(mode)` return nothing; their relations
/// `syncs_now` and `stops(mode)` are facts that a returning call ensures, so
/// a caller can only establish them by making that call (they do not record
/// when or how often it was made). The default relation admits every result;
/// an implementation may narrow it.
pub trait ControlHandlers: Send + Sync {
    /// `s` is a snapshot that `status` can give.
    open spec fn reports_status(&self, s: StatusSnapshot) -> bool {
        true
    }

    /// `h` is a verdict that `health` can give.
    open spec fn reports_health(&self, h: Health) -> bool {
        true
    }

    /// `r` is a result that `history(filter)` can give.
    open spec fn answers_history(
        &self,
        filter: HistoryFilter,
        r: Result<Vec<UploadHistoryRecord>, ControlError>,
    ) -> bool {
        true
    }

    /// `r` is a result that `pause` can give.
    open spec fn pauses(&self, r: Result<(), ControlError>) -> bool {
        true
    }

    /// `r` is a result that `resume` can give.
    open spec fn resumes(&self, r: Result<(), ControlError>) -> bool {
        true
    }

    /// A fact that a returning `sync_now` call ensures.
    open spec fn syncs_now(&self) -> bool {
        true
    }

    /// A fact that a returning `stop(mode)` call ensures for that mode.
    open spec fn stops(&self, mode: StopMode) -> bool {
        true
    }

    /// `v` is a view that `consent_view` can give.
    open spec fn views_consent(&self, v: ConsentView) -> bool {
        true
    }

    /// `r` is a result that `consent_grant` can give.
    open spec fn grants_consent(&self, r: Result<(), ControlError>) -> bool {
        true
    }

    /// `r` is a result that `consent_withdraw` can give.
    open spec fn withdraws_consent(&self, r: Result<(), ControlError>) -> bool {
        true
    }

    /// `r` is a result that `consent_acknowledge` can give.
    open spec fn acknowledges_consent(&self, r: Result<(), ControlError>) -> bool {
        true
    }

    /// `r` is a result that `reload` can give.
    open spec fn reloads(&self, r: Result<(), ControlError>) -> bool {
        true
    }

    /// Status snapshot.
    fn status(&self) -> (s: StatusSnapshot)
        ensures
            self.reports_status(s),
    ;

    /// Health verdict.
    fn health(&self) -> (h: Health)
        ensures
            self.reports_health(h),
    ;

    /// History query.
    fn history(&self, filter: HistoryFilter) -> (r: Result<Vec<UploadHistoryRecord>, ControlError>)
        ensures
            self.answers_history(filter, r),
    ;

    /// Pause watching.
    fn pause(&self) -> (r: Result<(), ControlError>)
        ensures
            self.pauses(r),
    ;

    /// Resume watching.
    fn resume(&self) -> (r: Result<(), ControlError>)
        ensures
            self.resumes(r),
    ;

    /// Request an immediate sync.
    fn sync_now(&self)
        ensures
            self.syncs_now(),
    ;

    /// Request a stop.
    fn stop(&self, mode: StopMode)
        ensures
            self.stops(mode),
    ;

    /// Consent view.
    fn consent_view(&self) -> (v: ConsentView)
        ensures
            self.views_consent(v),
    ;

    /// Grant consent.
    fn consent_grant(&self) -> (r: Result<(), ControlError>)
        ensures
            self.grants_consent(r),
    ;

    /// Withdraw consent.
    fn consent_withdraw(&self) -> (r: Result<(), ControlError>)
        ensures
            self.withdraws_consent(r),
    ;

    /// Acknowledge the notice.
    fn consent_acknowledge(&self) -> (r: Result<(), ControlError>)
        ensures
            self.acknowledges_consent(r),
    ;

    /// Reload the configuration.
    fn reload(&self) -> (r: Result<(), ControlError>)
        ensures
            self.reloads(r),
    ;
}

/// `Ack` for success, the error otherwise.
pub open spec fn spec_ack_or_err(r: Result<(), ControlError>) -> ControlResult {
    match r {
        Ok(()) => ControlResult::Ack,
        Err(e) => ControlResult::Error(e),
    }
}

/// Maps a side effect's outcome to `Ack` or `Error`.
pub fn ack_or_err(result: Result<(), ControlError>) -> (r: ControlResult)
    ensures
        r == spec_ack_or_err(result),
{
    match result {
        Ok(()) => ControlResult::Ack,
        Err(err) => ControlResult::Error(err),
    }
}

/// The result shape each operation produces: queries give their payload,
/// side effects give `Ack` or the handler's error, signals always `Ack`.
pub open spec fn result_fits_op(op: ControlOp, r: ControlResult) -> bool {
    match op {
        ControlOp::Status => r is Status,
        ControlOp::Health => r is Health,
        ControlOp::History(_) => r is History || r is Error,
        ControlOp::SyncNow | ControlOp::Stop(_) => r is Ack,
        ControlOp::Consent(ConsentOp::View) => r is Consent,
        _ => r is Ack || r is Error,
    }
}

/// The side-effect outcome a result carries: `Ack` is success, `Error(e)`
/// the error; any other result carries none.
pub open spec fn carried_outcome(r: ControlResult) -> Option<Result<(), ControlError>> {
    match r {
        ControlResult::Ack => Some(Ok(())),
        ControlResult::Error(e) => Some(Err(e)),
        _ => None,
    }
}

/// An acknowledged outcome carries that outcome.
proof fn lemma_carried_outcome(res: Result<(), ControlError>)
    ensures
        carried_outcome(spec_ack_or_err(res)) == Some(res),
{
    match res {
        Ok(u) => {
            assert(u == ());
        },
        Err(e) => {},
    }
}

/// What `dispatch` returns for `op`: the result of the operation's own
/// handler, wrapped (queries give their payload, side effects `Ack` or the
/// handler's error, signals `Ack`). The history filter is handed on.
pub open spec fn dispatch_result<H: ControlHandlers + ?Sized>(
    h: &H,
    op: ControlOp,
    r: ControlResult,
) -> bool {
    match op {
        ControlOp::Status => r matches ControlResult::Status(s) && h.reports_status(s),
        ControlOp::Health => r matches ControlResult::Health(x) && h.reports_health(x),
        ControlOp::History(f) => match r {
            ControlResult::History(v) => h.answers_history(f, Ok(v)),
            ControlResult::Error(e) => h.answers_history(f, Err(e)),
            _ => false,
        },
        ControlOp::Pause => carried_outcome(r) matches Some(x) && h.pauses(x),
        ControlOp::Resume => carried_outcome(r) matches Some(x) && h.resumes(x),
        ControlOp::SyncNow => r is Ack && h.syncs_now(),
        ControlOp::Stop(m) => r is Ack && h.stops(m),
        ControlOp::Consent(ConsentOp::View) => r matches ControlResult::Consent(v)
            && h.views_consent(v),
        ControlOp::Consent(ConsentOp::Grant) => carried_outcome(r) matches Some(x) && h.grants_consent(x),
        ControlOp::Consent(ConsentOp::Withdraw) => carried_outcome(r) matches Some(x) && h.withdraws_consent(x),
        ControlOp::Consent(ConsentOp::Acknowledge) => carried_outcome(r) matches Some(x) && h.acknowledges_consent(x),
        ControlOp::Reload => carried_outcome(r) matches Some(x) && h.reloads(x),
    }
}

/// Delegates the operation to its own handler and builds the result.
pub fn dispatch<H: ControlHandlers + ?Sized>(handlers: &H, op: ControlOp) -> (r: ControlResult)
    ensures
        result_fits_op(op, r),
        dispatch_result(handlers, op, r),
{
    match op {
        ControlOp::Status => {
            let s = handlers.status();
            ControlResult::Status(s)
        },
        ControlOp::Health => {
            let h = handlers.health();
            assert(handlers.reports_health(h));
            ControlResult::Health(h)
        },
        ControlOp::History(filter) => {
            let res = handlers.history(filter);
            assert(handlers.answers_history(filter, res));
            match res {
                Ok(records) => ControlResult::History(records),
                Err(err) => ControlResult::Error(err),
            }
        },
        ControlOp::Pause => {
            let res = handlers.pause();
            assert(handlers.pauses(res));
            let r = ack_or_err(res);
            proof {
                lemma_carried_outcome(res);
            }
            r
        },
        ControlOp::Resume => {
            let res = handlers.resume();
            assert(handlers.resumes(res));
            let r = ack_or_err(res);
            proof {
                lemma_carried_outcome(res);
            }
            r
        },
        ControlOp::SyncNow => {
            handlers.sync_now();
            ControlResult::Ack
        },
        ControlOp::Stop(mode) => {
            handlers.stop(mode);
            ControlResult::Ack
        },
        ControlOp::Consent(ConsentOp::View) => {
            let v = handlers.consent_view();
            assert(handlers.views_consent(v));
            ControlResult::Consent(v)
        },
        ControlOp::Consent(ConsentOp::Grant) => {
            let res = handlers.consent_grant();
            assert(handlers.grants_consent(res));
            let r = ack_or_err(res);
            proof {
                lemma_carried_outcome(res);
            }
            r
        },
        ControlOp::Consent(ConsentOp::Withdraw) => {
            let res = handlers.consent_withdraw();
            assert(handlers.withdraws_consent(res));
            let r = ack_or_err(res);
            proof {
                lemma_carried_outcome(res);
            }
            r
        },
        ControlOp::Consent(ConsentOp::Acknowledge) => {
            let res = handlers.consent_acknowledge();
            assert(handlers.acknowledges_consent(res));
            let r = ack_or_err(res);
            proof {
                lemma_carried_outcome(res);
            }
            r
        },
        ControlOp::Reload => {
            let res = handlers.reload();
            assert(handlers.reloads(res));
            let r = ack_or_err(res);
            proof {
                lemma_carried_outcome(res);
            }
            r
        },
    }
}

/// Handles one request: a version other than `PROTO_VERSION` is answered
/// with `VersionMismatch` and no handler runs; otherwise the operation is
/// dispatched. The response always carries the server's version.
pub fn handle_request<H: ControlHandlers + ?Sized>(handlers: &H, request: ControlRequest) -> (resp:
    ControlResponse)
    ensures
        resp.proto_version == PROTO_VERSION,
        request.proto_version != PROTO_VERSION ==> resp.result == ControlResult::Error(
            ControlError::VersionMismatch { server: PROTO_VERSION, client: request.proto_version },
        ),
        request.proto_version == PROTO_VERSION ==> result_fits_op(request.op, resp.result)
            && dispatch_result(handlers, request.op, resp.result),
{
    let result = if request.proto_version != PROTO_VERSION {
        ControlResult::Error(
            ControlError::VersionMismatch { server: PROTO_VERSION, client: request.proto_version },
        )
    } else {
        dispatch(handlers, request.op)
    };
    ControlResponse { proto_version: PROTO_VERSION, result }
}

/// The client seam the command line sends daemon requests through.
pub trait ControlClient {
    /// Sends a request and receives the response (transport failures are `IpcError`).
    fn request(&self, request: ControlRequest) -> Result<ControlResponse, IpcError>;
}

} // verus!
