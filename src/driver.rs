//! The host's decisions around one call of a guest export: the channel is
//! emptied before the call, and after a failed call whatever the guest left
//! in it is the diagnostic.
use vstd::prelude::*;
use crate::channel::{slot_after_set, slot_after_take, PanicChannel};
use crate::panic_info::PanicInfo;

verus! {

/// What became of one call of a guest export.
#[derive(Clone, Debug, PartialEq, Eq)]
pub enum CallReport {
    /// The call returned normally.
    Succeeded,
    /// The call failed and the guest left this diagnostic.
    Captured(PanicInfo),
    /// The call failed and no diagnostic was left.
    NoDiagnostic,
}

/// The report for a call that failed or not, with `slot` pending afterwards.
pub open spec fn report_spec(failed: bool, slot: Option<PanicInfo>) -> CallReport {
    if !failed {
        CallReport::Succeeded
    } else {
        match slot {
            Some(info) => CallReport::Captured(info),
            None => CallReport::NoDiagnostic,
        }
    }
}

/// Prepares the channel for a call: a record left by an earlier call can
/// then not be taken for this one's.
pub fn begin_call(channel: &mut PanicChannel)
    ensures
        final(channel)@ is None,
{
    channel.clear();
}

/// Reports a finished call. After a failure the pending record is taken,
/// and the channel is left empty; after a success it is not touched.
pub fn conclude_call(channel: &mut PanicChannel, failed: bool) -> (r: CallReport)
    ensures
        r == report_spec(failed, old(channel)@),
        failed ==> final(channel)@ is None,
        !failed ==> final(channel)@ == old(channel)@,
{
    if !failed {
        return CallReport::Succeeded;
    }
    match channel.take() {
        Some(info) => CallReport::Captured(info),
        None => CallReport::NoDiagnostic,
    }
}

/// A call begun on a cleared channel, during which the guest registered
/// nothing, reports no diagnostic when it fails and leaves nothing pending
/// when it succeeds: a stale record is never attributed to it.
pub proof fn lemma_no_stale_diagnostic(failed: bool)
    ensures
        failed ==> report_spec(failed, None) == CallReport::NoDiagnostic,
        !failed ==> report_spec(failed, None) == CallReport::Succeeded,
{
}

/// A failed call, begun on a channel that held `stale`, during which the
/// guest registered `info`, reports `info` and nothing else: a record never
/// leaks from one call into the next.
pub proof fn lemma_failed_call_reports_own_record(stale: Option<PanicInfo>, info: PanicInfo)
    ensures
        report_spec(true, slot_after_set(slot_after_take(stale), info)) == CallReport::Captured(
            info,
        ),
{
}

/// Installs the guest's failure hook at most once, however many times
/// installation is asked for.
#[derive(Debug)]
pub struct HookGuard {
    installed: bool,
}

impl View for HookGuard {
    type V = bool;

    closed spec fn view(&self) -> bool {
        self.installed
    }
}

impl HookGuard {
    /// A guard with nothing installed yet.
    pub fn new() -> (r: Self)
        ensures
            !r@,
    {
        HookGuard { installed: false }
    }

    /// Whether the caller is to install the hook now: true on the first
    /// call only.
    pub fn claim_install(&mut self) -> (r: bool)
        ensures
            r == !old(self)@,
            final(self)@,
    {
        let first = !self.installed;
        self.installed = true;
        first
    }

    /// Whether the hook has been installed.
    pub fn is_installed(&self) -> (r: bool)
        ensures
            r == self@,
    {
        self.installed
    }
}

} // verus!
