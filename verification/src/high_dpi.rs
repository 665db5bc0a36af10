use vstd::prelude::*;

verus! {

/// The calls by which a Windows process can declare itself high-DPI aware, newest first.
#[derive(PartialEq, Eq, Structural, Clone, Copy, Debug)]
pub enum DpiAwarenessCall {
    /// `SetProcessDpiAwarenessContext` with the per-monitor context V2 (Windows 10 Creators
    /// Update).
    PerMonitorContextV2,
    /// `SetProcessDpiAwarenessContext` with the per-monitor context (Windows 10).
    PerMonitorContextV1,
    /// `SetProcessDpiAwareness` with per-monitor awareness (Windows 8.1).
    ProcessPerMonitor,
    /// `SetProcessDPIAware` (Windows Vista).
    SystemAware,
}

/// What a call gave: its function could not be loaded, or it returned a code.
#[derive(PartialEq, Eq, Structural, Clone, Copy, Debug)]
pub enum DpiCallOutcome {
    Unavailable,
    Returned(u32),
}

/// The position of a call in the order they are tried.
pub open spec fn dpi_call_rank(c: DpiAwarenessCall) -> int {
    match c {
        DpiAwarenessCall::PerMonitorContextV2 => 0,
        DpiAwarenessCall::PerMonitorContextV1 => 1,
        DpiAwarenessCall::ProcessPerMonitor => 2,
        DpiAwarenessCall::SystemAware => 3,
    }
}

/// Whether a call succeeded: `SetProcessDpiAwareness` returns zero on success, the two others
/// return zero on failure.
pub open spec fn dpi_call_succeeded_spec(c: DpiAwarenessCall, o: DpiCallOutcome) -> bool {
    match o {
        DpiCallOutcome::Unavailable => false,
        DpiCallOutcome::Returned(code) => if c == DpiAwarenessCall::ProcessPerMonitor {
            code == 0
        } else {
            code != 0
        },
    }
}

/// The call to try after one that gave `o`, if any: none after a success; after the V2 context
/// was refused the V1 context (through the same function); when the context function is
/// missing or both contexts were refused, the Windows 8 call; then the Vista call; then none.
pub open spec fn next_dpi_call_spec(c: DpiAwarenessCall, o: DpiCallOutcome) -> Option<
    DpiAwarenessCall,
> {
    if dpi_call_succeeded_spec(c, o) {
        None
    } else {
        match c {
            DpiAwarenessCall::PerMonitorContextV2 => if o == DpiCallOutcome::Unavailable {
                Some(DpiAwarenessCall::ProcessPerMonitor)
            } else {
                Some(DpiAwarenessCall::PerMonitorContextV1)
            },
            DpiAwarenessCall::PerMonitorContextV1 => Some(DpiAwarenessCall::ProcessPerMonitor),
            DpiAwarenessCall::ProcessPerMonitor => Some(DpiAwarenessCall::SystemAware),
            DpiAwarenessCall::SystemAware => None,
        }
    }
}

/// The first call to try.
pub fn first_dpi_call() -> (c: DpiAwarenessCall)
    ensures
        c == DpiAwarenessCall::PerMonitorContextV2,
{
    DpiAwarenessCall::PerMonitorContextV2
}

/// Whether a call succeeded.
pub fn dpi_call_succeeded(c: DpiAwarenessCall, o: DpiCallOutcome) -> (b: bool)
    ensures
        b == dpi_call_succeeded_spec(c, o),
{
    match o {
        DpiCallOutcome::Unavailable => false,
        DpiCallOutcome::Returned(code) => match c {
            DpiAwarenessCall::ProcessPerMonitor => code == 0,
            _ => code != 0,
        },
    }
}

/// The call to try after one that gave `o`, if any.
pub fn next_dpi_call(c: DpiAwarenessCall, o: DpiCallOutcome) -> (n: Option<DpiAwarenessCall>)
    ensures
        n == next_dpi_call_spec(c, o),
{
    if dpi_call_succeeded(c, o) {
        return None;
    }
    match c {
        DpiAwarenessCall::PerMonitorContextV2 => match o {
            DpiCallOutcome::Unavailable => Some(DpiAwarenessCall::ProcessPerMonitor),
            DpiCallOutcome::Returned(_) => Some(DpiAwarenessCall::PerMonitorContextV1),
        },
        DpiAwarenessCall::PerMonitorContextV1 => Some(DpiAwarenessCall::ProcessPerMonitor),
        DpiAwarenessCall::ProcessPerMonitor => Some(DpiAwarenessCall::SystemAware),
        DpiAwarenessCall::SystemAware => None,
    }
}

/// The library and the function that a call loads.
pub fn dpi_call_function(c: DpiAwarenessCall) -> (r: (&'static str, &'static str))
    ensures
        c == DpiAwarenessCall::ProcessPerMonitor ==> r.0@ == "Shcore.dll"@ && r.1@
            == "SetProcessDpiAwareness"@,
        c == DpiAwarenessCall::SystemAware ==> r.0@ == "User32.dll"@ && r.1@
            == "SetProcessDPIAware"@,
        (c == DpiAwarenessCall::PerMonitorContextV2 || c == DpiAwarenessCall::PerMonitorContextV1)
            ==> r.0@ == "User32.dll"@ && r.1@ == "SetProcessDpiAwarenessContext"@,
{
    match c {
        DpiAwarenessCall::PerMonitorContextV2 => ("User32.dll", "SetProcessDpiAwarenessContext"),
        DpiAwarenessCall::PerMonitorContextV1 => ("User32.dll", "SetProcessDpiAwarenessContext"),
        DpiAwarenessCall::ProcessPerMonitor => ("Shcore.dll", "SetProcessDpiAwareness"),
        DpiAwarenessCall::SystemAware => ("User32.dll", "SetProcessDPIAware"),
    }
}

/// The argument a call passes: the awareness context handles -4 (per-monitor V2) and -3
/// (per-monitor), the awareness level 2 (per-monitor), and none for the Vista call.
pub fn dpi_call_argument(c: DpiAwarenessCall) -> (a: Option<isize>)
    ensures
        a == (match c {
            DpiAwarenessCall::PerMonitorContextV2 => Some(-4isize),
            DpiAwarenessCall::PerMonitorContextV1 => Some(-3isize),
            DpiAwarenessCall::ProcessPerMonitor => Some(2isize),
            DpiAwarenessCall::SystemAware => None,
        }),
{
    match c {
        DpiAwarenessCall::PerMonitorContextV2 => Some(-4),
        DpiAwarenessCall::PerMonitorContextV1 => Some(-3),
        DpiAwarenessCall::ProcessPerMonitor => Some(2),
        DpiAwarenessCall::SystemAware => None,
    }
}

/// Makes the process high-DPI aware. Only Windows has anything to do here (the calls above);
/// elsewhere this does nothing.
pub fn set_process_high_dpi_aware() {
}

/// Each call tried comes later in the order than the one before, so at most four calls are
/// made, and a success ends the tries.
pub proof fn lemma_dpi_calls_advance(c: DpiAwarenessCall, o: DpiCallOutcome)
    ensures
        next_dpi_call_spec(c, o) matches Some(n) ==> dpi_call_rank(n) > dpi_call_rank(c),
        dpi_call_succeeded_spec(c, o) ==> next_dpi_call_spec(c, o).is_none(),
        0 <= dpi_call_rank(c) < 4,
{
}

/// When every call fails by its code, the four calls are tried newest first.
pub proof fn lemma_dpi_all_refused()
    ensures
        next_dpi_call_spec(DpiAwarenessCall::PerMonitorContextV2, DpiCallOutcome::Returned(0))
            == Some(DpiAwarenessCall::PerMonitorContextV1),
        next_dpi_call_spec(DpiAwarenessCall::PerMonitorContextV1, DpiCallOutcome::Returned(0))
            == Some(DpiAwarenessCall::ProcessPerMonitor),
        next_dpi_call_spec(DpiAwarenessCall::ProcessPerMonitor, DpiCallOutcome::Returned(1))
            == Some(DpiAwarenessCall::SystemAware),
        next_dpi_call_spec(DpiAwarenessCall::SystemAware, DpiCallOutcome::Returned(0)).is_none(),
{
}

} // verus!
