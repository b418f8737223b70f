//! Decisions of the network monitor around its two interface handlers.
use vstd::prelude::*;
use crate::errors::MonitorError;

verus! {

/// Which of the two handlers ended first.
#[derive(Clone, Copy, Debug, PartialEq, Eq, Structural)]
pub enum InterfaceSide {
    Main,
    Tap,
}

pub struct NetworkMonitor;

impl NetworkMonitor {
    /// Index of the first interface named "tap0".
    pub fn find_tap0_interface(names: &Vec<String>) -> (r: Result<usize, MonitorError>)
        ensures
            r is Ok ==> r->Ok_0 < names@.len() && names@[r->Ok_0 as int]@ == "tap0"@ && forall|k: int|
                0 <= k < r->Ok_0 ==> names@[k]@ != "tap0"@,
            r is Err ==> forall|k: int| 0 <= k < names@.len() ==> names@[k]@ != "tap0"@,
            r is Err ==> r->Err_0 is InterfaceNotFound && r->Err_0->InterfaceNotFound_0@ == "tap0"@,
    {
        let wanted: String = "tap0".to_owned();
        let mut i: usize = 0;
        while i < names.len()
            invariant
                i <= names@.len(),
                wanted@ == "tap0"@,
                forall|k: int| 0 <= k < i ==> names@[k]@ != "tap0"@,
            decreases names@.len() - i,
        {
            if names[i] == wanted {
                return Ok(i);
            }
            i = i + 1;
        }
        Err(MonitorError::InterfaceNotFound(wanted))
    }

    /// The monitor's result once one handler has ended: its error, tagged
    /// with the interface, or success.
    pub fn interface_result(side: InterfaceSide, result: Result<(), String>) -> (r: Result<(), MonitorError>)
        ensures
            result is Ok ==> r is Ok,
            result is Err && side == InterfaceSide::Main ==> r == Err::<(), MonitorError>(
                MonitorError::MainInterfaceError(result->Err_0),
            ),
            result is Err && side == InterfaceSide::Tap ==> r == Err::<(), MonitorError>(
                MonitorError::TapInterfaceError(result->Err_0),
            ),
    {
        match result {
            Ok(()) => Ok(()),
            Err(e) => match side {
                InterfaceSide::Main => Err(MonitorError::MainInterfaceError(e)),
                InterfaceSide::Tap => Err(MonitorError::TapInterfaceError(e)),
            },
        }
    }
}

} // verus!
