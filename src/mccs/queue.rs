//! The feed of controls that the user changed on the monitor.
use vstd::prelude::*;

use super::features::{NewControlValue, VcpFeatureCode, VcpFeatureValue};
use crate::ddc::{DdcCiDevice, DdcError};

verus! {

/// Where a pass over the changed controls stands.
#[derive(Debug, Clone, Copy, PartialEq, Eq, Structural)]
pub enum QueueState {
    /// Not yet asked whether controls changed.
    Idle,
    /// Reading the changed controls one by one.
    Draining,
    /// The pass is over.
    Done,
}

/// What to do with a code read from the changed-control register.
#[derive(Debug, Clone, Copy, PartialEq, Eq, Structural)]
pub enum FifoAction {
    /// The register is empty: acknowledge and end the pass.
    Finish,
    /// Read the feature's current value.
    Read(VcpFeatureCode),
    /// Report the code without a value.
    Report(VcpFeatureValue),
}

/// The action for a code read from the changed-control register: CodePage
/// means the register is drained, the four typed features are read, other
/// codes are reported as they are.
pub fn fifo_action(code: VcpFeatureCode) -> (r: FifoAction)
    ensures
        r == match code {
            VcpFeatureCode::CodePage => FifoAction::Finish,
            VcpFeatureCode::Luminance => FifoAction::Read(code),
            VcpFeatureCode::Contrast => FifoAction::Read(code),
            VcpFeatureCode::OsdLanguage => FifoAction::Read(code),
            VcpFeatureCode::InputSelect => FifoAction::Read(code),
            _ => FifoAction::Report(
                VcpFeatureValue::Unimplemented(crate::mccs::features::feature_code_byte(code), 0),
            ),
        },
{
    match code {
        VcpFeatureCode::CodePage => FifoAction::Finish,
        VcpFeatureCode::Luminance | VcpFeatureCode::Contrast | VcpFeatureCode::OsdLanguage
        | VcpFeatureCode::InputSelect => FifoAction::Read(code),
        _ => FifoAction::Report(VcpFeatureValue::Unimplemented(code.to_byte(), 0)),
    }
}

/// The state after asking whether controls changed: the pass goes on only
/// when the monitor answers that new control values are present.
pub fn start_state(present: &Result<NewControlValue, DdcError>) -> (r: QueueState)
    ensures
        r == if *present == Ok::<NewControlValue, DdcError>(NewControlValue::NewControlValuesPresent) {
            QueueState::Draining
        } else {
            QueueState::Done
        },
{
    match present {
        Ok(NewControlValue::NewControlValuesPresent) => QueueState::Draining,
        _ => QueueState::Done,
    }
}

/// A pass over the controls that changed on the monitor since the last one:
/// ask whether any changed, then read the changed-control register until it
/// is empty, reading the value of each changed feature.
pub struct VcpCodeUpdateQueue {
    state: QueueState,
}

impl VcpCodeUpdateQueue {
    pub closed spec fn state(&self) -> QueueState {
        self.state
    }

    pub fn new() -> (r: Self)
        ensures
            r.state() is Idle,
    {
        VcpCodeUpdateQueue { state: QueueState::Idle }
    }

    /// The next changed control, or `None` when the pass is over.
    pub fn next<D: DdcCiDevice>(&mut self, ddc_channel: &mut D) -> (r: Option<
        Result<VcpFeatureValue, DdcError>,
    >)
        ensures
            old(self).state() is Done ==> r is None,
            r is None <==> final(self).state() is Done,
            r is Some ==> final(self).state() is Draining,
            old(self).state() is Draining ==> !(final(self).state() is Idle),
            r matches Some(Ok(v)) ==> (v is Luminance || v is Contrast || v is OsdLanguage
                || v is InputSelect || v matches VcpFeatureValue::Unimplemented(_, 0)),
    {
        if let QueueState::Done = self.state {
            return None;
        }
        if let QueueState::Idle = self.state {
            let present = ddc_channel.get_vcp_feature::<NewControlValue>();
            self.state = start_state(&present);
            if let QueueState::Done = self.state {
                return None;
            }
        }
        let code = match ddc_channel.get_vcp_feature::<VcpFeatureCode>() {
            Ok(code) => code,
            Err(e) => {
                return Some(Err(e));
            },
        };
        match fifo_action(code) {
            FifoAction::Finish => {
                let _ = ddc_channel.set_vcp_feature(NewControlValue::Finished);
                self.state = QueueState::Done;
                None
            },
            FifoAction::Read(feature) => Some(VcpFeatureValue::read_from_ddc(ddc_channel, feature)),
            FifoAction::Report(value) => Some(Ok(value)),
        }
    }
}

} // verus!
