//! Control monitors over DDC/CI: frame and parse DDC/CI messages, parse the
//! EDID block and the MCCS capability string, and read and write VCP
//! features through a transport that the host provides.
use vstd::prelude::*;

pub mod ddc;
pub mod mccs;

use ddc::edid::Edid;
use ddc::{Ddc, DdcError};
use mccs::capabilities::Capabilities;
use mccs::features::{InputSource, OsdLanguages};
use mccs::queue::VcpCodeUpdateQueue;

verus! {

/// The error type for high level DDC/CI monitor operations.
#[derive(Debug, Clone, PartialEq, Eq)]
pub enum DisplayError {
    /// Unsupported operation.
    UnsupportedOp,
    /// An error occurred while reading the Edid Data.
    DdcError(DdcError),
    /// An IO error occurred
    IoError(String),
}

/// Identifying information about an attached display.
#[derive(Clone, Debug)]
pub struct MonitorInfo {
    edid: Edid,
    mccs_features: Option<Capabilities>,
}

impl MonitorInfo {
    pub fn new(edid: Edid, mccs_features: Option<Capabilities>) -> (r: Self)
        ensures
            r.edid() == edid,
            r.mccs_features() == mccs_features,
    {
        MonitorInfo { edid, mccs_features }
    }

    pub closed spec fn edid(&self) -> Edid {
        self.edid
    }

    pub closed spec fn mccs_features(&self) -> Option<Capabilities> {
        self.mccs_features
    }

    pub fn manufacture_year(&self) -> (r: usize)
        ensures
            r == self.edid().header.year + 1990,
    {
        self.edid.header.year as usize + 1990
    }

    pub fn serial(&self) -> (r: u32)
        ensures
            r == self.edid().header.serial,
    {
        self.edid.header.serial
    }

    pub fn capabilities(&self) -> (r: Option<&Capabilities>)
        ensures
            match r {
                Some(c) => self.mccs_features() == Some(*c),
                None => self.mccs_features() is None,
            },
    {
        self.mccs_features.as_ref()
    }
}

/// An active handle to a connected display.
pub struct MonitorDevice<D: Ddc> {
    /// The inner communication handle used for DDC commands.
    pub handle: Box<D>,
    /// Information about the connected display.
    pub info: MonitorInfo,
}

impl<D: Ddc> MonitorDevice<D> {
    /// Create a new display from the specified handle, reading its EDID.
    pub fn new(handle: D) -> (r: Result<Self, DisplayError>)
        ensures
            r matches Ok(m) ==> m.info.mccs_features() is None,
            r matches Err(e) ==> e is DdcError,
    {
        let mut handle = handle;
        match handle.read_edid() {
            Ok(edid) => Ok(
                MonitorDevice { handle: Box::new(handle), info: MonitorInfo::new(edid, None) },
            ),
            Err(e) => Err(DisplayError::DdcError(e)),
        }
    }

    /// A new pass over the controls changed on the monitor; hand the
    /// handle to [`VcpCodeUpdateQueue::next`] to step through it.
    pub fn event_iter(&mut self) -> (r: VcpCodeUpdateQueue)
        ensures
            r.state() is Idle,
    {
        VcpCodeUpdateQueue::new()
    }

    /// get the currently active monitor input source
    pub fn get_input_source(&mut self) -> (r: Result<InputSource, DdcError>)
        ensures
            r matches Err(e) ==> e is CommunicationError || e is UnsupportedVcpFeature,
    {
        self.handle.get_vcp_feature()
    }

    /// set the currently active monitor input
    pub fn set_input_source(&mut self, input_source: InputSource) -> (r: Result<(), DdcError>)
        ensures
            r matches Err(e) ==> e is CommunicationError,
    {
        self.handle.set_vcp_feature(input_source)
    }

    /// get the currently selected monitor on screen display language
    pub fn get_language(&mut self) -> (r: Result<OsdLanguages, DdcError>)
        ensures
            r matches Err(e) ==> e is CommunicationError || e is UnsupportedVcpFeature,
    {
        self.handle.get_vcp_feature()
    }

    /// set the monitor on screen language
    pub fn set_language(&mut self, language: OsdLanguages) -> (r: Result<(), DdcError>)
        ensures
            r matches Err(e) ==> e is CommunicationError,
    {
        self.handle.set_vcp_feature(language)
    }
}

} // verus!
