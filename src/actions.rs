//! What a run of the command-line tool is asked to do.
use vstd::prelude::*;

verus! {

/// The actions selected on the command line.
#[derive(Clone, Copy, Debug, Default, PartialEq, Eq, Structural)]
pub struct Actions {
    /// Show device info
    pub device_info: bool,
    /// Show cell data
    pub cell_data: bool,
    /// Run the metrics exporter
    pub exporter: bool,
    /// Push metrics to a gateway
    pub push: bool,
}

impl Actions {
    /// Whether a one-shot command is asked for.
    pub fn has_command(&self) -> (r: bool)
        ensures
            r == (self.device_info || self.cell_data),
    {
        self.device_info || self.cell_data
    }

    /// Whether the exporter server is to run: exporting without pushing.
    pub fn has_server(&self) -> (r: bool)
        ensures
            r == (self.exporter && !self.push),
    {
        self.exporter && !self.push
    }

    /// Whether the push client is to run.
    pub fn has_client(&self) -> (r: bool)
        ensures
            r == self.push,
    {
        self.push
    }

    /// Whether anything at all is to be done.
    pub fn has_action(&self) -> (r: bool)
        ensures
            r == (self.device_info || self.cell_data || (self.exporter && !self.push) || self.push),
    {
        self.has_command() || self.has_server() || self.has_client()
    }
}

} // verus!
