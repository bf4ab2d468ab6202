//! The device's identity on the host: the names of its output and input ports.
use vstd::prelude::*;
use vstd::string::StringExecFns;

verus! {

/// A device, known by the names of the ports that reach it.
#[derive(Debug, Clone)]
pub struct LumatoneDevice {
    out_port_name: String,
    in_port_name: String,
}

impl LumatoneDevice {
    /// The name of the port that frames are sent to.
    pub closed spec fn out_port(&self) -> Seq<char> {
        self.out_port_name@
    }

    /// The name of the port that frames come in from.
    pub closed spec fn in_port(&self) -> Seq<char> {
        self.in_port_name@
    }

    /// A device reached through the given output and input ports.
    pub fn new(output_port_name: &str, input_port_name: &str) -> (r: LumatoneDevice)
        ensures
            r.out_port() == output_port_name@,
            r.in_port() == input_port_name@,
    {
        LumatoneDevice {
            out_port_name: String::from_str(output_port_name),
            in_port_name: String::from_str(input_port_name),
        }
    }

    /// The name of the output port.
    pub fn out_port_name(&self) -> (r: &str)
        ensures
            r@ == self.out_port(),
    {
        self.out_port_name.as_str()
    }

    /// The name of the input port.
    pub fn in_port_name(&self) -> (r: &str)
        ensures
            r@ == self.in_port(),
    {
        self.in_port_name.as_str()
    }
}

} // verus!
