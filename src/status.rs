use vstd::prelude::*;

verus! {

/// The result of a successful startup of a cluster: where its controller
/// can be reached.
pub struct StartStatus {
    address: String,
    port: u16,
}

impl StartStatus {
    pub closed spec fn spec_address(&self) -> Seq<char> {
        self.address@
    }

    pub closed spec fn spec_port(&self) -> u16 {
        self.port
    }

    /// A status for a controller at `address` and `port`.
    pub fn new(address: String, port: u16) -> (r: StartStatus)
        ensures
            r.spec_address() == address@,
            r.spec_port() == port,
    {
        StartStatus { address, port }
    }

    /// The address where the newly-started cluster lives.
    pub fn address(&self) -> (r: &str)
        ensures
            r@ == self.spec_address(),
    {
        self.address.as_str()
    }

    /// The port of the cluster's controller.
    pub fn port(&self) -> (r: u16)
        ensures
            r == self.spec_port(),
    {
        self.port
    }
}

} // verus!
