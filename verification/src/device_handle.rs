use vstd::prelude::*;

verus! {

/// An open device, as the native layer names it: the address of its native
/// record. The library never looks behind the address; it only stores it in
/// the descriptor of a transfer.
#[derive(Debug)]
pub struct DeviceHandle {
    raw: usize,
}

impl View for DeviceHandle {
    type V = usize;

    closed spec fn view(&self) -> usize {
        self.raw
    }
}

impl DeviceHandle {
    /// Wraps the address of a native device record.
    pub fn from_raw(raw: usize) -> (handle: DeviceHandle)
        ensures
            handle@ == raw,
    {
        DeviceHandle { raw }
    }

    /// The address of the native device record.
    pub fn as_raw(&self) -> (raw: usize)
        ensures
            raw == self@,
    {
        self.raw
    }
}

} // verus!
