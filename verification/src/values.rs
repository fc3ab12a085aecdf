//! Values that are checked once, when they are built, so that filling a
//! transfer has nothing left to refuse.

use vstd::prelude::*;
use vstd::std_specs::convert::TryFromSpec;
use std::convert::TryFrom;
use std::time::Duration;
use libc::{c_int, c_uint};
use crate::bytes::copy_slice;
use crate::error::Error;
use crate::native::{duration_as_millis, duration_millis, endpoint_dir_mask, endpoint_in, endpoint_out};

verus! {

/// Whether a length can be written into the native length field, which is a
/// signed C integer.
pub open spec fn fits_native_length(n: int) -> bool {
    0 <= n <= c_int::MAX
}

/// Whether a number of milliseconds can be written into the native timeout
/// field, which is an unsigned C integer.
pub open spec fn fits_native_timeout(ms: int) -> bool {
    0 <= ms <= c_uint::MAX
}

/// Whether the direction bit of an endpoint address says "to the host".
pub open spec fn is_in_endpoint(address: u8) -> bool {
    address & 0x80 == 0x80
}

/// Whether the direction bit of an endpoint address says "from the host".
pub open spec fn is_out_endpoint(address: u8) -> bool {
    address & 0x80 == 0x00
}

/// The number of bytes to read, known to fit the native length field.
#[derive(Debug, Copy, Clone)]
pub struct ReadLength(c_int);

impl View for ReadLength {
    type V = nat;

    closed spec fn view(&self) -> nat {
        self.0 as nat
    }
}

impl ReadLength {
    #[verifier::type_invariant]
    spec fn inv(self) -> bool {
        self.0 >= 0
    }

    pub fn as_c_int(&self) -> (n: c_int)
        ensures
            n == self@,
    {
        proof {
            use_type_invariant(self);
        }
        self.0
    }

    pub fn as_usize(&self) -> (n: usize)
        ensures
            n == self@,
            fits_native_length(n as int),
    {
        proof {
            use_type_invariant(self);
        }
        self.0 as usize
    }
}

impl TryFrom<usize> for ReadLength {
    type Error = Error;

    /// Accepts exactly the lengths that fit the native length field.
    fn try_from(n: usize) -> (r: Result<ReadLength, Error>)
        ensures
            fits_native_length(n as int) ==> (r matches Ok(length) && length@ == n),
            !fits_native_length(n as int) ==> r == Err::<ReadLength, Error>(Error::TooBig),
    {
        match c_int::try_from(n) {
            Ok(len) => Ok(ReadLength(len)),
            Err(_) => Err(Error::TooBig),
        }
    }
}

impl vstd::std_specs::convert::TryFromSpecImpl<usize> for ReadLength {
    open spec fn obeys_try_from_spec() -> bool {
        true
    }

    closed spec fn try_from_spec(n: usize) -> Result<ReadLength, Error> {
        if fits_native_length(n as int) {
            Ok(ReadLength(n as c_int))
        } else {
            Err(Error::TooBig)
        }
    }
}

/// A length that fits the native length field is accepted and reads back as
/// itself; any other length is refused as too big.
pub proof fn law_read_length_round_trip(n: usize)
    ensures
        fits_native_length(n as int) ==> (ReadLength::try_from_spec(n) matches Ok(length)
            && length@ == n),
        !fits_native_length(n as int) ==> ReadLength::try_from_spec(n) == Err::<
            ReadLength,
            Error,
        >(Error::TooBig),
{
}

/// The bytes to write, borrowed from the caller, known to be few enough for
/// the native length field.
#[derive(Debug)]
pub struct WriteData<'a>(&'a [u8]);

impl<'a> View for WriteData<'a> {
    type V = Seq<u8>;

    closed spec fn view(&self) -> Seq<u8> {
        self.0@
    }
}

impl<'a> WriteData<'a> {
    #[verifier::type_invariant]
    spec fn inv(self) -> bool {
        fits_native_length(self.0@.len() as int)
    }

    pub fn length(&self) -> (n: usize)
        ensures
            n == self@.len(),
            fits_native_length(n as int),
    {
        proof {
            use_type_invariant(self);
        }
        self.0.len()
    }

    pub fn length_as_c_int(&self) -> (n: c_int)
        ensures
            n == self@.len(),
    {
        proof {
            use_type_invariant(self);
        }
        self.0.len() as c_int
    }

    /// Copies the payload over a region of its own length. Without payload
    /// the region is left as it is.
    pub fn copy_data(&self, buffer: &mut [u8])
        requires
            self@.len() == 0 || old(buffer)@.len() == self@.len(),
        ensures
            self@.len() > 0 ==> final(buffer)@ == self@,
            self@.len() == 0 ==> final(buffer)@ == old(buffer)@,
    {
        if self.length() > 0 {
            copy_slice(self.0, buffer);
        }
    }
}

impl<'a> TryFrom<&'a [u8]> for WriteData<'a> {
    type Error = Error;

    /// Accepts exactly the slices whose length fits the native length field.
    fn try_from(data: &'a [u8]) -> (r: Result<WriteData<'a>, Error>)
        ensures
            fits_native_length(data@.len() as int) ==> (r matches Ok(payload) && payload@
                == data@),
            !fits_native_length(data@.len() as int) ==> r == Err::<WriteData<'a>, Error>(
                Error::TooBig,
            ),
    {
        match c_int::try_from(data.len()) {
            Ok(_) => Ok(WriteData(data)),
            Err(_) => Err(Error::TooBig),
        }
    }
}

impl<'a> vstd::std_specs::convert::TryFromSpecImpl<&'a [u8]> for WriteData<'a> {
    open spec fn obeys_try_from_spec() -> bool {
        true
    }

    closed spec fn try_from_spec(data: &'a [u8]) -> Result<WriteData<'a>, Error> {
        if fits_native_length(data@.len() as int) {
            Ok(WriteData(data))
        } else {
            Err(Error::TooBig)
        }
    }
}

/// How long the native layer waits for a transfer, in milliseconds; zero
/// stands for no timeout.
#[derive(Debug, Copy, Clone)]
pub struct Timeout(c_uint);

impl View for Timeout {
    type V = nat;

    closed spec fn view(&self) -> nat {
        self.0 as nat
    }
}

impl Timeout {
    pub fn as_c_uint(&self) -> (ms: c_uint)
        ensures
            ms == self@,
    {
        self.0
    }

    /// No timeout: the transfer waits for as long as it takes.
    pub fn none() -> (t: Timeout)
        ensures
            t@ == 0,
    {
        Timeout(0)
    }

    pub fn from_millis(ms: u32) -> (t: Timeout)
        ensures
            t@ == ms,
    {
        Timeout(ms)
    }

    /// Accepts exactly the millisecond counts that fit the native timeout
    /// field.
    pub fn try_from_millis(ms: u128) -> (r: Result<Timeout, Error>)
        ensures
            r == Self::spec_try_from_millis(ms),
            fits_native_timeout(ms as int) ==> (r matches Ok(t) && t@ == ms),
            !fits_native_timeout(ms as int) ==> r == Err::<Timeout, Error>(Error::InvalidParam),
    {
        match c_uint::try_from(ms) {
            Ok(t) => Ok(Timeout(t)),
            Err(_) => Err(Error::InvalidParam),
        }
    }

    /// What `try_from_millis` returns.
    pub closed spec fn spec_try_from_millis(ms: u128) -> Result<Timeout, Error> {
        if fits_native_timeout(ms as int) {
            Ok(Timeout(ms as c_uint))
        } else {
            Err(Error::InvalidParam)
        }
    }
}

impl TryFrom<Duration> for Timeout {
    type Error = Error;

    /// Accepts exactly the durations whose whole milliseconds fit the native
    /// timeout field.
    fn try_from(d: Duration) -> (r: Result<Timeout, Error>)
        ensures
            fits_native_timeout(duration_millis(d) as int) ==> (r matches Ok(t) && t@
                == duration_millis(d)),
            !fits_native_timeout(duration_millis(d) as int) ==> r == Err::<Timeout, Error>(
                Error::InvalidParam,
            ),
    {
        Timeout::try_from_millis(duration_as_millis(&d))
    }
}

impl vstd::std_specs::convert::TryFromSpecImpl<Duration> for Timeout {
    open spec fn obeys_try_from_spec() -> bool {
        true
    }

    open spec fn try_from_spec(d: Duration) -> Result<Timeout, Error> {
        Timeout::spec_try_from_millis(duration_millis(d))
    }
}

/// The address of an endpoint that sends to the host.
#[derive(Debug)]
pub struct ReadEndpoint(u8);

impl View for ReadEndpoint {
    type V = u8;

    closed spec fn view(&self) -> u8 {
        self.0
    }
}

impl ReadEndpoint {
    #[verifier::type_invariant]
    spec fn inv(self) -> bool {
        is_in_endpoint(self.0)
    }

    pub fn as_u8(&self) -> (address: u8)
        ensures
            address == self@,
            is_in_endpoint(address),
    {
        proof {
            use_type_invariant(self);
        }
        self.0
    }
}

impl TryFrom<u8> for ReadEndpoint {
    type Error = Error;

    /// Accepts exactly the addresses whose direction bit says "to the host".
    fn try_from(endpoint: u8) -> (r: Result<ReadEndpoint, Error>)
        ensures
            is_in_endpoint(endpoint) ==> (r matches Ok(e) && e@ == endpoint),
            !is_in_endpoint(endpoint) ==> r == Err::<ReadEndpoint, Error>(Error::InvalidParam),
    {
        if endpoint & endpoint_dir_mask() == endpoint_in() {
            Ok(ReadEndpoint(endpoint))
        } else {
            Err(Error::InvalidParam)
        }
    }
}

impl vstd::std_specs::convert::TryFromSpecImpl<u8> for ReadEndpoint {
    open spec fn obeys_try_from_spec() -> bool {
        true
    }

    closed spec fn try_from_spec(endpoint: u8) -> Result<ReadEndpoint, Error> {
        if is_in_endpoint(endpoint) {
            Ok(ReadEndpoint(endpoint))
        } else {
            Err(Error::InvalidParam)
        }
    }
}

/// The address of an endpoint that receives from the host.
#[derive(Debug)]
pub struct WriteEndpoint(u8);

impl View for WriteEndpoint {
    type V = u8;

    closed spec fn view(&self) -> u8 {
        self.0
    }
}

impl WriteEndpoint {
    #[verifier::type_invariant]
    spec fn inv(self) -> bool {
        is_out_endpoint(self.0)
    }

    pub fn as_u8(&self) -> (address: u8)
        ensures
            address == self@,
            is_out_endpoint(address),
    {
        proof {
            use_type_invariant(self);
        }
        self.0
    }
}

impl TryFrom<u8> for WriteEndpoint {
    type Error = Error;

    /// Accepts exactly the addresses whose direction bit says "from the
    /// host".
    fn try_from(endpoint: u8) -> (r: Result<WriteEndpoint, Error>)
        ensures
            is_out_endpoint(endpoint) ==> (r matches Ok(e) && e@ == endpoint),
            !is_out_endpoint(endpoint) ==> r == Err::<WriteEndpoint, Error>(Error::InvalidParam),
    {
        if endpoint & endpoint_dir_mask() == endpoint_out() {
            Ok(WriteEndpoint(endpoint))
        } else {
            Err(Error::InvalidParam)
        }
    }
}

impl vstd::std_specs::convert::TryFromSpecImpl<u8> for WriteEndpoint {
    open spec fn obeys_try_from_spec() -> bool {
        true
    }

    closed spec fn try_from_spec(endpoint: u8) -> Result<WriteEndpoint, Error> {
        if is_out_endpoint(endpoint) {
            Ok(WriteEndpoint(endpoint))
        } else {
            Err(Error::InvalidParam)
        }
    }
}

/// The direction bit is the top bit of the address: the addresses from 128 up
/// are read endpoints, the others are write endpoints, and no address is both.
pub proof fn lemma_endpoint_direction(address: u8)
    ensures
        is_in_endpoint(address) <==> address >= 128,
        is_out_endpoint(address) <==> address < 128,
{
    assert((address & 0x80 == 0x80) <==> address >= 128) by (bit_vector);
    assert((address & 0x80 == 0x00) <==> address < 128) by (bit_vector);
}

/// Of every address byte, a read endpoint is made exactly when its direction
/// bit is set, a write endpoint exactly when it is clear; so each byte makes
/// one of the two and not the other.
pub proof fn law_endpoint_direction(address: u8)
    ensures
        ReadEndpoint::try_from_spec(address) is Ok <==> is_in_endpoint(address),
        WriteEndpoint::try_from_spec(address) is Ok <==> is_out_endpoint(address),
        ReadEndpoint::try_from_spec(address) is Ok <==> !(WriteEndpoint::try_from_spec(address) is Ok),
        ReadEndpoint::try_from_spec(address) matches Ok(e) ==> e@ == address,
        WriteEndpoint::try_from_spec(address) matches Ok(e) ==> e@ == address,
        ReadEndpoint::try_from_spec(address) matches Err(e) ==> e == Error::InvalidParam,
        WriteEndpoint::try_from_spec(address) matches Err(e) ==> e == Error::InvalidParam,
{
    lemma_endpoint_direction(address);
}

} // verus!
