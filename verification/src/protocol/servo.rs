//! Raw servo commands, forwarded to the servo bus unchanged.

use vstd::prelude::*;
use crate::protocol::error::FrameError;
use crate::protocol::frame::{FromPayload, ToPayload};
use crate::protocol::wire::push_bytes;

verus! {

/// Servo command bytes. The protocol adds the frame header and CRC; the
/// bytes themselves, which may hold several servo commands, pass unchanged.
#[derive(Debug, Clone)]
pub struct ServoCmdWrapper {
    data: Vec<u8>,
}

impl View for ServoCmdWrapper {
    type V = Seq<u8>;

    closed spec fn view(&self) -> Seq<u8> {
        self.data@
    }
}

impl ServoCmdWrapper {
    /// Wraps raw command bytes.
    pub fn new(data: Vec<u8>) -> (w: ServoCmdWrapper)
        ensures
            w@ == data@,
    {
        ServoCmdWrapper { data }
    }

    /// The raw command bytes.
    pub fn data(&self) -> (d: &[u8])
        ensures
            d@ == self@,
    {
        self.data.as_slice()
    }

    /// Gives back the raw command bytes.
    pub fn into_data(self) -> (d: Vec<u8>)
        ensures
            d@ == self@,
    {
        self.data
    }
}

impl ToPayload for ServoCmdWrapper {
    fn to_payload(&self) -> (bytes: Vec<u8>)
        ensures
            bytes@ == self@,
    {
        let mut buf: Vec<u8> = Vec::new();
        push_bytes(&mut buf, self.data.as_slice());
        buf
    }
}

impl FromPayload for ServoCmdWrapper {
    open spec fn decodable(payload: Seq<u8>) -> bool {
        true
    }

    fn from_payload(payload: &[u8]) -> (r: Result<ServoCmdWrapper, FrameError>)
        ensures
            r matches Ok(w) && w@ == payload@,
    {
        let mut data: Vec<u8> = Vec::new();
        push_bytes(&mut data, payload);
        Ok(ServoCmdWrapper { data })
    }
}

} // verus!
