//! Record marking (RFC 5531, section 11): how RPC messages are framed on a
//! stream. Each fragment has a four-byte header: the highest bit marks the
//! last fragment of a frame, and the other bits give the fragment's length.
use vstd::prelude::*;
use crate::xdr::{spec_u32_be, spec_u32_from_be, XdrDeserialize, XdrReader, XdrSerialize};

verus! {

/// The bit of a fragment header that marks the last fragment of a frame.
pub const RPC_LAST_FRAME: u32 = 0x80_00_00_00;

/// The bits of a fragment header that give the fragment's length.
pub const RPC_FRAME_LEN: u32 = 0x7F_FF_FF_FF;

/// The header of a fragment of `len` bytes that ends its frame.
pub open spec fn spec_last_fragment_header(len: u32) -> u32 {
    len | RPC_LAST_FRAME
}

/// The bytes of the header that sends a frame of `len` bytes as one
/// fragment, most significant first. A frame of `RPC_LAST_FRAME` bytes or
/// more cannot be sent as one fragment (and is not sent at all).
pub fn frame_header(len: usize) -> (h: Vec<u8>)
    requires
        len < RPC_LAST_FRAME,
    ensures
        h@ == spec_u32_be(spec_last_fragment_header(len as u32)),
{
    let header = (len as u32) | RPC_LAST_FRAME;
    let mut h: Vec<u8> = Vec::new();
    let _ = header.serialize(&mut h);
    h
}

/// Whether the fragment with the header `bytes` ends its frame, and its
/// length.
pub fn fragment_header(bytes: [u8; 4]) -> (r: (bool, usize))
    ensures
        r.0 == (spec_u32_from_be(bytes@) & RPC_LAST_FRAME != 0),
        r.1 == (spec_u32_from_be(bytes@) & RPC_FRAME_LEN) as usize,
{
    let mut v: Vec<u8> = Vec::new();
    v.push(bytes[0]);
    v.push(bytes[1]);
    v.push(bytes[2]);
    v.push(bytes[3]);
    assert(v@ =~= bytes@);
    let mut reader = XdrReader::new(v);
    let header = match u32::deserialize(&mut reader) {
        Ok(h) => h,
        Err(_) => {
            assert(false);
            0
        },
    };
    assert(bytes@.subrange(0, 4) =~= bytes@);
    let is_last = header & RPC_LAST_FRAME != 0;
    let size = (header & RPC_FRAME_LEN) as usize;
    (is_last, size)
}

/// The header of a frame, read back, gives the frame's length and marks it
/// as the last fragment.
pub proof fn lemma_frame_header_roundtrip(len: u32)
    requires
        len < RPC_LAST_FRAME,
    ensures
        spec_u32_from_be(spec_u32_be(spec_last_fragment_header(len))) & RPC_LAST_FRAME != 0,
        spec_u32_from_be(spec_u32_be(spec_last_fragment_header(len))) & RPC_FRAME_LEN == len,
{
    crate::xdr::lemma_u32_be_roundtrip(spec_last_fragment_header(len));
    assert((len | 0x8000_0000u32) & 0x8000_0000u32 != 0) by (bit_vector);
    assert(len < 0x8000_0000u32 ==> (len | 0x8000_0000u32) & 0x7FFF_FFFFu32 == len) by (bit_vector);
}

/// The fragments of a frame received so far.
pub struct FrameAssembler {
    frame: Vec<u8>,
}

impl View for FrameAssembler {
    type V = Seq<u8>;

    closed spec fn view(&self) -> Seq<u8> {
        self.frame@
    }
}

impl FrameAssembler {
    /// No fragment received.
    pub fn new() -> (a: Self)
        ensures
            a@ == Seq::<u8>::empty(),
    {
        FrameAssembler { frame: Vec::new() }
    }

    /// Takes in a fragment with the bytes `data`: where it is the last of its
    /// frame, the frame is complete and handed out, and the next fragment
    /// starts a new frame.
    pub fn push_fragment(&mut self, last: bool, data: &[u8]) -> (r: Option<Vec<u8>>)
        ensures
            last ==> (r matches Some(f) && f@ == old(self)@ + data@ && final(self)@ == Seq::<
                u8,
            >::empty()),
            !last ==> r is None && final(self)@ == old(self)@ + data@,
    {
        crate::xdr::append_bytes(&mut self.frame, data);
        if last {
            let mut frame: Vec<u8> = Vec::new();
            std::mem::swap(&mut frame, &mut self.frame);
            Some(frame)
        } else {
            None
        }
    }
}

} // verus!
