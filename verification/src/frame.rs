//! The classic CAN frame, held field by field as the kernel lays it out.
use vstd::prelude::*;
use crate::canid::{
    bytes_word, compose_word, join_word, lemma_bytes_word_round_trip, lemma_compose_word,
    lemma_set_remote, lemma_word_bytes_round_trip, lemma_word_id_range, split_word, word_bytes,
    word_id, word_is_error, word_is_extended, word_is_remote, CAN_EFF_FLAG, CAN_EFF_MASK,
    CAN_ERR_FLAG, CAN_ERR_MASK, CAN_RTR_FLAG, CAN_SFF_MASK,
};
use crate::error::{
    decode_error, CanError, ConstructionError, ControllerSpecificErrorInformation, DecodingError,
};

verus! {

/// The most payload bytes a frame carries.
pub const MAX_DATA_LEN: usize = 8;

/// What a frame holds, as mathematical values.
pub struct FrameView {
    /// The identifier word: identifier bits and the three flag bits.
    pub id: u32,
    /// The data length code.
    pub dlc: u8,
    /// The three bytes between the length and the payload buffer.
    pub reserved: Seq<u8>,
    /// The payload buffer, always eight bytes; only the first `dlc` count.
    pub data: Seq<u8>,
}

impl FrameView {
    /// The number of payload bytes: the data length, and eight where the
    /// length field says more than the buffer holds.
    pub open spec fn payload_len(self) -> nat {
        if self.dlc <= MAX_DATA_LEN {
            self.dlc as nat
        } else {
            MAX_DATA_LEN as nat
        }
    }

    /// The valid payload: the first `payload_len` bytes of the buffer.
    pub open spec fn payload(self) -> Seq<u8> {
        self.data.subrange(0, self.payload_len() as int)
    }
}

/// `n` zero bytes.
pub open spec fn zeros(n: nat) -> Seq<u8> {
    Seq::new(n, |i: int| 0u8)
}

/// The frame that construction yields for a valid identifier and payload:
/// the composed identifier word, the payload's length, and the payload
/// followed by zeros up to eight bytes.
pub open spec fn assemble(id: u32, data: Seq<u8>, rtr: bool, err: bool) -> FrameView {
    FrameView {
        id: compose_word(id, rtr, err),
        dlc: data.len() as u8,
        reserved: zeros(3),
        data: data + zeros((MAX_DATA_LEN - data.len()) as nat),
    }
}

/// What construction yields for any input. The payload length is judged
/// first, then the identifier's range.
pub open spec fn construct(id: u32, data: Seq<u8>, rtr: bool, err: bool) -> Result<
    FrameView,
    ConstructionError,
> {
    if data.len() > MAX_DATA_LEN {
        Err(ConstructionError::TooMuchData)
    } else if id > CAN_EFF_MASK {
        Err(ConstructionError::IDTooLarge)
    } else {
        Ok(assemble(id, data, rtr, err))
    }
}

/// The size of a frame on the wire.
pub const FRAME_SIZE: usize = 16;

/// The frame as the transport carries it, sixteen bytes: the identifier
/// word in bytes 0 to 3, least significant byte first; the data length in
/// byte 4; the reserved bytes in 5 to 7; the payload buffer in 8 to 15.
pub open spec fn wire_image(frame: FrameView) -> Seq<u8> {
    word_bytes(frame.id) + seq![frame.dlc] + frame.reserved + frame.data
}

/// The frame that a wire image holds. Only the length is judged: sixteen
/// bytes always give a frame, whatever they say.
pub open spec fn parse_image(bytes: Seq<u8>) -> Option<FrameView> {
    if bytes.len() == FRAME_SIZE {
        Some(
            FrameView {
                id: bytes_word(bytes.subrange(0, 4)),
                dlc: bytes[4],
                reserved: bytes.subrange(5, 8),
                data: bytes.subrange(8, 16),
            },
        )
    } else {
        None
    }
}

/// A frame written to the wire and read back is the same frame.
pub proof fn lemma_wire_round_trip(frame: FrameView)
    requires
        frame.reserved.len() == 3,
        frame.data.len() == MAX_DATA_LEN,
    ensures
        wire_image(frame).len() == FRAME_SIZE,
        parse_image(wire_image(frame)) == Some(frame),
{
    let bytes = wire_image(frame);
    lemma_word_bytes_round_trip(frame.id);
    assert(bytes.subrange(0, 4) =~= word_bytes(frame.id));
    assert(bytes.subrange(5, 8) =~= frame.reserved);
    assert(bytes.subrange(8, 16) =~= frame.data);
}

/// Sixteen bytes read as a frame and written again are the same bytes.
pub proof fn lemma_image_round_trip(bytes: Seq<u8>)
    requires
        bytes.len() == FRAME_SIZE,
    ensures
        parse_image(bytes) matches Some(frame) && wire_image(frame) == bytes,
{
    lemma_bytes_word_round_trip(bytes.subrange(0, 4));
    let frame = parse_image(bytes).unwrap();
    assert(wire_image(frame) =~= bytes);
}

/// A CAN frame: identifier word, data length and an eight-byte payload
/// buffer, in the field order of the kernel's structure.
#[derive(Debug, Copy, Clone)]
pub struct Frame {
    /// 32 bit identifier with the extended, remote and error flags
    id: u32,
    /// data length; bytes beyond it are not valid
    dlc: u8,
    /// padding
    pad: u8,
    /// reserved
    res0: u8,
    /// reserved
    res1: u8,
    /// buffer for data
    data: [u8; 8],
}

impl View for Frame {
    type V = FrameView;

    closed spec fn view(&self) -> FrameView {
        FrameView {
            id: self.id,
            dlc: self.dlc,
            reserved: seq![self.pad, self.res0, self.res1],
            data: self.data@,
        }
    }
}

impl Frame {
    /// A frame is well formed when its data length is at most eight.
    pub open spec fn wf(&self) -> bool {
        self@.dlc <= MAX_DATA_LEN
    }

    /// The identifier with the flag bits masked off.
    pub open spec fn spec_id(&self) -> u32 {
        word_id(self@.id)
    }

    /// Whether the frame uses the extended identifier format.
    pub open spec fn spec_is_extended(&self) -> bool {
        word_is_extended(self@.id)
    }

    /// Whether the frame is a remote transmission request.
    pub open spec fn spec_is_remote_frame(&self) -> bool {
        word_is_remote(self@.id)
    }

    /// Whether the frame reports an error condition.
    pub open spec fn spec_is_error(&self) -> bool {
        word_is_error(self@.id)
    }

    /// The valid payload.
    pub open spec fn payload(&self) -> Seq<u8> {
        self@.payload()
    }

    /// Every frame's buffer holds eight bytes and its reserved area three.
    pub proof fn lemma_view_shape(&self)
        ensures
            self@.data.len() == MAX_DATA_LEN,
            self@.reserved.len() == 3,
    {
    }

    /// Builds a frame from an identifier and up to eight payload bytes.
    ///
    /// Fails with `TooMuchData` when `data` is longer than eight bytes, and
    /// otherwise with `IDTooLarge` when `id` needs more than 29 bits. An
    /// identifier above the 11-bit range makes the frame extended. Buffer
    /// bytes beyond the payload are zero.
    pub fn new(id: u32, data: &[u8], rtr: bool, err: bool) -> (r: Result<Frame, ConstructionError>)
        ensures
            match r {
                Ok(f) => construct(id, data@, rtr, err) == Ok::<FrameView, ConstructionError>(f@),
                Err(e) => construct(id, data@, rtr, err) == Err::<FrameView, ConstructionError>(e),
            },
            r matches Ok(f) ==> {
                &&& f.wf()
                &&& f.spec_id() == id
                &&& f.spec_is_extended() == (id > CAN_SFF_MASK)
                &&& f.spec_is_remote_frame() == rtr
                &&& f.spec_is_error() == err
                &&& f@.id & CAN_ERR_MASK == id
                &&& f.payload() == data@
            },
    {
        if data.len() > MAX_DATA_LEN {
            return Err(ConstructionError::TooMuchData);
        }
        if id > CAN_EFF_MASK {
            return Err(ConstructionError::IDTooLarge);
        }
        // the extended flag goes on an identifier beyond the standard range
        let eff: u32 = if id > CAN_SFF_MASK { CAN_EFF_FLAG } else { 0 };
        let rtr_bit: u32 = if rtr { CAN_RTR_FLAG } else { 0 };
        let err_bit: u32 = if err { CAN_ERR_FLAG } else { 0 };
        let word: u32 = id | eff | rtr_bit | err_bit;
        proof {
            lemma_compose_word(id, rtr, err);
        }
        let mut full_data: [u8; 8] = [0u8; 8];
        let mut n: usize = 0;
        while n < data.len()
            invariant
                n <= data@.len() <= MAX_DATA_LEN,
                forall|i: int| 0 <= i < n ==> full_data@[i] == data@[i],
                forall|i: int| n <= i < 8 ==> full_data@[i] == 0u8,
            decreases data@.len() - n,
        {
            full_data[n] = data[n];
            n = n + 1;
        }
        let f = Frame { id: word, dlc: data.len() as u8, pad: 0, res0: 0, res1: 0, data: full_data };
        proof {
            assert(f@.data =~= data@ + zeros((MAX_DATA_LEN - data@.len()) as nat));
            assert(f@.reserved =~= zeros(3));
            assert(f.payload() =~= data@);
        }
        Ok(f)
    }

    /// The identifier with the flag bits masked off: 29 bits of an extended
    /// frame, 11 bits of a standard one.
    pub fn id(&self) -> (r: u32)
        ensures
            r == self.spec_id(),
            r <= CAN_EFF_MASK,
            !self.spec_is_extended() ==> r <= CAN_SFF_MASK,
    {
        proof {
            lemma_word_id_range(self.id);
        }
        if self.is_extended() {
            self.id & CAN_EFF_MASK
        } else {
            self.id & CAN_SFF_MASK
        }
    }

    /// Whether the frame uses the extended identifier format.
    pub fn is_extended(&self) -> (r: bool)
        ensures
            r == self.spec_is_extended(),
    {
        self.id & CAN_EFF_FLAG != 0
    }

    /// Whether the frame is a remote transmission request.
    pub fn is_remote_frame(&self) -> (r: bool)
        ensures
            r == self.spec_is_remote_frame(),
    {
        self.id & CAN_RTR_FLAG != 0
    }

    /// Check if frame is an error message
    pub fn is_error(&self) -> (r: bool)
        ensures
            r == self.spec_is_error(),
    {
        self.id & CAN_ERR_FLAG != 0
    }

    /// Return the error class bits of the identifier word
    pub fn err(&self) -> (r: u32)
        ensures
            r == self@.id & CAN_ERR_MASK,
    {
        self.id & CAN_ERR_MASK
    }

    /// The data length code.
    pub fn dlc(&self) -> (r: usize)
        ensures
            r == self@.dlc,
    {
        self.dlc as usize
    }

    /// The payload: exactly the first `dlc` bytes of the buffer. What the
    /// buffer holds beyond them is never handed out. A length field above
    /// eight, which only a frame read from the wire can hold, counts as
    /// eight.
    pub fn data(&self) -> (r: &[u8])
        ensures
            r@ == self.payload(),
            r@.len() == self@.payload_len(),
            self.wf() ==> r@.len() == self@.dlc,
    {
        let len: usize = if self.dlc as usize <= MAX_DATA_LEN {
            self.dlc as usize
        } else {
            MAX_DATA_LEN
        };
        vstd::slice::slice_subrange(self.data.as_slice(), 0, len)
    }

    /// Read error from message and transform it into a `CanError`.
    ///
    /// Bus errors are indicated using the error bit and coded inside the
    /// identifier and the payload. If the frame is malformed, this fails
    /// with a `DecodingError`.
    pub fn error(&self) -> (r: Result<CanError, DecodingError>)
        ensures
            r == decode_error(self@),
    {
        CanError::from_frame(self)
    }

    /// Marks the frame as a remote transmission request for `dlc` bytes.
    /// Sets the remote flag and the data length in place; the identifier,
    /// the other flags and the buffer stay as they are.
    pub fn with_rtr(&mut self, dlc: u8)
        requires
            dlc <= MAX_DATA_LEN,
        ensures
            final(self)@ == (FrameView { id: old(self)@.id | CAN_RTR_FLAG, dlc: dlc, ..old(self)@ }),
            final(self).wf(),
            final(self).spec_is_remote_frame(),
            final(self).spec_id() == old(self).spec_id(),
            final(self).spec_is_extended() == old(self).spec_is_extended(),
            final(self).spec_is_error() == old(self).spec_is_error(),
    {
        proof {
            lemma_set_remote(self.id);
        }
        self.id = self.id | CAN_RTR_FLAG;
        self.dlc = dlc;
    }

    /// Builds a remote transmission request for `dlc` bytes: a frame with
    /// the remote flag and a zeroed buffer. `None` when `dlc` is above eight
    /// or `id` needs more than 29 bits.
    pub fn new_remote(id: u32, dlc: usize) -> (r: Option<Frame>)
        ensures
            r is Some <==> dlc <= MAX_DATA_LEN && id <= CAN_EFF_MASK,
            r matches Some(f) ==> {
                &&& f@ == assemble(id, zeros(dlc as nat), true, false)
                &&& f.wf()
                &&& f.spec_id() == id
                &&& f.spec_is_extended() == (id > CAN_SFF_MASK)
                &&& f.spec_is_remote_frame()
                &&& !f.spec_is_error()
            },
    {
        if dlc > MAX_DATA_LEN {
            return None;
        }
        let buffer: [u8; 8] = [0u8; 8];
        let data = vstd::slice::slice_subrange(buffer.as_slice(), 0, dlc);
        assert(data@ =~= zeros(dlc as nat));
        match Frame::new(id, data, true, false) {
            Ok(frame) => Some(frame),
            Err(_) => None,
        }
    }

    /// The frame as the transport carries it.
    pub fn to_bytes(&self) -> (r: [u8; 16])
        ensures
            r@ == wire_image(self@),
            parse_image(r@) == Some(self@),
    {
        let w = split_word(self.id);
        let r: [u8; 16] = [
            w[0],
            w[1],
            w[2],
            w[3],
            self.dlc,
            self.pad,
            self.res0,
            self.res1,
            self.data[0],
            self.data[1],
            self.data[2],
            self.data[3],
            self.data[4],
            self.data[5],
            self.data[6],
            self.data[7],
        ];
        proof {
            assert(r@ =~= wire_image(self@));
            lemma_wire_round_trip(self@);
        }
        r
    }

    /// Reads a frame from what the transport delivered. `None` unless
    /// `bytes` holds exactly sixteen bytes; what they say is not judged, so
    /// the frame is well formed only where byte 4 is at most eight.
    pub fn from_bytes(bytes: &[u8]) -> (r: Option<Frame>)
        ensures
            match r {
                Some(f) => parse_image(bytes@) == Some(f@),
                None => parse_image(bytes@) is None,
            },
            r matches Some(f) ==> wire_image(f@) == bytes@ && (f.wf() <==> bytes@[4] <= MAX_DATA_LEN),
    {
        if bytes.len() != FRAME_SIZE {
            return None;
        }
        let f = Frame {
            id: join_word(bytes[0], bytes[1], bytes[2], bytes[3]),
            dlc: bytes[4],
            pad: bytes[5],
            res0: bytes[6],
            res1: bytes[7],
            data: [
                bytes[8],
                bytes[9],
                bytes[10],
                bytes[11],
                bytes[12],
                bytes[13],
                bytes[14],
                bytes[15],
            ],
        };
        proof {
            assert(bytes@.subrange(0, 4) =~= seq![bytes@[0], bytes@[1], bytes@[2], bytes@[3]]);
            assert(f@.reserved =~= bytes@.subrange(5, 8));
            assert(f@.data =~= bytes@.subrange(8, 16));
            lemma_image_round_trip(bytes@);
        }
        Some(f)
    }
}

impl ControllerSpecificErrorInformation for Frame {
    /// The last three payload bytes of a frame that carries all eight.
    open spec fn ctrl_err(&self) -> Option<Seq<u8>> {
        if self@.dlc >= MAX_DATA_LEN {
            Some(self@.data.subrange(5, 8))
        } else {
            None
        }
    }

    #[inline]
    fn get_ctrl_err(&self) -> (r: Option<&[u8]>) {
        let data = self.data();
        if data.len() != MAX_DATA_LEN {
            None
        } else {
            assert(data@.subrange(5, 8) =~= self@.data.subrange(5, 8));
            Some(vstd::slice::slice_subrange(data, 5, 8))
        }
    }
}

impl Default for Frame {
    /// The empty standard data frame with identifier zero.
    fn default() -> (f: Frame)
        ensures
            f@ == assemble(0, Seq::<u8>::empty(), false, false),
            f.wf(),
    {
        let f = Frame { id: 0, dlc: 0, pad: 0, res0: 0, res1: 0, data: [0u8; 8] };
        proof {
            assert(compose_word(0, false, false) == 0u32) by (bit_vector);
            assert(f@.reserved =~= zeros(3));
            assert(f@.data =~= Seq::<u8>::empty() + zeros(8));
        }
        f
    }
}

} // verus!
