//! Wire format of a frame: encoding for the host-to-device direction and
//! validated decoding of device replies.

use vstd::prelude::*;

verus! {

/// Running XOR of a byte sequence, folded from the left starting at zero.
pub open spec fn xor_of(s: Seq<u8>) -> u8
    decreases s.len(),
{
    if s.len() == 0 {
        0u8
    } else {
        xor_of(s.drop_last()) ^ s.last()
    }
}

/// XOR of all bytes of `buf`: the checksum that closes an encoded frame.
pub fn calc_xor(buf: Vec<u8>) -> (r: u8)
    ensures
        r == xor_of(buf@),
{
    let mut tmp: u8 = 0;
    let mut i: usize = 0;
    while i < buf.len()
        invariant
            i <= buf@.len(),
            tmp == xor_of(buf@.take(i as int)),
        decreases buf@.len() - i,
    {
        assert(buf@.take(i as int + 1).drop_last() == buf@.take(i as int));
        tmp = tmp ^ buf[i];
        i = i + 1;
    }
    assert(buf@.take(buf@.len() as int) == buf@);
    tmp
}

/// Purpose of a frame, bound to a one-byte wire code.
#[derive(Debug, Clone, Copy, PartialEq, Eq, Structural)]
pub enum State {
    Scan,
    LED,
    ID,
    ScanData,
    Control,
}

/// The wire code of each kind.
pub open spec fn kind_code(s: State) -> u8 {
    match s {
        State::Scan => 0x22,
        State::LED => 0x24,
        State::ID => 0x02,
        State::ScanData => 0x30,
        State::Control => 0x04,
    }
}

/// The kind that a wire code stands for, if it is one of the known codes.
pub open spec fn kind_of(code: u8) -> Option<State> {
    if code == 0x22 {
        Some(State::Scan)
    } else if code == 0x24 {
        Some(State::LED)
    } else if code == 0x02 {
        Some(State::ID)
    } else if code == 0x30 {
        Some(State::ScanData)
    } else if code == 0x04 {
        Some(State::Control)
    } else {
        None
    }
}

impl State {
    /// Wire code of this kind.
    pub fn code(&self) -> (r: u8)
        ensures
            r == kind_code(*self),
    {
        match self {
            State::Scan => 0x22,
            State::LED => 0x24,
            State::ID => 0x02,
            State::ScanData => 0x30,
            State::Control => 0x04,
        }
    }

    /// Kind of a wire code; `None` for a code outside the table.
    pub fn from_code(code: u8) -> (r: Option<State>)
        ensures
            r == kind_of(code),
    {
        match code {
            0x22 => Some(State::Scan),
            0x24 => Some(State::LED),
            0x02 => Some(State::ID),
            0x30 => Some(State::ScanData),
            0x04 => Some(State::Control),
            _ => None,
        }
    }
}

/// Largest payload whose length fits the 16-bit length field.
pub const MAX_PAYLOAD: usize = 0xFFFF;

/// The two magic bytes that open every frame.
pub open spec fn magic_bytes() -> Seq<u8> {
    seq![0x55u8, 0xAAu8]
}

/// The six bytes before the payload: a zero pad, the magic, the kind code
/// and the payload length, little-endian.
pub open spec fn frame_header(kind: State, len: nat) -> Seq<u8> {
    seq![0x00u8, 0x55u8, 0xAAu8, kind_code(kind), (len % 256) as u8, (len / 256) as u8]
}

/// Everything an encoded frame holds before its checksum.
pub open spec fn frame_body(kind: State, payload: Seq<u8>) -> Seq<u8> {
    frame_header(kind, payload.len()) + payload
}

/// The bytes that encode a frame: its body followed by the XOR of that body.
pub open spec fn encoding(kind: State, payload: Seq<u8>) -> Seq<u8> {
    frame_body(kind, payload).push(xor_of(frame_body(kind, payload)))
}

/// Why an inbound buffer holds no message.
#[derive(Debug, Clone, Copy, PartialEq, Eq, Structural)]
pub enum FrameError {
    /// Too short, wrong magic, nonzero reserved byte, or a payload that runs
    /// past the end of the buffer.
    Malformed,
    /// A kind code outside the table.
    UnknownKind(u8),
}

/// Payload length declared by bytes 4 and 5 of an inbound buffer.
pub open spec fn declared_len(raw: Seq<u8>) -> int {
    raw[4] as int + 256 * raw[5] as int
}

/// The decoding of an inbound buffer, whose magic stands at offset 0: the
/// checks run in order (length, magic, reserved byte, kind, payload bounds).
pub open spec fn decode_spec(raw: Seq<u8>) -> Result<(State, Seq<u8>), FrameError> {
    if raw.len() < 4 || raw[0] != 0x55 || raw[1] != 0xAA || raw[3] != 0 {
        Err(FrameError::Malformed)
    } else if kind_of(raw[2]) is None {
        Err(FrameError::UnknownKind(raw[2]))
    } else if raw.len() < 6 || raw.len() < 6 + declared_len(raw) {
        Err(FrameError::Malformed)
    } else {
        Ok((kind_of(raw[2])->Some_0, raw.subrange(6, 6 + declared_len(raw))))
    }
}

/// The message in an inbound buffer, or `None` where it holds none.
pub open spec fn decoded(raw: Seq<u8>) -> Option<(State, Seq<u8>)> {
    match decode_spec(raw) {
        Ok(m) => Some(m),
        Err(_) => None,
    }
}

/// One protocol message: its kind and its payload.
#[derive(Debug)]
pub struct SocketData {
    pub magic: [u8; 2],
    pub state: State,
    pub data: Vec<u8>,
}

impl SocketData {
    /// Kind and payload of this frame.
    pub open spec fn model(&self) -> (State, Seq<u8>) {
        (self.state, self.data@)
    }

    /// A frame of the given kind that owns a copy of `data`.
    pub fn new(state: State, data: &[u8]) -> (r: SocketData)
        requires
            data@.len() <= MAX_PAYLOAD,
        ensures
            r.magic@ == magic_bytes(),
            r.state == state,
            r.data@ == data@,
    {
        SocketData { magic: [0x55, 0xAA], state: state, data: vstd::slice::slice_to_vec(data) }
    }

    /// Validates an inbound buffer and decodes the frame it holds, or says
    /// why it holds none. No checksum is read.
    pub fn decode(raw: &[u8]) -> (r: Result<SocketData, FrameError>)
        ensures
            match r {
                Ok(f) => decode_spec(raw@) == Ok::<(State, Seq<u8>), FrameError>(f.model())
                    && f.magic@ == magic_bytes(),
                Err(e) => decode_spec(raw@) == Err::<(State, Seq<u8>), FrameError>(e),
            },
    {
        if raw.len() < 4 || raw[0] != 0x55 || raw[1] != 0xAA || raw[3] != 0x00 {
            return Err(FrameError::Malformed);
        }
        let state = match State::from_code(raw[2]) {
            Some(s) => s,
            None => return Err(FrameError::UnknownKind(raw[2])),
        };
        if raw.len() < 6 {
            return Err(FrameError::Malformed);
        }
        let data_length: usize = raw[4] as usize + 256 * (raw[5] as usize);
        if raw.len() - 6 < data_length {
            return Err(FrameError::Malformed);
        }
        let payload = vstd::slice::slice_subrange(raw, 6, 6 + data_length);
        let r = SocketData { magic: [0x55, 0xAA], state: state, data: vstd::slice::slice_to_vec(payload) };
        assert(r.magic@ =~= magic_bytes());
        Ok(r)
    }

    /// The frame an inbound buffer holds, or `None` where it is malformed or
    /// of an unknown kind.
    pub fn parse(raw_data: &[u8]) -> (r: Option<SocketData>)
        ensures
            match r {
                Some(f) => decoded(raw_data@) == Some(f.model()) && f.magic@ == magic_bytes(),
                None => decoded(raw_data@) is None,
            },
    {
        match SocketData::decode(raw_data) {
            Ok(f) => Some(f),
            Err(_) => None,
        }
    }

    /// Encodes this frame for the host-to-device direction. The frame itself
    /// is left as it was.
    pub fn build(&mut self) -> (r: Vec<u8>)
        requires
            old(self).data@.len() <= MAX_PAYLOAD,
        ensures
            *final(self) == *old(self),
            r@ == encoding(old(self).state, old(self).data@),
    {
        let n = self.data.len();
        let mut tmp: Vec<u8> = Vec::new();
        tmp.push(0x00);
        tmp.push(0x55);
        tmp.push(0xAA);
        tmp.push(self.state.code());
        tmp.push((n % 256) as u8);
        tmp.push((n / 256) as u8);
        assert(tmp@ =~= frame_header(self.state, n as nat) + self.data@.take(0));
        let mut i: usize = 0;
        while i < n
            invariant
                n == self.data@.len(),
                i <= n,
                tmp@ == frame_header(self.state, n as nat) + self.data@.take(i as int),
            decreases n - i,
        {
            assert(self.data@.take(i as int + 1) == self.data@.take(i as int).push(self.data@[i as int]));
            tmp.push(self.data[i]);
            i = i + 1;
        }
        assert(self.data@.take(n as int) == self.data@);
        assert(tmp@ =~= frame_body(self.state, self.data@));
        let checksum = calc_xor(tmp.clone());
        tmp.push(checksum);
        tmp
    }
}

} // verus!
