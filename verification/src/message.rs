//! The datagram format spoken between the driver and the robot.
//!
//! A datagram is a four-byte header followed by a payload of 32-bit words:
//! byte 0 is the message type, byte 1 the number of words, bytes 2 and 3 are
//! zero when written (and ignored when read); each word follows in
//! little-endian byte order. A word is the bit pattern of a 32-bit float.

use vstd::prelude::*;

verus! {

/// Type byte of a `Ping`.
pub const MESSAGE_PING_CHAR: u8 = 0;
/// Type byte of a `Pong`.
pub const MESSAGE_PONG_CHAR: u8 = 1;
/// Type byte of a `State`.
pub const MESSAGE_STATE_CHAR: u8 = 2;
/// Type byte of an `Action`.
pub const MESSAGE_ACTION_CHAR: u8 = 3;

/// A message between driver and robot. Payload words are float bit patterns.
#[derive(Debug)]
pub enum Message {
    Action(Vec<u32>),
    State(Vec<u32>),
    Ping,
    Pong,
}

/// The mathematical value of a message.
pub enum MessageView {
    Action(Seq<u32>),
    State(Seq<u32>),
    Ping,
    Pong,
}

impl View for Message {
    type V = MessageView;

    open spec fn view(&self) -> MessageView {
        match self {
            Message::Action(d) => MessageView::Action(d@),
            Message::State(d) => MessageView::State(d@),
            Message::Ping => MessageView::Ping,
            Message::Pong => MessageView::Pong,
        }
    }
}

/// Why a datagram could not be read as a message.
#[derive(Debug, Clone, Copy, PartialEq, Eq, Structural)]
pub enum MessageError {
    /// Fewer than four bytes: no header.
    MissingHeader,
    /// The length does not match the word count in the header.
    LengthIncorrect,
    /// The type byte names no message.
    UnknownMessageType,
}

/// The type byte of a message.
pub open spec fn type_code(m: MessageView) -> u8 {
    match m {
        MessageView::Ping => MESSAGE_PING_CHAR,
        MessageView::Pong => MESSAGE_PONG_CHAR,
        MessageView::Action(_) => MESSAGE_ACTION_CHAR,
        MessageView::State(_) => MESSAGE_STATE_CHAR,
    }
}

/// The words a message carries (none for `Ping` and `Pong`).
pub open spec fn payload(m: MessageView) -> Seq<u32> {
    match m {
        MessageView::Action(d) => d,
        MessageView::State(d) => d,
        _ => Seq::empty(),
    }
}

/// The four little-endian bytes of a word.
pub open spec fn le_bytes(w: u32) -> Seq<u8> {
    seq![(w & 0xff) as u8, ((w >> 8u32) & 0xff) as u8, ((w >> 16u32) & 0xff) as u8, ((w >> 24u32) & 0xff) as u8]
}

/// The word whose little-endian bytes are `b0 b1 b2 b3`.
pub open spec fn le_word(b0: u8, b1: u8, b2: u8, b3: u8) -> u32 {
    (b0 as u32) | ((b1 as u32) << 8u32) | ((b2 as u32) << 16u32) | ((b3 as u32) << 24u32)
}

/// The bytes of a sequence of words, each in little-endian order.
pub open spec fn words_to_bytes(ws: Seq<u32>) -> Seq<u8>
    decreases ws.len(),
{
    if ws.len() == 0 {
        Seq::empty()
    } else {
        words_to_bytes(ws.drop_last()) + le_bytes(ws.last())
    }
}

/// The datagram that encodes `m` (meaningful when it carries at most 255 words).
pub open spec fn spec_encode(m: MessageView) -> Seq<u8> {
    seq![type_code(m), payload(m).len() as u8, 0u8, 0u8] + words_to_bytes(payload(m))
}

/// The word stored at byte offset `off` of `b`.
pub open spec fn word_at(b: Seq<u8>, off: int) -> u32 {
    le_word(b[off], b[off + 1], b[off + 2], b[off + 3])
}

/// The words that follow the header of `b`, as many as its byte 1 says.
pub open spec fn payload_words(b: Seq<u8>) -> Seq<u32> {
    Seq::new(b[1] as nat, |i: int| word_at(b, 4 + 4 * i))
}

/// What reading the datagram `b` gives.
pub open spec fn spec_decode(b: Seq<u8>) -> Result<MessageView, MessageError> {
    if b.len() < 4 {
        Err(MessageError::MissingHeader)
    } else if b.len() != (b[1] as int) * 4 + 4 {
        Err(MessageError::LengthIncorrect)
    } else if b[0] == MESSAGE_PING_CHAR {
        Ok(MessageView::Ping)
    } else if b[0] == MESSAGE_PONG_CHAR {
        Ok(MessageView::Pong)
    } else if b[0] == MESSAGE_ACTION_CHAR {
        Ok(MessageView::Action(payload_words(b)))
    } else if b[0] == MESSAGE_STATE_CHAR {
        Ok(MessageView::State(payload_words(b)))
    } else {
        Err(MessageError::UnknownMessageType)
    }
}

/// `b` holds, after its four-byte header, exactly the words `ws`, each as
/// its four bytes from least to most significant; byte 1 counts them.
pub open spec fn bytes_carry_words(b: Seq<u8>, ws: Seq<u32>) -> bool {
    &&& b.len() == 4 + 4 * ws.len()
    &&& b[1] == ws.len()
    &&& forall|i: int| 0 <= i < ws.len() ==> {
        &&& b[4 + 4 * i] == (#[trigger] ws[i]) % 256
        &&& b[4 + 4 * i + 1] == (ws[i] / 256) % 256
        &&& b[4 + 4 * i + 2] == (ws[i] / 65536) % 256
        &&& b[4 + 4 * i + 3] == ws[i] / 16777216
    }
}

/// What a call of `decode` returns, as a mathematical value.
pub open spec fn decode_view(r: Result<Message, MessageError>) -> Result<MessageView, MessageError> {
    match r {
        Ok(m) => Ok(m@),
        Err(e) => Err(e),
    }
}

impl Message {
    /// Builds the message named by a type byte around `data` (dropped for
    /// `Ping` and `Pong`).
    fn from_type_and_data(m_type: u8, data: Vec<u32>) -> (res: Result<Self, MessageError>)
        ensures
            m_type == MESSAGE_PING_CHAR ==> res == Ok::<Message, MessageError>(Message::Ping),
            m_type == MESSAGE_PONG_CHAR ==> res == Ok::<Message, MessageError>(Message::Pong),
            m_type == MESSAGE_ACTION_CHAR ==> res == Ok::<Message, MessageError>(Message::Action(data)),
            m_type == MESSAGE_STATE_CHAR ==> res == Ok::<Message, MessageError>(Message::State(data)),
            m_type > MESSAGE_ACTION_CHAR ==> res == Err::<Message, MessageError>(MessageError::UnknownMessageType),
    {
        match m_type {
            MESSAGE_PING_CHAR => Ok(Self::Ping),
            MESSAGE_PONG_CHAR => Ok(Self::Pong),
            MESSAGE_ACTION_CHAR => Ok(Self::Action(data)),
            MESSAGE_STATE_CHAR => Ok(Self::State(data)),
            _ => Err(MessageError::UnknownMessageType),
        }
    }

    /// The type byte of this message.
    fn to_type_int(&self) -> (res: u8)
        ensures
            res == type_code(self@),
    {
        match self {
            Self::Ping => MESSAGE_PING_CHAR,
            Self::Pong => MESSAGE_PONG_CHAR,
            Self::Action(_d) => MESSAGE_ACTION_CHAR,
            Self::State(_d) => MESSAGE_STATE_CHAR,
        }
    }
}

/// The four little-endian bytes of `w`.
fn push_le_bytes(outp: &mut Vec<u8>, w: u32)
    ensures
        final(outp)@ == old(outp)@ + le_bytes(w),
{
    outp.push((w & 0xff) as u8);
    outp.push(((w >> 8u32) & 0xff) as u8);
    outp.push(((w >> 16u32) & 0xff) as u8);
    outp.push(((w >> 24u32) & 0xff) as u8);
    assert(outp@ =~= old(outp)@ + le_bytes(w));
}

impl Message {
    /// Writes this message as a datagram: the type byte, the word count,
    /// two zero bytes, then each word in little-endian order.
    pub fn encode(&self) -> (outp: Vec<u8>)
        requires
            payload(self@).len() <= 255,
        ensures
            outp@ == spec_encode(self@),
            outp@.len() == 4 + 4 * payload(self@).len(),
            outp@[1] == payload(self@).len(),
            outp@[2] == 0,
            outp@[3] == 0,
            self is Ping ==> outp@[0] == 0 && outp@.len() == 4,
            self is Pong ==> outp@[0] == 1 && outp@.len() == 4,
            self is State ==> outp@[0] == 2,
            self is Action ==> outp@[0] == 3,
            self matches Message::Action(d) ==> bytes_carry_words(outp@, d@),
            self matches Message::State(d) ==> bytes_carry_words(outp@, d@),
    {
        let mut outp: Vec<u8> = Vec::new();
        let dummy: Vec<u32> = Vec::new();
        let data: &Vec<u32> = match self {
            Self::Ping => &dummy,
            Self::Pong => &dummy,
            Self::Action(d) => d,
            Self::State(d) => d,
        };
        outp.push(self.to_type_int());
        outp.push(data.len() as u8);
        outp.push(0);
        outp.push(0);
        let ghost header = outp@;
        assert(header =~= seq![type_code(self@), payload(self@).len() as u8, 0u8, 0u8]);

        let n = data.len();
        let mut i: usize = 0;
        assert(data@.take(0) =~= Seq::<u32>::empty());
        while i < n
            invariant
                n == data@.len(),
                data@ == payload(self@),
                i <= n,
                outp@ == header + words_to_bytes(data@.take(i as int)),
            decreases n - i,
        {
            push_le_bytes(&mut outp, data[i]);
            assert(data@.take(i + 1).drop_last() =~= data@.take(i as int));
            assert(outp@ =~= header + words_to_bytes(data@.take(i + 1)));
            i = i + 1;
        }
        assert(data@.take(n as int) =~= data@);
        proof {
            lemma_words_to_bytes_len(data@);
            lemma_encode_carries_words(self@);
        }
        outp
    }

    /// Reads a datagram. Fails with `MissingHeader` below four bytes, with
    /// `LengthIncorrect` unless the length is four bytes per announced word
    /// plus the header, and with `UnknownMessageType` for a type byte that
    /// names no message.
    pub fn decode(data: &[u8]) -> (res: Result<Message, MessageError>)
        ensures
            decode_view(res) == spec_decode(data@),
            res == Err::<Message, MessageError>(MessageError::MissingHeader) <==> data@.len() < 4,
            res == Err::<Message, MessageError>(MessageError::LengthIncorrect) <==> data@.len() >= 4
                && data@.len() != 4 + 4 * (data@[1] as int),
            res == Err::<Message, MessageError>(MessageError::UnknownMessageType) <==> data@.len() >= 4
                && data@.len() == 4 + 4 * (data@[1] as int) && data@[0] > 3,
            res is Ok ==> data@.len() == 4 + 4 * (data@[1] as int),
            res matches Ok(Message::Ping) <==> res is Ok && data@[0] == 0,
            res matches Ok(Message::Pong) <==> res is Ok && data@[0] == 1,
            res matches Ok(Message::State(d)) ==> data@[0] == 2 && bytes_carry_words(data@, d@),
            res matches Ok(Message::Action(d)) ==> data@[0] == 3 && bytes_carry_words(data@, d@),
            res is Ok && data@[0] == 2 ==> res matches Ok(Message::State(_)),
            res is Ok && data@[0] == 3 ==> res matches Ok(Message::Action(_)),
    {
        if data.len() < 4 {
            return Err(MessageError::MissingHeader);
        }
        let m_type = data[0];
        let len: usize = data[1] as usize;

        if data.len() != len * 4 + 4 {
            return Err(MessageError::LengthIncorrect);
        }

        let mut float_array: Vec<u32> = Vec::with_capacity(len);
        let mut i: usize = 0;
        while i < len
            invariant
                len == data@[1],
                data@.len() == len * 4 + 4,
                i <= len,
                float_array@ =~= Seq::new(i as nat, |k: int| word_at(data@, 4 + 4 * k)),
            decreases len - i,
        {
            let offset: usize = 4 + 4 * i;
            let w: u32 = (data[offset] as u32) | ((data[offset + 1] as u32) << 8u32)
                | ((data[offset + 2] as u32) << 16u32) | ((data[offset + 3] as u32) << 24u32);
            float_array.push(w);
            i = i + 1;
        }
        assert(float_array@ =~= payload_words(data@));

        let res = Self::from_type_and_data(m_type, float_array);
        proof {
            if spec_decode(data@) is Ok {
                lemma_decode_reads_words(data@);
            }
        }
        res
    }
}

/// A datagram holds four bytes per word.
pub proof fn lemma_words_to_bytes_len(ws: Seq<u32>)
    ensures
        words_to_bytes(ws).len() == 4 * ws.len(),
    decreases ws.len(),
{
    if ws.len() > 0 {
        lemma_words_to_bytes_len(ws.drop_last());
    }
}

/// Byte `4 * i + j` of the bytes of `ws` is byte `j` of word `i`.
pub proof fn lemma_words_to_bytes_index(ws: Seq<u32>, i: int, j: int)
    requires
        0 <= i < ws.len(),
        0 <= j < 4,
    ensures
        words_to_bytes(ws)[4 * i + j] == le_bytes(ws[i])[j],
    decreases ws.len(),
{
    let p = ws.drop_last();
    lemma_words_to_bytes_len(p);
    if i < ws.len() - 1 {
        lemma_words_to_bytes_index(p, i, j);
    }
}

/// Reading back the little-endian bytes of a word gives the word.
pub proof fn lemma_le_word_of_bytes(w: u32)
    ensures
        le_word((w & 0xff) as u8, ((w >> 8u32) & 0xff) as u8, ((w >> 16u32) & 0xff) as u8, ((w >> 24u32) & 0xff) as u8) == w,
{
    assert((((w & 0xff) as u8) as u32) | (((((w >> 8u32) & 0xff) as u8) as u32) << 8u32)
        | (((((w >> 16u32) & 0xff) as u8) as u32) << 16u32) | (((((w >> 24u32) & 0xff) as u8) as u32) << 24u32) == w) by (bit_vector);
}

/// Writing the word read from four bytes gives back those bytes.
pub proof fn lemma_bytes_of_le_word(b0: u8, b1: u8, b2: u8, b3: u8)
    ensures
        le_bytes(le_word(b0, b1, b2, b3)) == seq![b0, b1, b2, b3],
{
    let w = le_word(b0, b1, b2, b3);
    assert(w == (b0 as u32) | ((b1 as u32) << 8u32) | ((b2 as u32) << 16u32) | ((b3 as u32) << 24u32));
    assert(((((b0 as u32) | ((b1 as u32) << 8u32) | ((b2 as u32) << 16u32) | ((b3 as u32) << 24u32)) & 0xff) as u8) == b0) by (bit_vector);
    assert((((((b0 as u32) | ((b1 as u32) << 8u32) | ((b2 as u32) << 16u32) | ((b3 as u32) << 24u32)) >> 8u32) & 0xff) as u8) == b1) by (bit_vector);
    assert((((((b0 as u32) | ((b1 as u32) << 8u32) | ((b2 as u32) << 16u32) | ((b3 as u32) << 24u32)) >> 16u32) & 0xff) as u8) == b2) by (bit_vector);
    assert((((((b0 as u32) | ((b1 as u32) << 8u32) | ((b2 as u32) << 16u32) | ((b3 as u32) << 24u32)) >> 24u32) & 0xff) as u8) == b3) by (bit_vector);
    assert(le_bytes(w) =~= seq![b0, b1, b2, b3]);
}

/// Reading a written message gives the message back, for every message of at
/// most 255 words.
pub proof fn lemma_decode_encode(m: MessageView)
    requires
        payload(m).len() <= 255,
    ensures
        spec_decode(spec_encode(m)) == Ok::<MessageView, MessageError>(m),
{
    let ws = payload(m);
    let b = spec_encode(m);
    lemma_words_to_bytes_len(ws);
    assert(b[1] == ws.len());
    assert(b[0] == type_code(m));
    assert forall|i: int| 0 <= i < ws.len() implies #[trigger] word_at(b, 4 + 4 * i) == ws[i] by {
        lemma_words_to_bytes_index(ws, i, 0);
        lemma_words_to_bytes_index(ws, i, 1);
        lemma_words_to_bytes_index(ws, i, 2);
        lemma_words_to_bytes_index(ws, i, 3);
        assert(b[4 + 4 * i] == words_to_bytes(ws)[4 * i + 0]);
        assert(b[4 + 4 * i + 1] == words_to_bytes(ws)[4 * i + 1]);
        assert(b[4 + 4 * i + 2] == words_to_bytes(ws)[4 * i + 2]);
        assert(b[4 + 4 * i + 3] == words_to_bytes(ws)[4 * i + 3]);
        lemma_le_word_of_bytes(ws[i]);
    }
    assert(payload_words(b) =~= ws);
}

/// Writing a read message gives back the datagram, when its two padding
/// bytes are zero and its word count is that of the message (zero for
/// `Ping` and `Pong`).
pub proof fn lemma_encode_decode(b: Seq<u8>)
    requires
        spec_decode(b) is Ok,
        b[2] == 0,
        b[3] == 0,
        payload(spec_decode(b)->Ok_0).len() == b[1],
    ensures
        spec_encode(spec_decode(b)->Ok_0) == b,
{
    let m = spec_decode(b)->Ok_0;
    let ws = payload(m);
    let e = spec_encode(m);
    lemma_words_to_bytes_len(ws);
    assert(ws =~= payload_words(b));
    assert forall|k: int| 0 <= k < b.len() implies #[trigger] e[k] == b[k] by {
        if k >= 4 {
            let i = (k - 4) / 4;
            let j = (k - 4) % 4;
            assert(k - 4 == 4 * i + j);
            lemma_words_to_bytes_index(ws, i, j);
            let o = 4 + 4 * i;
            lemma_bytes_of_le_word(b[o], b[o + 1], b[o + 2], b[o + 3]);
            assert(ws[i] == word_at(b, o));
            if j == 0 {
                assert(e[k] == b[o]);
            } else if j == 1 {
                assert(e[k] == b[o + 1]);
            } else if j == 2 {
                assert(e[k] == b[o + 2]);
            } else {
                assert(e[k] == b[o + 3]);
            }
        }
    }
    assert(e =~= b);
}

/// Reading ignores the two padding bytes of the header: datagrams that
/// differ only there read the same.
pub proof fn lemma_decode_ignores_padding(b: Seq<u8>, c: Seq<u8>)
    requires
        b.len() == c.len(),
        forall|k: int| 0 <= k < b.len() && k != 2 && k != 3 ==> b[k] == c[k],
    ensures
        spec_decode(b) == spec_decode(c),
{
    if b.len() >= 4 {
        assert(b[0] == c[0] && b[1] == c[1]);
        if b.len() == (b[1] as int) * 4 + 4 {
            assert forall|i: int| 0 <= i < b[1] implies #[trigger] word_at(b, 4 + 4 * i) == word_at(c, 4 + 4 * i) by {
                assert(b[4 + 4 * i] == c[4 + 4 * i]);
                assert(b[4 + 4 * i + 1] == c[4 + 4 * i + 1]);
                assert(b[4 + 4 * i + 2] == c[4 + 4 * i + 2]);
                assert(b[4 + 4 * i + 3] == c[4 + 4 * i + 3]);
            }
            assert(payload_words(b) =~= payload_words(c));
        }
    }
}

proof fn lemma_le_bytes_arith(w: u32)
    ensures
        le_bytes(w)[0] == w % 256,
        le_bytes(w)[1] == (w / 256) % 256,
        le_bytes(w)[2] == (w / 65536) % 256,
        le_bytes(w)[3] == w / 16777216,
{
    assert(((w & 0xff) as u8) == w % 256) by (bit_vector);
    assert((((w >> 8u32) & 0xff) as u8) == (w / 256) % 256) by (bit_vector);
    assert((((w >> 16u32) & 0xff) as u8) == (w / 65536) % 256) by (bit_vector);
    assert((((w >> 24u32) & 0xff) as u8) == w / 16777216) by (bit_vector);
}

/// A written datagram carries the message's words, least significant byte
/// first.
pub proof fn lemma_encode_carries_words(m: MessageView)
    requires
        payload(m).len() <= 255,
    ensures
        bytes_carry_words(spec_encode(m), payload(m)),
{
    let ws = payload(m);
    let b = spec_encode(m);
    lemma_words_to_bytes_len(ws);
    assert forall|i: int| 0 <= i < ws.len() implies {
        &&& b[4 + 4 * i] == (#[trigger] ws[i]) % 256
        &&& b[4 + 4 * i + 1] == (ws[i] / 256) % 256
        &&& b[4 + 4 * i + 2] == (ws[i] / 65536) % 256
        &&& b[4 + 4 * i + 3] == ws[i] / 16777216
    } by {
        lemma_words_to_bytes_index(ws, i, 0);
        lemma_words_to_bytes_index(ws, i, 1);
        lemma_words_to_bytes_index(ws, i, 2);
        lemma_words_to_bytes_index(ws, i, 3);
        assert(b[4 + 4 * i] == words_to_bytes(ws)[4 * i + 0]);
        assert(b[4 + 4 * i + 1] == words_to_bytes(ws)[4 * i + 1]);
        assert(b[4 + 4 * i + 2] == words_to_bytes(ws)[4 * i + 2]);
        assert(b[4 + 4 * i + 3] == words_to_bytes(ws)[4 * i + 3]);
        lemma_le_bytes_arith(ws[i]);
    }
}

/// A datagram that reads as a `State` or an `Action` carries its words,
/// least significant byte first.
pub proof fn lemma_decode_reads_words(b: Seq<u8>)
    requires
        spec_decode(b) is Ok,
    ensures
        bytes_carry_words(b, payload(spec_decode(b)->Ok_0)) || b[0] <= 1,
        b.len() == 4 + 4 * (b[1] as int),
{
    let ws = payload_words(b);
    if b[0] > 1 {
        assert forall|i: int| 0 <= i < ws.len() implies {
            &&& b[4 + 4 * i] == (#[trigger] ws[i]) % 256
            &&& b[4 + 4 * i + 1] == (ws[i] / 256) % 256
            &&& b[4 + 4 * i + 2] == (ws[i] / 65536) % 256
            &&& b[4 + 4 * i + 3] == ws[i] / 16777216
        } by {
            let o = 4 + 4 * i;
            lemma_bytes_of_le_word(b[o], b[o + 1], b[o + 2], b[o + 3]);
            lemma_le_bytes_arith(ws[i]);
            assert(ws[i] == le_word(b[o], b[o + 1], b[o + 2], b[o + 3]));
            assert(le_bytes(ws[i])[0] == b[o]);
            assert(le_bytes(ws[i])[1] == b[o + 1]);
            assert(le_bytes(ws[i])[2] == b[o + 2]);
            assert(le_bytes(ws[i])[3] == b[o + 3]);
        }
    }
}

} // verus!
