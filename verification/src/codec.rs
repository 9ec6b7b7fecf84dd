use vstd::prelude::*;

verus! {

/// The eight bytes of `n`, most significant first.
pub open spec fn be_bytes(n: u64) -> Seq<u8> {
    seq![
        (n >> 56u64) as u8,
        (n >> 48u64) as u8,
        (n >> 40u64) as u8,
        (n >> 32u64) as u8,
        (n >> 24u64) as u8,
        (n >> 16u64) as u8,
        (n >> 8u64) as u8,
        n as u8,
    ]
}

/// The number whose big-endian bytes are the first eight of `b`.
pub open spec fn be_value(b: Seq<u8>) -> u64 {
    ((b[0] as u64) << 56u64) | ((b[1] as u64) << 48u64) | ((b[2] as u64) << 40u64) | ((
    b[3] as u64) << 32u64) | ((b[4] as u64) << 24u64) | ((b[5] as u64) << 16u64) | ((
    b[6] as u64) << 8u64) | (b[7] as u64)
}

/// A message on the wire: its length as eight big-endian bytes, then its bytes.
pub open spec fn frame(data: Seq<u8>) -> Seq<u8> {
    be_bytes(data.len() as u64) + data
}

/// Reading back the bytes written for a number gives the number.
pub proof fn law_be_value_of_be_bytes(n: u64)
    ensures
        be_value(be_bytes(n)) == n,
{
    let b = be_bytes(n);
    let (b0, b1, b2, b3, b4, b5, b6, b7) = (b[0], b[1], b[2], b[3], b[4], b[5], b[6], b[7]);
    assert(((b0 as u64) << 56u64) | ((b1 as u64) << 48u64) | ((b2 as u64) << 40u64) | ((
    b3 as u64) << 32u64) | ((b4 as u64) << 24u64) | ((b5 as u64) << 16u64) | ((b6 as u64)
        << 8u64) | (b7 as u64) == n) by (bit_vector)
        requires
            b0 == (n >> 56u64) as u8,
            b1 == (n >> 48u64) as u8,
            b2 == (n >> 40u64) as u8,
            b3 == (n >> 32u64) as u8,
            b4 == (n >> 24u64) as u8,
            b5 == (n >> 16u64) as u8,
            b6 == (n >> 8u64) as u8,
            b7 == n as u8,
    ;
}

/// Writing the number that eight bytes announce gives back those eight bytes.
pub proof fn law_be_bytes_of_be_value(b: Seq<u8>)
    requires
        b.len() == 8,
    ensures
        be_bytes(be_value(b)) == b,
{
    let (b0, b1, b2, b3, b4, b5, b6, b7) = (b[0], b[1], b[2], b[3], b[4], b[5], b[6], b[7]);
    let v = be_value(b);
    assert((v >> 56u64) as u8 == b0 && (v >> 48u64) as u8 == b1 && (v >> 40u64) as u8 == b2
        && (v >> 32u64) as u8 == b3 && (v >> 24u64) as u8 == b4 && (v >> 16u64) as u8 == b5
        && (v >> 8u64) as u8 == b6 && v as u8 == b7) by (bit_vector)
        requires
            v == ((b0 as u64) << 56u64) | ((b1 as u64) << 48u64) | ((b2 as u64) << 40u64) | ((
            b3 as u64) << 32u64) | ((b4 as u64) << 24u64) | ((b5 as u64) << 16u64) | ((
            b6 as u64) << 8u64) | (b7 as u64),
    ;
    assert(be_bytes(v) =~= b);
}

/// A reader of a frame gets back what the writer sent: the header announces the
/// length of the message, and the message follows the header unchanged.
pub proof fn law_frame_roundtrip(data: Seq<u8>)
    requires
        data.len() <= u64::MAX,
    ensures
        frame(data).len() == 8 + data.len(),
        be_value(frame(data)) == data.len(),
        frame(data).skip(8) == data,
{
    let n = data.len() as u64;
    law_be_value_of_be_bytes(n);
    let f = frame(data);
    assert(f.take(8) =~= be_bytes(n));
    assert(be_value(f) == be_value(f.take(8)));
    assert(f.skip(8) =~= data);
}

/// `256` to the power `k`.
pub open spec fn pow256(k: nat) -> int
    decreases k,
{
    if k == 0 {
        1
    } else {
        256 * pow256((k - 1) as nat)
    }
}

/// The number that the bytes `b` write in base 256, most significant byte first.
pub open spec fn base256_value(b: Seq<u8>) -> int
    decreases b.len(),
{
    if b.len() == 0 {
        0
    } else {
        base256_value(b.drop_last()) * 256 + b.last() as int
    }
}

/// The header of a number is its base-256 digits, most significant first: the
/// byte `k` places from the end is the `k`-th digit of `n`.
pub proof fn law_be_bytes_are_digits(n: u64, k: int)
    requires
        0 <= k < 8,
    ensures
        be_bytes(n).len() == 8,
        be_bytes(n)[7 - k] as int == (n as int / pow256(k as nat)) % 256,
{
    if k == 0 {
        assert((n as u8) as u64 == (n / 0x1u64) % 0x100u64) by (bit_vector);
        assert(pow256(0) == 1) by {
            reveal_with_fuel(pow256, 1);
        }
    } else if k == 1 {
        assert(((n >> 8u64) as u8) as u64 == (n / 0x100u64) % 0x100u64) by (bit_vector);
        assert(pow256(1) == 256) by {
            reveal_with_fuel(pow256, 2);
        }
    } else if k == 2 {
        assert(((n >> 16u64) as u8) as u64 == (n / 0x10000u64) % 0x100u64) by (bit_vector);
        assert(pow256(2) == 65536) by {
            reveal_with_fuel(pow256, 3);
        }
    } else if k == 3 {
        assert(((n >> 24u64) as u8) as u64 == (n / 0x1000000u64) % 0x100u64) by (bit_vector);
        assert(pow256(3) == 16777216) by {
            reveal_with_fuel(pow256, 4);
        }
    } else if k == 4 {
        assert(((n >> 32u64) as u8) as u64 == (n / 0x100000000u64) % 0x100u64) by (bit_vector);
        assert(pow256(4) == 4294967296) by {
            reveal_with_fuel(pow256, 5);
        }
    } else if k == 5 {
        assert(((n >> 40u64) as u8) as u64 == (n / 0x10000000000u64) % 0x100u64) by (bit_vector);
        assert(pow256(5) == 1099511627776) by {
            reveal_with_fuel(pow256, 6);
        }
    } else if k == 6 {
        assert(((n >> 48u64) as u8) as u64 == (n / 0x1000000000000u64) % 0x100u64) by (bit_vector);
        assert(pow256(6) == 281474976710656) by {
            reveal_with_fuel(pow256, 7);
        }
    } else if k == 7 {
        assert(((n >> 56u64) as u8) as u64 == (n / 0x100000000000000u64) % 0x100u64) by (bit_vector);
        assert(pow256(7) == 72057594037927936) by {
            reveal_with_fuel(pow256, 8);
        }
    }
}

/// Reading a header gives the number its eight bytes write in base 256, most
/// significant byte first.
pub proof fn law_be_value_is_base256(b: Seq<u8>)
    requires
        b.len() == 8,
    ensures
        be_value(b) as int == base256_value(b),
{
    let (b0, b1, b2, b3, b4, b5, b6, b7) = (b[0], b[1], b[2], b[3], b[4], b[5], b[6], b[7]);
    assert(((b0 as u64) << 56u64) | ((b1 as u64) << 48u64) | ((b2 as u64) << 40u64) | ((
    b3 as u64) << 32u64) | ((b4 as u64) << 24u64) | ((b5 as u64) << 16u64) | ((b6 as u64)
        << 8u64) | (b7 as u64) == ((((((((b0 as u64) * 256u64 + b1 as u64) * 256u64 + b2 as u64)
        * 256u64 + b3 as u64) * 256u64 + b4 as u64) * 256u64 + b5 as u64) * 256u64 + b6 as u64)
        * 256u64 + b7 as u64)) by (bit_vector);
    assert(base256_value(b.take(0)) == 0);
    assert(b.take(1).drop_last() =~= b.take(0));
    assert(base256_value(b.take(1)) == base256_value(b.take(0)) * 256 + b[0]);
    assert(b.take(2).drop_last() =~= b.take(1));
    assert(base256_value(b.take(2)) == base256_value(b.take(1)) * 256 + b[1]);
    assert(b.take(3).drop_last() =~= b.take(2));
    assert(base256_value(b.take(3)) == base256_value(b.take(2)) * 256 + b[2]);
    assert(b.take(4).drop_last() =~= b.take(3));
    assert(base256_value(b.take(4)) == base256_value(b.take(3)) * 256 + b[3]);
    assert(b.take(5).drop_last() =~= b.take(4));
    assert(base256_value(b.take(5)) == base256_value(b.take(4)) * 256 + b[4]);
    assert(b.take(6).drop_last() =~= b.take(5));
    assert(base256_value(b.take(6)) == base256_value(b.take(5)) * 256 + b[5]);
    assert(b.take(7).drop_last() =~= b.take(6));
    assert(base256_value(b.take(7)) == base256_value(b.take(6)) * 256 + b[6]);
    assert(b.take(8).drop_last() =~= b.take(7));
    assert(base256_value(b.take(8)) == base256_value(b.take(7)) * 256 + b[7]);
    assert(b.take(8) =~= b);
}

/// The frame's header holds the message length in base 256, most significant
/// byte first, as a big-endian 64-bit write puts it.
pub proof fn law_frame_header_digits(data: Seq<u8>, k: int)
    requires
        0 <= k < 8,
    ensures
        frame(data)[7 - k] as int == ((data.len() as u64) as int / pow256(k as nat)) % 256,
{
    law_be_bytes_are_digits(data.len() as u64, k);
}

/// The wire format of messages between peers.
pub struct DefaultCodec;

impl DefaultCodec {
    /// The frame that carries `data`.
    pub fn encode(data: &[u8]) -> (out: Vec<u8>)
        ensures
            out@ == frame(data@),
    {
        let length = data.len() as u64;
        let mut out: Vec<u8> = Vec::new();
        out.push((length >> 56u64) as u8);
        out.push((length >> 48u64) as u8);
        out.push((length >> 40u64) as u8);
        out.push((length >> 32u64) as u8);
        out.push((length >> 24u64) as u8);
        out.push((length >> 16u64) as u8);
        out.push((length >> 8u64) as u8);
        out.push(length as u8);
        assert(out@ =~= be_bytes(length));
        let mut i: usize = 0;
        while i < data.len()
            invariant
                i <= data@.len(),
                out@ =~= be_bytes(length) + data@.take(i as int),
            decreases data@.len() - i,
        {
            out.push(data[i]);
            i = i + 1;
            assert(data@.take(i as int) =~= data@.take(i - 1).push(data@[i - 1]));
        }
        assert(data@.take(data@.len() as int) =~= data@);
        out
    }

    /// The payload length that a frame header announces.
    pub fn frame_length(header: &[u8; 8]) -> (length: u64)
        ensures
            length == be_value(header@),
    {
        ((header[0] as u64) << 56u64) | ((header[1] as u64) << 48u64) | ((header[2] as u64)
            << 40u64) | ((header[3] as u64) << 32u64) | ((header[4] as u64) << 24u64) | ((
        header[5] as u64) << 16u64) | ((header[6] as u64) << 8u64) | (header[7] as u64)
    }
}

/// How far the reading of one frame's message has got: the length its header
/// announced and the bytes of the message received so far.
pub struct FrameProgress {
    length: u64,
    received: u64,
}

impl FrameProgress {
    /// Never more is received than was announced.
    #[verifier::type_invariant]
    spec fn within_length(self) -> bool {
        self.received <= self.length
    }

    /// The length of the message the header announced.
    pub closed spec fn expected(self) -> nat {
        self.length as nat
    }

    /// The bytes of the message received so far.
    pub closed spec fn got(self) -> nat {
        self.received as nat
    }

    /// Starts on a message once its header was read: `header_read` is the count
    /// the read gave, or `None` when it failed. A failed read, or one that gave
    /// no bytes, announces an empty message.
    pub fn after_header(header: &[u8; 8], header_read: Option<usize>) -> (p: FrameProgress)
        ensures
            p.expected() == (match header_read {
                Some(n) => if n > 0 {
                    be_value(header@) as nat
                } else {
                    0
                },
                None => 0,
            }),
            p.got() == 0,
    {
        let length = match header_read {
            Some(n) => if n > 0 {
                DefaultCodec::frame_length(header)
            } else {
                0
            },
            None => 0,
        };
        FrameProgress { length, received: 0 }
    }

    /// The length of the message the header announced.
    pub fn length(&self) -> (n: u64)
        ensures
            n == self.expected(),
    {
        self.length
    }

    /// The bytes of the message received so far.
    pub fn received(&self) -> (n: u64)
        ensures
            n == self.got(),
            n <= self.expected(),
    {
        proof {
            use_type_invariant(self);
        }
        self.received
    }

    /// Whether the whole message has arrived, so that reading stops.
    pub fn is_complete(&self) -> (done: bool)
        ensures
            done == (self.got() == self.expected()),
    {
        proof {
            use_type_invariant(self);
        }
        self.received == self.length
    }

    /// Counts the bytes a read of the rest of the message gave; a failed read
    /// (`None`) counts nothing and the read is tried again.
    pub fn record_read(&mut self, read: Option<usize>)
        requires
            read matches Some(n) ==> old(self).got() + n <= old(self).expected(),
        ensures
            final(self).expected() == old(self).expected(),
            final(self).got() == old(self).got() + (match read {
                Some(n) => n as nat,
                None => 0,
            }),
    {
        proof {
            use_type_invariant(&*self);
        }
        match read {
            Some(n) => {
                self.received = self.received + n as u64;
            },
            None => {},
        }
    }
}

} // verus!
