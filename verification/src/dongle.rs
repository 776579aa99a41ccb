//! The emulated HASP dongle: its memory image, reads from it, and the
//! session ids that logins hand out.
use vstd::prelude::*;

verus! {

/// Size of the dongle's memory, as `hasp_get_size` reports it.
pub const DONGLE_SIZE: usize = 0xD40;
/// Where the dongle's id (its serial as ASCII digits) is stored.
pub const DONGLE_ID_OFFSET: usize = 0xD00;
/// Length of the dongle's id.
pub const DONGLE_ID_LEN: usize = 12;
/// Where the checksum of the header is stored; its complement follows two
/// bytes later.
pub const HEADER_SUM_OFFSET: usize = 0x0D;
/// Where the checksum of the id block is stored; its complement follows.
pub const ID_SUM_OFFSET: usize = 0xD3E;

/// The id used when the configured one is shorter than twelve bytes.
pub open spec fn default_dongle_id() -> Seq<u8> {
    seq![50u8, 56u8, 53u8, 48u8, 49u8, 51u8, 53u8, 48u8, 49u8, 49u8, 51u8, 56u8]
}

/// The twelve id bytes for a configured dongle string: its first twelve
/// bytes, or the default id when it is shorter.
pub open spec fn dongle_id(config: Seq<u8>) -> Seq<u8> {
    if config.len() < 12 {
        default_dongle_id()
    } else {
        config.take(12)
    }
}

/// The wrapping (mod 256) sum of bytes.
pub open spec fn byte_sum(s: Seq<u8>) -> u8
    decreases s.len(),
{
    if s.len() == 0 {
        0
    } else {
        ((byte_sum(s.drop_last()) as nat + s.last() as nat) % 256) as u8
    }
}

/// The dongle's memory before the checksums: zero but for the id.
pub open spec fn id_block(config: Seq<u8>) -> Seq<u8> {
    Seq::new(
        0xD40,
        |i: int|
            if 0xD00 <= i < 0xD0C {
                dongle_id(config)[i - 0xD00]
            } else {
                0u8
            },
    )
}

/// The dongle's memory: the id block with the sum of its first 13 bytes at
/// 0x0D and its complement at 0x0F, and the sum of the 62 bytes from 0xD00
/// at 0xD3E and its complement at 0xD3F.
pub open spec fn dongle_memory(config: Seq<u8>) -> Seq<u8> {
    let b = id_block(config);
    let h = byte_sum(b.subrange(0, 0x0D));
    let t = byte_sum(b.subrange(0xD00, 0xD3E));
    b.update(0x0D, h).update(0x0F, !h).update(0xD3E, t).update(0xD3F, !t)
}

/// Appending zero bytes leaves a wrapping sum unchanged.
proof fn lemma_byte_sum_zeros(s: Seq<u8>, n: int)
    requires
        0 <= n <= s.len(),
        forall|k: int| n <= k < s.len() ==> s[k] == 0,
    ensures
        byte_sum(s) == byte_sum(s.take(n)),
    decreases s.len() - n,
{
    if s.len() > n {
        lemma_byte_sum_zeros(s.drop_last(), n);
        assert(s.drop_last().take(n) =~= s.take(n));
    } else {
        assert(s.take(n) =~= s);
    }
}

/// Law of the dongle's memory: it is 0xD40 bytes long, holds the twelve id
/// bytes at 0xD00, a header checksum of 0 at 0x0D with its complement 0xFF
/// at 0x0F, and at 0xD3E the sum of the id bytes, which is also the sum of
/// the whole block 0xD00..0xD3E that it guards, followed by its complement;
/// every other byte is zero.
pub proof fn lemma_dongle_memory_layout(config: Seq<u8>)
    ensures
        dongle_memory(config).len() == 0xD40,
        dongle_memory(config).subrange(0xD00, 0xD0C) == dongle_id(config),
        dongle_memory(config)[0x0D] == 0,
        dongle_memory(config)[0x0F] == 0xFF,
        dongle_memory(config)[0xD3E] == byte_sum(dongle_id(config)),
        dongle_memory(config)[0xD3E] == byte_sum(dongle_memory(config).subrange(0xD00, 0xD3E)),
        dongle_memory(config)[0xD3E] as int + dongle_memory(config)[0xD3F] as int == 0xFF,
        forall|i: int|
            0 <= i < 0xD40 && !(0xD00 <= i < 0xD0C) && i != 0x0D && i != 0x0F && i != 0xD3E && i
                != 0xD3F ==> dongle_memory(config)[i] == 0,
{
    let b = id_block(config);
    let m = dongle_memory(config);
    let head = b.subrange(0, 0x0D);
    lemma_byte_sum_zeros(head, 0);
    assert(head.take(0) =~= Seq::<u8>::empty());
    let block = b.subrange(0xD00, 0xD3E);
    lemma_byte_sum_zeros(block, 12);
    assert(block.take(12) =~= dongle_id(config));
    assert(m.subrange(0xD00, 0xD0C) =~= dongle_id(config));
    assert(m.subrange(0xD00, 0xD3E) =~= block);
    let t = m[0xD3E];
    assert(!0u8 == 0xFFu8) by (bit_vector);
    assert(t as int + (!t) as int == 0xFF) by (bit_vector);
}

/// Law of reads: reading a range in two adjacent pieces gives the same bytes
/// as reading it at once.
pub proof fn lemma_read_dongle_adjacent(config: Seq<u8>, offset: int, first: int, second: int)
    requires
        0 <= offset,
        0 <= first,
        0 <= second,
        offset + first + second <= DONGLE_SIZE,
    ensures
        dongle_memory(config).subrange(offset, offset + first) + dongle_memory(config).subrange(
            offset + first,
            offset + first + second,
        ) == dongle_memory(config).subrange(offset, offset + first + second),
{
    assert(dongle_memory(config).subrange(offset, offset + first) + dongle_memory(config).subrange(
        offset + first,
        offset + first + second,
    ) =~= dongle_memory(config).subrange(offset, offset + first + second));
}

/// The default id.
fn default_id() -> (v: Vec<u8>)
    ensures
        v@ == default_dongle_id(),
{
    let v: Vec<u8> = vec![50u8, 56u8, 53u8, 48u8, 49u8, 51u8, 53u8, 48u8, 49u8, 49u8, 51u8, 56u8];
    assert(v@ =~= default_dongle_id());
    v
}

/// The wrapping sum of `s[from..to]`.
fn sum_range(s: &Vec<u8>, from: usize, to: usize) -> (r: u8)
    requires
        from <= to <= s@.len(),
    ensures
        r == byte_sum(s@.subrange(from as int, to as int)),
{
    let mut acc: u8 = 0;
    let mut i: usize = from;
    assert(s@.subrange(from as int, from as int) =~= Seq::<u8>::empty());
    while i < to
        invariant
            from <= i <= to <= s@.len(),
            acc == byte_sum(s@.subrange(from as int, i as int)),
        decreases to - i,
    {
        assert(s@.subrange(from as int, i + 1).drop_last() =~= s@.subrange(from as int, i as int));
        acc = acc.wrapping_add(s[i]);
        i = i + 1;
    }
    acc
}

/// Builds the dongle's memory for the configured dongle string.
pub fn dongle_image(config: &[u8]) -> (image: Vec<u8>)
    ensures
        image@ == dongle_memory(config@),
{
    let id: Vec<u8> = if config.len() < DONGLE_ID_LEN {
        default_id()
    } else {
        let mut v: Vec<u8> = Vec::new();
        let mut k: usize = 0;
        while k < DONGLE_ID_LEN
            invariant
                k <= 12 <= config@.len(),
                v@ == config@.take(k as int),
            decreases 12 - k,
        {
            v.push(config[k]);
            k = k + 1;
            assert(v@ =~= config@.take(k as int));
        }
        v
    };
    assert(id@ == dongle_id(config@));
    let mut data: Vec<u8> = Vec::new();
    let mut i: usize = 0;
    while i < DONGLE_SIZE
        invariant
            i <= 0xD40,
            id@ == dongle_id(config@),
            id@.len() == 12,
            data@ == id_block(config@).take(i as int),
        decreases 0xD40 - i,
    {
        if DONGLE_ID_OFFSET <= i && i < DONGLE_ID_OFFSET + DONGLE_ID_LEN {
            data.push(id[i - DONGLE_ID_OFFSET]);
        } else {
            data.push(0);
        }
        i = i + 1;
        assert(data@ =~= id_block(config@).take(i as int));
    }
    assert(data@ =~= id_block(config@));
    let head = sum_range(&data, 0, HEADER_SUM_OFFSET);
    data.set(HEADER_SUM_OFFSET, head);
    data.set(0x0F, !head);
    let ghost with_head = data@;
    assert(with_head.subrange(0xD00, 0xD3E) =~= id_block(config@).subrange(0xD00, 0xD3E));
    let tail = sum_range(&data, DONGLE_ID_OFFSET, ID_SUM_OFFSET);
    data.set(ID_SUM_OFFSET, tail);
    data.set(0xD3F, !tail);
    assert(data@ =~= dongle_memory(config@));
    data
}

/// What a read of `length` bytes at `offset` returns from the dongle of the
/// configured dongle string.
pub fn read_dongle(config: &[u8], offset: i32, length: i32) -> (out: Vec<u8>)
    requires
        0 <= offset,
        0 <= length,
        offset + length <= DONGLE_SIZE,
    ensures
        out@ == dongle_memory(config@).subrange(offset as int, offset + length),
{
    let image = dongle_image(config);
    let start = offset as usize;
    let end = start + length as usize;
    let mut out: Vec<u8> = Vec::new();
    let mut i: usize = start;
    while i < end
        invariant
            start <= i <= end <= image@.len(),
            start == offset,
            end == offset + length,
            image@ == dongle_memory(config@),
            out@ == image@.subrange(start as int, i as int),
        decreases end - i,
    {
        out.push(image[i]);
        i = i + 1;
        assert(out@ =~= image@.subrange(start as int, i as int));
    }
    out
}

/// The session ids that successive logins to the dongle receive.
pub struct HaspSessions {
    next_id: i32,
}

impl HaspSessions {
    /// The id that the next login receives.
    pub closed spec fn next(&self) -> i32 {
        self.next_id
    }

    /// Sessions before the first login: the first id is 1.
    pub fn new() -> (s: Self)
        ensures
            s.next() == 1,
    {
        HaspSessions { next_id: 1 }
    }

    /// The id that the next login receives.
    pub fn next_id(&self) -> (id: i32)
        ensures
            id == self.next(),
    {
        self.next_id
    }

    /// Logs in: returns a fresh id, one more than the previous one.
    pub fn login(&mut self) -> (id: i32)
        requires
            old(self).next() < i32::MAX,
        ensures
            id == old(self).next(),
            final(self).next() == id + 1,
    {
        let id = self.next_id;
        self.next_id = self.next_id + 1;
        id
    }
}

} // verus!
