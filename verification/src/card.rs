//! The emulated card printer (the magnetic card reader/writer of the
//! cabinet) and the serial port settings of the card reader.
use vstd::prelude::*;
use vstd::string::StringExecFns;

verus! {

/// Initialise the printer.
pub const INIT: u8 = 0x10;
/// Report the printer's status.
pub const READSTATUS: u8 = 0x20;
/// Cancel the current operation.
pub const CANCEL: u8 = 0x40;
/// Eject the card.
pub const EJECT: u8 = 0x80;
/// Dispense a new card.
pub const DISPENSECARD: u8 = 0xB0;
/// Configure printing.
pub const PRINTSETTING: u8 = 0x78;
/// Read the card.
pub const READ: u8 = 0x33;
/// Write the card.
pub const WRITE: u8 = 0x53;

/// Marker that starts every request block.
pub const REQUEST_START: u8 = 2;
/// Index of the first payload byte in a request block.
pub const PAYLOAD_START: usize = 6;
/// Payload byte that asks a read or a dispense about the card's presence.
pub const PRESENCE_QUERY: u8 = 0x32;
/// Number of leading payload bytes of a write that are not card data.
pub const WRITE_PREFIX: usize = 3;
/// Offset in the read buffer at which the card's bytes start.
pub const READ_DATA_OFFSET: usize = 6;

/// A request that the game hands to the printer.
pub struct CardRequest {
    pub command: u8,
    pub data: Vec<u8>,
}

/// The payload of a request block: bytes 6 up to the count in byte 1.
pub open spec fn request_payload(raw: Seq<u8>) -> Seq<u8> {
    if raw[1] > 6 {
        raw.subrange(6, raw[1] as int)
    } else {
        Seq::<u8>::empty()
    }
}

impl CardRequest {
    /// Reads a request block: `None` unless it starts with the start marker;
    /// otherwise the command in byte 2 and the payload.
    pub fn parse(raw: &[u8]) -> (r: Option<CardRequest>)
        requires
            raw@.len() >= 3,
            raw@[0] == REQUEST_START ==> raw@.len() >= raw@[1],
        ensures
            r is None <==> raw@[0] != REQUEST_START,
            r matches Some(req) ==> req.command == raw@[2] && req.data@ == request_payload(raw@),
    {
        if raw[0] != REQUEST_START {
            return None;
        }
        let count = raw[1] as usize;
        let command = raw[2];
        let mut data: Vec<u8> = Vec::new();
        let mut i: usize = PAYLOAD_START;
        while i < count
            invariant
                6 <= i,
                count == raw@[1],
                count <= raw@.len(),
                i < count ==> data@ == raw@.subrange(6, i as int),
                i >= count ==> data@ == request_payload(raw@),
            decreases count - i,
        {
            data.push(raw[i]);
            i = i + 1;
            assert(data@ =~= raw@.subrange(6, i as int));
        }
        assert(data@ =~= request_payload(raw@));
        Some(CardRequest { command, data })
    }
}

/// Whether a command is one that the printer understands.
pub open spec fn known_command(command: u8) -> bool {
    command == INIT || command == READSTATUS || command == CANCEL || command == EJECT || command
        == DISPENSECARD || command == PRINTSETTING || command == READ || command == WRITE
}

/// Whether the printer can serve a request: a known command, with a payload
/// byte for a dispense or a read.
pub open spec fn serves(command: u8, data: Seq<u8>) -> bool {
    known_command(command) && ((command == DISPENSECARD || command == READ) ==> data.len() >= 1)
}

impl CardRequest {
    /// Whether the printer can serve this request (see `CardPrinter::exec`).
    pub fn is_served(&self) -> (r: bool)
        ensures
            r == serves(self.command, self.data@),
    {
        let c = self.command;
        let known = c == INIT || c == READSTATUS || c == CANCEL || c == EJECT || c == DISPENSECARD
            || c == PRINTSETTING || c == READ || c == WRITE;
        known && ((c != DISPENSECARD && c != READ) || self.data.len() >= 1)
    }
}

/// The card data that a write stores: its payload without the first three
/// bytes.
pub open spec fn written_card(data: Seq<u8>) -> Seq<u8> {
    if data.len() > 3 {
        data.skip(3)
    } else {
        Seq::<u8>::empty()
    }
}

/// The stores, `(byte offset, value)` in order, into the printer's register
/// block that answer a request while `card` is inserted.
pub open spec fn reply_registers(card: Seq<u8>, command: u8, data: Seq<u8>) -> Seq<(usize, u32)> {
    if command == DISPENSECARD {
        if data[0] == PRESENCE_QUERY {
            seq![(0usize, 0u32), (6usize, 0x37u32)]
        } else {
            seq![(0usize, 0u32), (4usize, 0x33u32)]
        }
    } else if command == READ {
        if data[0] == PRESENCE_QUERY && card.len() == 0 {
            seq![(0usize, 0u32), (4usize, 0x31u32), (4usize, 0x30u32), (6usize, 0x34u32)]
        } else {
            seq![(0usize, 0u32), (4usize, 0x31u32)]
        }
    } else {
        seq![(0usize, 0u32)]
    }
}

/// The card bytes that a request copies into the read buffer: all of them
/// for a read that is not a presence query.
pub open spec fn reply_read(card: Seq<u8>, command: u8, data: Seq<u8>) -> Option<Seq<u8>> {
    if command == READ && data[0] != PRESENCE_QUERY {
        Some(card)
    } else {
        None
    }
}

/// The card after a request: a write replaces it, an eject empties it.
pub open spec fn card_after(card: Seq<u8>, command: u8, data: Seq<u8>) -> Seq<u8> {
    if command == WRITE {
        written_card(data)
    } else if command == EJECT {
        Seq::<u8>::empty()
    } else {
        card
    }
}

/// What the printer does in answer to a request.
pub struct CardReply {
    /// Stores `(byte offset, value)` into the printer's register block, to be
    /// made in order.
    pub registers: Vec<(usize, u32)>,
    /// For a read: the card's bytes, to be copied into the read buffer at
    /// `READ_DATA_OFFSET` after the stores of `read_header`.
    pub read: Option<Vec<u8>>,
    /// For a write: the card's new bytes, to be saved to the card file.
    pub save: Option<Vec<u8>>,
}

/// The stores `(byte offset, value)` that open the read buffer before the
/// card's bytes: status 0, then the "card read" code `0x33 0x30 0x30`.
pub open spec fn read_header_stores() -> Seq<(usize, u8)> {
    seq![(0usize, 0u8), (4usize, 0x33u8), (5usize, 0x30u8), (6usize, 0x30u8)]
}

/// The stores that open the read buffer of a read.
pub fn read_header() -> (h: Vec<(usize, u8)>)
    ensures
        h@ == read_header_stores(),
{
    let h: Vec<(usize, u8)> = vec![(0usize, 0u8), (4usize, 0x33u8), (5usize, 0x30u8), (6usize, 0x30u8)];
    assert(h@ =~= read_header_stores());
    h
}

/// A copy of a byte vector.
fn copy_bytes(v: &Vec<u8>) -> (c: Vec<u8>)
    ensures
        c@ == v@,
{
    let mut c: Vec<u8> = Vec::new();
    let mut i: usize = 0;
    while i < v.len()
        invariant
            i <= v@.len(),
            c@ == v@.take(i as int),
        decreases v@.len() - i,
    {
        c.push(v[i]);
        i = i + 1;
        assert(c@ =~= v@.take(i as int));
    }
    assert(c@ =~= v@);
    c
}

/// The printer and the card inside it (an empty card when none is
/// inserted).
pub struct CardPrinter {
    data: Vec<u8>,
}

impl CardPrinter {
    /// The bytes of the inserted card.
    pub closed spec fn card(&self) -> Seq<u8> {
        self.data@
    }

    /// A printer without a card.
    pub fn new() -> (p: Self)
        ensures
            p.card() == Seq::<u8>::empty(),
    {
        CardPrinter { data: Vec::new() }
    }

    /// The bytes of the inserted card.
    pub fn card_data(&self) -> (d: &Vec<u8>)
        ensures
            d@ == self.card(),
    {
        &self.data
    }

    /// Inserts a card with the given bytes, replacing the one inside.
    pub fn insert_card(&mut self, card: Vec<u8>)
        ensures
            final(self).card() == card@,
    {
        self.data = card;
    }

    /// Serves one request.
    pub fn exec(&mut self, request: &CardRequest) -> (reply: CardReply)
        requires
            serves(request.command, request.data@),
        ensures
            reply.registers@ == reply_registers(old(self).card(), request.command, request.data@),
            match reply.read {
                Some(r) => reply_read(old(self).card(), request.command, request.data@) == Some(r@),
                None => reply_read(old(self).card(), request.command, request.data@) is None,
            },
            match reply.save {
                Some(s) => request.command == WRITE && s@ == written_card(request.data@),
                None => request.command != WRITE,
            },
            final(self).card() == card_after(old(self).card(), request.command, request.data@),
    {
        let command = request.command;
        let data = &request.data;
        let ghost card = self.data@;
        if command == DISPENSECARD {
            let registers: Vec<(usize, u32)> = if data[0] == PRESENCE_QUERY {
                vec![(0usize, 0u32), (6usize, 0x37u32)]
            } else {
                vec![(0usize, 0u32), (4usize, 0x33u32)]
            };
            assert(registers@ =~= reply_registers(card, command, data@));
            CardReply { registers, read: None, save: None }
        } else if command == READ {
            if data[0] == PRESENCE_QUERY {
                let registers: Vec<(usize, u32)> = if self.data.len() == 0 {
                    vec![(0usize, 0u32), (4usize, 0x31u32), (4usize, 0x30u32), (6usize, 0x34u32)]
                } else {
                    vec![(0usize, 0u32), (4usize, 0x31u32)]
                };
                assert(registers@ =~= reply_registers(card, command, data@));
                CardReply { registers, read: None, save: None }
            } else {
                let registers: Vec<(usize, u32)> = vec![(0usize, 0u32), (4usize, 0x31u32)];
                assert(registers@ =~= reply_registers(card, command, data@));
                let read = copy_bytes(&self.data);
                CardReply { registers, read: Some(read), save: None }
            }
        } else {
            let registers: Vec<(usize, u32)> = vec![(0usize, 0u32)];
            assert(registers@ =~= reply_registers(card, command, data@));
            if command == WRITE {
                let mut card_bytes: Vec<u8> = Vec::new();
                let mut i: usize = WRITE_PREFIX;
                while i < data.len()
                    invariant
                        3 <= i,
                        i < data@.len() ==> card_bytes@ == data@.subrange(3, i as int),
                        i >= data@.len() ==> card_bytes@ == written_card(data@),
                    decreases data@.len() - i,
                {
                    card_bytes.push(data[i]);
                    i = i + 1;
                    assert(card_bytes@ =~= data@.subrange(3, i as int));
                }
                assert(card_bytes@ =~= written_card(data@));
                let save = copy_bytes(&card_bytes);
                self.data = card_bytes;
                CardReply { registers, read: None, save: Some(save) }
            } else {
                if command == EJECT {
                    self.data = Vec::new();
                }
                CardReply { registers, read: None, save: None }
            }
        }
    }
}

/// Law of the card: a read that follows a write gives back exactly the card
/// bytes that the write stored (and saved), whatever card was inside.
pub proof fn lemma_read_returns_written(card: Seq<u8>, written: Seq<u8>, query: Seq<u8>)
    requires
        query.len() >= 1,
        query[0] != PRESENCE_QUERY,
    ensures
        reply_read(card_after(card, WRITE, written), READ, query) == Some(written_card(written)),
        card_after(card_after(card, WRITE, written), READ, query) == written_card(written),
{
}

/// Law of the card: after an eject, a presence query reports that no card is
/// inside, and a read copies no bytes.
pub proof fn lemma_eject_empties(card: Seq<u8>, eject_data: Seq<u8>, query: Seq<u8>)
    requires
        query.len() >= 1,
    ensures
        card_after(card, EJECT, eject_data) == Seq::<u8>::empty(),
        query[0] == PRESENCE_QUERY ==> reply_registers(card_after(card, EJECT, eject_data), READ, query)
            == seq![(0usize, 0u32), (4usize, 0x31u32), (4usize, 0x30u32), (6usize, 0x34u32)],
        query[0] != PRESENCE_QUERY ==> reply_read(card_after(card, EJECT, eject_data), READ, query)
            == Some(Seq::<u8>::empty()),
{
}

/// Law of the card: only writes and ejects change the card, and every
/// served request answers with status 0 as its first store.
pub proof fn lemma_card_unchanged_otherwise(card: Seq<u8>, command: u8, data: Seq<u8>)
    requires
        serves(command, data),
    ensures
        command != WRITE && command != EJECT ==> card_after(card, command, data) == card,
        reply_registers(card, command, data).len() >= 1,
        reply_registers(card, command, data)[0] == (0usize, 0u32),
{
}

/// The path of the serial port that the card reader sits on: the configured
/// device, or `/dev/ttyM0` when none is configured.
pub open spec fn reader_path(card_device: Seq<char>) -> Seq<char> {
    if card_device.len() == 0 {
        "/dev/ttyM0"@
    } else {
        card_device
    }
}

/// Flags with which the card reader's serial port is opened.
pub const SERIAL_OPEN_FLAGS: u32 = 0x101902;

/// The serial port path for the configured card device.
pub fn serial_reader_path(card_device: &str) -> (path: String)
    ensures
        path@ == reader_path(card_device@),
{
    if card_device.unicode_len() == 0 {
        String::from_str("/dev/ttyM0")
    } else {
        card_device.to_owned()
    }
}

/// The serial port settings block that the game passes to its port opener.
#[derive(Clone, Copy, Debug, PartialEq, Eq, Structural)]
pub struct PortSettings {
    pub unk_0: i32,
    pub errno: i32,
    pub fd: i32,
    pub unk_c: i32,
    pub portno: i32,
}

impl PortSettings {
    /// Records the file descriptor that opening the port gave and returns
    /// what the opener reports to the game: 1 when the port is open, 0 when
    /// opening failed (a negative descriptor).
    pub fn port_opened(&mut self, fd: i32) -> (status: i32)
        ensures
            *final(self) == (PortSettings { fd, ..*old(self) }),
            status == (if fd < 0 { 0i32 } else { 1i32 }),
    {
        self.fd = fd;
        if self.fd < 0 {
            0
        } else {
            1
        }
    }
}

} // verus!
