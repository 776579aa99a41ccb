use wangan_arcade_loader::card::{
    read_header, serial_reader_path, CardPrinter, CardRequest, PortSettings, CANCEL,
    DISPENSECARD, EJECT, INIT, PRINTSETTING, READ, READSTATUS, WRITE,
};

fn request(command: u8, payload: &[u8]) -> Vec<u8> {
    let mut raw = vec![2, (6 + payload.len()) as u8, command, 0, 0, 0];
    raw.extend_from_slice(payload);
    raw
}

#[test]
fn parse_rejects_other_start_markers() {
    assert!(CardRequest::parse(&[1, 9, 0x33]).is_none());
    assert!(CardRequest::parse(&[0, 0, 0]).is_none());
}

#[test]
fn parse_reads_command_and_payload() {
    let raw = request(WRITE, &[9, 8, 7, 1, 2, 3]);
    let req = CardRequest::parse(&raw).unwrap();
    assert_eq!(req.command, WRITE);
    assert_eq!(req.data, vec![9, 8, 7, 1, 2, 3]);
    let short = CardRequest::parse(&[2, 3, INIT]).unwrap();
    assert_eq!(short.command, INIT);
    assert!(short.data.is_empty());
    let count_six = CardRequest::parse(&[2, 6, READSTATUS, 0, 0, 0]).unwrap();
    assert!(count_six.data.is_empty());
}

#[test]
fn simple_commands_answer_status_zero() {
    for command in [INIT, READSTATUS, CANCEL, PRINTSETTING] {
        let mut p = CardPrinter::new();
        p.insert_card(vec![1, 2, 3]);
        let req = CardRequest::parse(&request(command, &[])).unwrap();
        let reply = p.exec(&req);
        assert_eq!(reply.registers, vec![(0, 0)]);
        assert!(reply.read.is_none());
        assert!(reply.save.is_none());
        assert_eq!(p.card_data(), &vec![1, 2, 3]);
    }
}

#[test]
fn write_then_read_gives_back_the_card() {
    let mut p = CardPrinter::new();
    let write = CardRequest::parse(&request(WRITE, &[0xAA, 0xBB, 0xCC, 10, 20, 30, 40])).unwrap();
    let reply = p.exec(&write);
    assert_eq!(reply.registers, vec![(0, 0)]);
    assert_eq!(reply.save, Some(vec![10, 20, 30, 40]));
    assert_eq!(p.card_data(), &vec![10, 20, 30, 40]);
    let read = CardRequest::parse(&request(READ, &[0x31])).unwrap();
    let reply = p.exec(&read);
    assert_eq!(reply.registers, vec![(0, 0), (4, 0x31)]);
    assert_eq!(reply.read, Some(vec![10, 20, 30, 40]));
    assert!(reply.save.is_none());
}

#[test]
fn short_write_stores_an_empty_card() {
    let mut p = CardPrinter::new();
    p.insert_card(vec![5]);
    let write = CardRequest::parse(&request(WRITE, &[1, 2])).unwrap();
    let reply = p.exec(&write);
    assert_eq!(reply.save, Some(vec![]));
    assert!(p.card_data().is_empty());
}

#[test]
fn presence_query_reports_a_missing_card() {
    let mut p = CardPrinter::new();
    let query = CardRequest::parse(&request(READ, &[0x32])).unwrap();
    let reply = p.exec(&query);
    assert_eq!(reply.registers, vec![(0, 0), (4, 0x31), (4, 0x30), (6, 0x34)]);
    assert!(reply.read.is_none());
    p.insert_card(vec![7]);
    let reply = p.exec(&query);
    assert_eq!(reply.registers, vec![(0, 0), (4, 0x31)]);
    assert!(reply.read.is_none());
}

#[test]
fn eject_empties_the_printer() {
    let mut p = CardPrinter::new();
    p.insert_card(vec![1, 2]);
    let eject = CardRequest::parse(&request(EJECT, &[])).unwrap();
    let reply = p.exec(&eject);
    assert_eq!(reply.registers, vec![(0, 0)]);
    assert!(p.card_data().is_empty());
    let read = CardRequest::parse(&request(READ, &[0])).unwrap();
    assert_eq!(p.exec(&read).read, Some(vec![]));
}

#[test]
fn dispense_answers_by_payload() {
    let mut p = CardPrinter::new();
    let query = CardRequest::parse(&request(DISPENSECARD, &[0x32])).unwrap();
    assert_eq!(p.exec(&query).registers, vec![(0, 0), (6, 0x37)]);
    let other = CardRequest::parse(&request(DISPENSECARD, &[0x31])).unwrap();
    assert_eq!(p.exec(&other).registers, vec![(0, 0), (4, 0x33)]);
}

#[test]
fn read_buffer_header() {
    assert_eq!(read_header(), vec![(0, 0), (4, 0x33), (5, 0x30), (6, 0x30)]);
}

#[test]
fn reader_path_defaults_to_ttym0() {
    assert_eq!(serial_reader_path(""), "/dev/ttyM0");
    assert_eq!(serial_reader_path("/dev/ttyS1"), "/dev/ttyS1");
}

#[test]
fn port_open_status() {
    let mut ps = PortSettings { unk_0: 1, errno: 2, fd: 3, unk_c: 4, portno: 5 };
    assert_eq!(ps.port_opened(7), 1);
    assert_eq!(ps, PortSettings { unk_0: 1, errno: 2, fd: 7, unk_c: 4, portno: 5 });
    assert_eq!(ps.port_opened(-1), 0);
    assert_eq!(ps.fd, -1);
    assert_eq!(ps.port_opened(0), 1);
}

#[test]
fn served_requests() {
    let ok = CardRequest::parse(&request(READ, &[0])).unwrap();
    assert!(ok.is_served());
    let empty_read = CardRequest::parse(&request(READ, &[])).unwrap();
    assert!(!empty_read.is_served());
    let empty_dispense = CardRequest::parse(&request(DISPENSECARD, &[])).unwrap();
    assert!(!empty_dispense.is_served());
    let unknown = CardRequest::parse(&request(0x99, &[1])).unwrap();
    assert!(!unknown.is_served());
    let eject = CardRequest::parse(&request(EJECT, &[])).unwrap();
    assert!(eject.is_served());
}
