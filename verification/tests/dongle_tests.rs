use wangan_arcade_loader::dongle::{dongle_image, read_dongle, HaspSessions, DONGLE_SIZE};

#[test]
fn default_id_when_configured_one_is_short() {
    let image = dongle_image(b"12345");
    assert_eq!(image.len(), DONGLE_SIZE);
    assert_eq!(&image[0xD00..0xD0C], b"285013501138");
    let sum = b"285013501138".iter().fold(0u8, |a, b| a.wrapping_add(*b));
    assert_eq!(image[0xD3E], sum);
    assert_eq!(image[0xD3F], !sum);
    assert_eq!(image[0x0D], 0);
    assert_eq!(image[0x0F], 0xFF);
}

#[test]
fn configured_id_uses_first_twelve_bytes() {
    let image = dongle_image(b"ABCDEFGHIJKLMNOP");
    assert_eq!(&image[0xD00..0xD0C], b"ABCDEFGHIJKL");
    assert_eq!(image[0xD0C], 0);
    let sum = b"ABCDEFGHIJKL".iter().fold(0u8, |a, b| a.wrapping_add(*b));
    assert_eq!(image[0xD3E], sum);
    assert_eq!(image[0xD3E] as u32 + image[0xD3F] as u32, 0xFF);
    let zeros = image
        .iter()
        .enumerate()
        .filter(|(i, _)| !(0xD00..0xD0C).contains(i) && ![0x0D, 0x0F, 0xD3E, 0xD3F].contains(i))
        .all(|(_, b)| *b == 0);
    assert!(zeros);
}

#[test]
fn checksum_wraps_around() {
    let image = dongle_image(b"\xff\xff\xff\xff\xff\xff\xff\xff\xff\xff\xff\xff");
    assert_eq!(image[0xD3E], 0xF4);
    assert_eq!(image[0xD3F], 0x0B);
}

#[test]
fn reads_return_the_requested_range() {
    let config = b"285013501138";
    let image = dongle_image(config);
    assert_eq!(read_dongle(config, 0xD00, 12), b"285013501138".to_vec());
    assert_eq!(read_dongle(config, 0, 0x10), image[0..0x10].to_vec());
    assert_eq!(read_dongle(config, 0xD3E, 2), image[0xD3E..0xD40].to_vec());
    assert_eq!(read_dongle(config, 0, 0xD40), image);
    assert_eq!(read_dongle(config, 5, 0), Vec::<u8>::new());
    let mut joined = read_dongle(config, 0xCF0, 0x20);
    joined.extend(read_dongle(config, 0xD10, 0x30));
    assert_eq!(joined, read_dongle(config, 0xCF0, 0x50));
}

#[test]
fn logins_receive_successive_ids() {
    let mut s = HaspSessions::new();
    assert_eq!(s.login(), 1);
    assert_eq!(s.login(), 2);
    assert_eq!(s.login(), 3);
}

#[test]
fn next_id_previews_the_login() {
    let mut s = HaspSessions::new();
    assert_eq!(s.next_id(), 1);
    let id = s.login();
    assert_eq!(id, 1);
    assert_eq!(s.next_id(), 2);
}
