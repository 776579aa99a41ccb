use wangan_arcade_loader::version::{
    default_gameversion, parse_revision, parse_revision_name, GameMajor, GameMinor, GameRegion,
    GameVersion, RomInfo,
};

fn field(s: &[u8]) -> [u8; 32] {
    let mut f = [0u8; 32];
    f[..s.len()].copy_from_slice(s);
    f
}

fn version(major: GameMajor, region: GameRegion, minor: GameMinor, revision: u32) -> GameVersion {
    GameVersion { major, minor, region, revision }
}

#[test]
fn default_version_is_unknown() {
    let v = default_gameversion();
    assert_eq!(v.major, GameMajor::Unknown);
    assert_eq!(v.minor, GameMinor::Unknown);
    assert_eq!(v.region, GameRegion::Unknown);
    assert_eq!(v.revision, 0);
    assert!(!v.is_wm3());
}

#[test]
fn recognised_revision_names() {
    assert_eq!(
        parse_revision_name(&field(b"WM3100-1-NA-APR0-A01")),
        version(GameMajor::WM3, GameRegion::JP, GameMinor::A, 1)
    );
    assert_eq!(
        parse_revision_name(&field(b"W3X100-2-x-y-B05")),
        version(GameMajor::W3X, GameRegion::EN2, GameMinor::B, 5)
    );
    assert_eq!(
        parse_revision_name(&field(b"W3P100-4-x-y-A12-extra")),
        version(GameMajor::W3P, GameRegion::EN4, GameMinor::A, 12)
    );
    assert_eq!(
        parse_revision_name(&field(b"WM3100-3---A7")),
        version(GameMajor::WM3, GameRegion::EN3, GameMinor::A, 7)
    );
    assert!(parse_revision_name(&field(b"WM3100-1-NA-APR0-A01")).is_wm3());
}

#[test]
fn revision_takes_at_most_two_characters() {
    assert_eq!(parse_revision_name(&field(b"WM3100-1-a-b-A123")).revision, 12);
    assert_eq!(parse_revision_name(&field(b"WM3100-1-a-b-A+5")).revision, 5);
    assert_eq!(parse_revision_name(&field(b"WM3100-1-a-b-A09X")).revision, 9);
}

#[test]
fn malformed_names_are_unknown() {
    let unknown = default_gameversion();
    for name in [
        &b"WM3200-1-a-b-A01"[..],
        b"WM3100-5-a-b-A01",
        b"WM3100-1-a-b",
        b"WM3100-1-a-b-",
        b"WM3100-1-a-b-C01",
        b"WM3100-1-a-b-A",
        b"WM3100-1-a-b-Ax1",
        b"WM3100-1-a-b-A-1",
        b"WM3100-1-a-b-A+",
        b"",
        b"wm3100-1-a-b-A01",
    ] {
        assert_eq!(parse_revision_name(&field(name)), unknown, "{:?}", name);
    }
}

#[test]
fn field_needs_a_nul_and_utf8() {
    let unknown = default_gameversion();
    let mut full = [b'1'; 32];
    full[..20].copy_from_slice(b"WM3100-1-NA-APR0-A01");
    assert_eq!(parse_revision_name(&full), unknown);
    let mut bad = field(b"WM3100-1-a-b-A01");
    bad[9] = 0xFF;
    assert_eq!(parse_revision_name(&bad), unknown);
    let accented = field("WM3100-1-é-ü-B02".as_bytes());
    assert_eq!(
        parse_revision_name(&accented),
        version(GameMajor::WM3, GameRegion::JP, GameMinor::B, 2)
    );
    let trailing = field("WM3100-1-a-b-A1é".as_bytes());
    assert_eq!(parse_revision_name(&trailing), unknown);
    let mut after_nul = field(b"WM3100-1-a-b-A01");
    after_nul[25] = 0xFF;
    assert_eq!(
        parse_revision_name(&after_nul),
        version(GameMajor::WM3, GameRegion::JP, GameMinor::A, 1)
    );
}

#[test]
fn parse_from_characters() {
    let chars: Vec<char> = "W3X100-4-NA-x-B99".chars().collect();
    assert_eq!(
        parse_revision(&chars),
        version(GameMajor::W3X, GameRegion::EN4, GameMinor::B, 99)
    );
    assert_eq!(parse_revision(&[]), default_gameversion());
}

#[test]
fn rom_info_version() {
    let rom = RomInfo {
        name: field(b"WANGAN"),
        region: field(b"JAPAN"),
        release_type: field(b"RELEASE"),
        date: field(b"2007"),
        time: field(b"12:00"),
        revision: 1,
        revision_name: field(b"WM3100-1-NA-APR0-A01"),
    };
    assert_eq!(rom.game_version(), version(GameMajor::WM3, GameRegion::JP, GameMinor::A, 1));
}
