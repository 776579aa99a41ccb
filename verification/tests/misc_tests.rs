use wangan_arcade_loader::display::{
    blit_decision, blit_unless_saved, frame_flag_offset, is_minimap_viewport, screen_global,
    BlitDecision, ScreenGlobal,
};
use wangan_arcade_loader::version::{default_gameversion, GameMajor};
use wangan_arcade_loader::network::address_from_octets;
use wangan_arcade_loader::patch::jump_stub;
use wangan_arcade_loader::text::{bytes_until_nul, chars_eq_str, parse_decimal_u32, split_at_char, str_eq};

#[test]
fn jump_stub_encodes_the_address() {
    let code = jump_stub(0x1234_5678);
    let mut expected = vec![0xB8];
    expected.extend_from_slice(&0x1234_5678usize.to_le_bytes());
    expected.extend_from_slice(&[0xFF, 0xE0]);
    assert_eq!(code, expected);
    assert_eq!(code.len(), 3 + std::mem::size_of::<usize>());
    assert_eq!(&code[1..5], &[0x78, 0x56, 0x34, 0x12]);
    let max = jump_stub(usize::MAX);
    assert!(max[1..max.len() - 2].iter().all(|b| *b == 0xFF));
}

#[test]
fn address_is_big_endian() {
    assert_eq!(address_from_octets([192, 168, 1, 2]), i32::from_be_bytes([192, 168, 1, 2]));
    assert_eq!(address_from_octets([10, 0, 0, 1]), 0x0A00_0001);
    assert_eq!(address_from_octets([255, 255, 255, 255]), -1);
    assert_eq!(address_from_octets([128, 0, 0, 0]), i32::MIN);
    assert_eq!(address_from_octets([0, 0, 0, 0]), 0);
}

#[test]
fn decimal_parsing_matches_std() {
    for s in ["0", "7", "42", "+5", "+", "", "-1", "4294967295", "4294967296", "00012", "1a", " 1", "٣"] {
        let chars: Vec<char> = s.chars().collect();
        assert_eq!(parse_decimal_u32(&chars), s.parse::<u32>().ok(), "{:?}", s);
    }
}

#[test]
fn splitting_matches_str_split() {
    for s in ["a-b-c", "", "-", "a--b", "-a-", "abc"] {
        let chars: Vec<char> = s.chars().collect();
        let expected: Vec<Vec<char>> = s.split('-').map(|p| p.chars().collect()).collect();
        assert_eq!(split_at_char(&chars, '-'), expected, "{:?}", s);
    }
}

#[test]
fn nul_terminated_prefix() {
    assert_eq!(bytes_until_nul(b"abc\0def"), Some(b"abc".to_vec()));
    assert_eq!(bytes_until_nul(b"\0"), Some(vec![]));
    assert_eq!(bytes_until_nul(b"abc"), None);
    assert_eq!(bytes_until_nul(b""), None);
}

#[test]
fn string_comparison() {
    assert!(str_eq("SCREEN", "SCREEN"));
    assert!(!str_eq("SCREEN", "SCREE"));
    assert!(!str_eq("é", "e"));
    let cs: Vec<char> = "WM3100".chars().collect();
    assert!(chars_eq_str(&cs, "WM3100"));
    assert!(!chars_eq_str(&cs, "WM3101"));
}

#[test]
fn screen_globals() {
    assert_eq!(screen_global("SCREEN_XSIZE"), Some(ScreenGlobal::ScreenWidth));
    assert_eq!(screen_global("SCREEN_YSIZE"), Some(ScreenGlobal::ScreenHeight));
    assert_eq!(screen_global("MINIMAP_DISP_X"), Some(ScreenGlobal::MinimapX));
    assert_eq!(screen_global("MINIMAP_DISP_Y"), Some(ScreenGlobal::MinimapY));
    assert_eq!(screen_global("SCREEN_ZSIZE"), None);
    assert!(is_minimap_viewport(88, 82));
    assert!(!is_minimap_viewport(82, 88));
    assert!(!is_minimap_viewport(640, 480));
}

#[test]
fn blit_decisions() {
    let mut wm3 = default_gameversion();
    wm3.major = GameMajor::WM3;
    let later = default_gameversion();
    assert_eq!(frame_flag_offset(&wm3), 0x48);
    assert_eq!(frame_flag_offset(&later), 0x54);
    assert_eq!(blit_decision(&wm3, 1), BlitDecision::Blit);
    assert_eq!(blit_decision(&wm3, 0), BlitDecision::Skip);
    assert_eq!(blit_decision(&later, 2), BlitDecision::Blit);
    assert_eq!(blit_decision(&later, 0), BlitDecision::CheckSavedFrame);
    assert!(blit_unless_saved(0));
    assert!(!blit_unless_saved(1));
}
