use wangan_arcade_loader::config::{default_config, FileRedirect};
use wangan_arcade_loader::redirect::{
    has_prefix, ifstream_path, ioctl_result, localize_tmp, open_redirect, redirect_tmp,
    replace_bytes, system_command,
};

#[test]
fn tmp_paths_move_next_to_the_game() {
    assert_eq!(redirect_tmp(b"/tmp/a.txt"), b"./tmp/a.txt".to_vec());
    assert_eq!(redirect_tmp(b"/tmp/x/tmp/y"), b"./tmp/x./tmp/y".to_vec());
    assert_eq!(redirect_tmp(b"/tmpfile"), b"/tmpfile".to_vec());
    assert_eq!(redirect_tmp(b"/var/tmp/x"), b"/var/tmp/x".to_vec());
    assert_eq!(redirect_tmp(b""), b"".to_vec());
}

#[test]
fn localizing_replaces_every_occurrence() {
    assert_eq!(localize_tmp(b"/var/tmp/x"), b"/var./tmp/x".to_vec());
    assert_eq!(localize_tmp(b"mv /tmp/a /tmp/b"), b"mv ./tmp/a ./tmp/b".to_vec());
    assert_eq!(localize_tmp(b"no temp here"), b"no temp here".to_vec());
    assert_eq!(localize_tmp(b"/tmp/"), b"./tmp/".to_vec());
}

#[test]
fn replace_matches_str_replace() {
    for (s, p, r) in [
        ("aaaa", "aa", "b"),
        ("abcabc", "bc", "XYZ"),
        ("", "a", "b"),
        ("abc", "", "x"),
        ("aaa", "aa", "a"),
    ] {
        if p.is_empty() {
            assert_eq!(replace_bytes(s.as_bytes(), p.as_bytes(), r.as_bytes()), s.as_bytes());
        } else {
            assert_eq!(
                replace_bytes(s.as_bytes(), p.as_bytes(), r.as_bytes()),
                s.replace(p, r).into_bytes()
            );
        }
    }
    assert!(has_prefix(b"/tmp/x", b"/tmp"));
    assert!(!has_prefix(b"/tm", b"/tmp"));
}

#[test]
fn usb_device_list_is_replaced() {
    assert_eq!(ifstream_path(b"/proc/bus/usb/devices"), b"./tmp/usb-devices".to_vec());
    assert_eq!(ifstream_path(b"/proc/bus/usb/devices/001"), b"./tmp/usb-devices".to_vec());
    assert_eq!(ifstream_path(b"/tmp/log"), b"./tmp/log".to_vec());
    assert_eq!(ifstream_path(b"/etc/hosts"), b"/etc/hosts".to_vec());
}

fn redirect(from: &str, to: &str, flags: Option<u32>) -> FileRedirect {
    FileRedirect { from: from.to_string(), to: to.to_string(), flags }
}

#[test]
fn first_matching_redirect_wins() {
    let rs = vec![
        redirect("/dev/a", "./a1", None),
        redirect("/tmp/b", "./b", Some(0o2)),
        redirect("/dev/a", "./a2", Some(7)),
    ];
    assert_eq!(open_redirect(&rs, b"/dev/a", 5), (b"./a1".to_vec(), 5));
    assert_eq!(open_redirect(&rs, b"/tmp/b", 5), (b"./b".to_vec(), 2));
    assert_eq!(open_redirect(&rs, b"/tmp/c", 5), (b"./tmp/c".to_vec(), 5));
    assert_eq!(open_redirect(&rs, b"/dev/ab", 5), (b"/dev/ab".to_vec(), 5));
    assert_eq!(open_redirect(&[], b"/etc/x", 9), (b"/etc/x".to_vec(), 9));
    let mut config = default_config();
    config.file_redirect.push(redirect("/dev/ttyS0", "/dev/ttyUSB0", None));
    assert_eq!(
        open_redirect(&config.file_redirect, b"/dev/ttyS0", 0),
        (b"/dev/ttyUSB0".to_vec(), 0)
    );
}

#[test]
fn shell_commands_are_gated() {
    assert_eq!(system_command(true, b"sudo reboot"), None);
    assert_eq!(
        system_command(true, b"find /tmp/x -name y"),
        Some(b"find ./tmp/x -name y".to_vec())
    );
    assert_eq!(system_command(false, b"sudo rm /tmp/z"), Some(b"sudo rm ./tmp/z".to_vec()));
    assert_eq!(system_command(true, b""), None);
}

#[test]
fn custom_ioctls_can_be_ignored() {
    assert_eq!(ioctl_result(0x5463, -1, true), 0);
    assert_eq!(ioctl_result(0x5464, -1, true), 0);
    assert_eq!(ioctl_result(0x5464, -1, false), -1);
    assert_eq!(ioctl_result(0x5465, -1, true), -1);
    assert_eq!(ioctl_result(0x1, 3, true), 3);
}

#[test]
fn defaults_and_resolution() {
    let mut c = default_config();
    assert!(!c.fullscreen);
    assert!(c.input_emu && c.card_emu && c.block_sudo && c.ignore_custom_ioctls);
    assert_eq!((c.width, c.height), (640, 480));
    assert!(c.dongle.is_empty() && c.local_ip.is_none() && c.file_redirect.is_empty());
    assert!(!c.needs_resolution_patch());
    assert!(!c.answers_network_address(false));
    assert!(c.answers_network_address(true));
    c.width = 1280;
    assert!(c.needs_resolution_patch());
    c.width = 640;
    c.height = 720;
    assert!(c.needs_resolution_patch());
    c.local_ip = Some("10.0.0.2".to_string());
    assert!(c.answers_network_address(false));
}
