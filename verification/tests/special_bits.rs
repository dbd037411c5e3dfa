use xnixperms::constants::{S_IFDIR, S_ISGID, S_ISUID, S_ISVTX};
use xnixperms::{pretty_perms, AsciiString};

fn ascii(text: &str) -> AsciiString {
    AsciiString::from_ascii(text).unwrap()
}

#[test]
fn no_bits_render_as_dashes() {
    assert_eq!(pretty_perms(0), ascii("----------"));
}

#[test]
fn sticky_over_others_execute_is_lower_t() {
    assert_eq!(pretty_perms(0o1777), ascii("-rwxrwxrwt"));
    assert_eq!(pretty_perms(0o1001), ascii("---------t"));
}

#[test]
fn sticky_without_others_execute_is_upper_t() {
    assert_eq!(pretty_perms(0o1776), ascii("-rwxrwxrwT"));
    assert_eq!(pretty_perms(0o1000), ascii("---------T"));
}

#[test]
fn sticky_leaves_the_owner_cluster_alone() {
    assert_eq!(pretty_perms(0o1177), ascii("---xrwxrwt"));
    assert_eq!(pretty_perms(0o1477), ascii("-r--rwxrwt"));
    assert_eq!(pretty_perms(0o1277), ascii("--w-rwxrwt"));
    assert_eq!(pretty_perms(0o1677), ascii("-rw-rwxrwt"));
    assert_eq!(pretty_perms(0o1077), ascii("----rwxrwt"));
}

#[test]
fn sticky_shows_with_and_without_the_directory_bit() {
    assert_eq!(pretty_perms(0o041777), ascii("drwxrwxrwt"));
    assert_eq!(pretty_perms(0o101777), ascii("-rwxrwxrwt"));
    assert_eq!(pretty_perms(0o040770), ascii("drwxrwx---"));
    assert_eq!(pretty_perms(0o041770), ascii("drwxrwx--T"));
}

#[test]
fn setgid_over_group_execute_is_s() {
    assert_eq!(pretty_perms(0o2010), ascii("------s---"));
    assert_eq!(pretty_perms(0o2775), ascii("-rwxrwsr-x"));
}

#[test]
fn setgid_without_group_execute_is_l() {
    assert_eq!(pretty_perms(0o2000), ascii("------l---"));
    assert_eq!(pretty_perms(0o2765), ascii("-rwxrwlr-x"));
}

#[test]
fn sticky_and_setgid_fill_their_own_slots() {
    assert_eq!(pretty_perms(0o3751), ascii("-rwxr-s--t"));
    assert_eq!(pretty_perms(0o3741), ascii("-rwxr-l--t"));
    assert_eq!(pretty_perms(0o3740), ascii("-rwxr-l--T"));
}

#[test]
fn setuid_over_others_execute_is_lower_s() {
    assert_eq!(pretty_perms(0o4755), ascii("-rwxr-xr-s"));
    assert_eq!(pretty_perms(0o4001), ascii("---------s"));
}

#[test]
fn setuid_without_others_execute_is_upper_s() {
    assert_eq!(pretty_perms(0o4754), ascii("-rwxr-xr-S"));
    assert_eq!(pretty_perms(0o4000), ascii("---------S"));
}

#[test]
fn setuid_reads_the_slot_after_sticky_wrote_it() {
    // Sticky alone would show `T`; set-user-id then finds the slot taken.
    assert_eq!(pretty_perms(0o5754), ascii("-rwxr-xr-s"));
    assert_eq!(pretty_perms(0o5000), ascii("---------s"));
    assert_eq!(pretty_perms(0o5001), ascii("---------s"));
}

#[test]
fn all_special_bits_together() {
    assert_eq!(pretty_perms(0o7777), ascii("-rwxrwsrws"));
    assert_eq!(pretty_perms(0o7000), ascii("------l--s"));
    assert_eq!(pretty_perms(0o047777), ascii("drwxrwsrws"));
}

#[test]
fn special_bits_never_touch_the_owner_execute_slot() {
    for special in [0, S_ISVTX, S_ISGID, S_ISUID, S_ISVTX | S_ISGID | S_ISUID] {
        assert_eq!(pretty_perms(special | 0o100).as_str().as_bytes()[3], b'x');
        assert_eq!(pretty_perms(special).as_str().as_bytes()[3], b'-');
    }
}

#[test]
fn directory_bit_shows_as_d() {
    assert_eq!(pretty_perms(0o040755), ascii("drwxr-xr-x"));
    assert_eq!(pretty_perms(S_IFDIR), ascii("d---------"));
}

#[test]
fn other_types_show_as_dash_unless_they_hold_the_directory_bit() {
    // regular file, symbolic link, fifo, character device
    assert_eq!(pretty_perms(0o100644), ascii("-rw-r--r--"));
    assert_eq!(pretty_perms(0o120777), ascii("-rwxrwxrwx"));
    assert_eq!(pretty_perms(0o010600), ascii("-rw-------"));
    assert_eq!(pretty_perms(0o020620), ascii("-rw--w----"));
    // block device, socket and whiteout patterns contain the directory bit
    assert_eq!(pretty_perms(0o060660), ascii("drw-rw----"));
    assert_eq!(pretty_perms(0o140755), ascii("drwxr-xr-x"));
    assert_eq!(pretty_perms(0o160000), ascii("d---------"));
}

#[test]
fn position_zero_follows_the_directory_bit_for_every_mode() {
    for mode in 0..=0o177777u32 {
        let shown = pretty_perms(mode).as_str().as_bytes()[0];
        if mode & S_IFDIR != 0 {
            assert_eq!(shown, b'd', "mode {:#o}", mode);
        } else {
            assert_eq!(shown, b'-', "mode {:#o}", mode);
        }
    }
}

#[test]
fn every_rendering_has_ten_symbols_of_the_alphabet() {
    for mode in 0..=0o177777u32 {
        let text = pretty_perms(mode);
        assert_eq!(text.len(), 10, "mode {:#o}", mode);
        for byte in text.as_str().bytes() {
            assert!(b"-drwxsStTl".contains(&byte), "mode {:#o} shows {}", mode, byte);
        }
    }
    let text = pretty_perms(u32::MAX);
    assert_eq!(text.len(), 10);
    assert_eq!(text, ascii("drwxrwsrws"));
}

#[test]
fn rendering_twice_gives_the_same_text() {
    for mode in [0, 0o644, 0o1777, 0o2741, 0o4755, 0o040755, 0o107777, u32::MAX] {
        assert_eq!(pretty_perms(mode), pretty_perms(mode));
    }
}

#[test]
fn bits_above_the_type_field_change_nothing() {
    for mode in [0, 0o644, 0o1777, 0o2741, 0o4755, 0o040755, 0o107777, 0o177777] {
        for bit in 16..32 {
            assert_eq!(pretty_perms(mode | (1 << bit)), pretty_perms(mode));
        }
        assert_eq!(pretty_perms(mode | 0xffff_0000), pretty_perms(mode));
    }
}

#[test]
fn masking_to_thirteen_bits_keeps_the_text_of_a_mode_without_directory_bit() {
    for mode in [0, 0o644, 0o1777, 0o2741, 0o4755, 0o100644, 0o120777, 0o030000, 0xffff_0000] {
        assert_eq!(mode & S_IFDIR, 0);
        assert_eq!(pretty_perms(mode & 0o17777), pretty_perms(mode));
    }
}

#[test]
fn masking_to_thirteen_bits_loses_the_d_of_a_directory() {
    assert_eq!(pretty_perms(0o040755), ascii("drwxr-xr-x"));
    assert_eq!(pretty_perms(0o040755 & 0o17777), ascii("-rwxr-xr-x"));
}

/// The rendering built step by step on a byte buffer.
fn step_by_step(mode: u32) -> String {
    let masks = [0o400, 0o200, 0o100, 0o040, 0o020, 0o010, 0o004, 0o002, 0o001];
    let letters = b"rwxrwxrwx";
    let mut buffer = *b"----------";
    for slot in 0..9 {
        if mode & masks[slot] != 0 {
            buffer[slot + 1] = letters[slot];
        }
    }
    if mode & 0o040000 != 0 {
        buffer[0] = b'd';
    }
    if mode & 0o1000 != 0 {
        buffer[9] = if buffer[9] == b'-' { b'T' } else { b't' };
    }
    if mode & 0o2000 != 0 {
        buffer[6] = if buffer[6] == b'-' { b'l' } else { b's' };
    }
    if mode & 0o4000 != 0 {
        buffer[9] = if buffer[9] == b'-' { b'S' } else { b's' };
    }
    String::from_utf8(buffer.to_vec()).unwrap()
}

#[test]
fn rendering_agrees_with_the_step_by_step_construction() {
    for mode in 0..=0o177777u32 {
        assert_eq!(pretty_perms(mode).as_str(), step_by_step(mode), "mode {:#o}", mode);
    }
}

#[test]
fn only_the_directory_bit_of_the_type_field_is_read() {
    for mode in [0, 0o644, 0o1777, 0o2741, 0o4755, 0o040755, 0o047777] {
        assert_eq!(pretty_perms(mode | 0o010000), pretty_perms(mode));
        assert_eq!(pretty_perms(mode | 0o020000), pretty_perms(mode));
        assert_eq!(pretty_perms(mode | 0o100000), pretty_perms(mode));
        assert_eq!(pretty_perms(mode | 0o130000), pretty_perms(mode));
    }
    assert_ne!(pretty_perms(0o644 | 0o040000), pretty_perms(0o644));
}
