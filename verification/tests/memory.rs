use rebornmp::offsets::{teleport_step, TeleportStep, TELEPORT_ATTEMPTS};
use rebornmp::hooks::{create_jmp_instruction, Hook};
use rebornmp::memscan::{find_pattern, read_displacement, region_is_readable, resolve_relative, scan_region, ScanStep};
use rebornmp::offsets::{field_address, local_ped_slot, LOCAL_PED, OFFSET_POSITION};
use rebornmp::signatures::{player_info_pattern, story_flag_pattern, PLAYER_INFO_DISP_AT, PLAYER_INFO_INSTR_LEN};

#[test]
fn pattern_with_wildcards() {
    let buf = [0x90, 0x48, 0x8B, 0x0D, 0x11, 0x22, 0x33, 0x44, 0x48, 0x85, 0xC9, 0x74, 0x05, 0xCC];
    let pat = player_info_pattern();
    assert_eq!(find_pattern(&buf, &pat), Some(1));
}

#[test]
fn pattern_first_match_wins() {
    let buf = [1u8, 2, 9, 1, 2, 9, 7];
    assert_eq!(find_pattern(&buf, &[1, 2]), Some(0));
    assert_eq!(find_pattern(&buf, &[9, 0, 2]), Some(2));
}

#[test]
fn pattern_at_very_end_is_not_tried() {
    let buf = [5u8, 6, 7];
    assert_eq!(find_pattern(&buf, &[6, 7]), None);
    assert_eq!(find_pattern(&buf, &[5, 6]), Some(0));
    assert_eq!(find_pattern(&buf, &[5, 6, 7]), None);
}

#[test]
fn pattern_empty_cases() {
    assert_eq!(find_pattern(&[], &[1]), None);
    assert_eq!(find_pattern(&[3, 4], &[]), Some(0));
    assert_eq!(find_pattern(&[], &[]), None);
}

#[test]
fn region_steps() {
    let data = [0u8, 0x80, 0x3D, 1, 2, 3, 4, 9, 0x74, 0x10, 0];
    let pat = story_flag_pattern();
    match scan_region(0x1000, 0x100, Some(&data), &pat) {
        ScanStep::Found(a) => assert_eq!(a, 0x1001),
        _ => panic!("expected a match"),
    }
    assert!(matches!(scan_region(0x1000, 0x100, None, &pat), ScanStep::Next(0x1100)));
    assert!(matches!(scan_region(0x1000, 0x100, Some(&[1, 2, 3]), &pat), ScanStep::Next(0x1100)));
    assert!(region_is_readable(0x1000));
    assert!(!region_is_readable(0x2000));
}

#[test]
fn displacement_and_target() {
    let code = [0x48u8, 0x8B, 0x0D, 0xF0, 0xFF, 0xFF, 0xFF, 0x48];
    let d = read_displacement(&code, PLAYER_INFO_DISP_AT);
    assert_eq!(d, -16);
    assert_eq!(resolve_relative(0x10000, PLAYER_INFO_INSTR_LEN, d), 0x10000 + 7 - 16);
    assert_eq!(read_displacement(&[0x78, 0x56, 0x34, 0x12], 0), 0x12345678);
    assert_eq!(read_displacement(&[0, 0, 0, 0x80], 0), i32::MIN);
}

#[test]
fn jmp_forward_and_backward() {
    assert_eq!(create_jmp_instruction(0x1000, 0x2000), vec![0xE9, 0xFB, 0x0F, 0, 0]);
    assert_eq!(create_jmp_instruction(0x2000, 0x1000), vec![0xE9, 0xFB, 0xEF, 0xFF, 0xFF]);
    let j = create_jmp_instruction(0x7FF6_0000_1000, 0x7FF6_0000_0000);
    let rel = i32::from_le_bytes([j[1], j[2], j[3], j[4]]);
    assert_eq!((0x7FF6_0000_1000i64 + 5 + rel as i64), 0x7FF6_0000_0000);
}

#[test]
fn hook_patch_jumps_to_detour() {
    let h = Hook::new(0x5000, 0x5100);
    assert_eq!(h.target, 0x5000);
    assert_eq!(h.detour, 0x5100);
    assert_eq!(h.original, 0);
    assert_eq!(h.jmp_patch(), vec![0xE9, 0xFB, 0x00, 0, 0]);
}

#[test]
fn ped_addresses() {
    assert_eq!(local_ped_slot(0), None);
    assert_eq!(local_ped_slot(0x1000), Some(0x1000 + LOCAL_PED));
    assert_eq!(field_address(0, OFFSET_POSITION), None);
    assert_eq!(field_address(0x2000, OFFSET_POSITION), Some(0x2090));
}

#[test]
fn teleport_steps() {
    assert!(matches!(teleport_step(1, 0x1000), TeleportStep::Write(0x1090)));
    assert!(matches!(teleport_step(1, 0), TeleportStep::Wait { give_up: false }));
    assert!(matches!(teleport_step(TELEPORT_ATTEMPTS, 0), TeleportStep::Wait { give_up: true }));
}
