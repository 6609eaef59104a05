use rebornmp::winstr::{encode_utf16, from_utf16_lossy};
use rebornmp::dll::{dll_reason, generate_minimal_dll, shellcode, DllReason};
use rebornmp::launch::{first_existing, wait_step, WaitStep};
use rebornmp::logfmt::{console_line, log_line, prompt_line, timed_line};
use rebornmp::text::to_decimal;
use rebornmp::winstr::{decode_wide_name, process_name_matches, units_before_nul, wide_name_is, wide_nul_path};

#[test]
fn decimal_rendering() {
    assert_eq!(to_decimal(0), "0");
    assert_eq!(to_decimal(7), "7");
    assert_eq!(to_decimal(1700000000123), "1700000000123");
    assert_eq!(to_decimal(u128::MAX), u128::MAX.to_string());
}

#[test]
fn log_lines() {
    assert_eq!(log_line(1234, "started"), "[1234] started\n");
    assert_eq!(console_line("hi"), "[RebornMP] hi");
    assert_eq!(timed_line("01:02:03", "msg"), "[01:02:03] msg");
}

#[test]
fn chat_prompt_padding() {
    let p = prompt_line("abc");
    assert_eq!(p, format!("\r[CHAT] {:<70}", "abc"));
    let long = "x".repeat(80);
    assert_eq!(prompt_line(&long), format!("\r[CHAT] {:<70}", long));
    assert_eq!(prompt_line(""), format!("\r[CHAT] {:<70}", ""));
}

#[test]
fn wide_names() {
    let mut buf = [0u16; 260];
    for (i, u) in "GTA5.exe".encode_utf16().enumerate() {
        buf[i] = u;
    }
    assert_eq!(units_before_nul(&buf).len(), 8);
    assert_eq!(decode_wide_name(&buf), "GTA5.exe");
    assert!(wide_name_is(&buf, "gta5.exe"));
    assert!(process_name_matches(&buf, "Gta5.EXE"));
    assert!(!process_name_matches(&buf, "PlayGTAV.exe"));
    let unpaired = [0x41u16, 0xD800, 0x42, 0];
    assert_eq!(decode_wide_name(&unpaired), "A\u{FFFD}B");
    let full = [0x61u16, 0x62];
    assert_eq!(decode_wide_name(&full), "ab");
}

#[test]
fn wide_path() {
    let (w, size) = wide_nul_path("C:\\a😀");
    assert_eq!(w, vec![0x43, 0x3A, 0x5C, 0x61, 0xD83D, 0xDE00, 0]);
    assert_eq!(size, 14);
}

#[test]
fn first_existing_candidate() {
    assert_eq!(first_existing(&[false, true, true]), Some(1));
    assert_eq!(first_existing(&[false, false]), None);
    assert_eq!(first_existing(&[]), None);
}

#[test]
fn waiting_for_game() {
    assert!(matches!(wait_step(3, Some(77)), WaitStep::Found(77)));
    assert!(matches!(wait_step(10, None), WaitStep::Waiting { report: true, give_up: false }));
    assert!(matches!(wait_step(11, None), WaitStep::Waiting { report: false, give_up: false }));
    assert!(matches!(wait_step(90, None), WaitStep::Waiting { report: true, give_up: true }));
}

#[test]
fn dll_reasons_and_images() {
    assert_eq!(dll_reason(0), DllReason::ProcessDetach);
    assert_eq!(dll_reason(1), DllReason::ProcessAttach);
    assert_eq!(dll_reason(2), DllReason::ThreadAttach);
    assert_eq!(dll_reason(3), DllReason::ThreadDetach);
    assert_eq!(dll_reason(9), DllReason::Other(9));
    let image = generate_minimal_dll();
    assert_eq!(image.len(), 0x200);
    assert_eq!(&image[0..2], b"MZ");
    let pe = u32::from_le_bytes([image[0x3C], image[0x3D], image[0x3E], image[0x3F]]) as usize;
    assert_eq!(&image[pe..pe + 4], b"PE\0\0");
    assert_eq!(u16::from_le_bytes([image[pe + 4], image[pe + 5]]), 0x8664);
    let characteristics = u16::from_le_bytes([image[pe + 0x16], image[pe + 0x17]]);
    assert_ne!(characteristics & 0x2000, 0);
    assert_eq!(u16::from_le_bytes([image[pe + 0x18], image[pe + 0x19]]), 0x020B);
    let sc = shellcode();
    assert_eq!(sc.len(), 32);
    assert_eq!(sc[0], 0x48);
    assert_eq!(sc[31], 0xC3);
}

#[test]
fn utf16_roundtrip_against_std() {
    let s = "aé€😀z";
    let units = encode_utf16(s);
    assert_eq!(units, s.encode_utf16().collect::<Vec<u16>>());
    assert_eq!(from_utf16_lossy(&units), s);
    let bad = [0xDC00u16, 0xD800, 0xD800, 0xDC01, 0x41];
    assert_eq!(from_utf16_lossy(&bad), String::from_utf16_lossy(&bad));
}
