use rebornmp::webscript::{add_message_script, escape_script_text, hide_input_script, rect_corners, rgb, show_input_script, CHAT_AREA};

#[test]
fn add_message_script_escapes() {
    assert_eq!(add_message_script("hi", true), "window.addMessage(\"hi\", true);");
    assert_eq!(
        add_message_script("say \"yo\"\nnow", false),
        "window.addMessage(\"say \\\"yo\\\" now\", false);"
    );
    let t = "a\"b\nc";
    assert_eq!(escape_script_text(t), t.replace('"', "\\\"").replace('\n', " "));
}

#[test]
fn fixed_scripts() {
    assert_eq!(show_input_script(), "window.showInput();");
    assert_eq!(hide_input_script(), "window.hideInput();");
}

#[test]
fn colours_and_rects() {
    assert_eq!(rgb(0x11, 0x22, 0x33), 0x00332211);
    assert_eq!(rgb(255, 255, 255), 0x00FFFFFF);
    assert_eq!(rect_corners(10, 20, 30, 40), (10, 20, 40, 60));
    assert_eq!(CHAT_AREA, (0, 0, 400, 500));
}
