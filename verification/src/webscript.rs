//! The JavaScript the client runs in its web overlay to drive the chat
//! page, and the GDI colours of the plain overlay.
use vstd::prelude::*;

verus! {

/// A message's text made safe inside a double-quoted script string:
/// double quotes get a backslash, line breaks become spaces.
pub open spec fn escape_char(c: char) -> Seq<char> {
    if c == '"' {
        seq!['\\', '"']
    } else if c == '\n' {
        seq![' ']
    } else {
        seq![c]
    }
}

pub open spec fn escape_text(s: Seq<char>) -> Seq<char>
    decreases s.len(),
{
    if s.len() == 0 {
        Seq::empty()
    } else {
        escape_text(s.drop_last()) + escape_char(s.last())
    }
}

/// `window.addMessage("<escaped text>", true|false);`
pub open spec fn spec_add_message_script(text: Seq<char>, is_system: bool) -> Seq<char> {
    "window.addMessage(\""@ + escape_text(text) + "\", "@ + (if is_system {
        "true"@
    } else {
        "false"@
    }) + ");"@
}

/// The escaped text of `text`.
pub fn escape_script_text(text: &str) -> (r: String)
    ensures
        r@ == escape_text(text@),
        (forall|i: int| 0 <= i < text@.len() ==> #[trigger] text@[i] != '"' && text@[i] != '\n') ==> r@
            == text@,
{
    let mut out = String::new();
    let n = text.unicode_len();
    let mut i: usize = 0;
    while i < n
        invariant
            n == text@.len(),
            i <= n,
            out@ == escape_text(text@.subrange(0, i as int)),
        decreases n - i,
    {
        let c = text.get_char(i);
        if c == '"' {
            out.push('\\');
            out.push('"');
        } else if c == '\n' {
            out.push(' ');
        } else {
            out.push(c);
        }
        assert(text@.subrange(0, i + 1).drop_last() =~= text@.subrange(0, i as int));
        assert(out@ =~= escape_text(text@.subrange(0, i + 1)));
        i += 1;
    }
    assert(text@.subrange(0, n as int) =~= text@);
    proof {
        lemma_escape_plain(text@);
    }
    out
}

/// The script that adds a message to the chat page.
pub fn add_message_script(text: &str, is_system: bool) -> (r: String)
    ensures
        r@ == spec_add_message_script(text@, is_system),
{
    let mut s = "window.addMessage(\"".to_owned();
    let escaped = escape_script_text(text);
    s.push_str(escaped.as_str());
    s.push_str("\", ");
    if is_system {
        s.push_str("true");
    } else {
        s.push_str("false");
    }
    s.push_str(");");
    s
}

/// Escaping works character by character: the escape of two texts put
/// together is the two escapes put together, a double quote becomes a
/// backslash and the quote, a line break becomes a space, and every other
/// character stays as it is. A text with neither is left unchanged.
pub proof fn lemma_escape_by_character(a: Seq<char>, b: Seq<char>, c: char)
    ensures
        escape_text(a + b) == escape_text(a) + escape_text(b),
        c == '"' ==> escape_text(seq![c]) == seq!['\\', '"'],
        c == '\n' ==> escape_text(seq![c]) == seq![' '],
        c != '"' && c != '\n' ==> escape_text(seq![c]) == seq![c],
        (forall|i: int| 0 <= i < a.len() ==> #[trigger] a[i] != '"' && a[i] != '\n') ==> escape_text(a) == a,
    decreases b.len(),
{
    assert(seq![c].drop_last() =~= Seq::<char>::empty());
    assert(seq![c].last() == c);
    assert(escape_text(seq![c]) == escape_text(Seq::<char>::empty()) + escape_char(c));
    assert(escape_text(Seq::<char>::empty()) + escape_char(c) =~= escape_char(c));
    if b.len() > 0 {
        lemma_escape_by_character(a, b.drop_last(), c);
        assert((a + b).drop_last() =~= a + b.drop_last());
    } else {
        assert(a + b =~= a);
    }
    lemma_escape_plain(a);
}

/// A text without double quotes or line breaks escapes to itself.
proof fn lemma_escape_plain(a: Seq<char>)
    ensures
        (forall|i: int| 0 <= i < a.len() ==> #[trigger] a[i] != '"' && a[i] != '\n') ==> escape_text(a) == a,
    decreases a.len(),
{
    if a.len() > 0 && (forall|i: int| 0 <= i < a.len() ==> #[trigger] a[i] != '"' && a[i] != '\n') {
        let p = a.drop_last();
        assert forall|i: int| 0 <= i < p.len() implies #[trigger] p[i] != '"' && p[i] != '\n' by {
            assert(p[i] == a[i]);
        }
        lemma_escape_plain(p);
        assert(a.last() == a[a.len() - 1]);
        assert(p.push(a.last()) =~= a);
    }
}

/// The escaped text holds no line break, and every double quote in it has
/// a backslash right before it.
pub proof fn lemma_escape_is_safe(s: Seq<char>)
    ensures
        forall|i: int| 0 <= i < escape_text(s).len() ==> #[trigger] escape_text(s)[i] != '\n',
        forall|i: int|
            0 <= i < escape_text(s).len() && #[trigger] escape_text(s)[i] == '"' ==> i > 0
                && escape_text(s)[i - 1] == '\\',
    decreases s.len(),
{
    if s.len() > 0 {
        lemma_escape_is_safe(s.drop_last());
        let p = escape_text(s.drop_last());
        let e = escape_char(s.last());
        assert(escape_text(s) == p + e);
        assert forall|i: int| 0 <= i < escape_text(s).len() implies #[trigger] escape_text(s)[i] != '\n' by {
            if i < p.len() {
                assert(escape_text(s)[i] == p[i]);
            } else {
                assert(escape_text(s)[i] == e[i - p.len()]);
            }
        }
        assert forall|i: int|
            0 <= i < escape_text(s).len() && #[trigger] escape_text(s)[i] == '"' implies i > 0
                && escape_text(s)[i - 1] == '\\' by {
            if i < p.len() {
                assert(escape_text(s)[i] == p[i]);
                assert(escape_text(s)[i - 1] == p[i - 1]);
            } else {
                assert(escape_text(s)[i] == e[i - p.len()]);
                assert(s.last() == '"');
                assert(i == p.len() + 1);
                assert(escape_text(s)[i - 1] == e[0]);
            }
        }
    }
}

/// The script that shows the input box.
pub fn show_input_script() -> (r: &'static str)
    ensures
        r@ == "window.showInput();"@,
{
    "window.showInput();"
}

/// The script that hides and empties the input box.
pub fn hide_input_script() -> (r: &'static str)
    ensures
        r@ == "window.hideInput();"@,
{
    "window.hideInput();"
}

/// A GDI colour (`COLORREF`): red in the low byte, then green, then blue.
pub fn rgb(r: u8, g: u8, b: u8) -> (c: u32)
    ensures
        c == r + g * 0x100 + b * 0x10000,
{
    r as u32 + g as u32 * 0x100 + b as u32 * 0x10000
}

/// The corners of a rectangle given by its top-left corner and size:
/// left, top, right, bottom.
pub fn rect_corners(x: i32, y: i32, w: i32, h: i32) -> (r: (i32, i32, i32, i32))
    requires
        i32::MIN <= x + w <= i32::MAX,
        i32::MIN <= y + h <= i32::MAX,
    ensures
        r == (x, y, (x + w) as i32, (y + h) as i32),
{
    (x, y, x + w, y + h)
}

/// The area of the screen the plain overlay clears every frame: left, top,
/// right, bottom.
pub const CHAT_AREA: (i32, i32, i32, i32) = (0, 0, 400, 500);

} // verus!
