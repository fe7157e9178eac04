//! The wire messages and their JSON text: one `button-input` and one
//! `controller-input` message per frame.

use vstd::prelude::*;
use crate::input::{ButtonInput, ControllerInput, ControllerValue, SerialInput};
use crate::text::{decimal, hex_char, hex_digit, push_char, push_decimal, push_str};

verus! {

/// `{"type":"button-input","isPushed":<bool>}`
#[derive(Debug, Clone)]
pub struct ButtonInputMessage {
    pub message_type: String,
    pub is_pushed: bool,
}

/// `{"type":"controller-input","left":<n>,"right":<n>,"up":<n>,"down":<n>}`
/// where a level is 0 for no input, 1 for low and 2 for high (or middle).
#[derive(Debug, Clone)]
pub struct ControllerInputMessage {
    pub message_type: String,
    pub left: i32,
    pub right: i32,
    pub up: i32,
    pub down: i32,
}

/// The wire code of a level.
pub open spec fn level_code(value: ControllerValue) -> i32 {
    match value {
        ControllerValue::Noinput(_) => 0,
        ControllerValue::Low(_) => 1,
        ControllerValue::Middle(_) => 2,
        ControllerValue::High(_) => 2,
    }
}

/// How a character stands inside a JSON string: quote and backslash are
/// escaped, control characters get their short escape or `\u00XX`.
pub open spec fn escape_char(c: char) -> Seq<char> {
    let u = c as u32;
    if c == '"' {
        seq!['\\', '"']
    } else if c == '\\' {
        seq!['\\', '\\']
    } else if u == 0x8 {
        seq!['\\', 'b']
    } else if u == 0x9 {
        seq!['\\', 't']
    } else if u == 0xa {
        seq!['\\', 'n']
    } else if u == 0xc {
        seq!['\\', 'f']
    } else if u == 0xd {
        seq!['\\', 'r']
    } else if u < 0x20 {
        seq!['\\', 'u', '0', '0', hex_digit(u as int / 16), hex_digit(u as int % 16)]
    } else {
        seq![c]
    }
}

pub open spec fn escape_text(s: Seq<char>) -> Seq<char>
    decreases s.len(),
{
    if s.len() == 0 {
        Seq::empty()
    } else {
        escape_text(s.drop_last()) + escape_char(s.last())
    }
}

/// A JSON string literal holding `s`.
pub open spec fn json_string(s: Seq<char>) -> Seq<char> {
    seq!['"'] + escape_text(s) + seq!['"']
}

pub open spec fn json_bool(b: bool) -> Seq<char> {
    if b {
        seq!['t', 'r', 'u', 'e']
    } else {
        seq!['f', 'a', 'l', 's', 'e']
    }
}

/// A JSON object key followed by its colon: `"key":`.
pub open spec fn json_key(key: Seq<char>) -> Seq<char> {
    json_string(key) + seq![':']
}

pub open spec fn button_json(message_type: Seq<char>, is_pushed: bool) -> Seq<char> {
    seq!['{'] + json_key("type"@) + json_string(message_type) + seq![','] + json_key("isPushed"@)
        + json_bool(is_pushed) + seq!['}']
}

pub open spec fn controller_json(
    message_type: Seq<char>,
    left: i32,
    right: i32,
    up: i32,
    down: i32,
) -> Seq<char> {
    seq!['{'] + json_key("type"@) + json_string(message_type) + seq![','] + json_key("left"@)
        + decimal(left as int) + seq![','] + json_key("right"@) + decimal(right as int) + seq![',']
        + json_key("up"@) + decimal(up as int) + seq![','] + json_key("down"@) + decimal(
        down as int,
    ) + seq!['}']
}

fn push_escaped_char(out: &mut String, c: char)
    ensures
        final(out)@ == old(out)@ + escape_char(c),
{
    let u = c as u32;
    if c == '"' {
        push_char(out, '\\');
        push_char(out, '"');
    } else if c == '\\' {
        push_char(out, '\\');
        push_char(out, '\\');
    } else if u == 0x8 {
        push_char(out, '\\');
        push_char(out, 'b');
    } else if u == 0x9 {
        push_char(out, '\\');
        push_char(out, 't');
    } else if u == 0xa {
        push_char(out, '\\');
        push_char(out, 'n');
    } else if u == 0xc {
        push_char(out, '\\');
        push_char(out, 'f');
    } else if u == 0xd {
        push_char(out, '\\');
        push_char(out, 'r');
    } else if u < 0x20 {
        push_char(out, '\\');
        push_char(out, 'u');
        push_char(out, '0');
        push_char(out, '0');
        push_char(out, hex_char(u / 16));
        push_char(out, hex_char(u % 16));
    } else {
        push_char(out, c);
    }
    assert(final(out)@ =~= old(out)@ + escape_char(c));
}

/// Appends `s` as a JSON string literal.
fn push_json_string(out: &mut String, s: &str)
    ensures
        final(out)@ == old(out)@ + json_string(s@),
{
    push_char(out, '"');
    let ghost start = out@;
    let n = s.unicode_len();
    let mut i: usize = 0;
    assert(s@.subrange(0, 0) =~= Seq::<char>::empty());
    while i < n
        invariant
            n == s@.len(),
            i <= n,
            out@ == start + escape_text(s@.subrange(0, i as int)),
        decreases n - i,
    {
        let c = s.get_char(i);
        push_escaped_char(out, c);
        assert(s@.subrange(0, i + 1).drop_last() =~= s@.subrange(0, i as int));
        assert(out@ =~= start + escape_text(s@.subrange(0, i + 1)));
        i = i + 1;
    }
    assert(s@.subrange(0, n as int) =~= s@);
    push_char(out, '"');
    assert(final(out)@ =~= old(out)@ + json_string(s@));
}

/// The two messages of a frame, button first.
pub open spec fn frame_messages(frame: SerialInput) -> Seq<Seq<char>> {
    seq![
        button_json("button-input"@, frame.button.is_pushed),
        controller_json(
            "controller-input"@,
            level_code(frame.controller.left),
            level_code(frame.controller.right),
            level_code(frame.controller.up),
            level_code(frame.controller.down),
        ),
    ]
}

impl ButtonInputMessage {
    pub fn new(button: &ButtonInput) -> (r: Self)
        ensures
            r.message_type@ == "button-input"@,
            r.is_pushed == button.is_pushed,
    {
        ButtonInputMessage { message_type: "button-input".to_string(), is_pushed: button.is_pushed }
    }

    /// The message as JSON text, keys in the order `type`, `isPushed`.
    pub fn to_json(&self) -> (r: String)
        ensures
            r@ == button_json(self.message_type@, self.is_pushed),
    {
        let mut out = String::new();
        push_char(&mut out, '{');
        push_json_string(&mut out, "type");
        push_char(&mut out, ':');
        push_json_string(&mut out, self.message_type.as_str());
        push_char(&mut out, ',');
        push_json_string(&mut out, "isPushed");
        push_char(&mut out, ':');
        if self.is_pushed {
            push_str(&mut out, "true");
        } else {
            push_str(&mut out, "false");
        }
        push_char(&mut out, '}');
        proof {
            reveal_strlit("true");
            reveal_strlit("false");
        }
        assert(out@ =~= button_json(self.message_type@, self.is_pushed));
        out
    }
}

impl ControllerInputMessage {
    pub fn new(controller: &ControllerInput) -> (r: Self)
        ensures
            r.message_type@ == "controller-input"@,
            r.left == level_code(controller.left),
            r.right == level_code(controller.right),
            r.up == level_code(controller.up),
            r.down == level_code(controller.down),
    {
        ControllerInputMessage {
            message_type: "controller-input".to_string(),
            left: Self::value_to_int(&controller.left),
            right: Self::value_to_int(&controller.right),
            up: Self::value_to_int(&controller.up),
            down: Self::value_to_int(&controller.down),
        }
    }

    /// The wire code of a level: 0 for no input, 1 for low, 2 for middle
    /// and for high.
    pub fn value_to_int(value: &ControllerValue) -> (r: i32)
        ensures
            r == level_code(*value),
    {
        match value {
            ControllerValue::Noinput(_) => 0,
            ControllerValue::Low(_) => 1,
            ControllerValue::Middle(_) => 2,
            ControllerValue::High(_) => 2,
        }
    }

    /// The message as JSON text, keys in the order `type`, `left`, `right`,
    /// `up`, `down`.
    pub fn to_json(&self) -> (r: String)
        ensures
            r@ == controller_json(self.message_type@, self.left, self.right, self.up, self.down),
    {
        let mut out = String::new();
        push_char(&mut out, '{');
        push_json_string(&mut out, "type");
        push_char(&mut out, ':');
        push_json_string(&mut out, self.message_type.as_str());
        push_char(&mut out, ',');
        push_json_string(&mut out, "left");
        push_char(&mut out, ':');
        push_decimal(&mut out, self.left);
        push_char(&mut out, ',');
        push_json_string(&mut out, "right");
        push_char(&mut out, ':');
        push_decimal(&mut out, self.right);
        push_char(&mut out, ',');
        push_json_string(&mut out, "up");
        push_char(&mut out, ':');
        push_decimal(&mut out, self.up);
        push_char(&mut out, ',');
        push_json_string(&mut out, "down");
        push_char(&mut out, ':');
        push_decimal(&mut out, self.down);
        push_char(&mut out, '}');
        assert(out@ =~= controller_json(
            self.message_type@,
            self.left,
            self.right,
            self.up,
            self.down,
        ));
        out
    }
}

/// The two wire messages of a frame as JSON text: the button message, then
/// the controller message.
pub fn encode_frame(frame: &SerialInput) -> (r: (String, String))
    ensures
        seq![r.0@, r.1@] == frame_messages(*frame),
{
    let button = ButtonInputMessage::new(&frame.button).to_json();
    let controller = ControllerInputMessage::new(&frame.controller).to_json();
    (button, controller)
}

/// Encoding is a function of the frame alone: equal frames give the same
/// messages, character for character.
pub proof fn lemma_encoding_deterministic(a: SerialInput, b: SerialInput)
    requires
        a == b,
    ensures
        frame_messages(a) == frame_messages(b),
        frame_messages(a).len() == 2,
{
}

} // verus!
