use vstd::prelude::*;
use crate::level::Level;
use crate::text::{joined, owned};

verus! {

/// Address prefix under which avatar parameters are published.
pub const PARAM_PREFIX: &'static str = "/avatar/parameters/";

/// Address prefix of the input axes and buttons.
pub const INPUT_PREFIX: &'static str = "/input/";

/// Address of the chat box.
pub const CHATBOX_ADDRESS: &'static str = "/chatbox/input/";

/// One typed argument of a message.
#[derive(Clone, Debug, PartialEq, Eq)]
pub enum OscValue {
    /// A real number, in fixed point.
    Float(Level),
    Bool(bool),
    Int(i32),
    Text(String),
    /// An angle held in fixed-point radians that travels as degrees.
    Degrees(Level),
}

/// What an argument holds, with text as a sequence of characters.
pub enum OscValueView {
    Float(Level),
    Bool(bool),
    Int(i32),
    Text(Seq<char>),
    Degrees(Level),
}

impl View for OscValue {
    type V = OscValueView;

    open spec fn view(&self) -> OscValueView {
        match self {
            OscValue::Float(x) => OscValueView::Float(*x),
            OscValue::Bool(b) => OscValueView::Bool(*b),
            OscValue::Int(i) => OscValueView::Int(*i),
            OscValue::Text(s) => OscValueView::Text(s@),
            OscValue::Degrees(x) => OscValueView::Degrees(*x),
        }
    }
}

impl OscValue {
    /// A copy that holds the same value.
    pub fn duplicate(&self) -> (r: OscValue)
        ensures
            r@ == self@,
    {
        match self {
            OscValue::Float(x) => OscValue::Float(*x),
            OscValue::Bool(b) => OscValue::Bool(*b),
            OscValue::Int(i) => OscValue::Int(*i),
            OscValue::Text(s) => OscValue::Text(s.clone()),
            OscValue::Degrees(x) => OscValue::Degrees(*x),
        }
    }

    /// Whether two arguments have the same type and hold the same value.
    pub fn same(&self, other: &OscValue) -> (r: bool)
        ensures
            r == (self@ == other@),
    {
        match (self, other) {
            (OscValue::Float(a), OscValue::Float(b)) => *a == *b,
            (OscValue::Bool(a), OscValue::Bool(b)) => *a == *b,
            (OscValue::Int(a), OscValue::Int(b)) => *a == *b,
            (OscValue::Text(a), OscValue::Text(b)) => *a == *b,
            (OscValue::Degrees(a), OscValue::Degrees(b)) => *a == *b,
            _ => false,
        }
    }
}

/// The views of a run of arguments, in order.
pub open spec fn values_view(args: Seq<OscValue>) -> Seq<OscValueView> {
    args.map_values(|v: OscValue| v@)
}

/// One outbound message: an address and its arguments.
#[derive(Clone, Debug, PartialEq, Eq)]
pub struct OscMessage {
    pub addr: String,
    pub args: Vec<OscValue>,
}

/// What a message holds.
pub struct OscMessageView {
    pub addr: Seq<char>,
    pub args: Seq<OscValueView>,
}

impl View for OscMessage {
    type V = OscMessageView;

    open spec fn view(&self) -> OscMessageView {
        OscMessageView { addr: self.addr@, args: values_view(self.args@) }
    }
}

/// The views of a run of messages, in order.
pub open spec fn messages_view(msgs: Seq<OscMessage>) -> Seq<OscMessageView> {
    msgs.map_values(|m: OscMessage| m@)
}

/// The message that carries one argument to an address.
pub open spec fn single(addr: Seq<char>, value: OscValueView) -> OscMessageView {
    OscMessageView { addr, args: seq![value] }
}

/// The message that sets the avatar parameter `name`.
pub open spec fn parameter_message(name: Seq<char>, value: OscValueView) -> OscMessageView {
    single(PARAM_PREFIX@ + name, value)
}

/// The message that sets the input axis or button `name`.
pub open spec fn input_message(name: Seq<char>, value: OscValueView) -> OscMessageView {
    single(INPUT_PREFIX@ + name, value)
}

/// The message that puts `message` into the chat box.
pub open spec fn chatbox_message(
    message: Seq<char>,
    open_keyboard: bool,
    play_sound: bool,
) -> OscMessageView {
    OscMessageView {
        addr: CHATBOX_ADDRESS@,
        args: seq![
            OscValueView::Text(message),
            OscValueView::Bool(open_keyboard),
            OscValueView::Bool(play_sound),
        ],
    }
}

/// The ordered list of messages that one tick sends out.
#[derive(Clone, Debug, PartialEq, Eq)]
pub struct AvatarBundle {
    pub content: Vec<OscMessage>,
}

impl View for AvatarBundle {
    type V = Seq<OscMessageView>;

    open spec fn view(&self) -> Seq<OscMessageView> {
        messages_view(self.content@)
    }
}

impl AvatarBundle {
    /// An empty bundle.
    pub fn new_bundle() -> (b: AvatarBundle)
        ensures
            b@ == Seq::<OscMessageView>::empty(),
    {
        let b = AvatarBundle { content: Vec::new() };
        assert(b@ =~= Seq::<OscMessageView>::empty());
        b
    }

    /// Number of messages in the bundle.
    pub fn len(&self) -> (n: usize)
        ensures
            n == self@.len(),
    {
        self.content.len()
    }

    /// Appends a message.
    pub fn push(&mut self, msg: OscMessage)
        ensures
            final(self)@ == old(self)@.push(msg@),
    {
        self.content.push(msg);
        assert(self@ =~= old(self)@.push(msg@));
    }

    /// Appends the message that sets the avatar parameter `name` to `value`.
    pub fn send_parameter(&mut self, name: &str, value: OscValue)
        ensures
            final(self)@ == old(self)@.push(parameter_message(name@, value@)),
    {
        let mut args: Vec<OscValue> = Vec::new();
        args.push(value);
        let msg = OscMessage { addr: joined(PARAM_PREFIX, name), args };
        assert(msg@.args =~= seq![value@]);
        self.push(msg);
    }

    /// Appends a message for `addr` that carries `args` as they are.
    pub fn send_tracking(&mut self, addr: &str, args: Vec<OscValue>)
        ensures
            final(self)@ == old(self)@.push(
                OscMessageView { addr: addr@, args: values_view(args@) },
            ),
    {
        let msg = OscMessage { addr: owned(addr), args };
        self.push(msg);
    }

    /// Appends the message that moves the input axis `name` to `value`.
    pub fn send_input_axis(&mut self, name: &str, value: Level)
        ensures
            final(self)@ == old(self)@.push(input_message(name@, OscValueView::Float(value))),
    {
        let mut args: Vec<OscValue> = Vec::new();
        args.push(OscValue::Float(value));
        let msg = OscMessage { addr: joined(INPUT_PREFIX, name), args };
        assert(msg@.args =~= seq![OscValueView::Float(value)]);
        self.push(msg);
    }

    /// Appends the message that presses or releases the input button `name`.
    pub fn send_input_button(&mut self, name: &str, value: bool)
        ensures
            final(self)@ == old(self)@.push(input_message(name@, OscValueView::Bool(value))),
    {
        let mut args: Vec<OscValue> = Vec::new();
        args.push(OscValue::Bool(value));
        let msg = OscMessage { addr: joined(INPUT_PREFIX, name), args };
        assert(msg@.args =~= seq![OscValueView::Bool(value)]);
        self.push(msg);
    }

    /// Puts a chat box message in front of everything else in the bundle.
    pub fn send_chatbox_message(&mut self, message: String, open_keyboard: bool, play_sound: bool)
        ensures
            final(self)@ == old(self)@.insert(
                0,
                chatbox_message(message@, open_keyboard, play_sound),
            ),
    {
        let ghost text = message@;
        let mut args: Vec<OscValue> = Vec::new();
        args.push(OscValue::Text(message));
        args.push(OscValue::Bool(open_keyboard));
        args.push(OscValue::Bool(play_sound));
        let msg = OscMessage { addr: owned(CHATBOX_ADDRESS), args };
        assert(msg@.args =~= chatbox_message(text, open_keyboard, play_sound).args);
        self.content.insert(0, msg);
        assert(self@ =~= old(self)@.insert(0, chatbox_message(text, open_keyboard, play_sound)));
    }
}

} // verus!
