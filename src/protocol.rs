//! X11 protocol values: atoms, properties, events and the requests built from them.
use vstd::prelude::*;
use vstd::string::StrSliceExecFns;
use vstd::utf8::{decode_utf8, encode_utf8, valid_utf8};

verus! {

/// Numeric identifier that the server interns for a name.
pub type AtomID = u32;

/// Numeric identifier of a window.
pub type WindowID = u32;

/// Numeric identifier of a visual.
pub type VisualID = u32;

/// Numeric identifier of a colour map.
pub type ColorMapID = u32;

/// A pixel value.
pub type Color = u32;

/// The predefined atom that stands for "no atom".
pub const ATOM_NONE: AtomID = 0;

/// The predefined `ATOM` type.
pub const ATOM_ATOM: AtomID = 4;

/// The predefined `CARDINAL` type.
pub const ATOM_CARDINAL: AtomID = 6;

/// The predefined `INTEGER` type.
pub const ATOM_INTEGER: AtomID = 19;

/// The predefined `STRING` type.
pub const ATOM_STRING: AtomID = 31;

/// An error that the server reported for a request.
#[derive(Debug, Clone, Copy, PartialEq, Eq)]
pub struct Error {
    pub error_code: u8,
}

/// The value of a window property, typed by the property's type atom.
#[derive(Debug, Clone, PartialEq, Eq)]
pub enum PropertyValue {
    String(String),
    I32(i32),
    U32(u32),
    NoValue,
    Atom(AtomID),
    UnknownAtom(AtomID),
}

/// A window property: its name atom and its value.
#[derive(Debug, Clone, PartialEq, Eq)]
pub struct Property {
    pub key: AtomID,
    pub value: PropertyValue,
}

/// The type atom under which a value is stored on the wire.
pub open spec fn type_atom_of(v: PropertyValue) -> AtomID {
    match v {
        PropertyValue::String(_) => ATOM_STRING,
        PropertyValue::I32(_) => ATOM_INTEGER,
        PropertyValue::U32(_) => ATOM_CARDINAL,
        PropertyValue::Atom(_) => ATOM_ATOM,
        PropertyValue::UnknownAtom(t) => t,
        PropertyValue::NoValue => ATOM_NONE,
    }
}

impl PropertyValue {
    /// The type atom that tags this value on the wire.
    pub fn get_type_atom_id(&self) -> (r: AtomID)
        ensures
            r == type_atom_of(*self),
    {
        match self {
            PropertyValue::String(_) => ATOM_STRING,
            PropertyValue::I32(_) => ATOM_INTEGER,
            PropertyValue::U32(_) => ATOM_CARDINAL,
            PropertyValue::Atom(_) => ATOM_ATOM,
            PropertyValue::UnknownAtom(atom_id) => *atom_id,
            PropertyValue::NoValue => ATOM_NONE,
        }
    }
}

/// The name under which servers intern the UTF-8 text type.
pub const UTF8_STRING_NAME: &'static str = "UTF8_STRING";

/// The property as the server returned it: its type atom and its raw value bytes.
///
/// Items of format 32 arrive in the order of the host's bytes; the hosts this
/// library targets are little-endian, which is how the value is read.
#[derive(Debug, Clone, PartialEq, Eq)]
pub struct PropertyReply {
    pub type_atom: AtomID,
    pub value: Vec<u8>,
}

/// The text that `String::from_utf8_lossy` makes of a byte string.
pub uninterp spec fn lossy_text(bytes: Seq<u8>) -> Seq<char>;

/// Relies on `String::from_utf8_lossy`: decodes UTF-8, replacing each invalid
/// sequence with U+FFFD; the result depends on the bytes alone, and valid
/// UTF-8 is decoded unchanged.
#[verifier::external_body]
fn text_from_bytes(bytes: &[u8]) -> (r: String)
    ensures
        r@ == lossy_text(bytes@),
        valid_utf8(bytes@) ==> r@ == decode_utf8(bytes@),
{
    String::from_utf8_lossy(bytes).into_owned()
}

/// The 32-bit word held by the first four bytes, least significant first.
pub open spec fn first_word(b: Seq<u8>) -> u32 {
    (b[0] as int + b[1] as int * 0x100 + b[2] as int * 0x10000 + b[3] as int * 0x1000000) as u32
}

/// Whether the type atom is one that the decoding table knows by number.
pub open spec fn is_predefined_type(type_atom: AtomID) -> bool {
    type_atom == ATOM_STRING || type_atom == ATOM_INTEGER || type_atom == ATOM_NONE
        || type_atom == ATOM_ATOM || type_atom == ATOM_CARDINAL
}

/// Whether a value of this type is read as a 32-bit word.
pub open spec fn is_word_type(type_atom: AtomID) -> bool {
    type_atom == ATOM_INTEGER || type_atom == ATOM_ATOM || type_atom == ATOM_CARDINAL
}

/// The text that a property value's bytes hold: their UTF-8 decoding where
/// they are valid UTF-8, with invalid sequences replaced otherwise.
pub open spec fn text_of(value: Seq<u8>) -> Seq<char> {
    if valid_utf8(value) {
        decode_utf8(value)
    } else {
        lossy_text(value)
    }
}

/// Whether `v` is the decoding of a value of type `type_atom`, holding `value`,
/// where `type_label` is the name of the type atom (consulted only for a type
/// outside the predefined ones). A word-typed value shorter than a word does
/// not match its type, and is passed through as its type atom.
pub open spec fn is_decoding(
    v: PropertyValue,
    type_atom: AtomID,
    value: Seq<u8>,
    type_label: Seq<char>,
) -> bool {
    if type_atom == ATOM_STRING {
        v matches PropertyValue::String(s) && s@ == text_of(value)
    } else if is_word_type(type_atom) && value.len() < 4 {
        v == PropertyValue::UnknownAtom(type_atom)
    } else if type_atom == ATOM_INTEGER {
        v == PropertyValue::I32(first_word(value) as i32)
    } else if type_atom == ATOM_NONE {
        v == PropertyValue::NoValue
    } else if type_atom == ATOM_ATOM {
        v == PropertyValue::Atom(first_word(value))
    } else if type_atom == ATOM_CARDINAL {
        v == PropertyValue::U32(first_word(value))
    } else if type_label == UTF8_STRING_NAME@ {
        v matches PropertyValue::String(s) && s@ == text_of(value)
    } else {
        v == PropertyValue::UnknownAtom(type_atom)
    }
}

/// Whether two strings hold the same characters.
pub fn same_text(a: &str, b: &str) -> (r: bool)
    ensures
        r == (a@ == b@),
{
    let n = a.unicode_len();
    if n != b.unicode_len() {
        return false;
    }
    let mut i: usize = 0;
    while i < n
        invariant
            n == a@.len(),
            n == b@.len(),
            i <= n,
            a@.subrange(0, i as int) == b@.subrange(0, i as int),
        decreases n - i,
    {
        if a.get_char(i) != b.get_char(i) {
            return false;
        }
        assert(a@.subrange(0, i + 1) == a@.subrange(0, i as int).push(a@[i as int]));
        assert(b@.subrange(0, i + 1) == b@.subrange(0, i as int).push(b@[i as int]));
        i = i + 1;
    }
    assert(a@ == a@.subrange(0, n as int));
    assert(b@ == b@.subrange(0, n as int));
    true
}

/// Whether the type atom is one that the decoding table knows by number; a
/// value of any other type needs the type's name to be decoded.
pub fn is_predefined_type_atom(type_atom: AtomID) -> (r: bool)
    ensures
        r == is_predefined_type(type_atom),
{
    type_atom == ATOM_STRING || type_atom == ATOM_INTEGER || type_atom == ATOM_NONE
        || type_atom == ATOM_ATOM || type_atom == ATOM_CARDINAL
}

fn read_first_word(b: &Vec<u8>) -> (r: u32)
    requires
        b@.len() >= 4,
    ensures
        r == first_word(b@),
{
    b[0] as u32 + b[1] as u32 * 0x100 + b[2] as u32 * 0x10000 + b[3] as u32 * 0x1000000
}

/// Decodes a property value by the table of predefined types; a value of
/// another type is text when the type is named `UTF8_STRING`, and is passed
/// through as its type atom otherwise, as is a word-typed value too short to
/// hold a word.
pub fn decode_property_value(type_atom: AtomID, value: &Vec<u8>, type_label: &str) -> (r:
    PropertyValue)
    ensures
        is_decoding(r, type_atom, value@, type_label@),
{
    let is_word = type_atom == ATOM_INTEGER || type_atom == ATOM_ATOM || type_atom == ATOM_CARDINAL;
    if type_atom == ATOM_STRING {
        PropertyValue::String(text_from_bytes(value.as_slice()))
    } else if is_word && value.len() < 4 {
        PropertyValue::UnknownAtom(type_atom)
    } else if type_atom == ATOM_INTEGER {
        PropertyValue::I32(read_first_word(value) as i32)
    } else if type_atom == ATOM_NONE {
        PropertyValue::NoValue
    } else if type_atom == ATOM_ATOM {
        PropertyValue::Atom(read_first_word(value))
    } else if type_atom == ATOM_CARDINAL {
        PropertyValue::U32(read_first_word(value))
    } else if same_text(type_label, UTF8_STRING_NAME) {
        PropertyValue::String(text_from_bytes(value.as_slice()))
    } else {
        PropertyValue::UnknownAtom(type_atom)
    }
}

/// Turns the outcome of a property read into a property: a read that the
/// server rejected becomes an error that carries the server's code.
pub fn read_property(key: AtomID, reply: &Result<PropertyReply, u8>, type_label: &str) -> (r:
    Result<Property, Error>)
    ensures
        *reply matches Err(code) ==> r == Err::<Property, Error>(Error { error_code: code }),
        *reply matches Ok(p) ==> (r matches Ok(prop) && prop.key == key && is_decoding(
            prop.value,
            p.type_atom,
            p.value@,
            type_label@,
        )),
{
    match reply {
        Ok(p) => Ok(
            Property { key, value: decode_property_value(p.type_atom, &p.value, type_label) },
        ),
        Err(code) => Err(Error { error_code: *code }),
    }
}

/// The atom that an interning reply names: the server answers `ATOM_NONE`
/// for a name that it does not know.
pub fn atom_from_reply(atom_id: AtomID) -> (r: Option<AtomID>)
    ensures
        atom_id == ATOM_NONE ==> r is None,
        atom_id != ATOM_NONE ==> r == Some(atom_id),
{
    if atom_id == ATOM_NONE {
        None
    } else {
        Some(atom_id)
    }
}

/// Protocol code of a key press event.
pub const KEY_PRESS: u8 = 2;

/// Protocol code of a key release event.
pub const KEY_RELEASE: u8 = 3;

/// Protocol code of an expose event.
pub const EXPOSE: u8 = 12;

/// A key event.
#[derive(Debug, Clone, Copy, PartialEq, Eq)]
pub enum KeyEvent {
    KeyPress,
    KeyReleased,
}

/// An event received from, or sent through, the server.
#[derive(Debug, Clone, Copy, PartialEq, Eq)]
pub enum Event {
    KeyEvent(KeyEvent),
    ExposedEvent,
    ClientMessageEvent { window: WindowID, event_type: AtomID, data: [u32; 5] },
    /// An event of a kind that this library does not handle, by its protocol code.
    UnknownEvent(u8),
}

/// The event that a protocol code stands for, if this library handles it.
pub open spec fn event_of_code(code: u8) -> Option<Event> {
    if code == EXPOSE {
        Some(Event::ExposedEvent)
    } else if code == KEY_PRESS {
        Some(Event::KeyEvent(KeyEvent::KeyPress))
    } else if code == KEY_RELEASE {
        Some(Event::KeyEvent(KeyEvent::KeyReleased))
    } else {
        None
    }
}

/// Classifies a received event by its response type. The top bit, which marks
/// an event that a client sent, is ignored; an event of another kind gives
/// `None` and is to be dropped.
pub fn event_from_response_type(response_type: u8) -> (r: Option<Event>)
    ensures
        r == event_of_code(response_type & 0x7f),
{
    let code = response_type & 0x7f;
    if code == EXPOSE {
        Some(Event::ExposedEvent)
    } else if code == KEY_PRESS {
        Some(Event::KeyEvent(KeyEvent::KeyPress))
    } else if code == KEY_RELEASE {
        Some(Event::KeyEvent(KeyEvent::KeyReleased))
    } else {
        None
    }
}

/// The value of a property write: bytes written in format 8, or one word
/// written in format 32.
#[derive(Debug, Clone, PartialEq, Eq)]
pub enum PropertyData {
    Bytes(Vec<u8>),
    Word(u32),
}

/// A request that replaces a property of a window.
#[derive(Debug, Clone, PartialEq, Eq)]
pub struct PropertyWrite {
    pub window: WindowID,
    pub key: AtomID,
    pub type_atom: AtomID,
    pub format: u8,
    pub data: PropertyData,
}

/// Whether `w` is the request that stores `property` on `window`.
pub open spec fn is_property_write(w: PropertyWrite, window: WindowID, property: Property) -> bool {
    &&& w.window == window
    &&& w.key == property.key
    &&& w.type_atom == type_atom_of(property.value)
    &&& match property.value {
        PropertyValue::String(s) => w.format == 8 && (w.data matches PropertyData::Bytes(b)
            && b@ == encode_utf8(s@)),
        PropertyValue::I32(v) => w.format == 32 && w.data == PropertyData::Word(v as u32),
        PropertyValue::U32(v) => w.format == 32 && w.data == PropertyData::Word(v),
        PropertyValue::Atom(a) => w.format == 32 && w.data == PropertyData::Word(a),
        PropertyValue::NoValue => w.format == 32 && w.data == PropertyData::Word(ATOM_NONE),
        PropertyValue::UnknownAtom(_) => false,
    }
}

/// The request that stores `property` on `window`: text in format 8, every
/// other value as one word in format 32. An `UnknownAtom` value has no
/// encoding and is not accepted.
pub fn property_write(window: WindowID, property: &Property) -> (r: PropertyWrite)
    requires
        !(property.value is UnknownAtom),
    ensures
        is_property_write(r, window, *property),
{
    let type_atom = property.value.get_type_atom_id();
    let (format, data) = match &property.value {
        PropertyValue::String(val) => (8u8, PropertyData::Bytes(val.as_str().as_bytes_vec())),
        PropertyValue::Atom(val) => (32u8, PropertyData::Word(*val)),
        PropertyValue::I32(val) => (32u8, PropertyData::Word(*val as u32)),
        PropertyValue::U32(val) => (32u8, PropertyData::Word(*val)),
        PropertyValue::NoValue => (32u8, PropertyData::Word(ATOM_NONE)),
        PropertyValue::UnknownAtom(_) => (32u8, PropertyData::Word(ATOM_NONE)),
    };
    PropertyWrite { window, key: property.key, type_atom, format, data }
}

/// The four bytes of a word, least significant first.
pub open spec fn word_bytes(x: u32) -> Seq<u8> {
    seq![
        (x % 0x100) as u8,
        (x / 0x100 % 0x100) as u8,
        (x / 0x10000 % 0x100) as u8,
        (x / 0x1000000) as u8,
    ]
}

/// The bytes that a property write stores: its text's bytes, or its word.
pub open spec fn stored_bytes(data: PropertyData) -> Seq<u8> {
    match data {
        PropertyData::Bytes(b) => b@,
        PropertyData::Word(x) => word_bytes(x),
    }
}

proof fn lemma_word_bytes(x: u32)
    ensures
        first_word(word_bytes(x)) == x,
{
    let b = word_bytes(x);
    let xi = x as int;
    assert(xi == xi % 0x100 + (xi / 0x100 % 0x100) * 0x100 + (xi / 0x10000 % 0x100) * 0x10000
        + (xi / 0x1000000) * 0x1000000) by (nonlinear_arith)
        requires
            0 <= xi < 0x100000000,
    ;
    assert(xi / 0x1000000 < 0x100) by (nonlinear_arith)
        requires
            0 <= xi < 0x100000000,
    ;
    assert(b[0] as int == xi % 0x100);
    assert(b[1] as int == xi / 0x100 % 0x100);
    assert(b[2] as int == xi / 0x10000 % 0x100);
    assert(b[3] as int == xi / 0x1000000);
}

/// Reading a property back gives the value that was written: a reply that
/// holds the type and the bytes that a write of `property` stored decodes to
/// the written value, and text to the same characters.
pub proof fn lemma_property_round_trip(
    window: WindowID,
    property: Property,
    w: PropertyWrite,
    type_label: Seq<char>,
    v: PropertyValue,
)
    requires
        is_property_write(w, window, property),
        is_decoding(v, w.type_atom, stored_bytes(w.data), type_label),
    ensures
        match property.value {
            PropertyValue::String(s) => v matches PropertyValue::String(t) && t@ == s@,
            _ => v == property.value,
        },
{
    broadcast use vstd::utf8::encode_utf8_valid_utf8, vstd::utf8::encode_utf8_decode_utf8;

    match property.value {
        PropertyValue::String(s) => {},
        PropertyValue::I32(x) => {
            lemma_word_bytes(x as u32);
            assert(((x as u32) as i32) == x) by (bit_vector);
        },
        PropertyValue::U32(x) => {
            lemma_word_bytes(x);
        },
        PropertyValue::Atom(x) => {
            lemma_word_bytes(x);
        },
        _ => {},
    }
}

/// The event mask under which window-manager requests are sent: substructure
/// redirection, which the window manager of the root window selects.
pub const EVENT_MASK_SUBSTRUCTURE_REDIRECT: u32 = 0x100000;

/// A client message as it is sent: its destination window, whether it
/// propagates to ancestors, the event mask it is sent under, the window it
/// speaks of, its type, its format and its five 32-bit words.
#[derive(Debug, Clone, Copy, PartialEq, Eq)]
pub struct ClientMessage {
    pub destination: WindowID,
    pub propagate: bool,
    pub event_mask: u32,
    pub window: WindowID,
    pub message_type: AtomID,
    pub format: u8,
    pub data: [u32; 5],
}

/// The client message that sends `event` to `destination`, in format 32,
/// without propagation and under substructure redirection; an event of
/// another kind is not sent.
pub fn client_message(destination: WindowID, event: &Event) -> (r: Option<ClientMessage>)
    ensures
        match *event {
            Event::ClientMessageEvent { window, event_type, data } => r == Some(
                ClientMessage {
                    destination,
                    propagate: false,
                    event_mask: EVENT_MASK_SUBSTRUCTURE_REDIRECT,
                    window,
                    message_type: event_type,
                    format: 32,
                    data,
                },
            ),
            _ => r is None,
        },
{
    match event {
        Event::ClientMessageEvent { window, event_type, data } => Some(
            ClientMessage {
                destination,
                propagate: false,
                event_mask: EVENT_MASK_SUBSTRUCTURE_REDIRECT,
                window: *window,
                message_type: *event_type,
                format: 32,
                data: *data,
            },
        ),
        _ => None,
    }
}

/// The words of a `_NET_WM_STATE` request that adds `first`, and `second`
/// where it is given, to a window's state.
pub open spec fn state_add_words(first: AtomID, second: Option<AtomID>) -> Seq<u32> {
    seq![1, first, match second { Some(a) => a, None => 0 }, 0, 0]
}

/// The event that asks the window manager to add `first` (and `second`) to
/// the state of `window`; `wm_state` is the atom of `_NET_WM_STATE`.
pub fn state_add_event(window: WindowID, wm_state: AtomID, first: AtomID, second: Option<AtomID>) -> (r:
    Event)
    ensures
        r matches Event::ClientMessageEvent { window: w, event_type, data } && w == window
            && event_type == wm_state && data@ == state_add_words(first, second),
{
    let second_word: u32 = match second {
        Some(a) => a,
        None => 0,
    };
    let data: [u32; 5] = [1, first, second_word, 0, 0];
    assert(data@ == state_add_words(first, second));
    Event::ClientMessageEvent { window, event_type: wm_state, data }
}

/// The atoms that placing a window on the desktop needs, each as the server
/// resolved it.
#[derive(Debug, Clone, Copy, PartialEq, Eq)]
pub struct DesktopAtoms {
    /// `_NET_WM_WINDOW_TYPE`
    pub window_type: Option<AtomID>,
    /// `_NET_WM_WINDOW_TYPE_UTILITY`
    pub window_type_utility: Option<AtomID>,
    /// `_NET_WM_STATE`
    pub wm_state: Option<AtomID>,
    /// `_NET_WM_STATE_BELOW`
    pub wm_state_below: Option<AtomID>,
    /// `_NET_WM_STATE_FULLSCREEN`
    pub wm_state_fullscreen: Option<AtomID>,
}

/// What places a window on the desktop: the window type to store on it, and
/// the state request to send to the root window.
#[derive(Debug, Clone, PartialEq, Eq)]
pub struct DesktopPlacement {
    pub window_type: Property,
    pub state_request: ClientMessage,
}

/// Whether every atom of the set was resolved.
pub open spec fn all_resolved(a: DesktopAtoms) -> bool {
    &&& a.window_type is Some
    &&& a.window_type_utility is Some
    &&& a.wm_state is Some
    &&& a.wm_state_below is Some
    &&& a.wm_state_fullscreen is Some
}

/// The requests that make `window` a utility window that stays below every
/// other window and covers the screen: its type property, and a
/// `_NET_WM_STATE` add request for the below and fullscreen states, sent to
/// `root`. Without every atom there is no placement.
pub fn desktop_placement(root: WindowID, window: WindowID, atoms: &DesktopAtoms) -> (r: Option<
    DesktopPlacement,
>)
    ensures
        r is Some <==> all_resolved(*atoms),
        r matches Some(p) ==> {
            &&& p.window_type == (Property {
                key: atoms.window_type->0,
                value: PropertyValue::Atom(atoms.window_type_utility->0),
            })
            &&& p.state_request.destination == root
            &&& !p.state_request.propagate
            &&& p.state_request.event_mask == EVENT_MASK_SUBSTRUCTURE_REDIRECT
            &&& p.state_request.window == window
            &&& p.state_request.message_type == atoms.wm_state->0
            &&& p.state_request.format == 32
            &&& p.state_request.data@ == state_add_words(
                atoms.wm_state_below->0,
                Some(atoms.wm_state_fullscreen->0),
            )
        },
{
    match (atoms.window_type, atoms.window_type_utility, atoms.wm_state, atoms.wm_state_below, atoms.wm_state_fullscreen) {
        (Some(window_type), Some(utility), Some(wm_state), Some(below), Some(fullscreen)) => {
            let event = state_add_event(window, wm_state, below, Some(fullscreen));
            match client_message(root, &event) {
                Some(state_request) => Some(
                    DesktopPlacement {
                        window_type: Property { key: window_type, value: PropertyValue::Atom(utility) },
                        state_request,
                    },
                ),
                None => None,
            }
        },
        _ => None,
    }
}

/// Window attribute: background pixel.
pub const CW_BACK_PIXEL: u32 = 0x2;

/// Window attribute: border pixel.
pub const CW_BORDER_PIXEL: u32 = 0x8;

/// Window attribute: event mask.
pub const CW_EVENT_MASK: u32 = 0x800;

/// Window attribute: colour map.
pub const CW_COLORMAP: u32 = 0x2000;

/// The event mask that a child window is created with: key presses and
/// visibility changes.
pub const CHILD_EVENT_MASK: u32 = 0x10001;

/// The window class of a window that is drawn on.
pub const WINDOW_CLASS_INPUT_OUTPUT: u16 = 1;

/// A window's position and size.
#[derive(Debug, Clone, Copy, PartialEq, Eq)]
pub struct Geometry {
    pub x: i16,
    pub y: i16,
    pub width: u16,
    pub height: u16,
}

/// A request that creates a window.
#[derive(Debug, Clone, PartialEq, Eq)]
pub struct CreateWindowRequest {
    pub depth: u8,
    pub window: WindowID,
    pub parent: WindowID,
    pub geometry: Geometry,
    pub border_width: u16,
    pub class: u16,
    pub visual: VisualID,
    /// Attribute and value pairs.
    pub attributes: Vec<(u32, u32)>,
}

/// The attribute pair for an optional value.
pub open spec fn optional_attribute(attribute: u32, value: Option<u32>) -> Seq<(u32, u32)> {
    match value {
        Some(v) => seq![(attribute, v)],
        None => Seq::empty(),
    }
}

/// The attributes of a child window: its event mask, then the colour map,
/// background and border that are given.
pub open spec fn child_attributes(
    colormap: Option<ColorMapID>,
    background_pixel: Option<Color>,
    border_pixel: Option<Color>,
) -> Seq<(u32, u32)> {
    seq![(CW_EVENT_MASK, CHILD_EVENT_MASK)] + optional_attribute(CW_COLORMAP, colormap)
        + optional_attribute(CW_BACK_PIXEL, background_pixel) + optional_attribute(
        CW_BORDER_PIXEL,
        border_pixel,
    )
}

/// The request that creates `child` inside `parent`, one pixel of border
/// wide, with the visual given or else the screen's root visual.
pub fn child_window_request(
    parent: WindowID,
    child: WindowID,
    geometry: Geometry,
    depth: u8,
    colormap: Option<ColorMapID>,
    background_pixel: Option<Color>,
    border_pixel: Option<Color>,
    visual_id: Option<VisualID>,
    root_visual: VisualID,
) -> (r: CreateWindowRequest)
    ensures
        r.depth == depth,
        r.window == child,
        r.parent == parent,
        r.geometry == geometry,
        r.border_width == 1,
        r.class == WINDOW_CLASS_INPUT_OUTPUT,
        r.visual == match visual_id {
            Some(v) => v,
            None => root_visual,
        },
        r.attributes@ == child_attributes(colormap, background_pixel, border_pixel),
{
    let mut attributes: Vec<(u32, u32)> = Vec::new();
    attributes.push((CW_EVENT_MASK, CHILD_EVENT_MASK));
    if let Some(c) = colormap {
        attributes.push((CW_COLORMAP, c));
    }
    assert(attributes@ == seq![(CW_EVENT_MASK, CHILD_EVENT_MASK)] + optional_attribute(
        CW_COLORMAP,
        colormap,
    ));
    let ghost so_far = attributes@;
    if let Some(b) = background_pixel {
        attributes.push((CW_BACK_PIXEL, b));
    }
    assert(attributes@ == so_far + optional_attribute(CW_BACK_PIXEL, background_pixel));
    let ghost so_far = attributes@;
    if let Some(b) = border_pixel {
        attributes.push((CW_BORDER_PIXEL, b));
    }
    assert(attributes@ == so_far + optional_attribute(CW_BORDER_PIXEL, border_pixel));
    let visual = match visual_id {
        Some(v) => v,
        None => root_visual,
    };
    CreateWindowRequest {
        depth,
        window: child,
        parent,
        geometry,
        border_width: 1,
        class: WINDOW_CLASS_INPUT_OUTPUT,
        visual,
        attributes,
    }
}

/// The outcome of a window creation, given what the server answered to the
/// checked request: a rejection is an error that carries the server's code,
/// and the window is not to be mapped; otherwise `child` is the new window,
/// to be mapped.
pub fn created_window(child: WindowID, answer: Result<(), u8>) -> (r: Result<WindowID, Error>)
    ensures
        answer matches Err(code) ==> r == Err::<WindowID, Error>(Error { error_code: code }),
        answer is Ok ==> r == Ok::<WindowID, Error>(child),
{
    match answer {
        Ok(()) => Ok(child),
        Err(code) => Err(Error { error_code: code }),
    }
}

/// Graphics context attribute: foreground pixel.
pub const GC_FOREGROUND: u32 = 0x4;

/// Graphics context attribute: background pixel.
pub const GC_BACKGROUND: u32 = 0x8;

/// Graphics context attribute: line width.
pub const GC_LINE_WIDTH: u32 = 0x10;

/// Graphics context attribute: line style.
pub const GC_LINE_STYLE: u32 = 0x20;

/// Graphics context attribute: whether copies report exposures.
pub const GC_GRAPHICS_EXPOSURES: u32 = 0x10000;

/// The solid line style.
pub const LINE_STYLE_SOLID: u32 = 0;

/// The attributes of a graphics context that draws in `foreground` on
/// `background` with solid lines one pixel wide and no exposure reports.
pub fn graphics_context_attributes(foreground: Color, background: Color) -> (r: Vec<(u32, u32)>)
    ensures
        r@ == seq![
            (GC_FOREGROUND, foreground),
            (GC_BACKGROUND, background),
            (GC_LINE_WIDTH, 1u32),
            (GC_LINE_STYLE, LINE_STYLE_SOLID),
            (GC_GRAPHICS_EXPOSURES, 0u32),
        ],
{
    vec![
        (GC_FOREGROUND, foreground),
        (GC_BACKGROUND, background),
        (GC_LINE_WIDTH, 1),
        (GC_LINE_STYLE, LINE_STYLE_SOLID),
        (GC_GRAPHICS_EXPOSURES, 0),
    ]
}

/// Side of the square test image, in pixels.
pub const TEST_IMAGE_SIDE: u16 = 100;

/// Number of bytes of the square test image: four per pixel.
pub const TEST_IMAGE_LEN: usize = 40000;

/// The byte at `k` of the test image: its first hundred bytes hold pixels
/// whose two middle channels are full, the rest is zero.
pub open spec fn test_image_byte(k: int) -> u8 {
    if k < 100 && (k % 4 == 1 || k % 4 == 2) {
        0xFF
    } else {
        0
    }
}

/// The pixels of the square test image, four bytes each, drawn in place of an
/// image in 32-bit Z-pixmap format.
pub fn test_image_pixels() -> (r: Vec<u8>)
    ensures
        r@.len() == TEST_IMAGE_LEN,
        forall|k: int| 0 <= k < TEST_IMAGE_LEN ==> r@[k] == test_image_byte(k),
{
    let mut pixels: Vec<u8> = Vec::new();
    let mut k: usize = 0;
    while k < TEST_IMAGE_LEN
        invariant
            k <= TEST_IMAGE_LEN,
            pixels@.len() == k,
            forall|j: int| 0 <= j < k ==> pixels@[j] == test_image_byte(j),
        decreases TEST_IMAGE_LEN - k,
    {
        let byte: u8 = if k < 100 && (k % 4 == 1 || k % 4 == 2) {
            0xFF
        } else {
            0
        };
        pixels.push(byte);
        k = k + 1;
    }
    pixels
}

} // verus!
