use deskgl::protocol::{
    atom_from_reply, child_window_request, client_message, decode_property_value,
    desktop_placement, event_from_response_type, graphics_context_attributes,
    is_predefined_type_atom, property_write, read_property, same_text, state_add_event,
    test_image_pixels, ClientMessage, DesktopAtoms, Error, Event, Geometry, KeyEvent, Property,
    PropertyData, PropertyReply, PropertyValue, ATOM_ATOM, ATOM_CARDINAL, ATOM_INTEGER,
    ATOM_NONE, ATOM_STRING, CHILD_EVENT_MASK, CW_BACK_PIXEL, EVENT_MASK_SUBSTRUCTURE_REDIRECT, created_window, CW_BORDER_PIXEL, CW_COLORMAP,
    CW_EVENT_MASK, GC_BACKGROUND, GC_FOREGROUND, GC_GRAPHICS_EXPOSURES, GC_LINE_STYLE,
    GC_LINE_WIDTH, TEST_IMAGE_LEN, WINDOW_CLASS_INPUT_OUTPUT,
};

#[test]
fn type_atom_of_each_value() {
    assert_eq!(PropertyValue::String("a".to_string()).get_type_atom_id(), 31);
    assert_eq!(PropertyValue::I32(-1).get_type_atom_id(), 19);
    assert_eq!(PropertyValue::U32(1).get_type_atom_id(), 6);
    assert_eq!(PropertyValue::Atom(300).get_type_atom_id(), 4);
    assert_eq!(PropertyValue::NoValue.get_type_atom_id(), 0);
    assert_eq!(PropertyValue::UnknownAtom(412).get_type_atom_id(), 412);
}

#[test]
fn decodes_string_type() {
    let v = decode_property_value(ATOM_STRING, &b"desk".to_vec(), "");
    assert_eq!(v, PropertyValue::String("desk".to_string()));
}

#[test]
fn decodes_invalid_utf8_with_replacement() {
    let v = decode_property_value(ATOM_STRING, &vec![0x66, 0xFF], "");
    assert_eq!(v, PropertyValue::String("f\u{FFFD}".to_string()));
}

#[test]
fn decodes_integer_type_as_signed() {
    let v = decode_property_value(ATOM_INTEGER, &vec![0xFE, 0xFF, 0xFF, 0xFF], "");
    assert_eq!(v, PropertyValue::I32(-2));
}

#[test]
fn decodes_cardinal_type_little_endian() {
    let v = decode_property_value(ATOM_CARDINAL, &vec![0x01, 0x02, 0x03, 0x04, 0x09], "");
    assert_eq!(v, PropertyValue::U32(0x04030201));
}

#[test]
fn decodes_atom_type() {
    let v = decode_property_value(ATOM_ATOM, &vec![0x2C, 0x01, 0x00, 0x00], "");
    assert_eq!(v, PropertyValue::Atom(300));
}

#[test]
fn decodes_none_type() {
    let v = decode_property_value(ATOM_NONE, &vec![], "");
    assert_eq!(v, PropertyValue::NoValue);
}

#[test]
fn decodes_utf8_string_by_name() {
    let v = decode_property_value(377, &"caf\u{e9}".as_bytes().to_vec(), "UTF8_STRING");
    assert_eq!(v, PropertyValue::String("caf\u{e9}".to_string()));
}

#[test]
fn unknown_type_passes_through_its_atom() {
    let v = decode_property_value(377, &vec![1, 2, 3, 4], "WM_SIZE_HINTS");
    assert_eq!(v, PropertyValue::UnknownAtom(377));
    let v = decode_property_value(377, &vec![1, 2, 3, 4], "UTF8_STRINGS");
    assert_eq!(v, PropertyValue::UnknownAtom(377));
}

#[test]
fn predefined_types() {
    for t in [ATOM_STRING, ATOM_INTEGER, ATOM_NONE, ATOM_ATOM, ATOM_CARDINAL] {
        assert!(is_predefined_type_atom(t));
    }
    assert!(!is_predefined_type_atom(377));
    assert!(!is_predefined_type_atom(1));
}

#[test]
fn rejected_read_keeps_server_code() {
    let r = read_property(270, &Err(3), "");
    assert_eq!(r, Err(Error { error_code: 3 }));
    let r = read_property(270, &Err(0xFF), "");
    assert_eq!(r, Err(Error { error_code: 255 }));
}

#[test]
fn accepted_read_decodes_value() {
    let reply = PropertyReply { type_atom: ATOM_ATOM, value: vec![7, 0, 0, 0] };
    let r = read_property(270, &Ok(reply), "");
    assert_eq!(r, Ok(Property { key: 270, value: PropertyValue::Atom(7) }));
}

#[test]
fn same_text_compares_characters() {
    assert!(same_text("UTF8_STRING", "UTF8_STRING"));
    assert!(!same_text("UTF8_STRING", "UTF8_STRINg"));
    assert!(!same_text("UTF8", "UTF8_STRING"));
    assert!(same_text("", ""));
}

#[test]
fn interning_reply_none_is_missing() {
    assert_eq!(atom_from_reply(0), None);
    assert_eq!(atom_from_reply(301), Some(301));
}

#[test]
fn classifies_events() {
    assert_eq!(event_from_response_type(12), Some(Event::ExposedEvent));
    assert_eq!(event_from_response_type(2), Some(Event::KeyEvent(KeyEvent::KeyPress)));
    assert_eq!(event_from_response_type(3), Some(Event::KeyEvent(KeyEvent::KeyReleased)));
    assert_eq!(event_from_response_type(0x80 | 2), Some(Event::KeyEvent(KeyEvent::KeyPress)));
    assert_eq!(event_from_response_type(33), None);
    assert_eq!(event_from_response_type(0), None);
}

#[test]
fn writes_string_property_in_format_8() {
    let p = Property { key: 39, value: PropertyValue::String("bonsai".to_string()) };
    let w = property_write(5, &p);
    assert_eq!(w.window, 5);
    assert_eq!(w.key, 39);
    assert_eq!(w.type_atom, ATOM_STRING);
    assert_eq!(w.format, 8);
    assert_eq!(w.data, PropertyData::Bytes(b"bonsai".to_vec()));
}

#[test]
fn writes_word_properties_in_format_32() {
    let w = property_write(5, &Property { key: 300, value: PropertyValue::Atom(301) });
    assert_eq!((w.type_atom, w.format, w.data), (ATOM_ATOM, 32, PropertyData::Word(301)));
    let w = property_write(5, &Property { key: 300, value: PropertyValue::I32(-1) });
    assert_eq!((w.type_atom, w.format, w.data), (ATOM_INTEGER, 32, PropertyData::Word(0xFFFF_FFFF)));
    let w = property_write(5, &Property { key: 300, value: PropertyValue::U32(9) });
    assert_eq!((w.type_atom, w.format, w.data), (ATOM_CARDINAL, 32, PropertyData::Word(9)));
    let w = property_write(5, &Property { key: 300, value: PropertyValue::NoValue });
    assert_eq!((w.type_atom, w.format, w.data), (ATOM_NONE, 32, PropertyData::Word(0)));
}

#[test]
fn client_message_for_client_message_event() {
    let e = Event::ClientMessageEvent { window: 9, event_type: 40, data: [1, 2, 3, 4, 5] };
    let m = client_message(1, &e);
    assert_eq!(
        m,
        Some(ClientMessage {
            destination: 1,
            propagate: false,
            event_mask: EVENT_MASK_SUBSTRUCTURE_REDIRECT,
            window: 9,
            message_type: 40,
            format: 32,
            data: [1, 2, 3, 4, 5]
        })
    );
    assert_eq!(client_message(1, &Event::ExposedEvent), None);
}

#[test]
fn state_add_event_words() {
    let e = state_add_event(9, 40, 41, None);
    assert_eq!(e, Event::ClientMessageEvent { window: 9, event_type: 40, data: [1, 41, 0, 0, 0] });
}

#[test]
fn placement_sends_below_fullscreen_request_to_root() {
    let atoms = DesktopAtoms {
        window_type: Some(300),
        window_type_utility: Some(301),
        wm_state: Some(302),
        wm_state_below: Some(303),
        wm_state_fullscreen: Some(304),
    };
    let p = desktop_placement(0x1e5, 0x2a00001, &atoms).unwrap();
    assert_eq!(p.window_type, Property { key: 300, value: PropertyValue::Atom(301) });
    let m = p.state_request;
    assert_eq!(m.destination, 0x1e5);
    assert!(!m.propagate);
    assert_eq!(m.event_mask, 0x100000);
    assert_eq!(m.window, 0x2a00001);
    assert_eq!(m.message_type, 302);
    assert_eq!(m.format, 32);
    assert_eq!(m.data, [1, 303, 304, 0, 0]);
}

#[test]
fn placement_needs_every_atom() {
    let atoms = DesktopAtoms {
        window_type: Some(300),
        window_type_utility: Some(301),
        wm_state: Some(302),
        wm_state_below: None,
        wm_state_fullscreen: Some(304),
    };
    assert_eq!(desktop_placement(1, 2, &atoms), None);
}

#[test]
fn child_window_with_every_option() {
    let g = Geometry { x: 0, y: 0, width: 1920, height: 1080 };
    let r = child_window_request(1, 2, g, 32, Some(7), Some(0), Some(0xFF), Some(33), 21);
    assert_eq!(r.parent, 1);
    assert_eq!(r.window, 2);
    assert_eq!(r.geometry, g);
    assert_eq!(r.depth, 32);
    assert_eq!(r.border_width, 1);
    assert_eq!(r.class, WINDOW_CLASS_INPUT_OUTPUT);
    assert_eq!(r.visual, 33);
    assert_eq!(
        r.attributes,
        vec![(CW_EVENT_MASK, CHILD_EVENT_MASK), (CW_COLORMAP, 7), (CW_BACK_PIXEL, 0), (CW_BORDER_PIXEL, 0xFF)]
    );
}

#[test]
fn child_window_defaults_to_root_visual() {
    let g = Geometry { x: -4, y: 3, width: 10, height: 20 };
    let r = child_window_request(1, 2, g, 24, None, None, Some(5), None, 21);
    assert_eq!(r.visual, 21);
    assert_eq!(r.attributes, vec![(CW_EVENT_MASK, 0x10001), (CW_BORDER_PIXEL, 5)]);
}

#[test]
fn graphics_context_attribute_list() {
    assert_eq!(
        graphics_context_attributes(0xFFFFFF, 0),
        vec![
            (GC_FOREGROUND, 0xFFFFFF),
            (GC_BACKGROUND, 0),
            (GC_LINE_WIDTH, 1),
            (GC_LINE_STYLE, 0),
            (GC_GRAPHICS_EXPOSURES, 0)
        ]
    );
}

#[test]
fn test_image_pattern() {
    let p = test_image_pixels();
    assert_eq!(p.len(), TEST_IMAGE_LEN);
    assert_eq!(&p[0..8], &[0x00, 0xFF, 0xFF, 0x00, 0x00, 0xFF, 0xFF, 0x00]);
    assert_eq!(&p[96..104], &[0x00, 0xFF, 0xFF, 0x00, 0, 0, 0, 0]);
    assert!(p[100..].iter().all(|b| *b == 0));
}

#[test]
fn short_word_reply_is_unknown_atom() {
    assert_eq!(decode_property_value(ATOM_ATOM, &vec![], ""), PropertyValue::UnknownAtom(ATOM_ATOM));
    assert_eq!(decode_property_value(ATOM_INTEGER, &vec![1, 2, 3], ""), PropertyValue::UnknownAtom(ATOM_INTEGER));
    let reply = PropertyReply { type_atom: ATOM_CARDINAL, value: vec![9] };
    let r = read_property(270, &Ok(reply), "");
    assert_eq!(r, Ok(Property { key: 270, value: PropertyValue::UnknownAtom(ATOM_CARDINAL) }));
}

fn stored(data: &PropertyData) -> Vec<u8> {
    match data {
        PropertyData::Bytes(b) => b.clone(),
        PropertyData::Word(w) => w.to_le_bytes().to_vec(),
    }
}

#[test]
fn written_property_reads_back() {
    let values = vec![
        PropertyValue::String("caf\u{e9} bonsai".to_string()),
        PropertyValue::I32(-7),
        PropertyValue::U32(0xDEAD_BEEF),
        PropertyValue::Atom(301),
        PropertyValue::NoValue,
    ];
    for value in values {
        let p = Property { key: 39, value };
        let w = property_write(5, &p);
        let reply = PropertyReply { type_atom: w.type_atom, value: stored(&w.data) };
        assert_eq!(read_property(39, &Ok(reply), ""), Ok(p));
    }
}

#[test]
fn window_creation_outcome() {
    assert_eq!(created_window(0x2a00002, Ok(())), Ok(0x2a00002));
    assert_eq!(created_window(0x2a00002, Err(8)), Err(Error { error_code: 8 }));
}
