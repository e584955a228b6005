use deskgl::desktop::{
    find_desktop, DesktopLocator, LocatorAction, LocatorStage, WindowNode, WindowTree,
};
use deskgl::protocol::{Error, Property, PropertyValue};

const WINDOW_TYPE: u32 = 300;
const DESKTOP: u32 = 310;
const NORMAL: u32 = 311;

fn typed(id: u32, t: u32, children: Vec<u32>) -> WindowNode {
    WindowNode {
        id,
        window_type: Ok(Property { key: WINDOW_TYPE, value: PropertyValue::Atom(t) }),
        children,
    }
}

fn untyped(id: u32, children: Vec<u32>) -> WindowNode {
    WindowNode { id, window_type: Err(Error { error_code: 3 }), children }
}

// root(100) -> [a(101) -> [c(103)], b(102) -> [d(104)]]
fn sample_tree(desktop_at: Option<usize>) -> WindowTree {
    let mut nodes = vec![
        untyped(100, vec![1, 2]),
        typed(101, NORMAL, vec![3]),
        untyped(102, vec![4]),
        untyped(103, vec![]),
        untyped(104, vec![]),
    ];
    if let Some(i) = desktop_at {
        nodes[i].window_type = Ok(Property { key: WINDOW_TYPE, value: PropertyValue::Atom(DESKTOP) });
    }
    WindowTree { nodes }
}

#[test]
fn walks_in_pre_order_and_stops_at_desktop() {
    let r = find_desktop(&sample_tree(Some(2)), Some(WINDOW_TYPE), Some(DESKTOP));
    assert_eq!(r.found, Some(102));
    assert_eq!(r.reads, vec![100, 101, 103, 102]);
}

#[test]
fn first_desktop_in_pre_order_wins() {
    let mut tree = sample_tree(Some(4));
    tree.nodes[3].window_type = Ok(Property { key: WINDOW_TYPE, value: PropertyValue::Atom(DESKTOP) });
    let r = find_desktop(&tree, Some(WINDOW_TYPE), Some(DESKTOP));
    assert_eq!(r.found, Some(103));
    assert_eq!(r.reads, vec![100, 101, 103]);
}

#[test]
fn desktop_root_is_found_at_once() {
    let r = find_desktop(&sample_tree(Some(0)), Some(WINDOW_TYPE), Some(DESKTOP));
    assert_eq!(r.found, Some(100));
    assert_eq!(r.reads, vec![100]);
}

#[test]
fn no_desktop_visits_every_window() {
    let r = find_desktop(&sample_tree(None), Some(WINDOW_TYPE), Some(DESKTOP));
    assert_eq!(r.found, None);
    assert_eq!(r.reads, vec![100, 101, 103, 102, 104]);
}

#[test]
fn failed_read_counts_as_absent_and_descends() {
    let r = find_desktop(&sample_tree(Some(4)), Some(WINDOW_TYPE), Some(DESKTOP));
    assert_eq!(r.found, Some(104));
    assert_eq!(r.reads, vec![100, 101, 103, 102, 104]);
}

#[test]
fn non_atom_value_is_not_desktop() {
    let tree = WindowTree {
        nodes: vec![
            WindowNode {
                id: 1,
                window_type: Ok(Property { key: WINDOW_TYPE, value: PropertyValue::U32(DESKTOP) }),
                children: vec![],
            },
        ],
    };
    let r = find_desktop(&tree, Some(WINDOW_TYPE), Some(DESKTOP));
    assert_eq!(r.found, None);
    assert_eq!(r.reads, vec![1]);
}

#[test]
fn missing_window_type_atom_reads_nothing() {
    let r = find_desktop(&sample_tree(Some(0)), None, Some(DESKTOP));
    assert_eq!(r.found, None);
    assert!(r.reads.is_empty());
}

#[test]
fn missing_desktop_atom_reads_nothing() {
    let r = find_desktop(&sample_tree(Some(0)), Some(WINDOW_TYPE), None);
    assert_eq!(r.found, None);
    assert!(r.reads.is_empty());
    let (locator, action) = DesktopLocator::start(100, Some(WINDOW_TYPE), None);
    assert_eq!(action, LocatorAction::NotFound);
    assert_eq!(locator.stage(), LocatorStage::Finished);
}

#[test]
fn locator_steps_through_children_in_reported_order() {
    let (mut locator, action) = DesktopLocator::start(100, Some(WINDOW_TYPE), Some(DESKTOP));
    assert_eq!(action, LocatorAction::ReadWindowType { window: 100, property: WINDOW_TYPE });
    let action = locator.on_window_type(&Err(Error { error_code: 3 }));
    assert_eq!(action, LocatorAction::ListChildren { window: 100 });
    let action = locator.on_children(&vec![7, 8]);
    assert_eq!(action, LocatorAction::ReadWindowType { window: 7, property: WINDOW_TYPE });
    let action =
        locator.on_window_type(&Ok(Property { key: WINDOW_TYPE, value: PropertyValue::Atom(NORMAL) }));
    assert_eq!(action, LocatorAction::ListChildren { window: 7 });
    let action = locator.on_children(&vec![]);
    assert_eq!(action, LocatorAction::ReadWindowType { window: 8, property: WINDOW_TYPE });
    let action =
        locator.on_window_type(&Ok(Property { key: WINDOW_TYPE, value: PropertyValue::Atom(DESKTOP) }));
    assert_eq!(action, LocatorAction::Found(8));
    assert_eq!(locator.stage(), LocatorStage::Finished);
}

#[test]
fn locator_reports_not_found_when_nothing_is_left() {
    let (mut locator, _) = DesktopLocator::start(100, Some(WINDOW_TYPE), Some(DESKTOP));
    locator.on_window_type(&Err(Error { error_code: 3 }));
    assert_eq!(locator.on_children(&vec![]), LocatorAction::NotFound);
}
