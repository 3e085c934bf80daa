use openlogi_presenter::tap::{
    find_mouse_node, mouse_node_matches, HidNodeInfo, PresenterTapError, MOUSE_USAGE_ID,
    MOUSE_USAGE_PAGE,
};

fn node(vendor_id: u16, product_id: u16, usage_page: u16, usage_id: u16) -> HidNodeInfo {
    HidNodeInfo {
        vendor_id,
        product_id,
        usage_page,
        usage_id,
    }
}

#[test]
fn the_plain_mouse_collection_is_chosen_over_the_vendor_one() {
    let nodes = [
        node(0x046d, 0xb503, 0xff43, 0xff00),
        node(0x046d, 0xc548, 0x0001, 0x0002),
        node(0x046d, 0xb503, 0x0001, 0x0002),
        node(0x046d, 0xb503, 0x0001, 0x0002),
    ];
    assert_eq!(find_mouse_node(&nodes, 0x046d, 0xb503), Ok(2));
}

#[test]
fn no_matching_node_is_not_found_with_the_requested_ids() {
    let nodes = [node(0x046d, 0xb503, 0xff43, 0xff00)];
    assert_eq!(
        find_mouse_node(&nodes, 0x046d, 0xb503),
        Err(PresenterTapError::NotFound {
            vendor_id: 0x046d,
            product_id: 0xb503
        })
    );
    assert_eq!(
        find_mouse_node(&[], 0x1234, 0x5678),
        Err(PresenterTapError::NotFound {
            vendor_id: 0x1234,
            product_id: 0x5678
        })
    );
}

#[test]
fn a_node_matches_only_on_all_four_ids() {
    let mouse = node(0x046d, 0xb503, MOUSE_USAGE_PAGE, MOUSE_USAGE_ID);
    assert!(mouse_node_matches(&mouse, 0x046d, 0xb503));
    assert!(!mouse_node_matches(&mouse, 0x046e, 0xb503));
    assert!(!mouse_node_matches(&mouse, 0x046d, 0xb504));
    assert!(!mouse_node_matches(&node(0x046d, 0xb503, 0x0001, 0x0006), 0x046d, 0xb503));
    assert!(!mouse_node_matches(&node(0x046d, 0xb503, 0x000c, 0x0002), 0x046d, 0xb503));
}

#[test]
fn the_transport_error_keeps_its_description() {
    let error = PresenterTapError::Hid("read failed".to_string());
    assert_eq!(error, PresenterTapError::Hid("read failed".to_string()));
}
