//! The decisions of the passive presenter tap around its HID I/O: which
//! enumerated node to open, and what to answer when none fits.
//!
//! The tap reads the plain HID mouse collection of the device, not its HID++
//! vendor collection; it changes nothing on the device, so no cleanup is
//! owed when it stops.

use vstd::prelude::*;

verus! {

/// Usage page of the plain HID mouse collection (generic desktop).
pub const MOUSE_USAGE_PAGE: u16 = 0x0001;

/// Usage id of the plain HID mouse collection (mouse).
pub const MOUSE_USAGE_ID: u16 = 0x0002;

/// What the tap reads of one enumerated HID node.
#[derive(Debug, Clone, Copy, PartialEq, Eq, Structural)]
pub struct HidNodeInfo {
    /// USB/HID vendor id.
    pub vendor_id: u16,
    /// USB/HID product id.
    pub product_id: u16,
    /// Usage page of the node's top-level collection.
    pub usage_page: u16,
    /// Usage id of the node's top-level collection.
    pub usage_id: u16,
}

/// Why the presenter tap could not run, or stopped running.
#[derive(Debug, PartialEq, Eq)]
pub enum PresenterTapError {
    /// No HID node matched the requested identity and usage collection: the
    /// device is not connected, or exposes no plain mouse collection.
    NotFound {
        /// USB/HID vendor id that was requested.
        vendor_id: u16,
        /// USB/HID product id that was requested.
        product_id: u16,
    },
    /// The HID transport failed to enumerate or open the node, or a read
    /// failed; the transport's own description.
    Hid(String),
}

/// Whether `node` is the plain mouse collection of `vendor_id:product_id`.
pub open spec fn is_mouse_node_of(node: HidNodeInfo, vendor_id: u16, product_id: u16) -> bool {
    &&& node.vendor_id == vendor_id
    &&& node.product_id == product_id
    &&& node.usage_page == MOUSE_USAGE_PAGE
    &&& node.usage_id == MOUSE_USAGE_ID
}

/// Whether `node` is the plain mouse collection of `vendor_id:product_id`.
pub fn mouse_node_matches(node: &HidNodeInfo, vendor_id: u16, product_id: u16) -> (matches: bool)
    ensures
        matches == is_mouse_node_of(*node, vendor_id, product_id),
{
    node.vendor_id == vendor_id && node.product_id == product_id && node.usage_page
        == MOUSE_USAGE_PAGE && node.usage_id == MOUSE_USAGE_ID
}

/// The index of the first enumerated node that is the plain mouse collection
/// of `vendor_id:product_id`, or `NotFound` with the requested ids when no
/// node is.
pub fn find_mouse_node(nodes: &[HidNodeInfo], vendor_id: u16, product_id: u16) -> (found: Result<
    usize,
    PresenterTapError,
>)
    ensures
        match found {
            Ok(index) => index < nodes@.len() && is_mouse_node_of(nodes@[index as int], vendor_id, product_id)
                && forall|j: int|
                0 <= j < index ==> !is_mouse_node_of(#[trigger] nodes@[j], vendor_id, product_id),
            Err(error) => error == PresenterTapError::NotFound { vendor_id, product_id } && forall|
                j: int,
            |
                0 <= j < nodes@.len() ==> !is_mouse_node_of(#[trigger] nodes@[j], vendor_id, product_id),
        },
{
    let mut i: usize = 0;
    while i < nodes.len()
        invariant
            i <= nodes@.len(),
            forall|j: int| 0 <= j < i ==> !is_mouse_node_of(#[trigger] nodes@[j], vendor_id, product_id),
        decreases nodes@.len() - i,
    {
        if mouse_node_matches(&nodes[i], vendor_id, product_id) {
            return Ok(i);
        }
        i = i + 1;
    }
    Err(PresenterTapError::NotFound { vendor_id, product_id })
}

/// The tap's node is the one with exactly the requested vendor and product
/// ids whose collection is the generic-desktop mouse (usage page 0x0001,
/// usage id 0x0002); a node differing in any of the four is not it.
pub proof fn lemma_mouse_node_is_exact_match(node: HidNodeInfo, vendor_id: u16, product_id: u16)
    ensures
        is_mouse_node_of(node, vendor_id, product_id) == (node.vendor_id == vendor_id
            && node.product_id == product_id && node.usage_page == 0x0001u16 && node.usage_id
            == 0x0002u16),
{
}

} // verus!
