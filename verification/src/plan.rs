//! Which device, if any, a presenter tap should run for.
//!
//! A tap is wanted for the first directly-connected device whose presenter
//! button is bound, on a plain click, to toggling the highlight. A device
//! behind a receiver has no plain HID collection to read, so it never is.

use vstd::prelude::*;

use crate::binding::{spec_click_action, Action, Binding, ButtonId, HighlightMode};

verus! {

/// How a device is reached.
#[derive(Debug, Clone)]
pub enum DeviceRoute {
    /// Connected by cable or Bluetooth, addressed by its own USB/HID ids.
    Direct { vendor_id: u16, product_id: u16 },
    /// Paired to a Bolt receiver, in one of its slots.
    Bolt { receiver_uid: String, slot: u8 },
    /// Paired to a Unifying receiver, in one of its slots.
    Unifying { receiver_uid: String, slot: u8 },
}

/// The vendor and product ids of a directly-connected route, or `None` for a
/// route through a receiver.
pub open spec fn spec_direct_ids(route: DeviceRoute) -> Option<(u16, u16)> {
    match route {
        DeviceRoute::Direct { vendor_id, product_id } => Some((vendor_id, product_id)),
        _ => None,
    }
}

impl DeviceRoute {
    /// The vendor and product ids of a directly-connected route, or `None`
    /// for a route through a receiver.
    pub fn direct_ids(&self) -> (ids: Option<(u16, u16)>)
        ensures
            ids == spec_direct_ids(*self),
    {
        match self {
            DeviceRoute::Direct { vendor_id, product_id } => Some((*vendor_id, *product_id)),
            _ => None,
        }
    }
}

/// What the capture plan of one online device holds that the presenter
/// logic reads: its route and its button bindings.
#[derive(Debug, Clone)]
pub struct DeviceCapturePlan {
    /// How the device is reached.
    pub route: DeviceRoute,
    /// Each bound control with its binding; a control bound twice takes the
    /// first entry.
    pub bindings: Vec<(ButtonId, Binding)>,
}

/// The binding of `button` in `bindings`: the first entry for it, if any.
pub open spec fn binding_for(bindings: Seq<(ButtonId, Binding)>, button: ButtonId) -> Option<Binding>
    decreases bindings.len(),
{
    if bindings.len() == 0 {
        None
    } else if bindings[0].0 == button {
        Some(bindings[0].1)
    } else {
        binding_for(bindings.drop_first(), button)
    }
}

impl DeviceCapturePlan {
    /// The binding of `button` in this plan: its first entry, if any.
    pub fn binding(&self, button: ButtonId) -> (binding: Option<Binding>)
        ensures
            binding == binding_for(self.bindings@, button),
    {
        let mut i: usize = 0;
        assert(self.bindings@.subrange(0, self.bindings@.len() as int) =~= self.bindings@);
        while i < self.bindings.len()
            invariant
                i <= self.bindings@.len(),
                binding_for(self.bindings@, button) == binding_for(
                    self.bindings@.subrange(i as int, self.bindings@.len() as int),
                    button,
                ),
            decreases self.bindings@.len() - i,
        {
            let ghost rest = self.bindings@.subrange(i as int, self.bindings@.len() as int);
            assert(rest[0] == self.bindings@[i as int]);
            if self.bindings[i].0 == button {
                return Some(self.bindings[i].1);
            }
            assert(rest.drop_first() =~= self.bindings@.subrange(
                i + 1,
                self.bindings@.len() as int,
            ));
            i = i + 1;
        }
        None
    }
}

/// The device identity and mode a presenter tap should run for.
#[derive(Debug, Clone, Copy, PartialEq, Eq, Structural)]
pub struct Wanted {
    /// USB/HID vendor id of the device.
    pub vendor_id: u16,
    /// USB/HID product id of the device.
    pub product_id: u16,
    /// The mode a press shows the highlight in.
    pub mode: HighlightMode,
}

/// The tap one plan asks for: a direct device whose presenter button clicks
/// to `ToggleHighlight(mode)`.
pub open spec fn plan_wanted(plan: DeviceCapturePlan) -> Option<Wanted> {
    match plan.route {
        DeviceRoute::Direct { vendor_id, product_id } => match binding_for(
            plan.bindings@,
            ButtonId::PresenterHighlight,
        ) {
            Some(binding) => match spec_click_action(binding) {
                Action::ToggleHighlight(mode) => Some(
                    Wanted { vendor_id, product_id, mode },
                ),
                _ => None,
            },
            None => None,
        },
        _ => None,
    }
}

/// The tap a set of plans asks for: that of the first plan that asks for
/// one, or `None` when none does.
pub open spec fn plans_wanted(plans: Seq<DeviceCapturePlan>) -> Option<Wanted>
    decreases plans.len(),
{
    if plans.len() == 0 {
        None
    } else if plan_wanted(plans[0]) is Some {
        plan_wanted(plans[0])
    } else {
        plans_wanted(plans.drop_first())
    }
}

/// The tap one plan asks for.
fn wanted_from_plan(plan: &DeviceCapturePlan) -> (wanted: Option<Wanted>)
    ensures
        wanted == plan_wanted(*plan),
{
    let (vendor_id, product_id) = match plan.route.direct_ids() {
        Some(ids) => ids,
        None => return None,
    };
    let binding = match plan.binding(ButtonId::PresenterHighlight) {
        Some(binding) => binding,
        None => return None,
    };
    match binding.click_action() {
        Action::ToggleHighlight(mode) => Some(Wanted { vendor_id, product_id, mode }),
        _ => None,
    }
}

/// The first online device (realistically there is at most one Spotlight)
/// whose presenter button resolves to `ToggleHighlight`, or `None` if no
/// such binding exists right now.
pub fn wanted_from_plans(plans: &[DeviceCapturePlan]) -> (wanted: Option<Wanted>)
    ensures
        wanted == plans_wanted(plans@),
        match wanted {
            None => forall|i: int| 0 <= i < plans@.len() ==> plan_wanted(#[trigger] plans@[i]) is None,
            Some(w) => exists|i: int|
                0 <= i < plans@.len() && plan_wanted(#[trigger] plans@[i]) == Some(w) && forall|j: int|
                    0 <= j < i ==> plan_wanted(#[trigger] plans@[j]) is None,
        },
{
    let mut i: usize = 0;
    assert(plans@.subrange(0, plans@.len() as int) =~= plans@);
    while i < plans.len()
        invariant
            i <= plans@.len(),
            plans_wanted(plans@) == plans_wanted(plans@.subrange(i as int, plans@.len() as int)),
            forall|j: int| 0 <= j < i ==> plan_wanted(#[trigger] plans@[j]) is None,
        decreases plans@.len() - i,
    {
        let ghost rest = plans@.subrange(i as int, plans@.len() as int);
        assert(rest[0] == plans@[i as int]);
        let found = wanted_from_plan(&plans[i]);
        if found.is_some() {
            return found;
        }
        assert(rest.drop_first() =~= plans@.subrange(i + 1, plans@.len() as int));
        i = i + 1;
    }
    proof {
        assert(plans@.subrange(i as int, plans@.len() as int).len() == 0);
    }
    None
}

/// The binding of a button is its first entry's: when entry `k` is the first
/// one for `button`, the binding of `button` is entry `k`'s.
pub proof fn lemma_binding_is_first_entry(bindings: Seq<(ButtonId, Binding)>, button: ButtonId, k: int)
    requires
        0 <= k < bindings.len(),
        bindings[k].0 == button,
        forall|j: int| 0 <= j < k ==> #[trigger] bindings[j].0 != button,
    ensures
        binding_for(bindings, button) == Some(bindings[k].1),
    decreases k,
{
    if k > 0 {
        let rest = bindings.drop_first();
        assert(bindings[0].0 != button);
        assert forall|j: int| 0 <= j < k - 1 implies #[trigger] rest[j].0 != button by {
            assert(bindings[j + 1].0 != button);
        }
        lemma_binding_is_first_entry(rest, button, k - 1);
    }
}

/// A button has no binding exactly when no entry is for it.
pub proof fn lemma_no_binding_without_entry(bindings: Seq<(ButtonId, Binding)>, button: ButtonId)
    ensures
        binding_for(bindings, button) is None <==> forall|j: int|
            0 <= j < bindings.len() ==> #[trigger] bindings[j].0 != button,
    decreases bindings.len(),
{
    if bindings.len() > 0 {
        let rest = bindings.drop_first();
        lemma_no_binding_without_entry(rest, button);
        if bindings[0].0 != button {
            if forall|j: int| 0 <= j < rest.len() ==> #[trigger] rest[j].0 != button {
                assert forall|j: int| 0 <= j < bindings.len() implies #[trigger] bindings[j].0
                    != button by {
                    if j > 0 {
                        assert(rest[j - 1].0 != button);
                    }
                }
            } else {
                let j = choose|j: int| 0 <= j < rest.len() && #[trigger] rest[j].0 == button;
                assert(bindings[j + 1].0 == button);
            }
        } else {
            assert(bindings[0].0 == button);
        }
    }
}

/// A plan asks for no tap when its route goes through a receiver, or when
/// none of its entries is for the presenter button.
pub proof fn lemma_plan_without_presenter_entry_wants_nothing(plan: DeviceCapturePlan)
    ensures
        !(plan.route is Direct) ==> plan_wanted(plan) is None,
        (forall|j: int|
            0 <= j < plan.bindings@.len() ==> #[trigger] plan.bindings@[j].0
                != ButtonId::PresenterHighlight) ==> plan_wanted(plan) is None,
{
    lemma_no_binding_without_entry(plan.bindings@, ButtonId::PresenterHighlight);
}

/// When entry `k` is the first one for the presenter button, it alone
/// decides what a direct plan asks for: a binding that clicks to
/// `ToggleHighlight(mode)` asks for a tap on the route's ids in `mode`, any
/// other binding asks for none.
pub proof fn lemma_first_presenter_entry_decides(plan: DeviceCapturePlan, k: int)
    requires
        0 <= k < plan.bindings@.len(),
        plan.bindings@[k].0 == ButtonId::PresenterHighlight,
        forall|j: int| 0 <= j < k ==> #[trigger] plan.bindings@[j].0 != ButtonId::PresenterHighlight,
    ensures
        match (plan.route, plan.bindings@[k].1) {
            (
                DeviceRoute::Direct { vendor_id, product_id },
                Binding::Single(Action::ToggleHighlight(mode)),
            ) => plan_wanted(plan) == Some(Wanted { vendor_id, product_id, mode }),
            _ => true,
        },
        !(plan.bindings@[k].1 matches Binding::Single(Action::ToggleHighlight(_))) ==> plan_wanted(plan) is None,
{
    lemma_binding_is_first_entry(plan.bindings@, ButtonId::PresenterHighlight, k);
}

/// Entries for other buttons never change what a plan asks for: two plans
/// on the same route whose bindings differ by one entry for a button other
/// than the presenter button, inserted anywhere, ask for the same tap.
pub proof fn lemma_other_buttons_never_matter(
    plan: DeviceCapturePlan,
    other: DeviceCapturePlan,
    index: int,
    entry: (ButtonId, Binding),
)
    requires
        other.route == plan.route,
        0 <= index <= plan.bindings@.len(),
        entry.0 != ButtonId::PresenterHighlight,
        other.bindings@ == plan.bindings@.insert(index, entry),
    ensures
        plan_wanted(other) == plan_wanted(plan),
{
    lemma_insert_other_button(plan.bindings@, index, entry, ButtonId::PresenterHighlight);
}

/// Inserting an entry for another button leaves a button's binding alone.
proof fn lemma_insert_other_button(
    bindings: Seq<(ButtonId, Binding)>,
    index: int,
    entry: (ButtonId, Binding),
    button: ButtonId,
)
    requires
        0 <= index <= bindings.len(),
        entry.0 != button,
    ensures
        binding_for(bindings.insert(index, entry), button) == binding_for(bindings, button),
    decreases bindings.len(),
{
    let inserted = bindings.insert(index, entry);
    if index == 0 {
        assert(inserted.drop_first() =~= bindings);
    } else {
        assert(inserted[0] == bindings[0]);
        if bindings[0].0 != button {
            lemma_insert_other_button(bindings.drop_first(), index - 1, entry, button);
            assert(inserted.drop_first() =~= bindings.drop_first().insert(index - 1, entry));
        }
    }
}

/// A direct route yields its own vendor and product ids; a route through a
/// receiver yields none.
pub proof fn lemma_direct_ids_of_route(route: DeviceRoute)
    ensures
        match route {
            DeviceRoute::Direct { vendor_id, product_id } => spec_direct_ids(route) == Some(
                (vendor_id, product_id),
            ),
            _ => spec_direct_ids(route) is None,
        },
{
}

} // verus!
