use openlogi_presenter::binding::{Action, Binding, ButtonId, HighlightMode};
use openlogi_presenter::plan::{wanted_from_plans, DeviceCapturePlan, DeviceRoute, Wanted};

fn direct_route() -> DeviceRoute {
    DeviceRoute::Direct {
        vendor_id: 0x046d,
        product_id: 0xb503,
    }
}

fn plan_with(bindings: Vec<(ButtonId, Binding)>, route: DeviceRoute) -> DeviceCapturePlan {
    DeviceCapturePlan { route, bindings }
}

#[test]
fn a_toggle_highlight_binding_on_a_direct_device_is_wanted() {
    let bindings = vec![(
        ButtonId::PresenterHighlight,
        Binding::Single(Action::ToggleHighlight(HighlightMode::Spotlight)),
    )];
    let plans = [plan_with(bindings, direct_route())];
    assert_eq!(
        wanted_from_plans(&plans),
        Some(Wanted {
            vendor_id: 0x046d,
            product_id: 0xb503,
            mode: HighlightMode::Spotlight,
        })
    );
}

#[test]
fn an_unbound_presenter_button_is_not_wanted() {
    let plans = [plan_with(Vec::new(), direct_route())];
    assert_eq!(wanted_from_plans(&plans), None);
}

#[test]
fn a_presenter_button_bound_to_a_different_action_is_not_wanted() {
    let bindings = vec![(
        ButtonId::PresenterHighlight,
        Binding::Single(Action::LeftClick),
    )];
    let plans = [plan_with(bindings, direct_route())];
    assert_eq!(wanted_from_plans(&plans), None);
}

#[test]
fn a_toggle_highlight_binding_behind_a_receiver_is_not_wanted() {
    let bindings = vec![(
        ButtonId::PresenterHighlight,
        Binding::Single(Action::ToggleHighlight(HighlightMode::Highlight)),
    )];
    let plans = [plan_with(
        bindings,
        DeviceRoute::Bolt {
            receiver_uid: "abc123".into(),
            slot: 1,
        },
    )];
    assert_eq!(wanted_from_plans(&plans), None);
}

#[test]
fn no_plans_want_nothing() {
    assert_eq!(wanted_from_plans(&[]), None);
}

#[test]
fn the_first_wanting_plan_wins() {
    let other_button = vec![(
        ButtonId::Left,
        Binding::Single(Action::ToggleHighlight(HighlightMode::Highlight)),
    )];
    let first = vec![(
        ButtonId::PresenterHighlight,
        Binding::Single(Action::ToggleHighlight(HighlightMode::Highlight)),
    )];
    let second = vec![(
        ButtonId::PresenterHighlight,
        Binding::Single(Action::ToggleHighlight(HighlightMode::Spotlight)),
    )];
    let plans = [
        plan_with(other_button, direct_route()),
        plan_with(
            first,
            DeviceRoute::Direct {
                vendor_id: 0x046d,
                product_id: 0xc53f,
            },
        ),
        plan_with(second, direct_route()),
    ];
    assert_eq!(
        wanted_from_plans(&plans),
        Some(Wanted {
            vendor_id: 0x046d,
            product_id: 0xc53f,
            mode: HighlightMode::Highlight,
        })
    );
}

#[test]
fn the_first_binding_of_a_button_counts() {
    let plan = plan_with(
        vec![
            (ButtonId::Middle, Binding::Single(Action::MiddleClick)),
            (ButtonId::PresenterHighlight, Binding::Single(Action::RightClick)),
            (
                ButtonId::PresenterHighlight,
                Binding::Single(Action::ToggleHighlight(HighlightMode::Spotlight)),
            ),
        ],
        direct_route(),
    );
    assert_eq!(
        plan.binding(ButtonId::PresenterHighlight),
        Some(Binding::Single(Action::RightClick))
    );
    assert_eq!(plan.binding(ButtonId::Left), None);
    assert_eq!(wanted_from_plans(&[plan]), None);
}

#[test]
fn a_unifying_route_is_not_direct() {
    let route = DeviceRoute::Unifying {
        receiver_uid: "u1".into(),
        slot: 2,
    };
    assert_eq!(route.direct_ids(), None);
    assert_eq!(direct_route().direct_ids(), Some((0x046d, 0xb503)));
}

#[test]
fn a_binding_clicks_its_single_action() {
    assert_eq!(
        Binding::Single(Action::ToggleHighlight(HighlightMode::Spotlight)).click_action(),
        Action::ToggleHighlight(HighlightMode::Spotlight)
    );
}
