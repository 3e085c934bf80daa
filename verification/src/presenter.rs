//! Presenter click-to-toggle detection from a plain HID mouse report.
//!
//! The Spotlight sets the button bit of its plain HID mouse report only for a
//! genuine, discrete click; every report of a hold-and-point gesture has it
//! clear. So "the button was just pressed" is exactly a rising edge of that
//! bit, with no timeout or debounce involved. This module is the sans-I/O
//! decision half: no time, no host, only bytes in and edges out.

use vstd::prelude::*;

verus! {

/// Byte offset of the button bitmask in the tapped report: the only byte the
/// decoder reads, so it is also the minimum report length minus one.
pub const BUTTONS_OFFSET: usize = 1;

/// The button state a report carries: `Some(pressed)` when the report is long
/// enough to hold the button byte, `None` for a report too short to say.
pub open spec fn button_state(report: Seq<u8>) -> Option<bool> {
    if report.len() > BUTTONS_OFFSET {
        Some(report[BUTTONS_OFFSET as int] != 0)
    } else {
        None
    }
}

/// A report is a rising edge when it carries a set button bit and the button
/// was not pressed before it.
pub open spec fn is_rising_edge(was_pressed: bool, report: Seq<u8>) -> bool {
    button_state(report) == Some(true) && !was_pressed
}

/// The remembered button state after one report: the report's own state, or
/// the previous one unchanged when the report is too short to carry it.
pub open spec fn pressed_after_report(was_pressed: bool, report: Seq<u8>) -> bool {
    match button_state(report) {
        Some(pressed) => pressed,
        None => was_pressed,
    }
}

/// The remembered button state after feeding `reports` in order, starting
/// from `start`.
pub open spec fn pressed_after(start: bool, reports: Seq<Seq<u8>>) -> bool
    decreases reports.len(),
{
    if reports.len() == 0 {
        start
    } else {
        pressed_after_report(pressed_after(start, reports.drop_last()), reports.last())
    }
}

/// What each `observe` call answers while `reports` are fed in order,
/// starting from `start`: entry `i` is the answer for `reports[i]`.
pub open spec fn edges(start: bool, reports: Seq<Seq<u8>>) -> Seq<bool>
    decreases reports.len(),
{
    if reports.len() == 0 {
        Seq::empty()
    } else {
        edges(start, reports.drop_last()).push(
            is_rising_edge(pressed_after(start, reports.drop_last()), reports.last()),
        )
    }
}

/// Sans-I/O decision object: turns a stream of raw HID mouse reports into
/// toggle-press edges. Its only state is whether the button bit was set on
/// the last report that carried one.
#[derive(Debug)]
pub struct PresenterTapState {
    was_pressed: bool,
}

impl View for PresenterTapState {
    type V = bool;

    /// Whether the button was pressed on the last report that carried it.
    closed spec fn view(&self) -> bool {
        self.was_pressed
    }
}

impl Default for PresenterTapState {
    /// A fresh tap: the button counts as released.
    fn default() -> (state: Self)
        ensures
            !state@,
    {
        PresenterTapState { was_pressed: false }
    }
}

impl PresenterTapState {
    /// Feed one raw input report. Returns `true` exactly on the button bit's
    /// 0→1 transition and `false` for every other report, including every
    /// report of a hold-and-point gesture and every report after the first
    /// while a click is still held. A report too short to carry a button
    /// byte is inert: it answers `false` and leaves the state as it was.
    pub fn observe(&mut self, report: &[u8]) -> (rising_edge: bool)
        ensures
            rising_edge == is_rising_edge(old(self)@, report@),
            final(self)@ == pressed_after_report(old(self)@, report@),
            report@.len() >= 2 ==> rising_edge == (report@[1] != 0 && !old(self)@),
            report@.len() >= 2 ==> final(self)@ == (report@[1] != 0),
            report@.len() < 2 ==> !rising_edge && final(self)@ == old(self)@,
    {
        if report.len() <= BUTTONS_OFFSET {
            return false;
        }
        let pressed = report[BUTTONS_OFFSET] != 0;
        let rising_edge = pressed && !self.was_pressed;
        self.was_pressed = pressed;
        rising_edge
    }
}


/// Entry `i` of `edges` is the answer for `reports[i]` given the state left
/// by the reports before it, and there is one entry per report.
pub proof fn lemma_edges_index(start: bool, reports: Seq<Seq<u8>>)
    ensures
        edges(start, reports).len() == reports.len(),
        forall|i: int|
            0 <= i < reports.len() ==> #[trigger] edges(start, reports)[i] == is_rising_edge(
                pressed_after(start, reports.take(i)),
                reports[i],
            ),
    decreases reports.len(),
{
    if reports.len() > 0 {
        let prefix = reports.drop_last();
        lemma_edges_index(start, prefix);
        assert forall|i: int| 0 <= i < reports.len() implies #[trigger] edges(start, reports)[i]
            == is_rising_edge(pressed_after(start, reports.take(i)), reports[i]) by {
            if i < reports.len() - 1 {
                assert(prefix.take(i) =~= reports.take(i));
                assert(prefix[i] == reports[i]);
            } else {
                assert(reports.take(i) =~= prefix);
            }
        }
    }
}

/// The state after a prefix one longer is one step from the shorter prefix.
proof fn lemma_pressed_after_step(start: bool, reports: Seq<Seq<u8>>, n: int)
    requires
        0 <= n < reports.len(),
    ensures
        pressed_after(start, reports.take(n + 1)) == pressed_after_report(
            pressed_after(start, reports.take(n)),
            reports[n],
        ),
{
    assert(reports.take(n + 1).drop_last() =~= reports.take(n));
    assert(reports.take(n + 1).last() == reports[n]);
}

/// Once pressed, the state stays pressed until a report clears the button.
proof fn lemma_pressed_persists(start: bool, reports: Seq<Seq<u8>>, a: int, b: int)
    requires
        0 <= a <= b <= reports.len(),
        pressed_after(start, reports.take(a)),
        forall|k: int| a <= k < b ==> button_state(#[trigger] reports[k]) != Some(false),
    ensures
        pressed_after(start, reports.take(b)),
    decreases b - a,
{
    if a < b {
        lemma_pressed_after_step(start, reports, a);
        lemma_pressed_persists(start, reports, a + 1, b);
    }
}

/// A hold-and-point gesture never reports an edge: when no report of a run
/// carries a set button bit, every answer of the run is `false`.
pub proof fn lemma_released_reports_never_edge(start: bool, reports: Seq<Seq<u8>>)
    requires
        forall|i: int| 0 <= i < reports.len() ==> button_state(#[trigger] reports[i]) != Some(true),
    ensures
        forall|i: int| 0 <= i < reports.len() ==> !#[trigger] edges(start, reports)[i],
{
    lemma_edges_index(start, reports);
}

/// A held click is one click: while every report carries a set button bit,
/// the first answer is an edge exactly when the button started released,
/// and no later answer is one.
pub proof fn lemma_held_button_edges_once(start: bool, reports: Seq<Seq<u8>>)
    requires
        reports.len() > 0,
        forall|i: int| 0 <= i < reports.len() ==> button_state(#[trigger] reports[i]) == Some(true),
    ensures
        edges(start, reports)[0] == !start,
        forall|i: int| 0 < i < reports.len() ==> !#[trigger] edges(start, reports)[i],
{
    lemma_edges_index(start, reports);
    assert(reports.take(0) =~= Seq::<Seq<u8>>::empty());
    assert(button_state(reports[0]) == Some(true));
    assert forall|i: int| 0 < i < reports.len() implies !#[trigger] edges(start, reports)[i] by {
        lemma_pressed_after_step(start, reports, 0);
        assert(button_state(reports[0]) == Some(true));
        lemma_pressed_persists(start, reports, 1, i);
    }
}

/// Two edges are always separated by a report that clears the button: a
/// click reports one edge however long it is held, and a new edge needs a
/// real release first.
pub proof fn lemma_edges_separated_by_release(start: bool, reports: Seq<Seq<u8>>, i: int, j: int)
    requires
        0 <= i < j < reports.len(),
        edges(start, reports)[i],
        edges(start, reports)[j],
    ensures
        exists|k: int| i < k < j && button_state(#[trigger] reports[k]) == Some(false),
{
    lemma_edges_index(start, reports);
    lemma_pressed_after_step(start, reports, i);
    if forall|k: int| i + 1 <= k < j ==> button_state(#[trigger] reports[k]) != Some(false) {
        lemma_pressed_persists(start, reports, i + 1, j);
    }
}

/// The state left by a run is the button state of its last report that
/// carried one, or the starting state when no report did.
pub proof fn lemma_state_follows_last_button_report(start: bool, reports: Seq<Seq<u8>>)
    ensures
        (forall|k: int| 0 <= k < reports.len() ==> button_state(#[trigger] reports[k]) is None)
            ==> pressed_after(start, reports) == start,
        forall|k: int|
            0 <= k < reports.len() && button_state(#[trigger] reports[k]) is Some && (forall|m: int|
                k < m < reports.len() ==> button_state(#[trigger] reports[m]) is None)
                ==> pressed_after(start, reports) == button_state(reports[k])->0,
    decreases reports.len(),
{
    if reports.len() > 0 {
        let prefix = reports.drop_last();
        lemma_state_follows_last_button_report(start, prefix);
        assert forall|k: int| 0 <= k < prefix.len() implies prefix[k] == reports[k] by {}
    }
}

/// Only the button byte (offset 1) decides: a report of two or more bytes is
/// a rising edge exactly when its byte 1 is non-zero and the button was
/// released, and leaves the button pressed exactly when byte 1 is non-zero,
/// whatever the motion and other bytes hold; a shorter report is never an
/// edge and leaves the state as it was.
pub proof fn lemma_button_byte_decides(was_pressed: bool, report: Seq<u8>)
    ensures
        report.len() >= 2 ==> is_rising_edge(was_pressed, report) == (report[1] != 0
            && !was_pressed),
        report.len() >= 2 ==> pressed_after_report(was_pressed, report) == (report[1] != 0),
        report.len() < 2 ==> !is_rising_edge(was_pressed, report),
        report.len() < 2 ==> pressed_after_report(was_pressed, report) == was_pressed,
{
}

/// Two reports that agree on the button byte are answered alike and leave
/// the same state, however their other bytes differ.
pub proof fn lemma_other_bytes_never_matter(was_pressed: bool, a: Seq<u8>, b: Seq<u8>)
    requires
        a.len() >= 2,
        b.len() >= 2,
        a[1] == b[1],
    ensures
        is_rising_edge(was_pressed, a) == is_rising_edge(was_pressed, b),
        pressed_after_report(was_pressed, a) == pressed_after_report(was_pressed, b),
{
}

/// A click is never missed and motion is never a click: from a released
/// button, a report whose byte 1 is non-zero is an edge, and a report whose
/// byte 1 is zero is not one and leaves the button released.
pub proof fn lemma_click_detected_motion_ignored(report: Seq<u8>)
    requires
        report.len() >= 2,
    ensures
        report[1] != 0 ==> is_rising_edge(false, report),
        report[1] == 0 ==> !is_rising_edge(false, report) && !pressed_after_report(false, report),
        report[1] == 0 ==> !is_rising_edge(true, report) && !pressed_after_report(true, report),
{
}

} // verus!
