//! The menu: a thin projection of the configuration values into six display
//! rows plus a selector cursor.
//!
//! Each row is padding, a label, a separator and a right-aligned value glyph,
//! sized to the fixed row width. A full render clears the body and redraws
//! all six rows plus the selector; it is expensive and happens only at
//! startup and on reset. A targeted update redraws exactly one row and then
//! the selector marker (a full-row redraw would otherwise overwrite it).
//! Selector movement redraws only the previous and new selector positions.

use vstd::prelude::*;

use crate::config::{SystemConfig, SystemValue, UpdateSystemValue, ValueAction};
use crate::control_pad::{ButtonStage, ButtonState, ButtonType};
use crate::display::{
    cleared_body, written, Display, BLANK, BODY_ROW_COUNT, BODY_START_ROW, ROW_LENGTH,
};

verus! {

/// Amount of padding to add infront of a menu item
pub const MENU_ITEM_PADDING: u8 = 2;
/// The selector marker, `>`
pub const SELECTOR: u8 = 62;
/// The label/value separator, `:`
pub const COLON: u8 = 58;
/// The glyph for an occupied boolean-like value, `@`
pub const GLYPH_ON: u8 = 64;
/// The glyph for an empty boolean-like value, `-`
pub const GLYPH_OFF: u8 = 45;
/// Amount of menu items
pub const MENU_ITEM_COUNT: u8 = 6;

/// Menu item
///
/// Each variant is a possible menu item, holding a cached copy of the
/// corresponding configuration value for display; the authoritative value
/// lives in [`SystemConfig`]. [`Menu::wf`] ties each slot to the matching
/// [`SystemValue`] variant, so a slot cannot cache a value belonging to a
/// different slot.
#[derive(Clone, Copy, Debug, PartialEq, Eq, Structural)]
pub enum MenuItem {
    Time(SystemValue),
    Light(SystemValue),
    Moisture(SystemValue),
    Suspend(SystemValue),
    Activate(SystemValue),
    Reset,
}

/// `n` blank cells (none for a negative count).
pub open spec fn spaces(n: int) -> Seq<u8> {
    Seq::new(if n < 0 { 0 } else { n as nat }, |i: int| BLANK)
}

/// The decimal digits of `n`, most significant first.
pub open spec fn dec_digits(n: int) -> Seq<u8>
    decreases n,
{
    if n < 10 {
        seq![(48 + n) as u8]
    } else {
        dec_digits(n / 10).push((48 + n % 10) as u8)
    }
}

/// A number up to five digits long renders as one to five of them.
pub proof fn lemma_dec_digits_len(n: int)
    requires
        0 <= n < 100000,
    ensures
        1 <= dec_digits(n).len() <= 5,
        n < 10 ==> dec_digits(n).len() == 1,
        n < 100 ==> dec_digits(n).len() <= 2,
        n < 1000 ==> dec_digits(n).len() <= 3,
        n < 10000 ==> dec_digits(n).len() <= 4,
    decreases n,
{
    if n >= 10 {
        lemma_dec_digits_len(n / 10);
    }
}

/// The label a value renders with. The boolean-like rows switch text
/// depending on whether the action would enter or cancel the state.
pub open spec fn value_label(v: SystemValue) -> Seq<u8> {
    match v {
        SystemValue::Time(_) => seq![84, 105, 109, 101],  // "Time"
        SystemValue::Light(_) => seq![76, 105, 103, 104, 116],  // "Light"
        SystemValue::Moisture(_) => seq![77, 111, 105, 115, 116, 117, 114, 101],  // "Moisture"
        SystemValue::Suspend(s) => if s is Suspending || s is Suspended {
            seq![82, 101, 115, 117, 109, 101]  /* "Resume" */
        } else {
            seq![83, 117, 115, 112, 101, 110, 100]  /* "Suspend" */
        },
        SystemValue::Activate(s) => if s is Activating || s is Activated {
            seq![67, 97, 110, 99, 101, 108]  /* "Cancel" */
        } else {
            seq![65, 99, 116, 105, 118, 97, 116, 101]  /* "Activate" */
        },
    }
}

/// The glyphs a value renders as: decimal digits for a numeric value, a
/// single occupied/empty symbol for a boolean-like state.
pub open spec fn value_glyphs(v: SystemValue) -> Seq<u8> {
    match v {
        SystemValue::Time(n) => dec_digits(n as int),
        SystemValue::Light(n) => dec_digits(n as int),
        SystemValue::Moisture(n) => dec_digits(n as int),
        SystemValue::Suspend(s) => if s is Suspending || s is Suspended {
            seq![GLYPH_ON]
        } else {
            seq![GLYPH_OFF]
        },
        SystemValue::Activate(s) => if s is Activating || s is Activated {
            seq![GLYPH_ON]
        } else {
            seq![GLYPH_OFF]
        },
    }
}

/// A full menu row for a value: padding, label, separator, then the value
/// right-aligned against the row edge.
pub open spec fn value_line(v: SystemValue) -> Seq<u8> {
    spaces(MENU_ITEM_PADDING as int) + value_label(v) + seq![COLON] + spaces(
        ROW_LENGTH as int - MENU_ITEM_PADDING as int - 1 - value_label(v).len()
            - value_glyphs(v).len(),
    ) + value_glyphs(v)
}

/// The reset row: padding and a bare label.
pub open spec fn reset_line() -> Seq<u8> {
    spaces(MENU_ITEM_PADDING as int) + seq![82, 101, 115, 101, 116]  /* "Reset" */
}

/// The text a menu item's row shows when freshly drawn.
pub open spec fn item_line(item: MenuItem) -> Seq<u8> {
    match item {
        MenuItem::Time(v) => value_line(v),
        MenuItem::Light(v) => value_line(v),
        MenuItem::Moisture(v) => value_line(v),
        MenuItem::Suspend(v) => value_line(v),
        MenuItem::Activate(v) => value_line(v),
        MenuItem::Reset => reset_line(),
    }
}

/// The grid after one item row is redrawn and the selector marker is drawn
/// over the current row's first cell.
pub open spec fn refresh_cells(cells: Seq<u8>, slot: int, item: MenuItem, cur: int) -> Seq<u8> {
    written(
        written(cells, BODY_START_ROW + slot, 0, item_line(item)),
        BODY_START_ROW + cur,
        0,
        seq![SELECTOR],
    )
}

/// The grid after the selector moves: the previous position is blanked, the
/// new one gets the marker.
pub open spec fn selector_cells(cells: Seq<u8>, prev: int, cur: int) -> Seq<u8> {
    written(
        written(cells, BODY_START_ROW + prev, 0, seq![BLANK]),
        BODY_START_ROW + cur,
        0,
        seq![SELECTOR],
    )
}

/// The grid after the first `k` item rows are drawn onto `cells`.
pub open spec fn items_written(cells: Seq<u8>, items: Seq<MenuItem>, k: int) -> Seq<u8>
    decreases k,
{
    if k <= 0 {
        cells
    } else {
        written(
            items_written(cells, items, k - 1),
            BODY_START_ROW + (k - 1),
            0,
            item_line(items[k - 1]),
        )
    }
}

/// The grid after a full render: the body cleared, all six item rows drawn,
/// and the selector marker on the current row.
pub open spec fn rendered_cells(cells: Seq<u8>, m: Menu) -> Seq<u8> {
    written(
        items_written(
            cleared_body(cells, BODY_ROW_COUNT as int),
            m.items@,
            MENU_ITEM_COUNT as int,
        ),
        BODY_START_ROW + m.current_idx,
        0,
        seq![SELECTOR],
    )
}

/// The menu item caching the value that configuration `c` holds for `slot`.
pub open spec fn synced_item(slot: int, c: SystemConfig) -> MenuItem {
    if slot == 0 {
        MenuItem::Time(SystemValue::Time(c.activate_mins))
    } else if slot == 1 {
        MenuItem::Light(SystemValue::Light(c.min_light))
    } else if slot == 2 {
        MenuItem::Moisture(SystemValue::Moisture(c.min_moisture))
    } else if slot == 3 {
        MenuItem::Activate(SystemValue::Activate(c.activation_state))
    } else if slot == 4 {
        MenuItem::Suspend(SystemValue::Suspend(c.activation_state))
    } else {
        MenuItem::Reset
    }
}

/// All six menu items freshly derived from configuration `c`.
pub open spec fn synced_items(c: SystemConfig) -> Seq<MenuItem> {
    seq![
        synced_item(0, c),
        synced_item(1, c),
        synced_item(2, c),
        synced_item(3, c),
        synced_item(4, c),
        MenuItem::Reset,
    ]
}

/// The menu slot whose row displays the field `u` targets; `None` for the
/// requests that address no single row.
pub open spec fn slot_of(u: UpdateSystemValue) -> Option<int> {
    match u {
        UpdateSystemValue::Time(_) => Some(0int),
        UpdateSystemValue::Light(_) => Some(1int),
        UpdateSystemValue::Moisture(_) => Some(2int),
        UpdateSystemValue::Activate => Some(3int),
        UpdateSystemValue::Suspend => Some(4int),
        UpdateSystemValue::ActivationState => None,
        UpdateSystemValue::Reset => None,
    }
}

/// The selector index after a Select press: the next item, wrapping after
/// the last.
pub open spec fn wrapped(idx: int) -> int {
    if idx == MENU_ITEM_COUNT as int - 1 {
        0
    } else {
        idx + 1
    }
}

/// The update a confirmed press enqueues, given the selected item: Right
/// increments a numeric item and fires the toggle or reset of the others;
/// Left decrements a numeric item only; Select enqueues nothing.
pub open spec fn press_update(items: Seq<MenuItem>, idx: int, b: ButtonType) -> Option<
    UpdateSystemValue,
> {
    match b {
        ButtonType::Select => None,
        ButtonType::Right => match items[idx] {
            MenuItem::Time(v) => Some(UpdateSystemValue::of_value(v, ValueAction::Increment)),
            MenuItem::Light(v) => Some(UpdateSystemValue::of_value(v, ValueAction::Increment)),
            MenuItem::Moisture(v) => Some(UpdateSystemValue::of_value(v, ValueAction::Increment)),
            MenuItem::Suspend(_) => Some(UpdateSystemValue::Suspend),
            MenuItem::Activate(_) => Some(UpdateSystemValue::Activate),
            MenuItem::Reset => Some(UpdateSystemValue::Reset),
        },
        ButtonType::Left => match items[idx] {
            MenuItem::Time(v) => Some(UpdateSystemValue::of_value(v, ValueAction::Decrement)),
            MenuItem::Light(v) => Some(UpdateSystemValue::of_value(v, ValueAction::Decrement)),
            MenuItem::Moisture(v) => Some(UpdateSystemValue::of_value(v, ValueAction::Decrement)),
            _ => None,
        },
    }
}

/// Format a u16 value as decimal digit bytes
pub fn format_u16(value: u16) -> (r: Vec<u8>)
    ensures
        r@ == dec_digits(value as int),
    decreases value,
{
    if value < 10 {
        let mut r: Vec<u8> = Vec::new();
        r.push(48 + value as u8);
        proof {
            assert(r@ =~= dec_digits(value as int));
        }
        r
    } else {
        let mut r = format_u16(value / 10);
        r.push(48 + (value % 10) as u8);
        r
    }
}

/// Format a bool-like state as its single glyph byte
pub fn format_flag(on: bool) -> (r: Vec<u8>)
    ensures
        r@ == (if on { seq![GLYPH_ON] } else { seq![GLYPH_OFF] }),
{
    let mut r: Vec<u8> = Vec::new();
    r.push(if on { GLYPH_ON } else { GLYPH_OFF });
    proof {
        assert(r@ =~= if on { seq![GLYPH_ON] } else { seq![GLYPH_OFF] });
    }
    r
}

/// The label bytes a value renders with
fn label_bytes(v: &SystemValue) -> (r: Vec<u8>)
    ensures
        r@ == value_label(*v),
{
    let mut r: Vec<u8> = Vec::new();
    match v {
        SystemValue::Time(_) => {
            r.push(84);
            r.push(105);
            r.push(109);
            r.push(101);
        }
        SystemValue::Light(_) => {
            r.push(76);
            r.push(105);
            r.push(103);
            r.push(104);
            r.push(116);
        }
        SystemValue::Moisture(_) => {
            r.push(77);
            r.push(111);
            r.push(105);
            r.push(115);
            r.push(116);
            r.push(117);
            r.push(114);
            r.push(101);
        }
        SystemValue::Suspend(s) => {
            if s.is_suspending() || s.is_suspended() {
                r.push(82);
                r.push(101);
                r.push(115);
                r.push(117);
                r.push(109);
                r.push(101);
            } else {
                r.push(83);
                r.push(117);
                r.push(115);
                r.push(112);
                r.push(101);
                r.push(110);
                r.push(100);
            }
        }
        SystemValue::Activate(s) => {
            if s.is_activating() || s.is_activated() {
                r.push(67);
                r.push(97);
                r.push(110);
                r.push(99);
                r.push(101);
                r.push(108);
            } else {
                r.push(65);
                r.push(99);
                r.push(116);
                r.push(105);
                r.push(118);
                r.push(97);
                r.push(116);
                r.push(101);
            }
        }
    }
    proof {
        assert(r@ =~= value_label(*v));
    }
    r
}

/// The value glyphs: digits for numbers, one symbol for states
fn glyph_bytes(v: &SystemValue) -> (r: Vec<u8>)
    ensures
        r@ == value_glyphs(*v),
        1 <= r@.len() <= 5,
{
    match v {
        SystemValue::Time(n) => {
            proof {
                lemma_dec_digits_len(*n as int);
            }
            format_u16(*n)
        }
        SystemValue::Light(n) => {
            proof {
                lemma_dec_digits_len(*n as int);
            }
            format_u16(*n)
        }
        SystemValue::Moisture(n) => {
            proof {
                lemma_dec_digits_len(*n as int);
            }
            format_u16(*n)
        }
        SystemValue::Suspend(s) => format_flag(s.is_suspending() || s.is_suspended()),
        SystemValue::Activate(s) => format_flag(s.is_activating() || s.is_activated()),
    }
}

/// Build the full row a value renders as
fn value_row(v: &SystemValue) -> (r: Vec<u8>)
    ensures
        r@ == value_line(*v),
        r@.len() == ROW_LENGTH as int,
{
    let mut label = label_bytes(v);
    let mut glyphs = glyph_bytes(v);
    let label_len: usize = label.len();
    let glyph_len: usize = glyphs.len();
    assert(label@.len() + glyphs@.len() <= 13);

    let mut r: Vec<u8> = Vec::new();
    r.push(BLANK);
    r.push(BLANK);
    r.append(&mut label);
    r.push(COLON);
    proof {
        assert(r@ =~= spaces(MENU_ITEM_PADDING as int) + value_label(*v) + seq![COLON]);
    }
    let ghost prefix = r@;
    let pad: usize = ROW_LENGTH as usize - MENU_ITEM_PADDING as usize - 1 - label_len - glyph_len;
    let mut j: usize = 0;
    while j < pad
        invariant
            j <= pad,
            r@ == prefix + spaces(j as int),
        decreases pad - j,
    {
        r.push(BLANK);
        j = j + 1;
        proof {
            assert(r@ =~= prefix + spaces(j as int));
        }
    }
    r.append(&mut glyphs);
    proof {
        assert(r@ =~= value_line(*v));
    }
    r
}

/// Build the reset row
fn reset_row() -> (r: Vec<u8>)
    ensures
        r@ == reset_line(),
        r@.len() <= ROW_LENGTH as int,
{
    let mut r: Vec<u8> = Vec::new();
    r.push(BLANK);
    r.push(BLANK);
    r.push(82);
    r.push(101);
    r.push(115);
    r.push(101);
    r.push(116);
    proof {
        assert(r@ =~= reset_line());
    }
    r
}

/// Build the row a menu item renders as
fn item_row(item: &MenuItem) -> (r: Vec<u8>)
    ensures
        r@ == item_line(*item),
        r@.len() <= ROW_LENGTH as int,
{
    match item {
        MenuItem::Time(v) => value_row(v),
        MenuItem::Light(v) => value_row(v),
        MenuItem::Moisture(v) => value_row(v),
        MenuItem::Suspend(v) => value_row(v),
        MenuItem::Activate(v) => value_row(v),
        MenuItem::Reset => reset_row(),
    }
}

impl MenuItem {
    /// What [`MenuItem::set_value`] leaves in the item: the cached value is
    /// replaced wholesale, the slot's identity stays.
    pub open spec fn with_value(self, system_value: Option<SystemValue>) -> MenuItem {
        match system_value {
            None => self,
            Some(sv) => match self {
                MenuItem::Time(_) => MenuItem::Time(sv),
                MenuItem::Light(_) => MenuItem::Light(sv),
                MenuItem::Moisture(_) => MenuItem::Moisture(sv),
                MenuItem::Suspend(_) => MenuItem::Suspend(sv),
                MenuItem::Activate(_) => MenuItem::Activate(sv),
                MenuItem::Reset => MenuItem::Reset,
            },
        }
    }

    /// Updates the inner value of a [`MenuItem`] variant
    pub fn set_value(&mut self, system_value: Option<SystemValue>)
        ensures
            *final(self) == old(self).with_value(system_value),
    {
        if let Some(system_value) = system_value {
            match self {
                Self::Time(value) => *value = system_value,
                Self::Light(value) => *value = system_value,
                Self::Moisture(value) => *value = system_value,
                Self::Suspend(value) => *value = system_value,
                Self::Activate(value) => *value = system_value,
                Self::Reset => {}
            }
        }
    }
}

/// The menu. Keeps track of the currently selected item, and holds a list of
/// menu items to display in order.
pub struct Menu {
    /// Index of the currently selected item
    pub current_idx: u8,
    /// The six menu items, in display order
    pub items: Vec<MenuItem>,
}

impl Menu {
    /// Each slot holds the item for its fixed place in the menu, caching the
    /// matching [`SystemValue`] variant, and the selector is on a slot.
    pub open spec fn wf(&self) -> bool {
        &&& self.items@.len() == MENU_ITEM_COUNT as int
        &&& self.current_idx < MENU_ITEM_COUNT
        &&& (self.items@[0] matches MenuItem::Time(SystemValue::Time(_)))
        &&& (self.items@[1] matches MenuItem::Light(SystemValue::Light(_)))
        &&& (self.items@[2] matches MenuItem::Moisture(SystemValue::Moisture(_)))
        &&& (self.items@[3] matches MenuItem::Activate(SystemValue::Activate(_)))
        &&& (self.items@[4] matches MenuItem::Suspend(SystemValue::Suspend(_)))
        &&& self.items@[5] is Reset
    }

    /// Create a new menu from current [`SystemConfig`] values
    pub fn new(system_config: &SystemConfig) -> (r: Self)
        ensures
            r.wf(),
            r.current_idx == 0,
            r.items@ == synced_items(*system_config),
    {
        let mut items: Vec<MenuItem> = Vec::new();
        items.push(MenuItem::Time(SystemValue::Time(system_config.activate_mins)));
        items.push(MenuItem::Light(SystemValue::Light(system_config.min_light)));
        items.push(MenuItem::Moisture(SystemValue::Moisture(system_config.min_moisture)));
        items.push(MenuItem::Activate(SystemValue::Activate(system_config.activation_state)));
        items.push(MenuItem::Suspend(SystemValue::Suspend(system_config.activation_state)));
        items.push(MenuItem::Reset);
        proof {
            assert(items@ =~= synced_items(*system_config));
        }
        Self { current_idx: 0, items }
    }

    /// Similar to [`Menu::new`], but resets the value for each menu item to
    /// the corresponding value in [`SystemConfig`], and the selector to the
    /// first item
    pub fn reset(&mut self, system_config: &SystemConfig)
        requires
            old(self).wf(),
        ensures
            final(self).wf(),
            final(self).current_idx == 0,
            final(self).items@ == synced_items(*system_config),
    {
        self.current_idx = 0;
        self.items.set(0, MenuItem::Time(SystemValue::Time(system_config.activate_mins)));
        self.items.set(1, MenuItem::Light(SystemValue::Light(system_config.min_light)));
        self.items.set(2, MenuItem::Moisture(SystemValue::Moisture(system_config.min_moisture)));
        self.items.set(3, MenuItem::Activate(SystemValue::Activate(system_config.activation_state)));
        self.items.set(4, MenuItem::Suspend(SystemValue::Suspend(system_config.activation_state)));
        proof {
            assert(self.items@ =~= synced_items(*system_config));
        }
    }

    /// Render a single menu item's row
    fn render_item(idx: usize, item: &MenuItem, display: &mut Display)
        requires
            old(display).wf(),
            idx < MENU_ITEM_COUNT as int,
        ensures
            final(display).wf(),
            final(display).cells@ == written(
                old(display).cells@,
                BODY_START_ROW + idx,
                0,
                item_line(*item),
            ),
            final(display).cursor_row == BODY_START_ROW + idx,
    {
        display.set_position(0, BODY_START_ROW + idx as u8);
        let line = item_row(item);
        display.write_text(&line);
    }

    /// Render the selection indicator
    ///
    /// First clears the previous selection, if one is given, and then renders
    /// the new selection indicator.
    fn render_selector(display: &mut Display, previous_idx: Option<u8>, current_idx: u8)
        requires
            old(display).wf(),
            current_idx < MENU_ITEM_COUNT,
            previous_idx matches Some(p) ==> p < MENU_ITEM_COUNT,
        ensures
            final(display).wf(),
            final(display).cells@ == match previous_idx {
                Some(p) => selector_cells(old(display).cells@, p as int, current_idx as int),
                None => written(
                    old(display).cells@,
                    BODY_START_ROW + current_idx,
                    0,
                    seq![SELECTOR],
                ),
            },
            final(display).cursor_col == 1,
            final(display).cursor_row == BODY_START_ROW + current_idx,
    {
        if let Some(previous_idx) = previous_idx {
            display.set_position(0, BODY_START_ROW + previous_idx);
            let blank: Vec<u8> = vec![BLANK];
            display.write_text(&blank);
        }
        display.set_position(0, BODY_START_ROW + current_idx);
        let marker: Vec<u8> = vec![SELECTOR];
        display.write_text(&marker);
    }

    /// Render the entire menu
    ///
    /// The panel renders a full menu slowly, so calls to this are limited to
    /// when the program launches and whenever the menu resets.
    pub fn render(&self, display: &mut Display)
        requires
            self.wf(),
            old(display).wf(),
        ensures
            final(display).wf(),
            final(display).cells@ == rendered_cells(old(display).cells@, *self),
            final(display).cursor_col == 1,
            final(display).cursor_row == BODY_START_ROW + self.current_idx,
    {
        display.clear_body();
        let ghost cleared = display.cells@;
        let mut idx: usize = 0;
        while idx < MENU_ITEM_COUNT as usize
            invariant
                idx <= MENU_ITEM_COUNT as int,
                self.wf(),
                display.wf(),
                display.cells@ == items_written(cleared, self.items@, idx as int),
            decreases MENU_ITEM_COUNT as int - idx,
        {
            let item = self.items[idx];
            Self::render_item(idx, &item, display);
            idx = idx + 1;
        }
        Self::render_selector(display, None, self.current_idx);
    }

    /// Update a menu item associated with a system value change from
    /// [`UpdateSystemValue`]
    ///
    /// - Updates the value stored in the corresponding [`MenuItem`];
    /// - Rerenders the menu item;
    /// - And, rerenders the selection (because rendering a menu item writes a
    ///   full row).
    ///
    /// A reset instead resets the whole menu and rerenders it in full; a
    /// request with no row of its own leaves everything untouched.
    pub fn update(
        &mut self,
        update_value: UpdateSystemValue,
        system_config: &SystemConfig,
        display: &mut Display,
    )
        requires
            old(self).wf(),
            old(display).wf(),
        ensures
            final(self).wf(),
            final(display).wf(),
            update_value is Reset ==> final(self).current_idx == 0 && final(self).items@
                == synced_items(*system_config) && final(display).cells@ == rendered_cells(
                old(display).cells@,
                *final(self),
            ) && final(display).cursor_col == 1 && final(display).cursor_row == BODY_START_ROW,
            slot_of(update_value) matches Some(m)
                ==> final(self).current_idx == old(self).current_idx
                && final(self).items@ == old(self).items@.update(
                m,
                synced_item(m, *system_config),
            ) && final(display).cells@ == refresh_cells(
                old(display).cells@,
                m,
                synced_item(m, *system_config),
                old(self).current_idx as int,
            ) && final(display).cursor_col == 1 && final(display).cursor_row == BODY_START_ROW
                + old(self).current_idx,
            update_value is ActivationState ==> *final(self) == *old(self) && *final(display)
                == *old(display),
    {
        if let UpdateSystemValue::Reset = update_value {
            self.reset(system_config);
            self.render(display);
        } else {
            // The slot whose row displays the field this update targets; the
            // well-formedness invariant ties each field to its fixed slot.
            let slot: Option<usize> = match update_value {
                UpdateSystemValue::Time(_) => Some(0),
                UpdateSystemValue::Light(_) => Some(1),
                UpdateSystemValue::Moisture(_) => Some(2),
                UpdateSystemValue::Activate => Some(3),
                UpdateSystemValue::Suspend => Some(4),
                _ => None,
            };
            if let Some(idx) = slot {
                // Update the slot's cached value from the value in system_config.
                let system_value = update_value.to_value(system_config);
                let mut item = self.items[idx];
                item.set_value(system_value);
                self.items.set(idx, item);
                assert(item == synced_item(idx as int, *system_config));

                // Rerender the item.
                Self::render_item(idx, &item, display);
                // Rerender the selector.
                Self::render_selector(display, None, self.current_idx);
            }
        }
    }

    /// Handle a button press event
    ///
    /// Only the `Release` stage acts, i.e. after a full press-and-release
    /// cycle has been confirmed by the debouncer: Select moves the selector
    /// to the next item, wrapping after the last; Right and Left enqueue the
    /// item's request into the configuration's pending-update slot.
    pub fn on_press(
        &mut self,
        button_state: &ButtonState,
        display: &mut Display,
        system_config: &mut SystemConfig,
    )
        requires
            old(self).wf(),
            old(display).wf(),
        ensures
            final(self).wf(),
            final(display).wf(),
            final(self).items@ == old(self).items@,
            !(button_state.stage is Release) ==> *final(self) == *old(self) && *final(display)
                == *old(display) && *final(system_config) == *old(system_config),
            button_state.stage is Release && button_state.button is Select
                ==> final(self).current_idx == wrapped(old(self).current_idx as int)
                && *final(system_config) == *old(system_config)
                && final(display).cells@ == selector_cells(
                old(display).cells@,
                old(self).current_idx as int,
                wrapped(old(self).current_idx as int),
            ) && final(display).cursor_col == 1 && final(display).cursor_row == BODY_START_ROW
                + wrapped(old(self).current_idx as int),
            button_state.stage is Release && !(button_state.button is Select) ==> *final(self)
                == *old(self) && *final(display) == *old(display) && *final(system_config) == (
            match press_update(old(self).items@, old(self).current_idx as int, button_state.button) {
                Some(u) => crate::config::enqueued(*old(system_config), u),
                None => *old(system_config),
            }),
    {
        match (&button_state.stage, &button_state.button) {
            (ButtonStage::Release, ButtonType::Select) => {
                // Move the current selection to the next menu item, or the
                // first if the current item is the last menu item.
                let previous_idx = self.current_idx;
                if self.current_idx == MENU_ITEM_COUNT - 1 {
                    self.current_idx = 0;
                } else {
                    self.current_idx = self.current_idx + 1;
                }
                // Rerender the selector.
                Self::render_selector(display, Some(previous_idx), self.current_idx);
            }
            (ButtonStage::Release, ButtonType::Right) => {
                // Fetch the current selection and enqueue its request.
                let item = self.items[self.current_idx as usize];
                match item {
                    MenuItem::Time(value) => {
                        system_config.update_next_tick(
                            UpdateSystemValue::from_value(&value, ValueAction::Increment),
                        );
                    }
                    MenuItem::Light(value) => {
                        system_config.update_next_tick(
                            UpdateSystemValue::from_value(&value, ValueAction::Increment),
                        );
                    }
                    MenuItem::Moisture(value) => {
                        system_config.update_next_tick(
                            UpdateSystemValue::from_value(&value, ValueAction::Increment),
                        );
                    }
                    MenuItem::Suspend(_) => {
                        // Toggle the system's suspension state.
                        system_config.update_next_tick(UpdateSystemValue::Suspend);
                    }
                    MenuItem::Activate(_) => {
                        // Toggle the system's activation state.
                        system_config.update_next_tick(UpdateSystemValue::Activate);
                    }
                    MenuItem::Reset => {
                        // Reset the values in system_config, and the menu.
                        system_config.update_next_tick(UpdateSystemValue::Reset);
                    }
                }
            }
            (ButtonStage::Release, ButtonType::Left) => {
                // Only the numeric items can be decremented.
                let item = self.items[self.current_idx as usize];
                match item {
                    MenuItem::Time(value) => {
                        system_config.update_next_tick(
                            UpdateSystemValue::from_value(&value, ValueAction::Decrement),
                        );
                    }
                    MenuItem::Light(value) => {
                        system_config.update_next_tick(
                            UpdateSystemValue::from_value(&value, ValueAction::Decrement),
                        );
                    }
                    MenuItem::Moisture(value) => {
                        system_config.update_next_tick(
                            UpdateSystemValue::from_value(&value, ValueAction::Decrement),
                        );
                    }
                    _ => {}
                }
            }
            _ => {}
        }
    }
}

} // verus!
