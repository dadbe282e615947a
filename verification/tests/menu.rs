use garden_system::config::{
    ActivationState, SystemConfig, SystemValue, UpdateSystemValue, ValueAction,
};
use garden_system::display::{Display, BODY_START_ROW, TOTAL_ROWS};
use garden_system::menu::{format_flag, format_u16, Menu, MenuItem};

fn rows(display: &Display) -> Vec<Vec<u8>> {
    (0..TOTAL_ROWS).map(|r| display.row_bytes(r)).collect()
}

#[test]
fn format_u16_exact() {
    assert_eq!(format_u16(0), b"0".to_vec());
    assert_eq!(format_u16(7), b"7".to_vec());
    assert_eq!(format_u16(10), b"10".to_vec());
    assert_eq!(format_u16(100), b"100".to_vec());
    assert_eq!(format_u16(1050), b"1050".to_vec());
    assert_eq!(format_u16(65535), b"65535".to_vec());
}

#[test]
fn format_flag_exact() {
    assert_eq!(format_flag(true), b"@".to_vec());
    assert_eq!(format_flag(false), b"-".to_vec());
}

#[test]
fn full_render_draws_all_rows_and_selector() {
    let config = SystemConfig::new();
    let menu = Menu::new(&config);
    let mut display = Display::new();
    menu.render(&mut display);

    assert_eq!(display.row_bytes(BODY_START_ROW), b"> Time:       10".to_vec());
    assert_eq!(display.row_bytes(BODY_START_ROW + 1), b"  Light:     100".to_vec());
    assert_eq!(display.row_bytes(BODY_START_ROW + 2), b"  Moisture:  100".to_vec());
    assert_eq!(display.row_bytes(BODY_START_ROW + 3), b"  Activate:    -".to_vec());
    assert_eq!(display.row_bytes(BODY_START_ROW + 4), b"  Suspend:     -".to_vec());
    assert_eq!(display.row_bytes(BODY_START_ROW + 5), b"  Reset         ".to_vec());
    // The header region is untouched by a menu render.
    assert_eq!(display.row_bytes(0), b"                ".to_vec());
    assert_eq!(display.row_bytes(1), b"                ".to_vec());
}

#[test]
fn labels_switch_with_the_state() {
    let mut config = SystemConfig::new();
    config.update_next_tick(UpdateSystemValue::Activate);
    config.update();
    let menu = Menu::new(&config);
    let mut display = Display::new();
    menu.render(&mut display);
    // An activating state flips the activate row's label and glyph.
    assert_eq!(display.row_bytes(BODY_START_ROW + 3), b"  Cancel:      @".to_vec());
    assert_eq!(display.row_bytes(BODY_START_ROW + 4), b"  Suspend:     -".to_vec());

    let mut config = SystemConfig::new();
    config.update_next_tick(UpdateSystemValue::Suspend);
    config.update();
    let menu = Menu::new(&config);
    let mut display = Display::new();
    menu.render(&mut display);
    assert_eq!(display.row_bytes(BODY_START_ROW + 3), b"  Activate:    -".to_vec());
    assert_eq!(display.row_bytes(BODY_START_ROW + 4), b"  Resume:      @".to_vec());
}

#[test]
fn targeted_update_touches_one_row_only() {
    let mut config = SystemConfig::new();
    let mut menu = Menu::new(&config);
    let mut display = Display::new();
    menu.render(&mut display);
    let before = rows(&display);

    config.update_next_tick(UpdateSystemValue::Light(ValueAction::Increment));
    config.update();
    menu.update(
        UpdateSystemValue::Light(ValueAction::Increment),
        &config,
        &mut display,
    );

    let after = rows(&display);
    assert_eq!(after[BODY_START_ROW as usize + 1], b"  Light:     125".to_vec());
    for r in 0..TOTAL_ROWS as usize {
        if r != BODY_START_ROW as usize + 1 {
            assert_eq!(before[r], after[r], "row {} must stay as it was", r);
        }
    }
}

#[test]
fn update_with_no_row_changes_nothing() {
    let config = SystemConfig::new();
    let mut menu = Menu::new(&config);
    let mut display = Display::new();
    menu.render(&mut display);
    let before = rows(&display);

    menu.update(UpdateSystemValue::ActivationState, &config, &mut display);
    assert_eq!(before, rows(&display));
}

#[test]
fn reset_update_rerenders_in_full() {
    let mut config = SystemConfig::new();
    let mut menu = Menu::new(&config);
    let mut display = Display::new();
    menu.render(&mut display);

    config.update_next_tick(UpdateSystemValue::Reset);
    config.update();
    menu.update(UpdateSystemValue::Reset, &config, &mut display);

    assert_eq!(display.row_bytes(BODY_START_ROW), b"> Time:       10".to_vec());
    assert_eq!(display.row_bytes(BODY_START_ROW + 5), b"  Reset         ".to_vec());
}

#[test]
fn menu_new_caches_the_configuration() {
    let mut config = SystemConfig::new();
    config.update_next_tick(UpdateSystemValue::Time(ValueAction::Increment));
    config.update();
    let menu = Menu::new(&config);
    assert_eq!(menu.current_idx, 0);
    assert_eq!(menu.items.len(), 6);
    assert!(matches!(menu.items[0], MenuItem::Time(SystemValue::Time(15))));
    assert!(matches!(menu.items[1], MenuItem::Light(SystemValue::Light(100))));
    assert!(matches!(menu.items[2], MenuItem::Moisture(SystemValue::Moisture(100))));
    assert!(matches!(
        menu.items[3],
        MenuItem::Activate(SystemValue::Activate(ActivationState::Waiting))
    ));
    assert!(matches!(
        menu.items[4],
        MenuItem::Suspend(SystemValue::Suspend(ActivationState::Waiting))
    ));
    assert!(matches!(menu.items[5], MenuItem::Reset));
}

#[test]
fn menu_reset_resyncs_and_rewinds_the_selector() {
    let config = SystemConfig::new();
    let mut menu = Menu::new(&config);
    menu.current_idx = 3;

    let mut changed = SystemConfig::new();
    changed.update_next_tick(UpdateSystemValue::Light(ValueAction::Decrement));
    changed.update();
    menu.reset(&changed);
    assert_eq!(menu.current_idx, 0);
    assert!(matches!(menu.items[1], MenuItem::Light(SystemValue::Light(75))));
}

#[test]
fn set_value_replaces_the_cached_value_only() {
    let mut item = MenuItem::Time(SystemValue::Time(10));
    item.set_value(Some(SystemValue::Time(25)));
    assert!(matches!(item, MenuItem::Time(SystemValue::Time(25))));
    item.set_value(None);
    assert!(matches!(item, MenuItem::Time(SystemValue::Time(25))));
    let mut reset_item = MenuItem::Reset;
    reset_item.set_value(Some(SystemValue::Time(25)));
    assert!(matches!(reset_item, MenuItem::Reset));
}
