use imgflash::device::{flush_system, open_device, open_image, open_target, FlushAction, OpenPlan, Platform};
use imgflash::flash::{menu as flash_menu, verify_menu, FlashMenuAction, VerifyMenuAction};
use imgflash::memory::{read_at, write_at};
use imgflash::menu::{Key, Selection};
use imgflash::progress::ProgressSample;
use imgflash::targ::{confirm, menu as drive_menu, ConfirmAction, DriveMenuAction};

#[test]
fn the_device_is_read_without_the_cache_on_windows() {
    assert_eq!(
        open_device(Platform::Unix),
        OpenPlan { read: true, write: false, unbuffered: false }
    );
    assert_eq!(
        open_device(Platform::Windows),
        OpenPlan { read: true, write: false, unbuffered: true }
    );
    assert_eq!(open_image(), OpenPlan { read: true, write: false, unbuffered: false });
    assert_eq!(open_target(), OpenPlan { read: false, write: true, unbuffered: false });
}

#[test]
fn only_unix_runs_sync() {
    assert_eq!(flush_system(Platform::Unix), FlushAction::RunSync);
    assert_eq!(flush_system(Platform::Windows), FlushAction::Nothing);
}

#[test]
fn percent_is_rounded_down() {
    let sample = |p: u64, t: u64| ProgressSample { bytes_processed: p, bytes_total: t };
    assert_eq!(sample(0, 0).percent_hundredths(), None);
    assert_eq!(sample(0, 7).percent_hundredths(), Some(0));
    assert_eq!(sample(1, 3).percent_hundredths(), Some(3333));
    assert_eq!(sample(2, 3).percent_hundredths(), Some(6666));
    assert_eq!(sample(2, 4).percent_hundredths(), Some(5000));
    assert_eq!(sample(3, 3).percent_hundredths(), Some(10000));
    assert_eq!(sample(99999, 100000).percent_hundredths(), Some(9999));
    assert_eq!(sample(u64::MAX - 1, u64::MAX).percent_hundredths(), Some(9999));
    assert_eq!(sample(u64::MAX, u64::MAX).percent_hundredths(), Some(10000));
    assert!(sample(3, 3).is_complete());
    assert!(!sample(2, 3).is_complete());
}

#[test]
fn reads_stop_at_the_end_of_the_medium() {
    let medium = [1u8, 2, 3, 4, 5];
    assert_eq!(read_at(&medium, 0, 2), &[1u8, 2][..]);
    assert_eq!(read_at(&medium, 3, 2), &[4u8, 5][..]);
    assert_eq!(read_at(&medium, 3, 9), &[4u8, 5][..]);
    assert_eq!(read_at(&medium, 5, 1), &[0u8; 0][..]);
    assert_eq!(read_at(&medium, 9, 1), &[0u8; 0][..]);
    assert_eq!(read_at(&medium, 2, 0), &[0u8; 0][..]);
}

#[test]
fn writes_take_what_fits() {
    let mut medium = vec![0u8; 5];
    assert_eq!(write_at(&mut medium, 1, &[7, 8]), 2);
    assert_eq!(medium, vec![0, 7, 8, 0, 0]);
    assert_eq!(write_at(&mut medium, 3, &[1, 2, 3]), 2);
    assert_eq!(medium, vec![0, 7, 8, 1, 2]);
    assert_eq!(write_at(&mut medium, 5, &[9]), 0);
    assert_eq!(write_at(&mut medium, 6, &[9]), 0);
    assert_eq!(write_at(&mut medium, 0, &[]), 0);
    assert_eq!(medium, vec![0, 7, 8, 1, 2]);
}

#[test]
fn the_cursor_stops_at_the_ends() {
    let mut cursor = Selection::new(3);
    assert_eq!(cursor.selected, 0);
    cursor.press(Key::Up);
    assert_eq!(cursor.selected, 0);
    cursor.press(Key::Down);
    cursor.press(Key::Down);
    assert_eq!(cursor.selected, 2);
    cursor.press(Key::Down);
    assert_eq!(cursor.selected, 2);
    cursor.press(Key::Enter);
    cursor.press(Key::Other);
    assert_eq!(cursor, Selection { selected: 2, len: 3 });
    cursor.press(Key::Up);
    assert_eq!(cursor.selected, 1);

    let mut empty = Selection::new(0);
    empty.press(Key::Down);
    empty.press(Key::Up);
    assert_eq!(empty, Selection { selected: 0, len: 0 });
}

#[test]
fn the_cursor_follows_a_list_that_shrinks() {
    let mut cursor = Selection { selected: 4, len: 6 };
    cursor.resize(10);
    assert_eq!(cursor, Selection { selected: 4, len: 10 });
    cursor.resize(3);
    assert_eq!(cursor, Selection { selected: 2, len: 3 });
    cursor.resize(0);
    assert_eq!(cursor, Selection { selected: 0, len: 0 });
}

#[test]
fn the_flash_question_takes_yes_no_and_escape() {
    let mut cursor = Selection::new(2);
    assert_eq!(flash_menu(&mut cursor, Key::Other), FlashMenuAction::Stay);
    assert_eq!(flash_menu(&mut cursor, Key::Quit), FlashMenuAction::Stay);
    assert_eq!(flash_menu(&mut cursor, Key::Enter), FlashMenuAction::Flash);
    assert_eq!(flash_menu(&mut cursor, Key::Down), FlashMenuAction::Stay);
    assert_eq!(cursor.selected, 1);
    assert_eq!(flash_menu(&mut cursor, Key::Enter), FlashMenuAction::Leave);
    assert_eq!(flash_menu(&mut cursor, Key::Up), FlashMenuAction::Stay);
    assert_eq!(cursor.selected, 0);
    assert_eq!(flash_menu(&mut cursor, Key::Escape), FlashMenuAction::Leave);
}

#[test]
fn the_verify_question_ends_the_program_on_enter() {
    let mut cursor = Selection::new(2);
    assert_eq!(verify_menu(&mut cursor, Key::Escape), VerifyMenuAction::Stay);
    assert_eq!(verify_menu(&mut cursor, Key::Enter), VerifyMenuAction::Verify);
    assert_eq!(verify_menu(&mut cursor, Key::Down), VerifyMenuAction::Stay);
    assert_eq!(verify_menu(&mut cursor, Key::Enter), VerifyMenuAction::Exit);
}

#[test]
fn the_drive_list_picks_the_entry_under_the_cursor() {
    let mut cursor = Selection::new(3);
    assert_eq!(drive_menu(&mut cursor, Key::Enter), DriveMenuAction::Confirm { device: 0 });
    assert_eq!(drive_menu(&mut cursor, Key::Down), DriveMenuAction::Stay);
    assert_eq!(drive_menu(&mut cursor, Key::Down), DriveMenuAction::Stay);
    assert_eq!(drive_menu(&mut cursor, Key::Down), DriveMenuAction::Stay);
    assert_eq!(drive_menu(&mut cursor, Key::Enter), DriveMenuAction::Confirm { device: 2 });
    assert_eq!(drive_menu(&mut cursor, Key::Escape), DriveMenuAction::Leave);
    assert_eq!(drive_menu(&mut cursor, Key::Quit), DriveMenuAction::Leave);
    assert_eq!(drive_menu(&mut cursor, Key::Other), DriveMenuAction::Stay);
}

#[test]
fn the_confirm_question_flashes_or_exits() {
    let mut cursor = Selection::new(2);
    assert_eq!(confirm(&mut cursor, Key::Escape), ConfirmAction::Stay);
    assert_eq!(confirm(&mut cursor, Key::Enter), ConfirmAction::Flash);
    assert_eq!(confirm(&mut cursor, Key::Down), ConfirmAction::Stay);
    assert_eq!(confirm(&mut cursor, Key::Enter), ConfirmAction::Exit);
}
