use clip_engine::bank_data::load_bank_data;
use clip_engine::bank_data::not_ready_yet_data;
use clip_engine::bank_data::BankDataAction;

#[test]
fn not_ready_marker_is_the_text() {
    assert_eq!(not_ready_yet_data(), "not-ready-yet".as_bytes());
}

#[test]
fn marker_resets_an_existing_session() {
    assert_eq!(load_bank_data(b"not-ready-yet", true), BankDataAction::ResetToDefault);
    assert_eq!(load_bank_data(b"not-ready-yet", false), BankDataAction::Nothing);
}

#[test]
fn data_without_session_is_kept_for_later() {
    assert_eq!(load_bank_data(b"{}", false), BankDataAction::KeepForLater);
    assert_eq!(load_bank_data(b"", false), BankDataAction::KeepForLater);
    assert_eq!(load_bank_data(b"not-ready-yet ", false), BankDataAction::KeepForLater);
    assert_eq!(load_bank_data(b"not-ready-ye", false), BankDataAction::KeepForLater);
}

#[test]
fn session_is_restored_from_first_brace() {
    assert_eq!(load_bank_data(b"{\"a\":1}", true), BankDataAction::Restore { json_start: 0 });
    assert_eq!(load_bank_data(b"\x00\x01binary{\"a\":{}}", true), BankDataAction::Restore { json_start: 8 });
    assert_eq!(load_bank_data(b"not-ready-yet{", true), BankDataAction::Restore { json_start: 13 });
    assert_eq!(load_bank_data(b"", true), BankDataAction::NoJsonFound);
    assert_eq!(load_bank_data(b"no json here }", true), BankDataAction::NoJsonFound);
    assert_eq!(load_bank_data(b"Not-ready-yet", true), BankDataAction::NoJsonFound);
}
