use neo_eink::pins::Board;
use neo_eink::pins::PinMapping;

#[test]
fn neo_board_wiring() {
    assert_eq!(PinMapping::for_board(Board::Neo), PinMapping { cs: 67, rst: 1, busy: 2, dc: 0 });
}

#[test]
fn rpi3_board_wiring() {
    assert_eq!(PinMapping::for_board(Board::Rpi3), PinMapping { cs: 8, rst: 27, busy: 24, dc: 25 });
}

#[test]
fn active_wiring_is_neo() {
    assert_eq!(PinMapping::active(), PinMapping::for_board(Board::Neo));
}
