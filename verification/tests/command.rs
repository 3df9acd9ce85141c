use pallet_contracts_xcm::command::Command;
use pallet_contracts_xcm::error::Error;

#[test]
fn command_ids_are_the_published_ones() {
    assert_eq!(Command::from_func_id(0), Ok(Command::PrepareExecute));
    assert_eq!(Command::from_func_id(1), Ok(Command::Execute));
    assert_eq!(Command::from_func_id(2), Ok(Command::ValidateSend));
    assert_eq!(Command::from_func_id(3), Ok(Command::Send));
    assert_eq!(Command::from_func_id(4), Ok(Command::NewQuery));
    assert_eq!(Command::from_func_id(5), Ok(Command::TakeResponse));
}

#[test]
fn ids_outside_the_set_are_invalid() {
    assert_eq!(Command::from_func_id(6), Err(Error::InvalidCommand));
    assert_eq!(Command::from_func_id(255), Err(Error::InvalidCommand));
    assert_eq!(Command::from_func_id(u16::MAX), Err(Error::InvalidCommand));
}

#[test]
fn command_ids_round_trip() {
    for id in 0u16..=5 {
        assert_eq!(Command::from_func_id(id).unwrap().func_id(), id);
    }
}
