use yapdotfun::errors::YapdotfunError;

#[test]
fn every_error_has_its_sentence() {
    assert_eq!(YapdotfunError::InvalidAmount.message(), "Amount must be greater than 0");
    assert_eq!(YapdotfunError::MarketAlreadyExists.message(), "Market already exists");
    assert_eq!(YapdotfunError::MarketDoesNotExist.message(), "Market doesn't exist");
    assert_eq!(YapdotfunError::MarketNotOpen.message(), "Market has been closed");
    assert_eq!(YapdotfunError::MarketNotClosed.message(), "Market is not closed");
    assert_eq!(YapdotfunError::PositionAlreadyExists.message(), "Position already exists");
    assert_eq!(YapdotfunError::PositionMismatch.message(), "Position is on the other side");
    assert_eq!(YapdotfunError::NotEnoughShares.message(), "Not enough shares");
    assert_eq!(YapdotfunError::NoSharesToSell.message(), "No shares to sell");
    assert_eq!(YapdotfunError::Underflow.message(), "Arithmetic underflow");
    assert_eq!(YapdotfunError::Overflow.message(), "Arithmetic overflow");
    assert_eq!(YapdotfunError::TransferFailed.message(), "Transfer failed");
}

#[test]
fn errors_are_told_apart() {
    assert_ne!(YapdotfunError::MarketNotOpen, YapdotfunError::MarketNotClosed);
    assert_ne!(YapdotfunError::Underflow, YapdotfunError::Overflow);
    assert_eq!(YapdotfunError::TransferFailed, YapdotfunError::TransferFailed);
}
