use valobs::financial::{Currency, Money, MoneyAmount, MoneyRecord};
use valobs::result::{ValobsError, ValobsResult};

#[test]
fn create_money() {
    // Arrange
    let amount: MoneyAmount = 100;
    let currency = Currency::USD;

    // Act
    let result = Money::new(amount, currency);

    // Assert
    assert!(result.is_ok());
}

#[test]
fn fails_to_create_money_when_amount_is_zero() {
    // Arrange
    let amount: MoneyAmount = 0;
    let currency = Currency::USD;

    // Act
    let result = Money::new(amount, currency);

    // Assert
    assert!(result.is_err());
}

#[test]
fn add_money() -> ValobsResult<()> {
    // Arrange
    let amount: MoneyAmount = 100;
    let currency = Currency::USD;
    let money = Money::new(amount, currency)?;
    let other = Money::new(50, currency)?;

    // Act
    let result = money.add(&other).unwrap();

    // Assert
    assert_eq!(result.amount(), 150);
    assert_eq!(result.currency(), &currency);

    Ok(())
}

#[test]
fn subtract_money() -> ValobsResult<()> {
    // Arrange
    let amount: MoneyAmount = 100;
    let currency = Currency::USD;
    let money = Money::new(amount, currency)?;
    let other = Money::new(50, currency)?;

    // Act
    let result = money.subtract(&other).unwrap();

    // Assert
    assert_eq!(result.amount(), 50);
    assert_eq!(result.currency(), &currency);

    Ok(())
}

#[test]
fn fails_to_subtract_money_when_given_amout_is_larger() -> ValobsResult<()> {
    // Arrange
    let amount: MoneyAmount = 100;
    let currency = Currency::USD;
    let money = Money::new(amount, currency)?;
    let other = Money::new(150, currency)?;

    // Act
    let result = money.subtract(&other);

    // Assert
    assert!(result.is_err());

    Ok(())
}

#[test]
fn allocate_money() -> ValobsResult<()> {
    // Arrange
    let amount: MoneyAmount = 100;
    let currency = Currency::USD;
    let money = Money::new(amount, currency)?;
    let parts = 3;

    // Act
    let result = money.allocate(parts)?;

    // Assert
    assert_eq!(result.len(), 3);
    assert_eq!(result[0].amount(), 34);
    assert_eq!(result[1].amount(), 33);
    assert_eq!(result[2].amount(), 33);
    assert_eq!(result[0].currency(), &currency);
    assert_eq!(result[1].currency(), &currency);
    assert_eq!(result[2].currency(), &currency);

    Ok(())
}

#[test]
fn fails_to_allocate_money_when_parts_is_zero() -> ValobsResult<()> {
    // Arrange
    let amount: MoneyAmount = 100;
    let currency = Currency::USD;
    let money = Money::new(amount, currency)?;
    let parts = 0;

    // Act
    let result = money.allocate(parts);

    // Assert
    assert!(result.is_err());

    Ok(())
}

#[test]
fn fails_to_allocate_more_parts_than_minor_units() -> ValobsResult<()> {
    // Splitting two minor units five ways would hand some part a zero
    // amount, which fails the same validation as direct construction.
    let money = Money::new(2, Currency::USD)?;

    let result = money.allocate(5);

    assert_eq!(result, Err(ValobsError::InvalidAmount));

    Ok(())
}

#[test]
fn allocate_preserves_the_amount_exactly() -> ValobsResult<()> {
    let money = Money::new(7, Currency::USD)?;

    let result = money.allocate(3)?;

    assert_eq!(result.len(), 3);
    assert_eq!(result[0].amount(), 3);
    assert_eq!(result[1].amount(), 2);
    assert_eq!(result[2].amount(), 2);
    let sum: u64 = result.iter().map(|m| m.amount()).sum();
    assert_eq!(sum, 7);

    Ok(())
}

#[test]
fn allocate_is_non_increasing() -> ValobsResult<()> {
    let money = Money::new(17, Currency::EUR)?;

    let result = money.allocate(5)?;

    for pair in result.windows(2) {
        assert!(pair[0].amount() >= pair[1].amount());
    }
    let sum: u64 = result.iter().map(|m| m.amount()).sum();
    assert_eq!(sum, 17);

    Ok(())
}

#[test]
fn fails_to_add_money_with_different_currencies() -> ValobsResult<()> {
    let money = Money::new(100, Currency::USD)?;
    let other = Money::new(50, Currency::EUR)?;

    let result = money.add(&other);

    assert_eq!(result, Err(ValobsError::CurrencyMismatch));

    Ok(())
}

#[test]
fn fails_to_subtract_money_with_different_currencies() -> ValobsResult<()> {
    let money = Money::new(100, Currency::USD)?;
    let other = Money::new(50, Currency::EUR)?;

    let result = money.subtract(&other);

    assert_eq!(result, Err(ValobsError::CurrencyMismatch));

    Ok(())
}

#[test]
fn subtract_reports_the_shortfall_before_the_currencies() -> ValobsResult<()> {
    // The underflow check runs first, so a shortfall wins over a
    // currency mismatch.
    let money = Money::new(50, Currency::USD)?;
    let other = Money::new(100, Currency::EUR)?;

    let result = money.subtract(&other);

    assert_eq!(result, Err(ValobsError::NegativeResult));

    Ok(())
}

#[test]
fn subtract_equal_amounts_carries_a_zero_amount() -> ValobsResult<()> {
    // Subtraction fails only on a shortfall; equal amounts leave zero.
    let money = Money::new(50, Currency::USD)?;
    let other = Money::new(50, Currency::USD)?;

    let result = money.subtract(&other)?;

    assert_eq!(result.amount(), 0);
    assert_eq!(result.currency(), &Currency::USD);

    Ok(())
}

#[test]
fn operations_are_deterministic_and_leave_operands_unchanged() -> ValobsResult<()> {
    let money = Money::new(100, Currency::USD)?;
    let other = Money::new(30, Currency::USD)?;

    let first = money.add(&other)?;
    let second = money.add(&other)?;
    assert_eq!(first, second);

    let split_one = money.allocate(7)?;
    let split_two = money.allocate(7)?;
    assert_eq!(split_one, split_two);

    // The operands still carry their original values.
    assert_eq!(money.amount(), 100);
    assert_eq!(other.amount(), 30);
    assert_eq!(money.currency(), &Currency::USD);

    Ok(())
}

#[test]
fn with_amounts_builds_each_part() -> ValobsResult<()> {
    let money = Money::new(100, Currency::USD)?;

    let result = money.with_amounts(&vec![17, 33, 50])?;

    assert_eq!(result.len(), 3);
    assert_eq!(result[0].amount(), 17);
    assert_eq!(result[1].amount(), 33);
    assert_eq!(result[2].amount(), 50);
    assert_eq!(result[0].currency(), &Currency::USD);
    assert_eq!(result[1].currency(), &Currency::USD);
    assert_eq!(result[2].currency(), &Currency::USD);

    Ok(())
}

#[test]
fn with_amounts_of_nothing_yields_nothing() -> ValobsResult<()> {
    let money = Money::new(100, Currency::USD)?;

    let result = money.with_amounts(&vec![])?;

    assert_eq!(result.len(), 0);

    Ok(())
}

#[test]
fn fails_to_build_parts_when_an_amount_is_zero() -> ValobsResult<()> {
    let money = Money::new(100, Currency::USD)?;

    let result = money.with_amounts(&vec![17, 0, 50]);

    assert_eq!(result, Err(ValobsError::InvalidAmount));

    Ok(())
}

#[test]
fn ratio_shares_round_to_the_documented_amounts() -> ValobsResult<()> {
    // A ratio allocation computes round(amount * ratio / total) per
    // ratio and builds the parts from those shares: splitting 100 by
    // 1:2:3 gives 17, 33, and 50.
    let money = Money::new(100, Currency::USD)?;
    let ratios = [1.0_f64, 2.0, 3.0];
    let total: f64 = ratios.iter().sum();

    let shares: Vec<u64> =
        ratios.iter().map(|r| (money.amount() as f64 * r / total).round() as u64).collect();
    let result = money.with_amounts(&shares)?;

    assert_eq!(result.len(), 3);
    assert_eq!(result[0].amount(), 17);
    assert_eq!(result[1].amount(), 33);
    assert_eq!(result[2].amount(), 50);
    assert_eq!(result[0].currency(), &Currency::USD);

    Ok(())
}

#[test]
fn ratio_shares_sum_close_to_the_original_amount() -> ValobsResult<()> {
    // Each share rounds independently, so the parts may miss the
    // original amount, but never by more than one minor unit per
    // ratio beyond the first.
    let money = Money::new(100, Currency::USD)?;
    let ratios = [1.0_f64, 1.0, 1.0];
    let total: f64 = ratios.iter().sum();

    let shares: Vec<u64> =
        ratios.iter().map(|r| (money.amount() as f64 * r / total).round() as u64).collect();
    let result = money.with_amounts(&shares)?;

    let sum: u64 = result.iter().map(|m| m.amount()).sum();
    assert_eq!(sum, 99);
    assert!(100 - sum <= (ratios.len() as u64) - 1);

    Ok(())
}

#[test]
fn money_round_trips_through_its_record() -> ValobsResult<()> {
    let money = Money::new(100, Currency::USD)?;

    let record = money.to_record();
    assert_eq!(record.amount, 100);
    assert_eq!(record.currency.as_str(), "USD");

    let back = Money::from_record(&record)?;
    assert_eq!(back, money);

    Ok(())
}

#[test]
fn fails_to_read_a_record_with_an_unknown_currency_code() {
    let record = MoneyRecord { amount: 100, currency: String::from("XXX") };

    let result = Money::from_record(&record);

    assert_eq!(result, Err(ValobsError::UnknownCurrency));
}

#[test]
fn fails_to_read_a_record_with_a_zero_amount() {
    let record = MoneyRecord { amount: 0, currency: String::from("USD") };

    let result = Money::from_record(&record);

    assert_eq!(result, Err(ValobsError::InvalidAmount));
}

#[test]
fn every_failure_carries_its_message() {
    assert_eq!(ValobsError::InvalidAmount.message(), "Amount must be greater than 0");
    assert_eq!(ValobsError::CurrencyMismatch.message(), "Currencies must be the same");
    assert_eq!(
        ValobsError::NegativeResult.message(),
        "Amount must be greater than or equal to the other amount"
    );
    assert_eq!(ValobsError::InvalidScalar.message(), "Scalar must be greater than 0");
    assert_eq!(ValobsError::InvalidPartCount.message(), "Parts must be greater than 0");
    assert_eq!(ValobsError::InvalidRatio.message(), "Ratios must be finite and positive");
    assert_eq!(ValobsError::UnknownCurrency.message(), "Currency code is not recognized");
    assert_eq!(ValobsError::InvalidEmail.message(), "Email address is not valid");
}
