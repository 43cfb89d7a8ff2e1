use valobs::financial::{Currency, Money};
use valobs::result::ValobsResult;
use valobs::traits::ValobsValidate;

#[test]
fn every_currency_round_trips_through_its_code() {
    let all = [
        Currency::AUD,
        Currency::CAD,
        Currency::CHF,
        Currency::CNY,
        Currency::DKK,
        Currency::EUR,
        Currency::GBP,
        Currency::JPY,
        Currency::NOK,
        Currency::NZD,
        Currency::SEK,
        Currency::USD,
    ];
    for currency in all {
        assert_eq!(Currency::from_code(currency.code()), Some(currency));
    }
}

#[test]
fn currency_codes_are_the_iso_letters() {
    assert_eq!(Currency::USD.code(), "USD");
    assert_eq!(Currency::EUR.code(), "EUR");
    assert_eq!(Currency::JPY.code(), "JPY");
}

#[test]
fn unknown_or_misshapen_codes_are_rejected() {
    assert_eq!(Currency::from_code("XXX"), None);
    assert_eq!(Currency::from_code("usd"), None);
    assert_eq!(Currency::from_code("US"), None);
    assert_eq!(Currency::from_code("USDX"), None);
    assert_eq!(Currency::from_code(""), None);
}

#[test]
fn money_validates_through_the_value_object_contract() -> ValobsResult<()> {
    let money = Money::validate((100, Currency::USD))?;

    assert_eq!(money.amount(), 100);
    assert_eq!(money.currency(), &Currency::USD);
    assert!(Money::validate((0, Currency::USD)).is_err());

    Ok(())
}
