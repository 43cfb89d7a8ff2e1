use valobs::geography::{Address, Continent, Country};

#[test]
fn create_address_with_valid_data() {
    let address = Address {
        street: "123 Main St",
        city: "Anytown",
        state: "NY",
        postal_code: "12345",
        country: Country::USA,
    };

    assert_eq!(address.street, "123 Main St");
    assert_eq!(address.city, "Anytown");
    assert_eq!(address.state, "NY");
    assert_eq!(address.postal_code, "12345");
    assert_eq!(address.country, Country::USA);
}

#[test]
fn create_address_with_invalid_data() {
    let address = Address {
        street: "123 Main St",
        city: "Anytown",
        state: "NY",
        postal_code: "12345",
        country: Country::USA,
    };

    assert_ne!(address.street, "123 Main St ");
    assert_ne!(address.city, "Anytown ");
    assert_ne!(address.state, "NY ");
    assert_ne!(address.postal_code, "12345 ");
    assert_ne!(address.country, Country::CAN);
}

#[test]
fn address_equality() {
    let address1 = Address {
        street: "123 Main St",
        city: "Anytown",
        state: "NY",
        postal_code: "12345",
        country: Country::USA,
    };
    let address2 = Address {
        street: "123 Main St",
        city: "Anytown",
        state: "NY",
        postal_code: "12345",
        country: Country::USA,
    };

    assert_eq!(address1, address2);
}

#[test]
fn address_inequality() {
    let address1 = Address {
        street: "123 Main St",
        city: "Anytown",
        state: "NY",
        postal_code: "12345",
        country: Country::USA,
    };
    let address2 = Address {
        street: "123 Main St",
        city: "Anytown",
        state: "NY",
        postal_code: "12345",
        country: Country::CAN,
    };

    assert_ne!(address1, address2);
}

#[test]
fn create_continent_with_valid_data() {
    assert_eq!(Continent::Africa, Continent::Africa);
    assert_eq!(Continent::Antarctica, Continent::Antarctica);
    assert_eq!(Continent::Asia, Continent::Asia);
    assert_eq!(Continent::Europe, Continent::Europe);
    assert_eq!(Continent::NorthAmerica, Continent::NorthAmerica);
    assert_eq!(Continent::Oceania, Continent::Oceania);
    assert_eq!(Continent::SouthAmerica, Continent::SouthAmerica);
}

#[test]
fn create_continent_with_invalid_data() {
    assert_ne!(Continent::Africa, Continent::Antarctica);
    assert_ne!(Continent::Africa, Continent::Asia);
    assert_ne!(Continent::Africa, Continent::Europe);
    assert_ne!(Continent::Africa, Continent::NorthAmerica);
    assert_ne!(Continent::Africa, Continent::Oceania);
    assert_ne!(Continent::Africa, Continent::SouthAmerica);
}

#[test]
fn continent_equality() {
    assert_eq!(Continent::Africa, Continent::Africa);
    assert_ne!(Continent::Africa, Continent::Antarctica);
    assert_ne!(Continent::Africa, Continent::Asia);
    assert_ne!(Continent::Africa, Continent::Europe);
    assert_ne!(Continent::Africa, Continent::NorthAmerica);
    assert_ne!(Continent::Africa, Continent::Oceania);
    assert_ne!(Continent::Africa, Continent::SouthAmerica);
}

#[test]
fn continent_inequality() {
    assert_ne!(Continent::Africa, Continent::Antarctica);
    assert_ne!(Continent::Africa, Continent::Asia);
    assert_ne!(Continent::Africa, Continent::Europe);
    assert_ne!(Continent::Africa, Continent::NorthAmerica);
    assert_ne!(Continent::Africa, Continent::Oceania);
    assert_ne!(Continent::Africa, Continent::SouthAmerica);
}

#[test]
fn create_country_with_valid_data() {
    assert_eq!(Country::USA, Country::USA);
}

#[test]
fn equality_between_two_country_values() {
    // Arrange
    let country1 = Country::USA;
    let country2 = Country::USA;

    // Act
    let result = country1 == country2;

    // Assert
    assert!(result);
}

#[test]
fn inequality_between_two_country_values() {
    // Arrange
    let country1 = Country::USA;
    let country2 = Country::CAN;

    // Act
    let result = country1 == country2;

    // Assert
    assert!(!result);
}
