use jumpring::species::{sapience_value, SapienceScale};

#[test]
fn sapience_values_are_ordered() {
    assert_eq!(sapience_value(&SapienceScale::NoSapience), 0);
    assert_eq!(sapience_value(&SapienceScale::Low), 1);
    assert_eq!(sapience_value(&SapienceScale::Medium), 2);
    assert_eq!(sapience_value(&SapienceScale::High), 3);
}

#[test]
fn sapience_labels() {
    assert_eq!(SapienceScale::NoSapience.as_str(), "None");
    assert_eq!(SapienceScale::Low.as_str(), "Low");
    assert_eq!(SapienceScale::Medium.as_str(), "Medium");
    assert_eq!(SapienceScale::High.as_str(), "High");
}
