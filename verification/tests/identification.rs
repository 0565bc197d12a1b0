use dlocal_connector::identification::get_doc_from_currency;

fn document_for(country: &str) -> String {
    get_doc_from_currency(country.to_string()).peek().clone()
}

#[test]
fn brazil_has_its_own_document() {
    assert_eq!(document_for("BR"), "91483309223");
}

#[test]
fn unknown_country_gets_the_default_document() {
    assert_eq!(document_for("XX"), "12345678");
}

#[test]
fn every_listed_country_has_its_document() {
    let table = [
        ("BR", "91483309223"),
        ("ZA", "2001014800086"),
        ("BD", "1234567890001"),
        ("GT", "1234567890001"),
        ("HN", "1234567890001"),
        ("PK", "1234567890001"),
        ("SN", "1234567890001"),
        ("TH", "1234567890001"),
        ("CR", "123456789"),
        ("SV", "123456789"),
        ("VN", "123456789"),
        ("DO", "12345678901"),
        ("NG", "12345678901"),
        ("EG", "12345678901112"),
        ("GH", "1234567890111123"),
        ("ID", "1234567890111123"),
        ("RW", "1234567890111123"),
        ("UG", "1234567890111123"),
        ("IN", "NHSTP6374G"),
        ("CI", "CA124356789"),
        ("JP", "123456789012"),
        ("MY", "123456789012"),
        ("PH", "123456789012"),
        ("NI", "1234567890111A"),
        ("TZ", "12345678912345678900"),
    ];
    for (country, document) in table {
        assert_eq!(document_for(country), document, "country {}", country);
    }
}

#[test]
fn countries_off_the_list_get_the_default_document() {
    for country in ["US", "AR", "MX", "CL", "CO", "PE", "UY", "DE", "RB", "AZ"] {
        assert_eq!(document_for(country), "12345678", "country {}", country);
    }
}

#[test]
fn codes_are_matched_letter_for_letter() {
    assert_eq!(document_for("br"), "12345678");
    assert_eq!(document_for("Br"), "12345678");
    assert_eq!(document_for("BRA"), "12345678");
    assert_eq!(document_for(" BR"), "12345678");
    assert_eq!(document_for("B"), "12345678");
    assert_eq!(document_for(""), "12345678");
    assert_eq!(document_for("ÉG"), "12345678");
}
