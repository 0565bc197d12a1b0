//! The identification document that stands in for the customer's own.
//!
//! The processor wants a document number with every payment and checks its
//! format by country. The switch does not collect one yet, so each payment
//! carries a fixed number that passes the check for the billing country. The
//! numbers are placeholders, to go once the customer's document is collected.

use vstd::prelude::*;
use crate::pii::Secret;

verus! {

/// The placeholder document for a two-letter country code.
pub open spec fn fallback_document(country: Seq<char>) -> Seq<char> {
    if country == "BR"@ {
        "91483309223"@
    } else if country == "ZA"@ {
        "2001014800086"@
    } else if country == "BD"@ || country == "GT"@ || country == "HN"@ || country == "PK"@
        || country == "SN"@ || country == "TH"@ {
        "1234567890001"@
    } else if country == "CR"@ || country == "SV"@ || country == "VN"@ {
        "123456789"@
    } else if country == "DO"@ || country == "NG"@ {
        "12345678901"@
    } else if country == "EG"@ {
        "12345678901112"@
    } else if country == "GH"@ || country == "ID"@ || country == "RW"@ || country == "UG"@ {
        "1234567890111123"@
    } else if country == "IN"@ {
        "NHSTP6374G"@
    } else if country == "CI"@ {
        "CA124356789"@
    } else if country == "JP"@ || country == "MY"@ || country == "PH"@ {
        "123456789012"@
    } else if country == "NI"@ {
        "1234567890111A"@
    } else if country == "TZ"@ {
        "12345678912345678900"@
    } else {
        "12345678"@
    }
}

proof fn lemma_same_letters(country: Seq<char>, code: Seq<char>)
    requires
        code.len() == 2,
    ensures
        country == code <==> country.len() == 2 && country[0] == code[0] && country[1] == code[1],
{
    if country.len() == 2 && country[0] == code[0] && country[1] == code[1] {
        assert(country =~= code);
    }
}

proof fn lemma_codes(country: Seq<char>)
    ensures
        country.len() != 2 ==> fallback_document(country) == "12345678"@,
        country.len() == 2 ==> fallback_document(country) == fallback_by_letters(
            country[0],
            country[1],
        ),
{
    reveal_strlit("BR");
    reveal_strlit("ZA");
    reveal_strlit("BD");
    reveal_strlit("GT");
    reveal_strlit("HN");
    reveal_strlit("PK");
    reveal_strlit("SN");
    reveal_strlit("TH");
    reveal_strlit("CR");
    reveal_strlit("SV");
    reveal_strlit("VN");
    reveal_strlit("DO");
    reveal_strlit("NG");
    reveal_strlit("EG");
    reveal_strlit("GH");
    reveal_strlit("ID");
    reveal_strlit("RW");
    reveal_strlit("UG");
    reveal_strlit("IN");
    reveal_strlit("CI");
    reveal_strlit("JP");
    reveal_strlit("MY");
    reveal_strlit("PH");
    reveal_strlit("NI");
    reveal_strlit("TZ");
    lemma_same_letters(country, "BR"@);
    lemma_same_letters(country, "ZA"@);
    lemma_same_letters(country, "BD"@);
    lemma_same_letters(country, "GT"@);
    lemma_same_letters(country, "HN"@);
    lemma_same_letters(country, "PK"@);
    lemma_same_letters(country, "SN"@);
    lemma_same_letters(country, "TH"@);
    lemma_same_letters(country, "CR"@);
    lemma_same_letters(country, "SV"@);
    lemma_same_letters(country, "VN"@);
    lemma_same_letters(country, "DO"@);
    lemma_same_letters(country, "NG"@);
    lemma_same_letters(country, "EG"@);
    lemma_same_letters(country, "GH"@);
    lemma_same_letters(country, "ID"@);
    lemma_same_letters(country, "RW"@);
    lemma_same_letters(country, "UG"@);
    lemma_same_letters(country, "IN"@);
    lemma_same_letters(country, "CI"@);
    lemma_same_letters(country, "JP"@);
    lemma_same_letters(country, "MY"@);
    lemma_same_letters(country, "PH"@);
    lemma_same_letters(country, "NI"@);
    lemma_same_letters(country, "TZ"@);
}

/// The table by the two letters of the code.
spec fn fallback_by_letters(first: char, second: char) -> Seq<char> {
    match (first, second) {
        ('B', 'R') => "91483309223"@,
        ('Z', 'A') => "2001014800086"@,
        ('B', 'D') | ('G', 'T') | ('H', 'N') | ('P', 'K') | ('S', 'N') | ('T', 'H') => {
            "1234567890001"@
        },
        ('C', 'R') | ('S', 'V') | ('V', 'N') => "123456789"@,
        ('D', 'O') | ('N', 'G') => "12345678901"@,
        ('E', 'G') => "12345678901112"@,
        ('G', 'H') | ('I', 'D') | ('R', 'W') | ('U', 'G') => "1234567890111123"@,
        ('I', 'N') => "NHSTP6374G"@,
        ('C', 'I') => "CA124356789"@,
        ('J', 'P') | ('M', 'Y') | ('P', 'H') => "123456789012"@,
        ('N', 'I') => "1234567890111A"@,
        ('T', 'Z') => "12345678912345678900"@,
        _ => "12345678"@,
    }
}

/// Looks up the placeholder document for a country code.
pub fn get_doc_from_currency(country: String) -> (document: Secret)
    ensures
        document@ == fallback_document(country@),
{
    let code = country.as_str();
    proof {
        lemma_codes(code@);
    }
    let doc = if code.unicode_len() != 2 {
        "12345678"
    } else {
        match (code.get_char(0), code.get_char(1)) {
            ('B', 'R') => "91483309223",
            ('Z', 'A') => "2001014800086",
            ('B', 'D') | ('G', 'T') | ('H', 'N') | ('P', 'K') | ('S', 'N') | ('T', 'H') => {
                "1234567890001"
            },
            ('C', 'R') | ('S', 'V') | ('V', 'N') => "123456789",
            ('D', 'O') | ('N', 'G') => "12345678901",
            ('E', 'G') => "12345678901112",
            ('G', 'H') | ('I', 'D') | ('R', 'W') | ('U', 'G') => "1234567890111123",
            ('I', 'N') => "NHSTP6374G",
            ('C', 'I') => "CA124356789",
            ('J', 'P') | ('M', 'Y') | ('P', 'H') => "123456789012",
            ('N', 'I') => "1234567890111A",
            ('T', 'Z') => "12345678912345678900",
            _ => "12345678",
        }
    };
    Secret::new(doc.to_owned())
}

} // verus!
