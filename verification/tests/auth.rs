use dlocal_connector::auth::DlocalAuthType;
use dlocal_connector::enums::Currency;
use dlocal_connector::errors::ConnectorError;
use dlocal_connector::pii::Secret;
use dlocal_connector::router_data::ConnectorAuthType;

fn secret_of(text: &str) -> Secret {
    Secret::new(text.to_string())
}

#[test]
fn a_signature_key_gives_login_transaction_key_and_secret() {
    let stored = ConnectorAuthType::SignatureKey {
        api_key: secret_of("L"),
        key1: secret_of("K"),
        api_secret: secret_of("S"),
    };
    let read = DlocalAuthType::try_from(&stored);
    match read {
        Ok(auth) => {
            assert_eq!(auth.x_login.peek(), "L");
            assert_eq!(auth.x_trans_key.peek(), "K");
            assert_eq!(auth.secret.peek(), "S");
        }
        Err(error) => panic!("no credential was read: {:?}", error),
    }
}

#[test]
fn the_three_parts_are_not_mixed_up() {
    let stored = ConnectorAuthType::SignatureKey {
        api_key: secret_of("login-1"),
        key1: secret_of("trans-key-2"),
        api_secret: secret_of("secret-3"),
    };
    let auth = DlocalAuthType::try_from(&stored).ok().expect("a credential");
    assert_eq!(auth.x_login.peek(), "login-1");
    assert_eq!(auth.x_trans_key.peek(), "trans-key-2");
    assert_eq!(auth.secret.peek(), "secret-3");
}

#[test]
fn every_other_credential_fails() {
    let others = vec![
        ConnectorAuthType::TemporaryAuth,
        ConnectorAuthType::HeaderKey { api_key: secret_of("L") },
        ConnectorAuthType::BodyKey { api_key: secret_of("L"), key1: secret_of("K") },
        ConnectorAuthType::MultiAuthKey {
            api_key: secret_of("L"),
            key1: secret_of("K"),
            api_secret: secret_of("S"),
            key2: secret_of("T"),
        },
        ConnectorAuthType::CurrencyAuthKey {
            auth_key_map: vec![(Currency::new("BRL".to_string()), secret_of("L"))],
        },
        ConnectorAuthType::CertificateAuth {
            certificate: secret_of("C"),
            private_key: secret_of("P"),
        },
        ConnectorAuthType::NoKey,
    ];
    for stored in others {
        match DlocalAuthType::try_from(&stored) {
            Err(error) => assert_eq!(error, ConnectorError::FailedToObtainAuthType),
            Ok(_) => panic!("a credential was read"),
        }
    }
}
