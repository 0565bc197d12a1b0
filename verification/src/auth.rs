//! The credential with which requests to the processor are signed.

use vstd::prelude::*;
use crate::errors::{ConnectorError, ConnectorErrorView};
use crate::pii::Secret;
use crate::router_data::ConnectorAuthType;
use crate::views::result_view;

verus! {

/// The three parts of a merchant's credential at the processor.
pub struct DlocalAuthType {
    pub x_login: Secret,
    pub x_trans_key: Secret,
    pub secret: Secret,
}

/// A [`DlocalAuthType`] with its texts as sequences of characters.
pub struct DlocalAuthTypeView {
    pub x_login: Seq<char>,
    pub x_trans_key: Seq<char>,
    pub secret: Seq<char>,
}

impl View for DlocalAuthType {
    type V = DlocalAuthTypeView;

    open spec fn view(&self) -> DlocalAuthTypeView {
        DlocalAuthTypeView {
            x_login: self.x_login@,
            x_trans_key: self.x_trans_key@,
            secret: self.secret@,
        }
    }
}

/// The processor's credential in a stored one: a signature key gives its API
/// key as the login, its first key as the transaction key and its API secret
/// as the secret. No other shape of credential holds one.
pub open spec fn dlocal_auth(auth_type: ConnectorAuthType) -> Result<
    DlocalAuthTypeView,
    ConnectorErrorView,
> {
    match auth_type {
        ConnectorAuthType::SignatureKey { api_key, key1, api_secret } => Ok(
            DlocalAuthTypeView { x_login: api_key@, x_trans_key: key1@, secret: api_secret@ },
        ),
        _ => Err(ConnectorErrorView::FailedToObtainAuthType),
    }
}

impl DlocalAuthType {
    /// Reads the processor's credential out of a stored one.
    pub fn try_from(auth_type: &ConnectorAuthType) -> (read: Result<Self, ConnectorError>)
        ensures
            result_view(read) == dlocal_auth(*auth_type),
    {
        if let ConnectorAuthType::SignatureKey { api_key, key1, api_secret } = auth_type {
            Ok(
                DlocalAuthType {
                    x_login: api_key.clone(),
                    x_trans_key: key1.clone(),
                    secret: api_secret.clone(),
                },
            )
        } else {
            Err(ConnectorError::FailedToObtainAuthType)
        }
    }
}

/// A credential is read exactly from a signature key; every other shape of
/// credential fails in the same way.
pub proof fn only_signature_keys_are_read(auth_type: ConnectorAuthType)
    ensures
        dlocal_auth(auth_type) is Ok <==> auth_type is SignatureKey,
        !(auth_type is SignatureKey) ==> dlocal_auth(auth_type) == Err::<
            DlocalAuthTypeView,
            ConnectorErrorView,
        >(ConnectorErrorView::FailedToObtainAuthType),
        auth_type matches ConnectorAuthType::SignatureKey { api_key, key1, api_secret }
            ==> dlocal_auth(auth_type) == Ok::<DlocalAuthTypeView, ConnectorErrorView>(
            DlocalAuthTypeView { x_login: api_key@, x_trans_key: key1@, secret: api_secret@ },
        ),
{
}

} // verus!
