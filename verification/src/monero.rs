//! The wallet service, as far as it can be spoken of without talking to it:
//! the requests that are sent, and what is made of the answers.
//!
//! Every request is an envelope of protocol version `2.0`, request id `0`, a
//! method name and, for some methods, parameters.

use crate::args::Args;
use crate::reqres::{
    XmrRpcBalanceParams, XmrRpcBalanceRequest, XmrRpcCreateRequest, XmrRpcFinalizeParams,
    XmrRpcFinalizeRequest, XmrRpcImportParams, XmrRpcImportRequest, XmrRpcMakeParams,
    XmrRpcMakeRequest, XmrRpcRequest, XmrRpcSignMultisigParams, XmrRpcSignMultisigRequest,
    XmrRpcVerifyParams, XmrRpcVerifyRequest, XmrRpcVerifyResponse, XmrRpcVersionResponse,
    XmrRpcWalletParams,
};
use crate::utils::ApplicationErrors;
use vstd::prelude::*;
use vstd::string::*;

verus! {

/// User name and credential for the wallet service.
#[derive(Debug)]
pub struct RpcLogin {
    pub username: String,
    pub credential: String,
}

/// The fixed texts of the protocol: the method names, and the two constants
/// of the envelope.
#[derive(Debug, Clone, Copy, PartialEq, Eq, Structural)]
pub enum RpcFields {
    Balance,
    Create,
    Close,
    Export,
    Finalize,
    GetVersion,
    Id,
    Import,
    JsonRpcVersion,
    Make,
    Open,
    Prepare,
    SignMultisig,
    Verify,
}

impl RpcFields {
    /// The text as it goes over the wire.
    pub open spec fn spec_value(self) -> Seq<char> {
        match self {
            RpcFields::Balance => "get_balance"@,
            RpcFields::Create => "create_wallet"@,
            RpcFields::Close => "close_wallet"@,
            RpcFields::Export => "export_multisig_info"@,
            RpcFields::Finalize => "finalize_multisig"@,
            RpcFields::GetVersion => "get_version"@,
            RpcFields::Id => "0"@,
            RpcFields::Import => "import_multisig_info"@,
            RpcFields::JsonRpcVersion => "2.0"@,
            RpcFields::Make => "make_multisig"@,
            RpcFields::Open => "open_wallet"@,
            RpcFields::Prepare => "prepare_multisig"@,
            RpcFields::SignMultisig => "sign_multisig"@,
            RpcFields::Verify => "verify"@,
        }
    }

    pub fn value(&self) -> (r: String)
        ensures
            r@ == self.spec_value(),
    {
        match *self {
            RpcFields::Balance => "get_balance".to_owned(),
            RpcFields::Create => "create_wallet".to_owned(),
            RpcFields::Close => "close_wallet".to_owned(),
            RpcFields::Export => "export_multisig_info".to_owned(),
            RpcFields::Finalize => "finalize_multisig".to_owned(),
            RpcFields::GetVersion => "get_version".to_owned(),
            RpcFields::Id => "0".to_owned(),
            RpcFields::Import => "import_multisig_info".to_owned(),
            RpcFields::JsonRpcVersion => "2.0".to_owned(),
            RpcFields::Make => "make_multisig".to_owned(),
            RpcFields::Open => "open_wallet".to_owned(),
            RpcFields::Prepare => "prepare_multisig".to_owned(),
            RpcFields::SignMultisig => "sign_multisig".to_owned(),
            RpcFields::Verify => "verify".to_owned(),
        }
    }
}

/// The three texts of an envelope are those of a request for `method`.
pub open spec fn is_envelope(
    jsonrpc: Seq<char>,
    id: Seq<char>,
    method: Seq<char>,
    for_method: RpcFields,
) -> bool {
    &&& jsonrpc == RpcFields::JsonRpcVersion.spec_value()
    &&& id == RpcFields::Id.spec_value()
    &&& method == for_method.spec_value()
}

/// Language of the seed words of a wallet.
pub open spec fn wallet_language() -> Seq<char> {
    "English"@
}

/// The address that requests are posted to: the configured host, followed by
/// `/json_rpc`.
pub fn get_rpc_host(args: &Args) -> (r: String)
    ensures
        r@ == args.monero_rpc_host@ + "/json_rpc"@,
{
    args.monero_rpc_host.clone().concat("/json_rpc")
}

/// The configured user name and credential.
pub fn get_rpc_creds(args: &Args) -> (r: RpcLogin)
    ensures
        r.username@ == args.monero_rpc_username@,
        r.credential@ == args.monero_rpc_cred@,
{
    RpcLogin {
        username: args.monero_rpc_username.clone(),
        credential: args.monero_rpc_cred.clone(),
    }
}

/// A request without parameters.
fn plain_request(method: RpcFields) -> (r: XmrRpcRequest)
    ensures
        is_envelope(r.jsonrpc@, r.id@, r.method@, method),
{
    XmrRpcRequest {
        jsonrpc: RpcFields::JsonRpcVersion.value(),
        id: RpcFields::Id.value(),
        method: method.value(),
    }
}

/// A request that names a wallet.
fn wallet_request(method: RpcFields, filename: String) -> (r: XmrRpcCreateRequest)
    ensures
        is_envelope(r.jsonrpc@, r.id@, r.method@, method),
        r.params.filename == filename,
        r.params.language@ == wallet_language(),
{
    XmrRpcCreateRequest {
        jsonrpc: RpcFields::JsonRpcVersion.value(),
        id: RpcFields::Id.value(),
        method: method.value(),
        params: XmrRpcWalletParams { filename, language: "English".to_owned() },
    }
}

/// The request that asks the wallet service for its version.
pub fn get_version_request() -> (r: XmrRpcRequest)
    ensures
        is_envelope(r.jsonrpc@, r.id@, r.method@, RpcFields::GetVersion),
{
    plain_request(RpcFields::GetVersion)
}

/// Tells from its version answer whether the wallet service is there: a
/// version of zero stands for a call that failed.
pub fn check_rpc_connection(res: &XmrRpcVersionResponse) -> (online: bool)
    ensures
        online == (res.result.version != 0),
{
    res.result.version != 0
}

/// The request that asks whether `signature` is the signature of `data` by
/// the wallet at `address`.
pub fn verify_signature_request(address: String, data: String, signature: String) -> (r:
    XmrRpcVerifyRequest)
    ensures
        is_envelope(r.jsonrpc@, r.id@, r.method@, RpcFields::Verify),
        r.params.address == address,
        r.params.data == data,
        r.params.signature == signature,
{
    XmrRpcVerifyRequest {
        jsonrpc: RpcFields::JsonRpcVersion.value(),
        id: RpcFields::Id.value(),
        method: RpcFields::Verify.value(),
        params: XmrRpcVerifyParams { address, data, signature },
    }
}

/// What a signature check comes to: the address that signed, when the wallet
/// service answered and found the signature good; the login error marker
/// when it found it bad, or did not answer.
pub open spec fn spec_verify_signature(
    address: Seq<char>,
    reply: Option<XmrRpcVerifyResponse>,
) -> Seq<char> {
    match reply {
        Some(res) => if res.result.good {
            address
        } else {
            ApplicationErrors::LoginError.spec_value()
        },
        None => ApplicationErrors::LoginError.spec_value(),
    }
}

/// Settles a signature check from the answer to its request, `None` standing
/// for a call that failed.
pub fn verify_signature(address: String, reply: Option<XmrRpcVerifyResponse>) -> (r: String)
    ensures
        r@ == spec_verify_signature(address@, reply),
{
    match reply {
        Some(res) => {
            if res.result.good {
                address
            } else {
                ApplicationErrors::LoginError.value()
            }
        },
        None => ApplicationErrors::LoginError.value(),
    }
}

/// The request that creates the wallet of an order.
pub fn create_wallet_request(filename: String) -> (r: XmrRpcCreateRequest)
    ensures
        is_envelope(r.jsonrpc@, r.id@, r.method@, RpcFields::Create),
        r.params.filename == filename,
        r.params.language@ == wallet_language(),
{
    wallet_request(RpcFields::Create, filename)
}

/// The request that opens the wallet of an order.
pub fn open_wallet_request(filename: String) -> (r: XmrRpcCreateRequest)
    ensures
        is_envelope(r.jsonrpc@, r.id@, r.method@, RpcFields::Open),
        r.params.filename == filename,
        r.params.language@ == wallet_language(),
{
    wallet_request(RpcFields::Open, filename)
}

/// The request that closes the wallet of an order.
pub fn close_wallet_request(filename: String) -> (r: XmrRpcCreateRequest)
    ensures
        is_envelope(r.jsonrpc@, r.id@, r.method@, RpcFields::Close),
        r.params.filename == filename,
        r.params.language@ == wallet_language(),
{
    wallet_request(RpcFields::Close, filename)
}

/// The request that asks for the balance of the open wallet: of its first
/// account and first address only.
pub fn get_balance_request() -> (r: XmrRpcBalanceRequest)
    ensures
        is_envelope(r.jsonrpc@, r.id@, r.method@, RpcFields::Balance),
        r.params.account_index == 0,
        r.params.address_indices@ == seq![0u8],
        !r.params.all_accounts,
        !r.params.strict,
{
    let mut address_indices: Vec<u8> = Vec::new();
    address_indices.push(0);
    XmrRpcBalanceRequest {
        jsonrpc: RpcFields::JsonRpcVersion.value(),
        id: RpcFields::Id.value(),
        method: RpcFields::Balance.value(),
        params: XmrRpcBalanceParams {
            account_index: 0,
            address_indices,
            all_accounts: false,
            strict: false,
        },
    }
}

/// The request that asks the open wallet for its handshake seed.
pub fn prepare_wallet_request() -> (r: XmrRpcRequest)
    ensures
        is_envelope(r.jsonrpc@, r.id@, r.method@, RpcFields::Prepare),
{
    plain_request(RpcFields::Prepare)
}

/// The request that makes the open wallet multisignature, from the other
/// signers' seeds and the number of signers needed to spend.
pub fn make_wallet_request(info: Vec<String>, threshold: u8) -> (r: XmrRpcMakeRequest)
    ensures
        is_envelope(r.jsonrpc@, r.id@, r.method@, RpcFields::Make),
        r.params.multisig_info == info,
        r.params.threshold == threshold,
{
    XmrRpcMakeRequest {
        jsonrpc: RpcFields::JsonRpcVersion.value(),
        id: RpcFields::Id.value(),
        method: RpcFields::Make.value(),
        params: XmrRpcMakeParams { multisig_info: info, threshold },
    }
}

/// The request that finalizes the open wallet from the other signers' key
/// exchange material.
pub fn finalize_wallet_request(info: Vec<String>) -> (r: XmrRpcFinalizeRequest)
    ensures
        is_envelope(r.jsonrpc@, r.id@, r.method@, RpcFields::Finalize),
        r.params.multisig_info == info,
{
    XmrRpcFinalizeRequest {
        jsonrpc: RpcFields::JsonRpcVersion.value(),
        id: RpcFields::Id.value(),
        method: RpcFields::Finalize.value(),
        params: XmrRpcFinalizeParams { multisig_info: info },
    }
}

/// The request that asks the open wallet for its key images.
pub fn export_multisig_info_request() -> (r: XmrRpcRequest)
    ensures
        is_envelope(r.jsonrpc@, r.id@, r.method@, RpcFields::Export),
{
    plain_request(RpcFields::Export)
}

/// The request that hands the open wallet the other signers' key images.
pub fn import_multisig_info_request(info: Vec<String>) -> (r: XmrRpcImportRequest)
    ensures
        is_envelope(r.jsonrpc@, r.id@, r.method@, RpcFields::Import),
        r.params.info == info,
{
    XmrRpcImportRequest {
        jsonrpc: RpcFields::JsonRpcVersion.value(),
        id: RpcFields::Id.value(),
        method: RpcFields::Import.value(),
        params: XmrRpcImportParams { info },
    }
}

/// The request that has the open wallet sign a transaction set.
pub fn sign_multisig_request(tx_data_hex: String) -> (r: XmrRpcSignMultisigRequest)
    ensures
        is_envelope(r.jsonrpc@, r.id@, r.method@, RpcFields::SignMultisig),
        r.params.tx_data_hex == tx_data_hex,
{
    XmrRpcSignMultisigRequest {
        jsonrpc: RpcFields::JsonRpcVersion.value(),
        id: RpcFields::Id.value(),
        method: RpcFields::SignMultisig.value(),
        params: XmrRpcSignMultisigParams { tx_data_hex },
    }
}

} // verus!
