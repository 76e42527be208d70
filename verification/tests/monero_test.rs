use mpi2p::args::Args;
use mpi2p::monero::{
    check_rpc_connection, close_wallet_request, create_wallet_request,
    export_multisig_info_request, finalize_wallet_request, get_balance_request, get_rpc_creds,
    get_rpc_host, get_version_request, import_multisig_info_request, make_wallet_request,
    open_wallet_request, prepare_wallet_request, sign_multisig_request, verify_signature,
    verify_signature_request, RpcFields,
};
use mpi2p::reqres::{
    XmrRpcVerifyResponse, XmrRpcVerifyResult, XmrRpcVersionResponse, XmrRpcVersionResult,
};

fn info() -> Vec<String> {
    vec![String::from("vinfo1"), String::from("cinfo1")]
}

#[test]
fn rpc_fields_values() {
    assert_eq!(RpcFields::Balance.value(), "get_balance");
    assert_eq!(RpcFields::Create.value(), "create_wallet");
    assert_eq!(RpcFields::Close.value(), "close_wallet");
    assert_eq!(RpcFields::Export.value(), "export_multisig_info");
    assert_eq!(RpcFields::Finalize.value(), "finalize_multisig");
    assert_eq!(RpcFields::GetVersion.value(), "get_version");
    assert_eq!(RpcFields::Id.value(), "0");
    assert_eq!(RpcFields::Import.value(), "import_multisig_info");
    assert_eq!(RpcFields::JsonRpcVersion.value(), "2.0");
    assert_eq!(RpcFields::Make.value(), "make_multisig");
    assert_eq!(RpcFields::Open.value(), "open_wallet");
    assert_eq!(RpcFields::Prepare.value(), "prepare_multisig");
    assert_eq!(RpcFields::SignMultisig.value(), "sign_multisig");
    assert_eq!(RpcFields::Verify.value(), "verify");
}

#[test]
fn host_and_credentials_come_from_the_configuration() {
    let args = Args::default();
    assert_eq!(get_rpc_host(&args), "http://localhost:38083/json_rpc");
    let login = get_rpc_creds(&args);
    assert_eq!(login.username, "user");
    assert_eq!(login.credential, "pass");
}

#[test]
fn requests_without_parameters() {
    for (r, method) in [
        (get_version_request(), "get_version"),
        (prepare_wallet_request(), "prepare_multisig"),
        (export_multisig_info_request(), "export_multisig_info"),
    ] {
        assert_eq!(r.jsonrpc, "2.0");
        assert_eq!(r.id, "0");
        assert_eq!(r.method, method);
    }
}

#[test]
fn wallet_requests_name_the_wallet() {
    for (r, method) in [
        (create_wallet_request(String::from("O1")), "create_wallet"),
        (open_wallet_request(String::from("O1")), "open_wallet"),
        (close_wallet_request(String::from("O1")), "close_wallet"),
    ] {
        assert_eq!(r.jsonrpc, "2.0");
        assert_eq!(r.id, "0");
        assert_eq!(r.method, method);
        assert_eq!(r.params.filename, "O1");
        assert_eq!(r.params.language, "English");
    }
}

#[test]
fn multisig_requests_carry_their_material() {
    let r = make_wallet_request(info(), 2);
    assert_eq!((r.jsonrpc.as_str(), r.id.as_str(), r.method.as_str()), ("2.0", "0", "make_multisig"));
    assert_eq!(r.params.multisig_info, info());
    assert_eq!(r.params.threshold, 2);
    let r = finalize_wallet_request(info());
    assert_eq!((r.jsonrpc.as_str(), r.id.as_str(), r.method.as_str()), ("2.0", "0", "finalize_multisig"));
    assert_eq!(r.params.multisig_info, info());
    let r = import_multisig_info_request(info());
    assert_eq!((r.jsonrpc.as_str(), r.id.as_str(), r.method.as_str()), ("2.0", "0", "import_multisig_info"));
    assert_eq!(r.params.info, info());
    let r = sign_multisig_request(String::from("beef"));
    assert_eq!((r.jsonrpc.as_str(), r.id.as_str(), r.method.as_str()), ("2.0", "0", "sign_multisig"));
    assert_eq!(r.params.tx_data_hex, "beef");
}

#[test]
fn balance_request_asks_for_the_first_address() {
    let r = get_balance_request();
    assert_eq!((r.jsonrpc.as_str(), r.id.as_str(), r.method.as_str()), ("2.0", "0", "get_balance"));
    assert_eq!(r.params.account_index, 0);
    assert_eq!(r.params.address_indices, vec![0]);
    assert!(!r.params.all_accounts);
    assert!(!r.params.strict);
}

#[test]
fn verify_request_carries_address_data_signature() {
    let r = verify_signature_request(String::from("5addr"), String::from("data"), String::from("sig"));
    assert_eq!((r.jsonrpc.as_str(), r.id.as_str(), r.method.as_str()), ("2.0", "0", "verify"));
    assert_eq!(r.params.address, "5addr");
    assert_eq!(r.params.data, "data");
    assert_eq!(r.params.signature, "sig");
}

#[test]
fn signature_check_names_the_address_or_the_login_error() {
    let good = XmrRpcVerifyResponse { result: XmrRpcVerifyResult { good: true } };
    let bad = XmrRpcVerifyResponse { result: XmrRpcVerifyResult { good: false } };
    assert_eq!(verify_signature(String::from("5addr"), Some(good)), "5addr");
    assert_eq!(verify_signature(String::from("5addr"), Some(bad)), "LoginError");
    assert_eq!(verify_signature(String::from("5addr"), None), "LoginError");
}

#[test]
fn version_zero_means_no_connection() {
    assert!(!check_rpc_connection(&XmrRpcVersionResponse::default()));
    let v = XmrRpcVersionResponse { result: XmrRpcVersionResult { version: 65562 } };
    assert!(check_rpc_connection(&v));
}
