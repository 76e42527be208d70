//! What goes over the wire: the requests sent to the wallet service, its
//! answers, and the answers given to clients.

use crate::models;
use crate::utils;
use vstd::prelude::*;

verus! {

/// Parameters of `verify`.
#[derive(Debug)]
pub struct XmrRpcVerifyParams {
    pub address: String,
    pub data: String,
    pub signature: String,
}

/// Parameters of `create_wallet`, `open_wallet` and `close_wallet`.
#[derive(Debug)]
pub struct XmrRpcWalletParams {
    pub filename: String,
    pub language: String,
}

/// Parameters of `make_multisig`.
#[derive(Debug)]
pub struct XmrRpcMakeParams {
    pub multisig_info: Vec<String>,
    pub threshold: u8,
}

/// Parameters of `finalize_multisig`.
#[derive(Debug)]
pub struct XmrRpcFinalizeParams {
    pub multisig_info: Vec<String>,
}

/// Parameters of `import_multisig_info`.
#[derive(Debug)]
pub struct XmrRpcImportParams {
    pub info: Vec<String>,
}

/// Parameters of `sign_multisig`.
#[derive(Debug)]
pub struct XmrRpcSignMultisigParams {
    pub tx_data_hex: String,
}

/// Parameters of `get_balance`.
#[derive(Debug)]
pub struct XmrRpcBalanceParams {
    pub account_index: u8,
    pub address_indices: Vec<u8>,
    pub all_accounts: bool,
    pub strict: bool,
}

/// A request that names a wallet: create, open or close.
#[derive(Debug)]
pub struct XmrRpcCreateRequest {
    pub jsonrpc: String,
    pub id: String,
    pub method: String,
    pub params: XmrRpcWalletParams,
}

/// A request without parameters.
#[derive(Debug)]
pub struct XmrRpcRequest {
    pub jsonrpc: String,
    pub id: String,
    pub method: String,
}

/// A `get_balance` request.
#[derive(Debug)]
pub struct XmrRpcBalanceRequest {
    pub jsonrpc: String,
    pub id: String,
    pub method: String,
    pub params: XmrRpcBalanceParams,
}

/// A `make_multisig` request.
#[derive(Debug)]
pub struct XmrRpcMakeRequest {
    pub jsonrpc: String,
    pub id: String,
    pub method: String,
    pub params: XmrRpcMakeParams,
}

/// A `finalize_multisig` request.
#[derive(Debug)]
pub struct XmrRpcFinalizeRequest {
    pub jsonrpc: String,
    pub id: String,
    pub method: String,
    pub params: XmrRpcFinalizeParams,
}

/// An `import_multisig_info` request.
#[derive(Debug)]
pub struct XmrRpcImportRequest {
    pub jsonrpc: String,
    pub id: String,
    pub method: String,
    pub params: XmrRpcImportParams,
}

/// A `sign_multisig` request.
#[derive(Debug)]
pub struct XmrRpcSignMultisigRequest {
    pub jsonrpc: String,
    pub id: String,
    pub method: String,
    pub params: XmrRpcSignMultisigParams,
}

/// A `verify` request.
#[derive(Debug)]
pub struct XmrRpcVerifyRequest {
    pub jsonrpc: String,
    pub id: String,
    pub method: String,
    pub params: XmrRpcVerifyParams,
}

/// What the wallet answers to `verify`.
#[derive(Debug)]
pub struct XmrRpcVerifyResult {
    pub good: bool,
}

/// The wallet's answer to `verify`.
#[derive(Debug)]
pub struct XmrRpcVerifyResponse {
    pub result: XmrRpcVerifyResult,
}

/// What the wallet answers to `get_version`.
#[derive(Debug)]
pub struct XmrRpcVersionResult {
    pub version: i32,
}

/// The wallet's answer to `get_version`.
#[derive(Debug)]
pub struct XmrRpcVersionResponse {
    pub result: XmrRpcVersionResult,
}

impl Default for XmrRpcVersionResponse {
    /// The answer that stands for a call that failed: every field empty or
    /// zero.
    fn default() -> (r: Self)
        ensures
            r.result.version == 0,
    {
        XmrRpcVersionResponse {
            result: XmrRpcVersionResult {
                version: 0,
            },
        }
    }
}

/// What the wallet answers to `finalize_multisig`.
#[derive(Debug)]
pub struct XmrRpcFinalizeResult {
    pub address: String,
}

/// The wallet's answer to `finalize_multisig`.
#[derive(Debug)]
pub struct XmrRpcFinalizeResponse {
    pub result: XmrRpcFinalizeResult,
}

impl Default for XmrRpcFinalizeResponse {
    /// The answer that stands for a call that failed: every field empty or
    /// zero.
    fn default() -> (r: Self)
        ensures
            r.result.address@ == Seq::<char>::empty(),
    {
        XmrRpcFinalizeResponse {
            result: XmrRpcFinalizeResult {
                address: utils::empty_string(),
            },
        }
    }
}

/// What the wallet answers to `prepare_multisig`.
#[derive(Debug)]
pub struct XmrRpcPrepareResult {
    pub multisig_info: String,
}

/// The wallet's answer to `prepare_multisig`.
#[derive(Debug)]
pub struct XmrRpcPrepareResponse {
    pub result: XmrRpcPrepareResult,
}

impl Default for XmrRpcPrepareResponse {
    /// The answer that stands for a call that failed: every field empty or
    /// zero.
    fn default() -> (r: Self)
        ensures
            r.result.multisig_info@ == Seq::<char>::empty(),
    {
        XmrRpcPrepareResponse {
            result: XmrRpcPrepareResult {
                multisig_info: utils::empty_string(),
            },
        }
    }
}

/// What the wallet answers to `make_multisig`.
#[derive(Debug)]
pub struct XmrRpcMakeResult {
    pub address: String,
    pub multisig_info: String,
}

/// The wallet's answer to `make_multisig`.
#[derive(Debug)]
pub struct XmrRpcMakeResponse {
    pub result: XmrRpcMakeResult,
}

impl Default for XmrRpcMakeResponse {
    /// The answer that stands for a call that failed: every field empty or
    /// zero.
    fn default() -> (r: Self)
        ensures
            r.result.address@ == Seq::<char>::empty(),
            r.result.multisig_info@ == Seq::<char>::empty(),
    {
        XmrRpcMakeResponse {
            result: XmrRpcMakeResult {
                address: utils::empty_string(),
                multisig_info: utils::empty_string(),
            },
        }
    }
}

/// What the wallet answers to `export_multisig_info`.
#[derive(Debug)]
pub struct XmrRpcExportResult {
    pub info: String,
}

/// The wallet's answer to `export_multisig_info`.
#[derive(Debug)]
pub struct XmrRpcExportResponse {
    pub result: XmrRpcExportResult,
}

impl Default for XmrRpcExportResponse {
    /// The answer that stands for a call that failed: every field empty or
    /// zero.
    fn default() -> (r: Self)
        ensures
            r.result.info@ == Seq::<char>::empty(),
    {
        XmrRpcExportResponse {
            result: XmrRpcExportResult {
                info: utils::empty_string(),
            },
        }
    }
}

/// What the wallet answers to `import_multisig_info`.
#[derive(Debug)]
pub struct XmrRpcImportResult {
    pub n_outputs: u8,
}

/// The wallet's answer to `import_multisig_info`.
#[derive(Debug)]
pub struct XmrRpcImportResponse {
    pub result: XmrRpcImportResult,
}

impl Default for XmrRpcImportResponse {
    /// The answer that stands for a call that failed: every field empty or
    /// zero.
    fn default() -> (r: Self)
        ensures
            r.result.n_outputs == 0,
    {
        XmrRpcImportResponse {
            result: XmrRpcImportResult {
                n_outputs: 0,
            },
        }
    }
}

/// What the wallet answers to `sign_multisig`.
#[derive(Debug)]
pub struct XmrRpcSignMultisigResult {
    pub tx_hash_list: Vec<String>,
}

/// The wallet's answer to `sign_multisig`.
#[derive(Debug)]
pub struct XmrRpcSignMultisigResponse {
    pub result: XmrRpcSignMultisigResult,
}

impl Default for XmrRpcSignMultisigResponse {
    /// The answer that stands for a call that failed: every field empty or
    /// zero.
    fn default() -> (r: Self)
        ensures
            r.result.tx_hash_list@.len() == 0,
    {
        XmrRpcSignMultisigResponse {
            result: XmrRpcSignMultisigResult {
                tx_hash_list: Vec::new(),
            },
        }
    }
}

/// Balance of one subaddress.
#[derive(Debug)]
pub struct SubAddressInfo {
    pub account_index: u8,
    pub address_index: u8,
    pub address: String,
    pub balance: u128,
    pub unlocked_balance: u128,
    pub label: String,
    pub num_unspent_outputs: u8,
    pub time_to_unlock: u128,
    pub blocks_to_unlock: u128,
}

/// What the wallet answers to `get_balance`.
#[derive(Debug)]
pub struct XmrRpcBalanceResult {
    pub balance: u128,
    pub unlocked_balance: u128,
    pub multisig_import_needed: bool,
    pub time_to_unlock: u128,
    pub blocks_to_unlock: u128,
    pub per_subaddress: Vec<SubAddressInfo>,
}

/// The wallet's answer to `get_balance`.
#[derive(Debug)]
pub struct XmrRpcBalanceResponse {
    pub result: XmrRpcBalanceResult,
}

impl Default for XmrRpcBalanceResponse {
    /// The answer that stands for a call that failed: every field empty or
    /// zero.
    fn default() -> (r: Self)
        ensures
            r.result.balance == 0,
            r.result.unlocked_balance == 0,
            !r.result.multisig_import_needed,
            r.result.time_to_unlock == 0,
            r.result.blocks_to_unlock == 0,
            r.result.per_subaddress@.len() == 0,
    {
        XmrRpcBalanceResponse {
            result: XmrRpcBalanceResult {
                balance: 0,
                unlocked_balance: 0,
                multisig_import_needed: false,
                time_to_unlock: 0,
                blocks_to_unlock: 0,
                per_subaddress: Vec::new(),
            },
        }
    }
}

/// A buyer, as shown to a client.
#[derive(Debug)]
pub struct GetCustomerResponse {
    pub address: String,
    pub name: String,
    pub pgp: String,
}

impl Default for GetCustomerResponse {
    fn default() -> (r: Self)
        ensures
            r.address@ == Seq::<char>::empty(),
            r.name@ == Seq::<char>::empty(),
            r.pgp@ == Seq::<char>::empty(),
    {
        GetCustomerResponse {
            address: utils::empty_string(),
            name: utils::empty_string(),
            pgp: utils::empty_string(),
        }
    }
}

impl GetCustomerResponse {
    /// The answer that shows a record: each field taken over as it is.
    pub open spec fn spec_build(m_customer: models::Customer) -> GetCustomerResponse {
        GetCustomerResponse {
            address: m_customer.xmr_address,
            name: m_customer.name,
            pgp: m_customer.pgp,
        }
    }

    pub fn build(m_customer: models::Customer) -> (r: Self)
        ensures
            r == Self::spec_build(m_customer),
    {
        GetCustomerResponse {
            address: m_customer.xmr_address,
            name: m_customer.name,
            pgp: m_customer.pgp,
        }
    }
}

/// A seller, as shown to a client.
#[derive(Debug)]
pub struct GetVendorResponse {
    pub active: bool,
    pub address: String,
    pub description: String,
    pub name: String,
    pub pgp: String,
}

impl Default for GetVendorResponse {
    fn default() -> (r: Self)
        ensures
            !r.active,
            r.address@ == Seq::<char>::empty(),
            r.description@ == Seq::<char>::empty(),
            r.name@ == Seq::<char>::empty(),
            r.pgp@ == Seq::<char>::empty(),
    {
        GetVendorResponse {
            active: false,
            address: utils::empty_string(),
            description: utils::empty_string(),
            name: utils::empty_string(),
            pgp: utils::empty_string(),
        }
    }
}

impl GetVendorResponse {
    /// The answer that shows a record: each field taken over as it is.
    pub open spec fn spec_build(m_vendor: models::Vendor) -> GetVendorResponse {
        GetVendorResponse {
            active: m_vendor.active,
            address: m_vendor.v_xmr_address,
            description: m_vendor.v_description,
            name: m_vendor.v_name,
            pgp: m_vendor.v_pgp,
        }
    }

    pub fn build(m_vendor: models::Vendor) -> (r: Self)
        ensures
            r == Self::spec_build(m_vendor),
    {
        GetVendorResponse {
            active: m_vendor.active,
            address: m_vendor.v_xmr_address,
            description: m_vendor.v_description,
            name: m_vendor.v_name,
            pgp: m_vendor.v_pgp,
        }
    }
}

/// A product, as shown to a client.
#[derive(Debug)]
pub struct GetProductResponse {
    pub pid: String,
    pub in_stock: bool,
    pub description: String,
    pub name: String,
    pub price: i64,
    pub qty: i64,
}

impl Default for GetProductResponse {
    fn default() -> (r: Self)
        ensures
            r.pid@ == Seq::<char>::empty(),
            !r.in_stock,
            r.description@ == Seq::<char>::empty(),
            r.name@ == Seq::<char>::empty(),
            r.price == 0,
            r.qty == 0,
    {
        GetProductResponse {
            pid: utils::empty_string(),
            in_stock: false,
            description: utils::empty_string(),
            name: utils::empty_string(),
            price: 0,
            qty: 0,
        }
    }
}

impl GetProductResponse {
    /// The answer that shows a record: each field taken over as it is.
    pub open spec fn spec_build(m_product: models::Product) -> GetProductResponse {
        GetProductResponse {
            pid: m_product.pid,
            in_stock: m_product.in_stock,
            description: m_product.p_description,
            name: m_product.p_name,
            price: m_product.p_price,
            qty: m_product.qty,
        }
    }

    pub fn build(m_product: models::Product) -> (r: Self)
        ensures
            r == Self::spec_build(m_product),
    {
        GetProductResponse {
            pid: m_product.pid,
            in_stock: m_product.in_stock,
            description: m_product.p_description,
            name: m_product.p_name,
            price: m_product.p_price,
            qty: m_product.qty,
        }
    }
}

/// A login session, as shown to a client.
#[derive(Debug)]
pub struct GetAuthResponse {
    pub address: String,
    pub aid: String,
    pub created: i64,
    pub cvid: String,
    pub data: String,
    pub token: String,
}

impl Default for GetAuthResponse {
    fn default() -> (r: Self)
        ensures
            r.address@ == Seq::<char>::empty(),
            r.aid@ == Seq::<char>::empty(),
            r.created == 0,
            r.cvid@ == Seq::<char>::empty(),
            r.data@ == Seq::<char>::empty(),
            r.token@ == Seq::<char>::empty(),
    {
        GetAuthResponse {
            address: utils::empty_string(),
            aid: utils::empty_string(),
            created: 0,
            cvid: utils::empty_string(),
            data: utils::empty_string(),
            token: utils::empty_string(),
        }
    }
}

impl GetAuthResponse {
    /// The answer that shows a record: each field taken over as it is.
    pub open spec fn spec_build(m_auth: models::Authorization) -> GetAuthResponse {
        GetAuthResponse {
            address: m_auth.xmr_address,
            aid: m_auth.aid,
            created: m_auth.created,
            cvid: m_auth.cvid,
            data: m_auth.rnd,
            token: m_auth.token,
        }
    }

    pub fn build(m_auth: models::Authorization) -> (r: Self)
        ensures
            r == Self::spec_build(m_auth),
    {
        GetAuthResponse {
            address: m_auth.xmr_address,
            aid: m_auth.aid,
            created: m_auth.created,
            cvid: m_auth.cvid,
            data: m_auth.rnd,
            token: m_auth.token,
        }
    }
}

/// A dispute, as shown to a client.
#[derive(Debug)]
pub struct GetDisputeResponse {
    pub orid: String,
    pub created: i64,
    pub tx_set: String,
}

impl Default for GetDisputeResponse {
    fn default() -> (r: Self)
        ensures
            r.orid@ == Seq::<char>::empty(),
            r.created == 0,
            r.tx_set@ == Seq::<char>::empty(),
    {
        GetDisputeResponse {
            orid: utils::empty_string(),
            created: 0,
            tx_set: utils::empty_string(),
        }
    }
}

impl GetDisputeResponse {
    /// The answer that shows a record: each field taken over as it is.
    pub open spec fn spec_build(m_dispute: models::Dispute) -> GetDisputeResponse {
        GetDisputeResponse {
            orid: m_dispute.orid,
            created: m_dispute.created,
            tx_set: m_dispute.tx_set,
        }
    }

    pub fn build(m_dispute: models::Dispute) -> (r: Self)
        ensures
            r == Self::spec_build(m_dispute),
    {
        GetDisputeResponse {
            orid: m_dispute.orid,
            created: m_dispute.created,
            tx_set: m_dispute.tx_set,
        }
    }
}

/// An order, as shown to a client.
#[derive(Debug)]
pub struct GetOrderResponse {
    pub orid: String,
    pub pid: String,
    pub xmr_address: String,
    pub cust_msig_info: String,
    pub cust_kex_1: String,
    pub cust_kex_2: String,
    pub cust_kex_3: String,
    pub date: i64,
    pub deliver_date: i64,
    pub ship_date: i64,
    pub hash: String,
    pub msig_prepare: String,
    pub msig_make: String,
    pub msig_kex_1: String,
    pub msig_kex_2: String,
    pub msig_kex_3: String,
    pub subaddress: String,
    pub status: String,
    pub quantity: i64,
    pub vend_kex_1: String,
    pub vend_kex_2: String,
    pub vend_kex_3: String,
    pub vend_msig_info: String,
}

impl Default for GetOrderResponse {
    fn default() -> (r: Self)
        ensures
            r.orid@ == Seq::<char>::empty(),
            r.pid@ == Seq::<char>::empty(),
            r.xmr_address@ == Seq::<char>::empty(),
            r.cust_msig_info@ == Seq::<char>::empty(),
            r.cust_kex_1@ == Seq::<char>::empty(),
            r.cust_kex_2@ == Seq::<char>::empty(),
            r.cust_kex_3@ == Seq::<char>::empty(),
            r.date == 0,
            r.deliver_date == 0,
            r.ship_date == 0,
            r.hash@ == Seq::<char>::empty(),
            r.msig_prepare@ == Seq::<char>::empty(),
            r.msig_make@ == Seq::<char>::empty(),
            r.msig_kex_1@ == Seq::<char>::empty(),
            r.msig_kex_2@ == Seq::<char>::empty(),
            r.msig_kex_3@ == Seq::<char>::empty(),
            r.subaddress@ == Seq::<char>::empty(),
            r.status@ == Seq::<char>::empty(),
            r.quantity == 0,
            r.vend_kex_1@ == Seq::<char>::empty(),
            r.vend_kex_2@ == Seq::<char>::empty(),
            r.vend_kex_3@ == Seq::<char>::empty(),
            r.vend_msig_info@ == Seq::<char>::empty(),
    {
        GetOrderResponse {
            orid: utils::empty_string(),
            pid: utils::empty_string(),
            xmr_address: utils::empty_string(),
            cust_msig_info: utils::empty_string(),
            cust_kex_1: utils::empty_string(),
            cust_kex_2: utils::empty_string(),
            cust_kex_3: utils::empty_string(),
            date: 0,
            deliver_date: 0,
            ship_date: 0,
            hash: utils::empty_string(),
            msig_prepare: utils::empty_string(),
            msig_make: utils::empty_string(),
            msig_kex_1: utils::empty_string(),
            msig_kex_2: utils::empty_string(),
            msig_kex_3: utils::empty_string(),
            subaddress: utils::empty_string(),
            status: utils::empty_string(),
            quantity: 0,
            vend_kex_1: utils::empty_string(),
            vend_kex_2: utils::empty_string(),
            vend_kex_3: utils::empty_string(),
            vend_msig_info: utils::empty_string(),
        }
    }
}

impl GetOrderResponse {
    /// The answer that shows a record: each field taken over as it is.
    pub open spec fn spec_build(pid: String, m_order: models::Order) -> GetOrderResponse {
        GetOrderResponse {
            orid: m_order.orid,
            pid,
            xmr_address: m_order.o_xmr_address,
            cust_msig_info: m_order.o_cust_msig_info,
            cust_kex_1: m_order.o_cust_kex_1,
            cust_kex_2: m_order.o_cust_kex_2,
            cust_kex_3: m_order.o_cust_kex_3,
            date: m_order.o_date,
            deliver_date: m_order.o_deliver_date,
            ship_date: m_order.o_ship_date,
            hash: m_order.o_hash,
            msig_prepare: m_order.o_msig_prepare,
            msig_make: m_order.o_msig_make,
            msig_kex_1: m_order.o_msig_kex_1,
            msig_kex_2: m_order.o_msig_kex_2,
            msig_kex_3: m_order.o_msig_kex_3,
            subaddress: m_order.o_subaddress,
            status: m_order.o_status,
            quantity: m_order.o_quantity,
            vend_kex_1: m_order.o_vend_kex_1,
            vend_kex_2: m_order.o_vend_kex_2,
            vend_kex_3: m_order.o_vend_kex_3,
            vend_msig_info: m_order.o_vend_msig_info,
        }
    }

    pub fn build(pid: String, m_order: models::Order) -> (r: Self)
        ensures
            r == Self::spec_build(pid, m_order),
    {
        GetOrderResponse {
            orid: m_order.orid,
            pid,
            xmr_address: m_order.o_xmr_address,
            cust_msig_info: m_order.o_cust_msig_info,
            cust_kex_1: m_order.o_cust_kex_1,
            cust_kex_2: m_order.o_cust_kex_2,
            cust_kex_3: m_order.o_cust_kex_3,
            date: m_order.o_date,
            deliver_date: m_order.o_deliver_date,
            ship_date: m_order.o_ship_date,
            hash: m_order.o_hash,
            msig_prepare: m_order.o_msig_prepare,
            msig_make: m_order.o_msig_make,
            msig_kex_1: m_order.o_msig_kex_1,
            msig_kex_2: m_order.o_msig_kex_2,
            msig_kex_3: m_order.o_msig_kex_3,
            subaddress: m_order.o_subaddress,
            status: m_order.o_status,
            quantity: m_order.o_quantity,
            vend_kex_1: m_order.o_vend_kex_1,
            vend_kex_2: m_order.o_vend_kex_2,
            vend_kex_3: m_order.o_vend_kex_3,
            vend_msig_info: m_order.o_vend_msig_info,
        }
    }
}

/// The products of one seller, as shown to a client.
#[derive(Debug)]
pub struct GetVendorProductsResponse {
    pub products: Vec<GetProductResponse>,
}

impl Default for GetVendorProductsResponse {
    fn default() -> (r: Self)
        ensures
            r.products@.len() == 0,
    {
        GetVendorProductsResponse { products: Vec::new() }
    }
}

impl GetVendorProductsResponse {
    /// One answer for each product, in the order given.
    pub fn build(m_products: Vec<models::Product>) -> (r: Self)
        ensures
            r.products@.len() == m_products@.len(),
            forall|i: int|
                0 <= i < m_products@.len() ==> #[trigger] r.products@[i]
                    == GetProductResponse::spec_build(m_products@[i]),
    {
        let mut v_res: Vec<GetProductResponse> = Vec::new();
        let mut i: usize = 0;
        while i < m_products.len()
            invariant
                i <= m_products@.len(),
                v_res@.len() == i,
                forall|j: int|
                    0 <= j < i ==> #[trigger] v_res@[j] == GetProductResponse::spec_build(
                        m_products@[j],
                    ),
            decreases m_products@.len() - i,
        {
            let p_res: GetProductResponse = GetProductResponse::build(m_products[i].clone());
            v_res.push(p_res);
            i = i + 1;
        }
        GetVendorProductsResponse { products: v_res }
    }
}

/// The orders of one buyer or seller, as shown to a client.
#[derive(Debug)]
pub struct GetOrdersResponse {
    pub orders: Vec<GetOrderResponse>,
}

impl Default for GetOrdersResponse {
    fn default() -> (r: Self)
        ensures
            r.orders@.len() == 0,
    {
        GetOrdersResponse { orders: Vec::new() }
    }
}

impl GetOrdersResponse {
    /// One answer for each order, in the order given, each with the product
    /// that the order names.
    pub fn build(m_orders: Vec<models::Order>) -> (r: Self)
        ensures
            r.orders@.len() == m_orders@.len(),
            forall|i: int|
                0 <= i < m_orders@.len() ==> #[trigger] r.orders@[i]
                    == GetOrderResponse::spec_build(m_orders@[i].p_id, m_orders@[i]),
    {
        let mut v_res: Vec<GetOrderResponse> = Vec::new();
        let mut i: usize = 0;
        while i < m_orders.len()
            invariant
                i <= m_orders@.len(),
                v_res@.len() == i,
                forall|j: int|
                    0 <= j < i ==> #[trigger] v_res@[j] == GetOrderResponse::spec_build(
                        m_orders@[j].p_id,
                        m_orders@[j],
                    ),
            decreases m_orders@.len() - i,
        {
            let m: models::Order = m_orders[i].clone();
            let o_res: GetOrderResponse = GetOrderResponse::build(m.p_id.clone(), m);
            v_res.push(o_res);
            i = i + 1;
        }
        GetOrdersResponse { orders: v_res }
    }
}

} // verus!
