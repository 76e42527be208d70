//! The order state machine: which field a request may write, what the write
//! does to the order, and whether it completes the inputs of a multisignature
//! round.
//!
//! Nothing here touches storage or the wallet service. The caller looks up the
//! order and the product, calls [`modify`], stores the order it gets back and,
//! where the verdict names a round, runs that round.

use crate::decimal::{parse_i64_or_zero, spec_parse_i64_or_zero};
use crate::models::{Order, OrderView, Product, ProductView};
use crate::utils::{generate_rnd, is_hex_text, unix_time, LoginType};
use vstd::prelude::*;
use vstd::string::*;

verus! {

/// Lifecycle status of an order. An order starts as `MultisigMissing` and only
/// ever moves forward: `MultisigComplete`, then `Shipped`, then `Delivered`.
#[derive(Debug, Clone, Copy, PartialEq, Eq, Structural)]
pub enum StatusType {
    Delivered,
    MultisigMissing,
    MultisigComplete,
    Shipped,
}

impl StatusType {
    /// The name under which the status is stored.
    pub open spec fn spec_value(self) -> Seq<char> {
        match self {
            StatusType::Delivered => "Delivered"@,
            StatusType::MultisigMissing => "MultisigMissing"@,
            StatusType::MultisigComplete => "MultisigComplete"@,
            StatusType::Shipped => "Shipped"@,
        }
    }

    /// Position of the status in the lifecycle, from 0 (`MultisigMissing`) to
    /// 3 (`Delivered`).
    pub open spec fn spec_rank(self) -> nat {
        match self {
            StatusType::MultisigMissing => 0,
            StatusType::MultisigComplete => 1,
            StatusType::Shipped => 2,
            StatusType::Delivered => 3,
        }
    }

    pub fn value(&self) -> (r: String)
        ensures
            r@ == self.spec_value(),
    {
        match *self {
            StatusType::Delivered => "Delivered".to_owned(),
            StatusType::MultisigMissing => "MultisigMissing".to_owned(),
            StatusType::MultisigComplete => "MultisigComplete".to_owned(),
            StatusType::Shipped => "Shipped".to_owned(),
        }
    }

    pub fn rank(&self) -> (r: u8)
        ensures
            r == self.spec_rank(),
    {
        match *self {
            StatusType::MultisigMissing => 0,
            StatusType::MultisigComplete => 1,
            StatusType::Shipped => 2,
            StatusType::Delivered => 3,
        }
    }
}

/// Position in the lifecycle of a stored status. A text that names no status
/// ranks with `MultisigMissing`: nothing has happened to such an order yet.
pub open spec fn status_rank(status: Seq<char>) -> nat {
    if status == StatusType::Delivered.spec_value() {
        3
    } else if status == StatusType::Shipped.spec_value() {
        2
    } else if status == StatusType::MultisigComplete.spec_value() {
        1
    } else {
        0
    }
}

/// The status after an event that leads to `target`: `target` where that is a
/// step forward, the current status otherwise.
pub open spec fn advanced_status(current: Seq<char>, target: StatusType) -> Seq<char> {
    if status_rank(current) < target.spec_rank() {
        target.spec_value()
    } else {
        current
    }
}

/// The four status names are distinct, so each ranks as its status does.
pub proof fn lemma_status_rank(t: StatusType)
    ensures
        status_rank(t.spec_value()) == t.spec_rank(),
{
    reveal_strlit("Delivered");
    reveal_strlit("MultisigMissing");
    reveal_strlit("MultisigComplete");
    reveal_strlit("Shipped");
    assert("Delivered"@.len() == 9);
    assert("MultisigMissing"@.len() == 15);
    assert("MultisigComplete"@.len() == 16);
    assert("Shipped"@.len() == 7);
}

/// Rank of a stored status.
pub fn rank_of(status: &String) -> (r: u8)
    ensures
        r == status_rank(status@),
{
    if *status == StatusType::Delivered.value() {
        3
    } else if *status == StatusType::Shipped.value() {
        2
    } else if *status == StatusType::MultisigComplete.value() {
        1
    } else {
        0
    }
}

/// Moves a stored status forward to `target`, or leaves it where it is
/// already at or past it.
pub fn advance_status(current: String, target: StatusType) -> (r: String)
    ensures
        r@ == advanced_status(current@, target),
{
    if rank_of(&current) < target.rank() {
        target.value()
    } else {
        current
    }
}

/// Who asks for an update. The caller establishes this from the authenticated
/// session; it is never derived from an identifier.
#[derive(Debug, Clone, Copy, PartialEq, Eq, Structural)]
pub enum Role {
    Buyer,
    Seller,
}

/// The fields of an order that a request can write.
#[derive(Debug, Clone, Copy, PartialEq, Eq, Structural)]
pub enum UpdateType {
    /// Buyer's key exchange material (second round).
    CustomerKex1,
    /// Buyer's key image material (third round).
    CustomerKex2,
    /// Buyer's spare material.
    CustomerKex3,
    /// Buyer's handshake seed (first round).
    CustomerMultisigInfo,
    /// Delivery date.
    Deliver,
    /// Identifier of the funding transaction.
    Hash,
    /// Shipping date.
    Ship,
    /// Seller's key exchange material (second round).
    VendorKex1,
    /// Seller's key image material (third round).
    VendorKex2,
    /// Seller's spare material.
    VendorKex3,
    /// Seller's handshake seed (first round).
    VendorMultisigInfo,
    /// Units ordered.
    Quantity,
}

impl UpdateType {
    /// The number that selects the field in a request.
    pub open spec fn spec_value(self) -> i32 {
        match self {
            UpdateType::CustomerKex1 => 0,
            UpdateType::CustomerKex2 => 1,
            UpdateType::CustomerKex3 => 2,
            UpdateType::CustomerMultisigInfo => 3,
            UpdateType::Deliver => 4,
            UpdateType::Hash => 5,
            UpdateType::Ship => 6,
            UpdateType::VendorKex1 => 7,
            UpdateType::VendorKex2 => 8,
            UpdateType::VendorKex3 => 9,
            UpdateType::VendorMultisigInfo => 10,
            UpdateType::Quantity => 11,
        }
    }

    /// The field that a number selects, if any.
    pub open spec fn spec_from_value(v: i32) -> Option<UpdateType> {
        if v == 0 {
            Some(UpdateType::CustomerKex1)
        } else if v == 1 {
            Some(UpdateType::CustomerKex2)
        } else if v == 2 {
            Some(UpdateType::CustomerKex3)
        } else if v == 3 {
            Some(UpdateType::CustomerMultisigInfo)
        } else if v == 4 {
            Some(UpdateType::Deliver)
        } else if v == 5 {
            Some(UpdateType::Hash)
        } else if v == 6 {
            Some(UpdateType::Ship)
        } else if v == 7 {
            Some(UpdateType::VendorKex1)
        } else if v == 8 {
            Some(UpdateType::VendorKex2)
        } else if v == 9 {
            Some(UpdateType::VendorKex3)
        } else if v == 10 {
            Some(UpdateType::VendorMultisigInfo)
        } else if v == 11 {
            Some(UpdateType::Quantity)
        } else {
            None
        }
    }

    /// The one role that may write the field: the buyer writes the buyer's
    /// material, the funding hash and the quantity; the seller writes the
    /// seller's material and the shipping and delivery dates.
    pub open spec fn spec_writer(self) -> Role {
        match self {
            UpdateType::CustomerKex1
            | UpdateType::CustomerKex2
            | UpdateType::CustomerKex3
            | UpdateType::CustomerMultisigInfo
            | UpdateType::Hash
            | UpdateType::Quantity => Role::Buyer,
            UpdateType::Deliver
            | UpdateType::Ship
            | UpdateType::VendorKex1
            | UpdateType::VendorKex2
            | UpdateType::VendorKex3
            | UpdateType::VendorMultisigInfo => Role::Seller,
        }
    }

    pub fn value(&self) -> (r: i32)
        ensures
            r == self.spec_value(),
    {
        match *self {
            UpdateType::CustomerKex1 => 0,
            UpdateType::CustomerKex2 => 1,
            UpdateType::CustomerKex3 => 2,
            UpdateType::CustomerMultisigInfo => 3,
            UpdateType::Deliver => 4,
            UpdateType::Hash => 5,
            UpdateType::Ship => 6,
            UpdateType::VendorKex1 => 7,
            UpdateType::VendorKex2 => 8,
            UpdateType::VendorKex3 => 9,
            UpdateType::VendorMultisigInfo => 10,
            UpdateType::Quantity => 11,
        }
    }

    /// Reads a field selector.
    pub fn from_value(v: i32) -> (r: Option<UpdateType>)
        ensures
            r == Self::spec_from_value(v),
            r matches Some(u) ==> u.spec_value() == v,
            r is None <==> !(0 <= v <= 11),
    {
        match v {
            0 => Some(UpdateType::CustomerKex1),
            1 => Some(UpdateType::CustomerKex2),
            2 => Some(UpdateType::CustomerKex3),
            3 => Some(UpdateType::CustomerMultisigInfo),
            4 => Some(UpdateType::Deliver),
            5 => Some(UpdateType::Hash),
            6 => Some(UpdateType::Ship),
            7 => Some(UpdateType::VendorKex1),
            8 => Some(UpdateType::VendorKex2),
            9 => Some(UpdateType::VendorKex3),
            10 => Some(UpdateType::VendorMultisigInfo),
            11 => Some(UpdateType::Quantity),
            _ => None,
        }
    }

    pub fn writer(&self) -> (r: Role)
        ensures
            r == self.spec_writer(),
    {
        match *self {
            UpdateType::CustomerKex1
            | UpdateType::CustomerKex2
            | UpdateType::CustomerKex3
            | UpdateType::CustomerMultisigInfo
            | UpdateType::Hash
            | UpdateType::Quantity => Role::Buyer,
            UpdateType::Deliver
            | UpdateType::Ship
            | UpdateType::VendorKex1
            | UpdateType::VendorKex2
            | UpdateType::VendorKex3
            | UpdateType::VendorMultisigInfo => Role::Seller,
        }
    }
}

/// A step of the multisignature handshake in which buyer and seller each
/// contribute material and the marketplace derives its own from both.
#[derive(Debug, Clone, Copy, PartialEq, Eq, Structural)]
pub enum Round {
    /// From the two handshake seeds to the marketplace's seed and its key
    /// exchange material.
    PrepareAndMake,
    /// From the two key exchange materials to the funding address.
    Finalize,
    /// From the two key image materials to the marketplace's key images.
    SyncKeyImages,
}

impl Round {
    /// The seller's contribution to the round.
    pub open spec fn vendor_input(self, order: OrderView) -> Seq<char> {
        match self {
            Round::PrepareAndMake => order.o_vend_msig_info,
            Round::Finalize => order.o_vend_kex_1,
            Round::SyncKeyImages => order.o_vend_kex_2,
        }
    }

    /// The buyer's contribution to the round.
    pub open spec fn customer_input(self, order: OrderView) -> Seq<char> {
        match self {
            Round::PrepareAndMake => order.o_cust_msig_info,
            Round::Finalize => order.o_cust_kex_1,
            Round::SyncKeyImages => order.o_cust_kex_2,
        }
    }

    /// What the round produces. A round has run once this is present.
    pub open spec fn output(self, order: OrderView) -> Seq<char> {
        match self {
            Round::PrepareAndMake => order.o_msig_kex_1,
            Round::Finalize => order.o_xmr_address,
            Round::SyncKeyImages => order.o_msig_kex_2,
        }
    }

    /// Both contributions are present.
    pub open spec fn ready(self, order: OrderView) -> bool {
        self.vendor_input(order).len() > 0 && self.customer_input(order).len() > 0
    }

    /// The round's output is present.
    pub open spec fn complete(self, order: OrderView) -> bool {
        self.output(order).len() > 0
    }

    /// Both contributions are present and the output is still missing: the
    /// round should have run and has not, or has failed. Such a round can be
    /// started again.
    pub open spec fn stalled(self, order: OrderView) -> bool {
        self.ready(order) && !self.complete(order)
    }

    /// Tells whether both contributions to the round are present.
    pub fn is_ready(&self, order: &Order) -> (r: bool)
        ensures
            r == self.ready(order@),
    {
        match *self {
            Round::PrepareAndMake => !order.o_vend_msig_info.as_str().is_empty()
                && !order.o_cust_msig_info.as_str().is_empty(),
            Round::Finalize => !order.o_vend_kex_1.as_str().is_empty()
                && !order.o_cust_kex_1.as_str().is_empty(),
            Round::SyncKeyImages => !order.o_vend_kex_2.as_str().is_empty()
                && !order.o_cust_kex_2.as_str().is_empty(),
        }
    }

    /// Tells whether the round's output is present.
    pub fn is_complete(&self, order: &Order) -> (r: bool)
        ensures
            r == self.complete(order@),
    {
        match *self {
            Round::PrepareAndMake => !order.o_msig_kex_1.as_str().is_empty(),
            Round::Finalize => !order.o_xmr_address.as_str().is_empty(),
            Round::SyncKeyImages => !order.o_msig_kex_2.as_str().is_empty(),
        }
    }

    /// Tells whether the round is due and has not produced its output.
    pub fn is_stalled(&self, order: &Order) -> (r: bool)
        ensures
            r == self.stalled(order@),
    {
        self.is_ready(order) && !self.is_complete(order)
    }
}

/// Why a request was turned down.
#[derive(Debug, Clone, Copy, PartialEq, Eq, Structural)]
pub enum Rejection {
    /// The selector names no field.
    UnknownField,
    /// The field belongs to the other role.
    NotPermitted,
    /// The field is written once and already holds a value.
    AlreadySet,
    /// The quantity is not positive, exceeds what is available, or the
    /// product is out of stock.
    InvalidQuantity,
}

/// What became of a request.
#[derive(Debug, Clone, Copy, PartialEq, Eq, Structural)]
pub enum Verdict {
    /// The field was written. No round is due.
    Updated,
    /// The field was written, and with it both contributions to a round are
    /// present for the first time: the round must now run.
    UpdatedAndDue(Round),
    /// Nothing was written.
    Rejected(Rejection),
}

/// The result of [`modify`]: the order as it is after the request, and what
/// became of the request.
#[derive(Debug)]
pub struct Modified {
    pub order: Order,
    pub verdict: Verdict,
}

/// A [`Modified`] as plain values.
pub struct ModifiedView {
    pub order: OrderView,
    pub verdict: Verdict,
}

impl View for Modified {
    type V = ModifiedView;

    open spec fn view(&self) -> ModifiedView {
        ModifiedView { order: self.order@, verdict: self.verdict }
    }
}

/// The round that a field contributes to, if any.
pub open spec fn round_of(field: UpdateType) -> Option<Round> {
    match field {
        UpdateType::CustomerMultisigInfo | UpdateType::VendorMultisigInfo => Some(
            Round::PrepareAndMake,
        ),
        UpdateType::CustomerKex1 | UpdateType::VendorKex1 => Some(Round::Finalize),
        UpdateType::CustomerKex2 | UpdateType::VendorKex2 => Some(Round::SyncKeyImages),
        _ => None,
    }
}

/// What the other party has contributed to the round of `field`, read from
/// the order as it was before the write.
pub open spec fn counterpart(old: OrderView, field: UpdateType) -> Seq<char> {
    match field {
        UpdateType::CustomerMultisigInfo => old.o_vend_msig_info,
        UpdateType::VendorMultisigInfo => old.o_cust_msig_info,
        UpdateType::CustomerKex1 => old.o_vend_kex_1,
        UpdateType::VendorKex1 => old.o_cust_kex_1,
        UpdateType::CustomerKex2 => old.o_vend_kex_2,
        UpdateType::VendorKex2 => old.o_cust_kex_2,
        _ => Seq::empty(),
    }
}

/// The round that a write of `data` to `field` makes due: the round of the
/// field, when the written material is present, the other party's material
/// was present before the write, and the round has not produced its output.
pub open spec fn round_due(old: OrderView, field: UpdateType, data: Seq<char>) -> Option<Round> {
    match round_of(field) {
        Some(round) => if data.len() > 0 && counterpart(old, field).len() > 0 && !round.complete(
            old,
        ) {
            Some(round)
        } else {
            None
        },
        None => None,
    }
}

/// Whether a quantity can be ordered of a product: it is positive, no more
/// than what is available, and the product is in stock.
pub open spec fn quantity_valid(quantity: i64, product: ProductView) -> bool {
    0 < quantity <= product.qty && product.in_stock
}

/// Why a write by the right role is turned down, if it is: a second write to
/// the funding hash or to a date, or a quantity that cannot be ordered.
pub open spec fn violation(
    old: OrderView,
    product: ProductView,
    field: UpdateType,
    data: Seq<char>,
) -> Option<Rejection> {
    match field {
        UpdateType::Hash => if old.o_hash.len() > 0 {
            Some(Rejection::AlreadySet)
        } else {
            None
        },
        UpdateType::Ship => if old.o_ship_date != 0 {
            Some(Rejection::AlreadySet)
        } else {
            None
        },
        UpdateType::Deliver => if old.o_deliver_date != 0 {
            Some(Rejection::AlreadySet)
        } else {
            None
        },
        UpdateType::Quantity => if quantity_valid(spec_parse_i64_or_zero(data), product) {
            None
        } else {
            Some(Rejection::InvalidQuantity)
        },
        _ => None,
    }
}

/// The order after `data` is written to `field`. Material and the funding
/// hash are stored as given. A date or a quantity is stored as the number
/// that the text writes, or zero where it writes none. Shipping and delivery
/// move the status forward.
pub open spec fn written(old: OrderView, field: UpdateType, data: Seq<char>) -> OrderView {
    match field {
        UpdateType::CustomerKex1 => OrderView { o_cust_kex_1: data, ..old },
        UpdateType::CustomerKex2 => OrderView { o_cust_kex_2: data, ..old },
        UpdateType::CustomerKex3 => OrderView { o_cust_kex_3: data, ..old },
        UpdateType::CustomerMultisigInfo => OrderView { o_cust_msig_info: data, ..old },
        UpdateType::Deliver => OrderView {
            o_deliver_date: spec_parse_i64_or_zero(data),
            o_status: advanced_status(old.o_status, StatusType::Delivered),
            ..old
        },
        UpdateType::Hash => OrderView { o_hash: data, ..old },
        UpdateType::Ship => OrderView {
            o_ship_date: spec_parse_i64_or_zero(data),
            o_status: advanced_status(old.o_status, StatusType::Shipped),
            ..old
        },
        UpdateType::VendorKex1 => OrderView { o_vend_kex_1: data, ..old },
        UpdateType::VendorKex2 => OrderView { o_vend_kex_2: data, ..old },
        UpdateType::VendorKex3 => OrderView { o_vend_kex_3: data, ..old },
        UpdateType::VendorMultisigInfo => OrderView { o_vend_msig_info: data, ..old },
        UpdateType::Quantity => OrderView { o_quantity: spec_parse_i64_or_zero(data), ..old },
    }
}

/// What [`modify`] returns. A request is rejected, and the order left as it
/// was, when the selector names no field, when the field belongs to the other
/// role, or when the write is a [`violation`]. Otherwise the field is
/// [`written`], and the verdict names the round that the write makes due.
pub open spec fn spec_modify(
    old: OrderView,
    product: ProductView,
    data: Seq<char>,
    update_type: i32,
    role: Role,
) -> ModifiedView {
    match UpdateType::spec_from_value(update_type) {
        None => ModifiedView { order: old, verdict: Verdict::Rejected(Rejection::UnknownField) },
        Some(field) => if field.spec_writer() != role {
            ModifiedView { order: old, verdict: Verdict::Rejected(Rejection::NotPermitted) }
        } else {
            match violation(old, product, field, data) {
                Some(reason) => ModifiedView { order: old, verdict: Verdict::Rejected(reason) },
                None => ModifiedView {
                    order: written(old, field, data),
                    verdict: match round_due(old, field, data) {
                        Some(round) => Verdict::UpdatedAndDue(round),
                        None => Verdict::Updated,
                    },
                },
            }
        },
    }
}

/// A status change that the lifecycle allows: none at all, or a move to a
/// named status of higher rank.
pub open spec fn status_advances(old: Seq<char>, new: Seq<char>) -> bool {
    new == old || ((new == StatusType::MultisigComplete.spec_value() || new
        == StatusType::Shipped.spec_value() || new == StatusType::Delivered.spec_value())
        && status_rank(new) > status_rank(old))
}

/// Moving a status forward is a change that the lifecycle allows, and leaves
/// the status at the target or beyond.
pub proof fn lemma_advanced_status_advances(current: Seq<char>, target: StatusType)
    ensures
        status_advances(current, advanced_status(current, target)),
        status_rank(advanced_status(current, target)) >= status_rank(current),
        status_rank(advanced_status(current, target)) >= target.spec_rank(),
{
    lemma_status_rank(target);
}

/// The field through which each party contributes to a round.
pub open spec fn round_field(round: Round, role: Role) -> UpdateType {
    match (round, role) {
        (Round::PrepareAndMake, Role::Buyer) => UpdateType::CustomerMultisigInfo,
        (Round::PrepareAndMake, Role::Seller) => UpdateType::VendorMultisigInfo,
        (Round::Finalize, Role::Buyer) => UpdateType::CustomerKex1,
        (Round::Finalize, Role::Seller) => UpdateType::VendorKex1,
        (Round::SyncKeyImages, Role::Buyer) => UpdateType::CustomerKex2,
        (Round::SyncKeyImages, Role::Seller) => UpdateType::VendorKex2,
    }
}

/// No request ever moves the status of an order backwards: whatever is asked
/// and by whom, the status stays or advances to a named status of higher
/// rank.
pub proof fn lemma_modify_status_advances(
    old: OrderView,
    product: ProductView,
    data: Seq<char>,
    update_type: i32,
    role: Role,
)
    ensures
        status_advances(
            old.o_status,
            spec_modify(old, product, data, update_type, role).order.o_status,
        ),
        status_rank(spec_modify(old, product, data, update_type, role).order.o_status)
            >= status_rank(old.o_status),
{
    lemma_advanced_status_advances(old.o_status, StatusType::Shipped);
    lemma_advanced_status_advances(old.o_status, StatusType::Delivered);
}

/// A rejected request writes nothing: the order comes back as it went in.
pub proof fn lemma_modify_rejected_unchanged(
    old: OrderView,
    product: ProductView,
    data: Seq<char>,
    update_type: i32,
    role: Role,
)
    ensures
        spec_modify(old, product, data, update_type, role).verdict is Rejected ==> spec_modify(
            old,
            product,
            data,
            update_type,
            role,
        ).order == old,
{
}

/// A request is accepted only from the role that the field belongs to.
pub proof fn lemma_modify_role_gated(
    old: OrderView,
    product: ProductView,
    data: Seq<char>,
    field: UpdateType,
    role: Role,
)
    ensures
        role != field.spec_writer() ==> spec_modify(
            old,
            product,
            data,
            field.spec_value(),
            role,
        ) == (ModifiedView { order: old, verdict: Verdict::Rejected(Rejection::NotPermitted) }),
{
}

/// A buyer's quantity is accepted if and only if it is positive, no more than
/// the product has available, and the product is in stock. An accepted
/// quantity is stored and nothing else changes; a rejected one leaves the
/// order as it was.
pub proof fn lemma_modify_quantity(old: OrderView, product: ProductView, data: Seq<char>)
    ensures
        ({
            let quantity = spec_parse_i64_or_zero(data);
            let m = spec_modify(old, product, data, UpdateType::Quantity.spec_value(), Role::Buyer);
            &&& m.verdict == Verdict::Updated <==> quantity_valid(quantity, product)
            &&& quantity_valid(quantity, product) ==> m.order == (OrderView {
                o_quantity: quantity,
                ..old
            })
            &&& !quantity_valid(quantity, product) ==> m.order == old && m.verdict
                == Verdict::Rejected(Rejection::InvalidQuantity)
        }),
{
}

/// A round becomes due exactly once, whichever party writes first. On an
/// order that has neither contribution to a round nor its output, let the
/// seller write and then the buyer, or the buyer and then the seller, each
/// some material that is not empty. Either way the first write makes nothing
/// due and the second makes the round due, and the order then holds both
/// contributions.
pub proof fn lemma_round_due_once(
    round: Round,
    old: OrderView,
    product: ProductView,
    vendor_data: Seq<char>,
    customer_data: Seq<char>,
)
    requires
        round.vendor_input(old).len() == 0,
        round.customer_input(old).len() == 0,
        !round.complete(old),
        vendor_data.len() > 0,
        customer_data.len() > 0,
    ensures
        ({
            let vendor_field = round_field(round, Role::Seller).spec_value();
            let customer_field = round_field(round, Role::Buyer).spec_value();
            let v1 = spec_modify(old, product, vendor_data, vendor_field, Role::Seller);
            let v2 = spec_modify(v1.order, product, customer_data, customer_field, Role::Buyer);
            let c1 = spec_modify(old, product, customer_data, customer_field, Role::Buyer);
            let c2 = spec_modify(c1.order, product, vendor_data, vendor_field, Role::Seller);
            &&& v1.verdict == Verdict::Updated
            &&& v2.verdict == Verdict::UpdatedAndDue(round)
            &&& c1.verdict == Verdict::Updated
            &&& c2.verdict == Verdict::UpdatedAndDue(round)
            &&& v2.order == c2.order
            &&& round_inputs_of(round, v2.order) == (vendor_data, customer_data)
        }),
{
}

/// The contributions to a round that an order holds: the seller's and the
/// buyer's.
pub open spec fn round_inputs_of(round: Round, order: OrderView) -> (Seq<char>, Seq<char>) {
    (round.vendor_input(order), round.customer_input(order))
}

/// Requests never touch what the rounds produce, so a round that has
/// produced its output stays complete, and no later write makes it due
/// again.
pub proof fn lemma_modify_keeps_outputs(
    round: Round,
    old: OrderView,
    product: ProductView,
    data: Seq<char>,
    update_type: i32,
    role: Role,
)
    ensures
        ({
            let m = spec_modify(old, product, data, update_type, role);
            &&& round.output(m.order) == round.output(old)
            &&& m.order.o_msig_prepare == old.o_msig_prepare
            &&& m.order.orid == old.orid
            &&& round.complete(old) ==> m.verdict != Verdict::UpdatedAndDue(round)
        }),
{
}

/// What identifies an order is fixed at creation: no request changes the
/// identifier, the buyer, the product, the seller or the creation time.
pub proof fn lemma_modify_keeps_identity(
    old: OrderView,
    product: ProductView,
    data: Seq<char>,
    update_type: i32,
    role: Role,
)
    ensures
        ({
            let m = spec_modify(old, product, data, update_type, role);
            &&& m.order.orid == old.orid
            &&& m.order.c_id == old.c_id
            &&& m.order.p_id == old.p_id
            &&& m.order.v_id == old.v_id
            &&& m.order.o_date == old.o_date
        }),
{
}

/// The funding hash and the two dates are written once: a value that is
/// there stays, whatever is asked.
pub proof fn lemma_modify_writes_once(
    old: OrderView,
    product: ProductView,
    data: Seq<char>,
    update_type: i32,
    role: Role,
)
    ensures
        ({
            let m = spec_modify(old, product, data, update_type, role);
            &&& old.o_hash.len() > 0 ==> m.order.o_hash == old.o_hash
            &&& old.o_ship_date != 0 ==> m.order.o_ship_date == old.o_ship_date
            &&& old.o_deliver_date != 0 ==> m.order.o_deliver_date == old.o_deliver_date
        }),
{
}

/// A round is made due only by a write that leaves it stalled: with both
/// contributions present and the output missing.
pub proof fn lemma_due_round_is_stalled(
    old: OrderView,
    product: ProductView,
    data: Seq<char>,
    update_type: i32,
    role: Role,
)
    ensures
        ({
            let m = spec_modify(old, product, data, update_type, role);
            m.verdict matches Verdict::UpdatedAndDue(round) ==> round.stalled(m.order)
        }),
{
}

/// Tells whether an identifier is a customer's: those start with `C`.
/// This is a test on identifiers only and grants no role.
pub fn is_customer(id: &str) -> (r: bool)
    requires
        id@.len() > 0,
    ensures
        r == (id@[0] == 'C'),
{
    let first: char = id.get_char(0);
    first == 'C'
}

/// Applies one update request to an order.
///
/// `old` is the order as stored, `product` the product that the request
/// names, `data` the new value as text, `update_type` the field selector and
/// `role` the authenticated requester.
pub fn modify(old: Order, product: &Product, data: String, update_type: i32, role: Role) -> (r:
    Modified)
    ensures
        r@ == spec_modify(old@, product@, data@, update_type, role),
{
    let field: UpdateType = match UpdateType::from_value(update_type) {
        Some(f) => f,
        None => {
            return Modified { order: old, verdict: Verdict::Rejected(Rejection::UnknownField) };
        },
    };
    if field.writer() != role {
        return Modified { order: old, verdict: Verdict::Rejected(Rejection::NotPermitted) };
    }
    let mut order: Order = old;
    let present: bool = !data.as_str().is_empty();
    match field {
        UpdateType::CustomerKex1 => {
            let due: bool = present && !order.o_vend_kex_1.as_str().is_empty()
                && !Round::Finalize.is_complete(&order);
            order.o_cust_kex_1 = data;
            Modified { order, verdict: verdict_of(due, Round::Finalize) }
        },
        UpdateType::CustomerKex2 => {
            let due: bool = present && !order.o_vend_kex_2.as_str().is_empty()
                && !Round::SyncKeyImages.is_complete(&order);
            order.o_cust_kex_2 = data;
            Modified { order, verdict: verdict_of(due, Round::SyncKeyImages) }
        },
        UpdateType::CustomerKex3 => {
            order.o_cust_kex_3 = data;
            Modified { order, verdict: Verdict::Updated }
        },
        UpdateType::CustomerMultisigInfo => {
            let due: bool = present && !order.o_vend_msig_info.as_str().is_empty()
                && !Round::PrepareAndMake.is_complete(&order);
            order.o_cust_msig_info = data;
            Modified { order, verdict: verdict_of(due, Round::PrepareAndMake) }
        },
        UpdateType::Deliver => {
            if order.o_deliver_date != 0 {
                return Modified { order, verdict: Verdict::Rejected(Rejection::AlreadySet) };
            }
            order.o_deliver_date = parse_i64_or_zero(data.as_str());
            let status: String = advance_status(order.o_status, StatusType::Delivered);
            order.o_status = status;
            Modified { order, verdict: Verdict::Updated }
        },
        UpdateType::Hash => {
            if !order.o_hash.as_str().is_empty() {
                return Modified { order, verdict: Verdict::Rejected(Rejection::AlreadySet) };
            }
            order.o_hash = data;
            Modified { order, verdict: Verdict::Updated }
        },
        UpdateType::Ship => {
            if order.o_ship_date != 0 {
                return Modified { order, verdict: Verdict::Rejected(Rejection::AlreadySet) };
            }
            order.o_ship_date = parse_i64_or_zero(data.as_str());
            let status: String = advance_status(order.o_status, StatusType::Shipped);
            order.o_status = status;
            Modified { order, verdict: Verdict::Updated }
        },
        UpdateType::VendorKex1 => {
            let due: bool = present && !order.o_cust_kex_1.as_str().is_empty()
                && !Round::Finalize.is_complete(&order);
            order.o_vend_kex_1 = data;
            Modified { order, verdict: verdict_of(due, Round::Finalize) }
        },
        UpdateType::VendorKex2 => {
            let due: bool = present && !order.o_cust_kex_2.as_str().is_empty()
                && !Round::SyncKeyImages.is_complete(&order);
            order.o_vend_kex_2 = data;
            Modified { order, verdict: verdict_of(due, Round::SyncKeyImages) }
        },
        UpdateType::VendorKex3 => {
            order.o_vend_kex_3 = data;
            Modified { order, verdict: Verdict::Updated }
        },
        UpdateType::VendorMultisigInfo => {
            let due: bool = present && !order.o_cust_msig_info.as_str().is_empty()
                && !Round::PrepareAndMake.is_complete(&order);
            order.o_vend_msig_info = data;
            Modified { order, verdict: verdict_of(due, Round::PrepareAndMake) }
        },
        UpdateType::Quantity => {
            let quantity: i64 = parse_i64_or_zero(data.as_str());
            if !(0 < quantity && quantity <= product.qty && product.in_stock) {
                return Modified { order, verdict: Verdict::Rejected(Rejection::InvalidQuantity) };
            }
            order.o_quantity = quantity;
            Modified { order, verdict: Verdict::Updated }
        },
    }
}

/// The verdict on an accepted write to a round's material.
fn verdict_of(due: bool, round: Round) -> (r: Verdict)
    ensures
        r == if due {
            Verdict::UpdatedAndDue(round)
        } else {
            Verdict::Updated
        },
{
    if due {
        Verdict::UpdatedAndDue(round)
    } else {
        Verdict::Updated
    }
}

/// A fresh order: identifier, buyer, product, seller and creation time as
/// given, status `MultisigMissing`, nothing ordered yet and every other field
/// empty.
pub open spec fn spec_new_order(
    orid: Seq<char>,
    cid: Seq<char>,
    pid: Seq<char>,
    v_id: Seq<char>,
    ts: i64,
) -> OrderView {
    OrderView {
        orid,
        c_id: cid,
        p_id: pid,
        v_id,
        o_date: ts,
        o_status: StatusType::MultisigMissing.spec_value(),
        ..OrderView::empty()
    }
}

/// Makes a fresh order from its identifier, the buyer, the product, the
/// product's seller and the time of creation.
pub fn new_order(orid: String, cid: String, pid: String, v_id: String, ts: i64) -> (r: Order)
    ensures
        r@ == spec_new_order(orid@, cid@, pid@, v_id@, ts),
{
    let mut order: Order = Order::default();
    order.orid = orid;
    order.c_id = cid;
    order.p_id = pid;
    order.v_id = v_id;
    order.o_date = ts;
    order.o_status = StatusType::MultisigMissing.value();
    order
}

/// True for the identifier of an order: an `O` followed by 64 hexadecimal
/// digits.
pub open spec fn is_order_id(orid: Seq<char>) -> bool {
    orid.len() == 65 && orid[0] == 'O' && is_hex_text(orid.skip(1))
}

/// Creates the skeleton of an order for a buyer and a product. The order
/// gets a random identifier and the current time; the seller is the one who
/// offers the product. The caller creates the order's wallet under the
/// identifier and stores the order.
pub fn create(cid: String, pid: String, product: &Product) -> (r: Order)
    ensures
        is_order_id(r@.orid),
        r@ == spec_new_order(r@.orid, cid@, pid@, product@.v_id, r@.o_date),
{
    let ts: i64 = unix_time();
    let rnd: String = generate_rnd();
    proof {
        reveal_strlit("O");
    }
    let orid: String = "O".to_owned().concat(rnd.as_str());
    assert(orid@.skip(1) =~= rnd@);
    new_order(orid, cid, pid, product.v_id.clone(), ts)
}

/// What a lookup comes to: the order found, or the empty order where none
/// was found. A miss is never an error.
pub fn find(found: Option<Order>) -> (r: Order)
    ensures
        r@ == match found {
            Some(order) => order@,
            None => OrderView::empty(),
        },
{
    match found {
        Some(order) => order,
        None => Order::default(),
    }
}

/// Whether an order belongs to the one who asks: for a customer, the orders
/// that name the customer as buyer; for anyone else, those that name them as
/// seller.
pub open spec fn belongs_to(order: OrderView, id: Seq<char>, corv: Seq<char>) -> bool {
    if corv == LoginType::Customer.spec_value() {
        order.c_id == id
    } else {
        order.v_id == id
    }
}

/// Those of the orders that belong to `id`, in the order given.
pub open spec fn orders_of(orders: Seq<Order>, id: Seq<char>, corv: Seq<char>) -> Seq<Order>
    decreases orders.len(),
{
    if orders.len() == 0 {
        Seq::empty()
    } else {
        let before = orders_of(orders.drop_last(), id, corv);
        if belongs_to(orders.last()@, id, corv) {
            before.push(orders.last())
        } else {
            before
        }
    }
}

/// Picks the orders of one customer or vendor. `corv` is the name of the
/// login kind, `id` the identifier of the customer or vendor.
pub fn find_all(orders: &Vec<Order>, id: &String, corv: &String) -> (r: Vec<Order>)
    ensures
        r@ == orders_of(orders@, id@, corv@),
{
    let by_customer: bool = *corv == LoginType::Customer.value();
    let mut r: Vec<Order> = Vec::new();
    let mut i: usize = 0;
    while i < orders.len()
        invariant
            i <= orders@.len(),
            by_customer == (corv@ == LoginType::Customer.spec_value()),
            r@ == orders_of(orders@.take(i as int), id@, corv@),
        decreases orders@.len() - i,
    {
        let order: &Order = &orders[i];
        let owner: &String = if by_customer {
            &order.c_id
        } else {
            &order.v_id
        };
        assert(orders@.take(i + 1).drop_last() =~= orders@.take(i as int));
        if *owner == *id {
            r.push(order.clone());
        }
        i = i + 1;
    }
    assert(orders@.take(orders@.len() as int) =~= orders@);
    r
}

} // verus!
