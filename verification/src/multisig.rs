//! The multisignature rounds, as a machine that the caller drives.
//!
//! A round is begun with [`prepare_and_make`], [`finalize`] or
//! [`update_multisig_info`]. Each hands back a state and, unless the round has
//! nothing to do, the first action to perform against the wallet service. The
//! caller performs the action, reports what came back as an [`Event`] to
//! [`step`], and goes on until no action is left. The order in the final state
//! is the order to store.
//!
//! A round opens the order's wallet, makes its calls, writes what they
//! produced into the order, and closes the wallet. Once the wallet is open,
//! every way out of the round goes through closing it. A call that comes back
//! empty fails the round: nothing is written, and the round stays due.

use crate::models::{Order, OrderView};
use crate::order::{
    advance_status, advanced_status, lemma_advanced_status_advances, lemma_status_rank,
    status_advances, status_rank, Round, StatusType,
};
use vstd::prelude::*;

verus! {

/// How a round ended.
#[derive(Debug, Clone, Copy, PartialEq, Eq, Structural)]
pub enum Outcome {
    /// The round produced its output, which is now in the order.
    Completed,
    /// The output was already present. Nothing was called or written.
    AlreadyComplete,
    /// A contribution is still missing. Nothing was called or written.
    NotReady,
    /// The wallet could not be opened, or a call came back empty. Nothing
    /// was written; the round is still due and can be started again.
    Failed,
}

/// Where a round stands.
#[derive(Debug, Clone, Copy, PartialEq, Eq, Structural)]
pub enum Phase {
    /// Waiting for the wallet of the order to open, for the given round.
    Opening(Round),
    /// Waiting for the marketplace's handshake seed.
    Preparing,
    /// Waiting for the marketplace's key exchange material.
    Making,
    /// Waiting for the funding address.
    Finalizing,
    /// Waiting for the count of imported outputs.
    Importing,
    /// Waiting for the marketplace's key images.
    Exporting,
    /// Waiting for the wallet to close; the outcome is settled.
    Closing(Outcome),
    /// The round is over.
    Done(Outcome),
}

impl Phase {
    /// True while the round holds the wallet open and has calls to make.
    pub open spec fn in_wallet(self) -> bool {
        self is Preparing || self is Making || self is Finalizing || self is Importing
            || self is Exporting
    }
}

/// Number of signers that must agree to spend from the joint wallet.
pub const THRESHOLD: u8 = 2;

/// What the caller is asked to do next.
#[derive(Debug)]
pub enum Action {
    /// Open the wallet of this name.
    OpenWallet { filename: String },
    /// Ask the wallet for the marketplace's handshake seed.
    Prepare,
    /// Make the wallet multisignature from the two parties' seeds.
    Make { info: Vec<String>, threshold: u8 },
    /// Finalize the wallet from the two parties' key exchange material.
    Finalize { info: Vec<String> },
    /// Import the two parties' key image material.
    Import { info: Vec<String> },
    /// Export the marketplace's key images.
    Export,
    /// Close the wallet of this name.
    CloseWallet { filename: String },
}

/// An [`Action`] as plain values.
pub enum ActionView {
    OpenWallet { filename: Seq<char> },
    Prepare,
    Make { info: Seq<Seq<char>>, threshold: u8 },
    Finalize { info: Seq<Seq<char>> },
    Import { info: Seq<Seq<char>> },
    Export,
    CloseWallet { filename: Seq<char> },
}

impl View for Action {
    type V = ActionView;

    open spec fn view(&self) -> ActionView {
        match self {
            Action::OpenWallet { filename } => ActionView::OpenWallet { filename: filename@ },
            Action::Prepare => ActionView::Prepare,
            Action::Make { info, threshold } => ActionView::Make {
                info: info.deep_view(),
                threshold: *threshold,
            },
            Action::Finalize { info } => ActionView::Finalize { info: info.deep_view() },
            Action::Import { info } => ActionView::Import { info: info.deep_view() },
            Action::Export => ActionView::Export,
            Action::CloseWallet { filename } => ActionView::CloseWallet { filename: filename@ },
        }
    }
}

/// What came back from the action that was asked for. A call that failed in
/// transport, or whose answer could not be read, is reported with its empty
/// value: `false`, an empty text, or zero.
#[derive(Debug)]
pub enum Event {
    /// The wallet was opened, or was not.
    Opened { ok: bool },
    /// The wallet's handshake seed.
    Prepared { multisig_info: String },
    /// The wallet's answer to being made multisignature.
    Made { address: String, multisig_info: String },
    /// The wallet's answer to being finalized.
    Finalized { address: String },
    /// How many outputs the import brought in.
    Imported { n_outputs: u8 },
    /// The wallet's key images.
    Exported { info: String },
    /// The wallet was closed, or was not.
    Closed { ok: bool },
}

/// An [`Event`] as plain values.
pub enum EventView {
    Opened { ok: bool },
    Prepared { multisig_info: Seq<char> },
    Made { address: Seq<char>, multisig_info: Seq<char> },
    Finalized { address: Seq<char> },
    Imported { n_outputs: u8 },
    Exported { info: Seq<char> },
    Closed { ok: bool },
}

impl View for Event {
    type V = EventView;

    open spec fn view(&self) -> EventView {
        match self {
            Event::Opened { ok } => EventView::Opened { ok: *ok },
            Event::Prepared { multisig_info } => EventView::Prepared {
                multisig_info: multisig_info@,
            },
            Event::Made { address, multisig_info } => EventView::Made {
                address: address@,
                multisig_info: multisig_info@,
            },
            Event::Finalized { address } => EventView::Finalized { address: address@ },
            Event::Imported { n_outputs } => EventView::Imported { n_outputs: *n_outputs },
            Event::Exported { info } => EventView::Exported { info: info@ },
            Event::Closed { ok } => EventView::Closed { ok: *ok },
        }
    }
}

/// A round in progress.
#[derive(Debug)]
pub struct RoundState {
    /// Where the round stands.
    pub phase: Phase,
    /// The order the round works on. It changes once, when the round
    /// completes.
    pub order: Order,
    /// The marketplace's handshake seed, held back until the wallet has been
    /// made, so that seed and key exchange material are written together.
    pub prepared: String,
}

/// A [`RoundState`] as plain values.
pub struct RoundStateView {
    pub phase: Phase,
    pub order: OrderView,
    pub prepared: Seq<char>,
}

impl View for RoundState {
    type V = RoundStateView;

    open spec fn view(&self) -> RoundStateView {
        RoundStateView { phase: self.phase, order: self.order@, prepared: self.prepared@ }
    }
}

/// A state and the action that leads on from it. Without an action the round
/// is over.
#[derive(Debug)]
pub struct Step {
    pub state: RoundState,
    pub action: Option<Action>,
}

/// A [`Step`] as plain values.
pub struct StepView {
    pub state: RoundStateView,
    pub action: Option<ActionView>,
}

impl View for Step {
    type V = StepView;

    open spec fn view(&self) -> StepView {
        StepView {
            state: self.state@,
            action: match self.action {
                Some(a) => Some(a@),
                None => None,
            },
        }
    }
}

/// The two contributions to a round, in the order in which the wallet is
/// given them: the seller's first, the buyer's second.
pub open spec fn round_inputs(round: Round, order: OrderView) -> Seq<Seq<char>> {
    seq![round.vendor_input(order), round.customer_input(order)]
}

/// How a round begins. A round whose output is present has nothing to do; one
/// that lacks a contribution cannot run; any other opens the order's wallet.
pub open spec fn spec_begin(round: Round, order: OrderView) -> StepView {
    if round.complete(order) {
        StepView {
            state: RoundStateView {
                phase: Phase::Done(Outcome::AlreadyComplete),
                order,
                prepared: Seq::empty(),
            },
            action: None,
        }
    } else if !round.ready(order) {
        StepView {
            state: RoundStateView {
                phase: Phase::Done(Outcome::NotReady),
                order,
                prepared: Seq::empty(),
            },
            action: None,
        }
    } else {
        StepView {
            state: RoundStateView { phase: Phase::Opening(round), order, prepared: Seq::empty() },
            action: Some(ActionView::OpenWallet { filename: order.orid }),
        }
    }
}

/// The first call of a round, made once the wallet is open.
pub open spec fn first_call(round: Round, state: RoundStateView) -> StepView {
    match round {
        Round::PrepareAndMake => StepView {
            state: RoundStateView { phase: Phase::Preparing, ..state },
            action: Some(ActionView::Prepare),
        },
        Round::Finalize => StepView {
            state: RoundStateView { phase: Phase::Finalizing, ..state },
            action: Some(ActionView::Finalize { info: round_inputs(round, state.order) }),
        },
        Round::SyncKeyImages => StepView {
            state: RoundStateView { phase: Phase::Importing, ..state },
            action: Some(ActionView::Import { info: round_inputs(round, state.order) }),
        },
    }
}

/// Leaving a round whose wallet is open: the wallet is closed, and the
/// outcome is settled. The order is as it was.
pub open spec fn closing(state: RoundStateView, outcome: Outcome) -> StepView {
    StepView {
        state: RoundStateView { phase: Phase::Closing(outcome), ..state },
        action: Some(ActionView::CloseWallet { filename: state.order.orid }),
    }
}

/// The order with the output of a round written into it. The first round
/// writes the marketplace's seed and its key exchange material together; the
/// second writes the funding address and moves the status forward to
/// `MultisigComplete`; the third writes the marketplace's key images.
pub open spec fn with_output(
    round: Round,
    order: OrderView,
    prepared: Seq<char>,
    output: Seq<char>,
) -> OrderView {
    match round {
        Round::PrepareAndMake => OrderView {
            o_msig_prepare: prepared,
            o_msig_kex_1: output,
            ..order
        },
        Round::Finalize => OrderView {
            o_xmr_address: output,
            o_status: advanced_status(order.o_status, StatusType::MultisigComplete),
            ..order
        },
        Round::SyncKeyImages => OrderView { o_msig_kex_2: output, ..order },
    }
}

/// The last call of a round has answered with `output`. An empty answer fails
/// the round. An output that is already present is never written over.
/// Otherwise the output is written and the round completes. In each case the
/// wallet is closed next.
pub open spec fn concluding(round: Round, state: RoundStateView, output: Seq<char>) -> StepView {
    if output.len() == 0 {
        closing(state, Outcome::Failed)
    } else if round.complete(state.order) {
        closing(state, Outcome::AlreadyComplete)
    } else {
        closing(
            RoundStateView {
                order: with_output(round, state.order, state.prepared, output),
                ..state
            },
            Outcome::Completed,
        )
    }
}

/// What [`step`] returns: the transition of the round on one event.
///
/// While the wallet is being opened, only a successful opening leads on, to
/// the round's first call; anything else ends the round as failed, with no
/// wallet to close. While the wallet is open, the answer that the phase waits
/// for leads on if it is not empty; an empty answer, or an event that the
/// phase does not wait for, fails the round and closes the wallet. While the
/// wallet is being closed, any event ends the round with the outcome already
/// settled. A round that is over stays as it is.
pub open spec fn spec_step(state: RoundStateView, event: EventView) -> StepView {
    match state.phase {
        Phase::Opening(round) => match event {
            EventView::Opened { ok: true } => first_call(round, state),
            _ => StepView {
                state: RoundStateView { phase: Phase::Done(Outcome::Failed), ..state },
                action: None,
            },
        },
        Phase::Preparing => match event {
            EventView::Prepared { multisig_info } => if multisig_info.len() > 0 {
                StepView {
                    state: RoundStateView {
                        phase: Phase::Making,
                        prepared: multisig_info,
                        ..state
                    },
                    action: Some(
                        ActionView::Make {
                            info: round_inputs(Round::PrepareAndMake, state.order),
                            threshold: THRESHOLD,
                        },
                    ),
                }
            } else {
                closing(state, Outcome::Failed)
            },
            _ => closing(state, Outcome::Failed),
        },
        Phase::Making => match event {
            EventView::Made { address, multisig_info } => concluding(
                Round::PrepareAndMake,
                state,
                multisig_info,
            ),
            _ => closing(state, Outcome::Failed),
        },
        Phase::Finalizing => match event {
            EventView::Finalized { address } => concluding(Round::Finalize, state, address),
            _ => closing(state, Outcome::Failed),
        },
        Phase::Importing => match event {
            EventView::Imported { n_outputs } => if n_outputs > 0 {
                StepView {
                    state: RoundStateView { phase: Phase::Exporting, ..state },
                    action: Some(ActionView::Export),
                }
            } else {
                closing(state, Outcome::Failed)
            },
            _ => closing(state, Outcome::Failed),
        },
        Phase::Exporting => match event {
            EventView::Exported { info } => concluding(Round::SyncKeyImages, state, info),
            _ => closing(state, Outcome::Failed),
        },
        Phase::Closing(outcome) => StepView {
            state: RoundStateView { phase: Phase::Done(outcome), ..state },
            action: None,
        },
        Phase::Done(outcome) => StepView { state, action: None },
    }
}

/// What a round has produced is never written over: whatever the state and
/// whatever the event, an output that is present before a step is the same
/// after it. In particular the funding address, once set, stays as it is.
pub proof fn lemma_step_keeps_output(round: Round, state: RoundStateView, event: EventView)
    requires
        round.complete(state.order),
    ensures
        round.output(spec_step(state, event).state.order) == round.output(state.order),
{
}

/// No step of a round moves the status of an order backwards.
pub proof fn lemma_step_status_advances(state: RoundStateView, event: EventView)
    ensures
        status_advances(state.order.o_status, spec_step(state, event).state.order.o_status),
        status_rank(spec_step(state, event).state.order.o_status) >= status_rank(
            state.order.o_status,
        ),
{
    lemma_advanced_status_advances(state.order.o_status, StatusType::MultisigComplete);
}

/// The order changes only in the step that completes a round. Every other
/// step, and every round that fails, leaves it as it was.
pub proof fn lemma_step_writes_on_completion(state: RoundStateView, event: EventView)
    ensures
        spec_step(state, event).state.order != state.order ==> spec_step(state, event).state.phase
            == Phase::Closing(Outcome::Completed),
        spec_step(state, event).state.order.orid == state.order.orid,
{
}

/// A round writes nothing but what it produces and the status: what
/// identifies the order, what the parties contributed, the quantity, the
/// funding hash and the dates are the same after every step.
pub proof fn lemma_step_keeps_inputs(state: RoundStateView, event: EventView)
    ensures
        ({
            let before = state.order;
            let after = spec_step(state, event).state.order;
            &&& after.orid == before.orid
            &&& after.c_id == before.c_id
            &&& after.p_id == before.p_id
            &&& after.v_id == before.v_id
            &&& after.o_date == before.o_date
            &&& after.o_ship_date == before.o_ship_date
            &&& after.o_deliver_date == before.o_deliver_date
            &&& after.o_hash == before.o_hash
            &&& after.o_quantity == before.o_quantity
            &&& forall|round: Round|
                #![trigger round.vendor_input(after)]
                #![trigger round.customer_input(after)]
                round.vendor_input(after) == round.vendor_input(before) && round.customer_input(
                    after,
                ) == round.customer_input(before)
        }),
{
}

/// Once the wallet is open, every way out of the round closes it: a step
/// taken while the wallet is open either keeps the round among its calls, or
/// asks for the order's wallet to be closed. No step goes from an open wallet
/// straight to the end of the round.
pub proof fn lemma_step_closes_wallet(state: RoundStateView, event: EventView)
    requires
        state.phase.in_wallet(),
    ensures
        ({
            let next = spec_step(state, event);
            ||| next.state.phase.in_wallet() && next.action is Some && !(next.action->0
                is CloseWallet) && !(next.action->0 is OpenWallet)
            ||| next.state.phase is Closing && next.action == Some(
                ActionView::CloseWallet { filename: state.order.orid },
            )
        }),
{
}

/// An action is asked for exactly as long as the round is not over.
pub proof fn lemma_step_action_until_done(state: RoundStateView, event: EventView)
    ensures
        spec_step(state, event).action is None <==> spec_step(state, event).state.phase is Done,
{
}

/// An import that brings in no outputs fails the round: nothing is exported
/// or written, the wallet is closed, and the round ends as failed. The round
/// is then as due as before, and beginning it again opens the wallet again.
pub proof fn lemma_empty_import_fails(state: RoundStateView, closed: bool)
    requires
        state.phase == Phase::Importing,
    ensures
        ({
            let failed = spec_step(state, EventView::Imported { n_outputs: 0 });
            let ended = spec_step(failed.state, EventView::Closed { ok: closed });
            &&& failed == closing(state, Outcome::Failed)
            &&& ended.state.phase == Phase::Done(Outcome::Failed)
            &&& ended.action is None
            &&& ended.state.order == state.order
            &&& Round::SyncKeyImages.stalled(state.order) ==> spec_begin(
                Round::SyncKeyImages,
                ended.state.order,
            ).action == Some(ActionView::OpenWallet { filename: state.order.orid })
        }),
{
}

/// A round that fails leaves the order untouched, whatever went wrong and
/// at whichever call.
pub proof fn lemma_failed_round_unchanged(state: RoundStateView, event: EventView)
    ensures
        ({
            let next = spec_step(state, event);
            (next.state.phase == Phase::Closing(Outcome::Failed) || next.state.phase
                == Phase::Done(Outcome::Failed)) ==> next.state.order == state.order
        }),
{
}

/// The second round sets the funding address once. Finalizing an order that
/// has no address, with an answer that holds one, stores that address and
/// brings the status to `MultisigComplete` or leaves it beyond. From then on
/// the round has nothing to do: beginning it again asks for no action and
/// leaves the order as it is.
pub proof fn lemma_finalize_sets_address_once(state: RoundStateView, address: Seq<char>)
    requires
        state.phase == Phase::Finalizing,
        state.order.o_xmr_address.len() == 0,
        address.len() > 0,
    ensures
        ({
            let next = spec_step(state, EventView::Finalized { address });
            let again = spec_begin(Round::Finalize, next.state.order);
            &&& next.state.phase == Phase::Closing(Outcome::Completed)
            &&& next.state.order.o_xmr_address == address
            &&& next.state.order.o_status == advanced_status(
                state.order.o_status,
                StatusType::MultisigComplete,
            )
            &&& status_rank(next.state.order.o_status) >= 1
            &&& again.action is None
            &&& again.state.phase == Phase::Done(Outcome::AlreadyComplete)
            &&& again.state.order == next.state.order
        }),
{
    lemma_status_rank(StatusType::MultisigComplete);
}

/// A round makes its calls only while its output is missing: begun on an
/// order that holds the output, it asks for nothing; begun on one that lacks
/// a contribution, it asks for nothing either. Only a stalled round opens the
/// wallet.
pub proof fn lemma_begin_only_when_stalled(round: Round, order: OrderView)
    ensures
        spec_begin(round, order).action is Some <==> round.stalled(order),
        spec_begin(round, order).state.order == order,
{
}

/// The first round, run to its end on a stalled order with answers that are
/// not empty, makes the wallet once, from the seller's seed and the buyer's
/// in that order and with the threshold of two, and writes the marketplace's
/// seed and key exchange material together.
pub proof fn lemma_prepare_and_make_run(
    order: OrderView,
    prepared: Seq<char>,
    address: Seq<char>,
    made: Seq<char>,
)
    requires
        Round::PrepareAndMake.stalled(order),
        prepared.len() > 0,
        made.len() > 0,
    ensures
        ({
            let s0 = spec_begin(Round::PrepareAndMake, order);
            let s1 = spec_step(s0.state, EventView::Opened { ok: true });
            let s2 = spec_step(s1.state, EventView::Prepared { multisig_info: prepared });
            let s3 = spec_step(s2.state, EventView::Made { address, multisig_info: made });
            &&& s0.action == Some(ActionView::OpenWallet { filename: order.orid })
            &&& s1.action == Some(ActionView::Prepare)
            &&& s2.action == Some(
                ActionView::Make {
                    info: seq![order.o_vend_msig_info, order.o_cust_msig_info],
                    threshold: 2,
                },
            )
            &&& s3.action == Some(ActionView::CloseWallet { filename: order.orid })
            &&& s3.state.phase == Phase::Closing(Outcome::Completed)
            &&& s3.state.order == (OrderView {
                o_msig_prepare: prepared,
                o_msig_kex_1: made,
                ..order
            })
        }),
{
}

/// The third round, run to its end on a stalled order with an import that
/// brought in outputs and an export that is not empty, writes the
/// marketplace's key images.
pub proof fn lemma_sync_key_images_run(order: OrderView, n_outputs: u8, info: Seq<char>)
    requires
        Round::SyncKeyImages.stalled(order),
        n_outputs > 0,
        info.len() > 0,
    ensures
        ({
            let s0 = spec_begin(Round::SyncKeyImages, order);
            let s1 = spec_step(s0.state, EventView::Opened { ok: true });
            let s2 = spec_step(s1.state, EventView::Imported { n_outputs });
            let s3 = spec_step(s2.state, EventView::Exported { info });
            &&& s1.action == Some(
                ActionView::Import { info: seq![order.o_vend_kex_2, order.o_cust_kex_2] },
            )
            &&& s2.action == Some(ActionView::Export)
            &&& s3.action == Some(ActionView::CloseWallet { filename: order.orid })
            &&& s3.state.phase == Phase::Closing(Outcome::Completed)
            &&& s3.state.order == (OrderView { o_msig_kex_2: info, ..order })
        }),
{
}

/// The two contributions to a round, the seller's first.
fn inputs(round: Round, order: &Order) -> (info: Vec<String>)
    ensures
        info.deep_view() == round_inputs(round, order@),
{
    let mut info: Vec<String> = Vec::new();
    match round {
        Round::PrepareAndMake => {
            info.push(order.o_vend_msig_info.clone());
            info.push(order.o_cust_msig_info.clone());
        },
        Round::Finalize => {
            info.push(order.o_vend_kex_1.clone());
            info.push(order.o_cust_kex_1.clone());
        },
        Round::SyncKeyImages => {
            info.push(order.o_vend_kex_2.clone());
            info.push(order.o_cust_kex_2.clone());
        },
    }
    assert(info.deep_view() =~= round_inputs(round, order@));
    info
}

/// Begins a round on an order.
pub fn begin(round: Round, order: Order) -> (r: Step)
    ensures
        r@ == spec_begin(round, order@),
{
    if round.is_complete(&order) {
        Step {
            state: RoundState {
                phase: Phase::Done(Outcome::AlreadyComplete),
                order,
                prepared: String::new(),
            },
            action: None,
        }
    } else if !round.is_ready(&order) {
        Step {
            state: RoundState {
                phase: Phase::Done(Outcome::NotReady),
                order,
                prepared: String::new(),
            },
            action: None,
        }
    } else {
        let filename: String = order.orid.clone();
        Step {
            state: RoundState { phase: Phase::Opening(round), order, prepared: String::new() },
            action: Some(Action::OpenWallet { filename }),
        }
    }
}

/// Begins the first round: from the two handshake seeds to the marketplace's
/// seed and its key exchange material.
pub fn prepare_and_make(order: Order) -> (r: Step)
    ensures
        r@ == spec_begin(Round::PrepareAndMake, order@),
{
    begin(Round::PrepareAndMake, order)
}

/// Begins the second round: from the two key exchange materials to the
/// funding address.
pub fn finalize(order: Order) -> (r: Step)
    ensures
        r@ == spec_begin(Round::Finalize, order@),
{
    begin(Round::Finalize, order)
}

/// Begins the third round, run after the wallet was funded: from the two key
/// image materials to the marketplace's key images.
pub fn update_multisig_info(order: Order) -> (r: Step)
    ensures
        r@ == spec_begin(Round::SyncKeyImages, order@),
{
    begin(Round::SyncKeyImages, order)
}

/// Closes the wallet and settles the outcome.
fn close(state: RoundState, outcome: Outcome) -> (r: Step)
    ensures
        r@ == closing(state@, outcome),
{
    let filename: String = state.order.orid.clone();
    Step {
        state: RoundState {
            phase: Phase::Closing(outcome),
            order: state.order,
            prepared: state.prepared,
        },
        action: Some(Action::CloseWallet { filename }),
    }
}

/// Writes the output of a round, unless it is empty or one is present.
fn conclude(round: Round, state: RoundState, output: String) -> (r: Step)
    ensures
        r@ == concluding(round, state@, output@),
{
    if output.as_str().is_empty() {
        return close(state, Outcome::Failed);
    }
    if round.is_complete(&state.order) {
        return close(state, Outcome::AlreadyComplete);
    }
    let mut order: Order = state.order;
    let phase: Phase = state.phase;
    let prepared: String = state.prepared;
    match round {
        Round::PrepareAndMake => {
            order.o_msig_prepare = prepared.clone();
            order.o_msig_kex_1 = output;
        },
        Round::Finalize => {
            order.o_xmr_address = output;
            let status: String = advance_status(order.o_status, StatusType::MultisigComplete);
            order.o_status = status;
        },
        Round::SyncKeyImages => {
            order.o_msig_kex_2 = output;
        },
    }
    close(RoundState { phase, order, prepared }, Outcome::Completed)
}

/// Takes a round one step on: from what came back from the last action to the
/// next action, if any.
pub fn step(state: RoundState, event: Event) -> (r: Step)
    ensures
        r@ == spec_step(state@, event@),
{
    match state.phase {
        Phase::Opening(round) => match event {
            Event::Opened { ok: true } => {
                let order: Order = state.order;
                let prepared: String = state.prepared;
                match round {
                    Round::PrepareAndMake => Step {
                        state: RoundState { phase: Phase::Preparing, order, prepared },
                        action: Some(Action::Prepare),
                    },
                    Round::Finalize => {
                        let info: Vec<String> = inputs(round, &order);
                        Step {
                            state: RoundState { phase: Phase::Finalizing, order, prepared },
                            action: Some(Action::Finalize { info }),
                        }
                    },
                    Round::SyncKeyImages => {
                        let info: Vec<String> = inputs(round, &order);
                        Step {
                            state: RoundState { phase: Phase::Importing, order, prepared },
                            action: Some(Action::Import { info }),
                        }
                    },
                }
            },
            _ => Step {
                state: RoundState {
                    phase: Phase::Done(Outcome::Failed),
                    order: state.order,
                    prepared: state.prepared,
                },
                action: None,
            },
        },
        Phase::Preparing => match event {
            Event::Prepared { multisig_info } => {
                if multisig_info.as_str().is_empty() {
                    close(state, Outcome::Failed)
                } else {
                    let order: Order = state.order;
                    let info: Vec<String> = inputs(Round::PrepareAndMake, &order);
                    Step {
                        state: RoundState { phase: Phase::Making, order, prepared: multisig_info },
                        action: Some(Action::Make { info, threshold: THRESHOLD }),
                    }
                }
            },
            _ => close(state, Outcome::Failed),
        },
        Phase::Making => match event {
            Event::Made { address, multisig_info } => conclude(
                Round::PrepareAndMake,
                state,
                multisig_info,
            ),
            _ => close(state, Outcome::Failed),
        },
        Phase::Finalizing => match event {
            Event::Finalized { address } => conclude(Round::Finalize, state, address),
            _ => close(state, Outcome::Failed),
        },
        Phase::Importing => match event {
            Event::Imported { n_outputs } => {
                if n_outputs > 0 {
                    Step {
                        state: RoundState {
                            phase: Phase::Exporting,
                            order: state.order,
                            prepared: state.prepared,
                        },
                        action: Some(Action::Export),
                    }
                } else {
                    close(state, Outcome::Failed)
                }
            },
            _ => close(state, Outcome::Failed),
        },
        Phase::Exporting => match event {
            Event::Exported { info } => conclude(Round::SyncKeyImages, state, info),
            _ => close(state, Outcome::Failed),
        },
        Phase::Closing(outcome) => Step {
            state: RoundState {
                phase: Phase::Done(outcome),
                order: state.order,
                prepared: state.prepared,
            },
            action: None,
        },
        Phase::Done(outcome) => Step { state, action: None },
    }
}

} // verus!
