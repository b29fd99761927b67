//! The backend's raw response and its normalization into one discriminated
//! execution result. When the backend reports errors the normalizer
//! short-circuits and returns them as a clean error result, deliberately not
//! touching the other facets, which the backend may then omit; on a reported
//! success every facet is mandatory and every binary field must decode.

use vstd::prelude::*;
use crate::effects::{TransactionEffects, effects_encoding, is_effects_encoding, decode_effects};
use crate::errors::Error;
use crate::transaction::{SignedTransaction, signed_tx_encoding, is_signed_tx_encoding,
    decode_signed_transaction};

verus! {

/// The mathematical value of an event record.
pub ghost struct EventView {
    pub package_id: Seq<u8>,
    pub module_name: Seq<char>,
    pub sender_address: Seq<u8>,
    pub type_tag: Seq<char>,
    pub contents: Seq<u8>,
}

/// An event record as the backend reports it.
pub struct RawEvent {
    /// The package that emitted the event.
    pub package_id: Vec<u8>,
    /// The module that emitted the event.
    pub module_name: String,
    /// The address of the sender of the transaction.
    pub sender_address: Vec<u8>,
    /// The type of the event's contents.
    pub type_tag: String,
    /// The binary-encoded contents.
    pub contents: Vec<u8>,
}

impl View for RawEvent {
    type V = EventView;

    open spec fn view(&self) -> EventView {
        EventView {
            package_id: self.package_id@,
            module_name: self.module_name@,
            sender_address: self.sender_address@,
            type_tag: self.type_tag@,
            contents: self.contents@,
        }
    }
}

/// An event freshly produced by this execution. It carries no reference into
/// historical storage: that is what tells it apart from an event read back
/// later.
pub struct Event {
    /// The package that emitted the event.
    pub package_id: Vec<u8>,
    /// The module that emitted the event.
    pub module_name: String,
    /// The address of the sender of the transaction.
    pub sender_address: Vec<u8>,
    /// The type of the event's contents.
    pub type_tag: String,
    /// The binary-encoded contents.
    pub contents: Vec<u8>,
}

impl View for Event {
    type V = EventView;

    open spec fn view(&self) -> EventView {
        EventView {
            package_id: self.package_id@,
            module_name: self.module_name@,
            sender_address: self.sender_address@,
            type_tag: self.type_tag@,
            contents: self.contents@,
        }
    }
}

impl Event {
    /// Rebuilds a backend event record as a fresh, storage-free event,
    /// keeping every field.
    pub fn from_raw(e: RawEvent) -> (r: Event)
        ensures
            r@ == e@,
    {
        Event {
            package_id: e.package_id,
            module_name: e.module_name,
            sender_address: e.sender_address,
            type_tag: e.type_tag,
            contents: e.contents,
        }
    }
}

/// The mathematical value of a balance change.
pub ghost struct BalanceChangeView {
    pub owner: Seq<u8>,
    pub coin_type: Seq<char>,
    pub amount: i128,
}

/// One account's balance movement caused by the transaction.
pub struct BalanceChange {
    /// The 32-byte address whose balance moved.
    pub owner: Vec<u8>,
    /// The coin type of the moved balance.
    pub coin_type: String,
    /// The signed amount of the movement.
    pub amount: i128,
}

impl View for BalanceChange {
    type V = BalanceChangeView;

    open spec fn view(&self) -> BalanceChangeView {
        BalanceChangeView { owner: self.owner@, coin_type: self.coin_type@, amount: self.amount }
    }
}

/// The mathematical value of a raw backend response.
pub ghost struct RawExecutionResponseView {
    pub raw_effects: Seq<u8>,
    pub raw_transaction: Seq<u8>,
    pub events: Option<Seq<EventView>>,
    pub balance_changes: Option<Seq<BalanceChangeView>>,
    pub errors: Seq<Seq<char>>,
}

/// The backend's answer to one submission, before normalization. The
/// optional facets may be absent even on apparent success: absence then is a
/// backend contract violation, not a caller fault.
pub struct RawExecutionResponse {
    /// The binary-encoded effects.
    pub raw_effects: Vec<u8>,
    /// The binary-encoded signed transaction, as the backend saw it.
    pub raw_transaction: Vec<u8>,
    /// The emitted events, if that facet came back.
    pub events: Option<Vec<RawEvent>>,
    /// The balance changes, if that facet came back.
    pub balance_changes: Option<Vec<BalanceChange>>,
    /// The execution-level errors; empty on success.
    pub errors: Vec<String>,
}

impl View for RawExecutionResponse {
    type V = RawExecutionResponseView;

    open spec fn view(&self) -> RawExecutionResponseView {
        RawExecutionResponseView {
            raw_effects: self.raw_effects@,
            raw_transaction: self.raw_transaction@,
            events: match self.events {
                Some(evs) => Some(evs@.map_values(|e: RawEvent| e@)),
                None => None,
            },
            balance_changes: match self.balance_changes {
                Some(bcs_) => Some(bcs_@.map_values(|b: BalanceChange| b@)),
                None => None,
            },
            errors: self.errors@.map_values(|s: String| s@),
        }
    }
}

/// One completed transaction's outcome, denormalized and self-contained.
pub struct ExecutedTransaction {
    /// The signed transaction the backend executed.
    pub sender_signed_data: SignedTransaction,
    /// The decoded effects.
    pub effects: TransactionEffects,
    /// The balance changes the execution caused.
    pub balance_changes: Vec<BalanceChange>,
    /// The events the execution emitted.
    pub events: Vec<Event>,
}

/// The pipeline's output: exactly one of the two branches — a populated
/// execution outcome, or the backend's non-empty error list.
pub enum ExecutionResult {
    /// The pipeline and the transaction both succeeded.
    Success {
        /// The executed transaction's outcome.
        effects: ExecutedTransaction,
        /// The effects bytes exactly as the backend sent them.
        raw_effects: Vec<u8>,
    },
    /// The pipeline succeeded but the transaction did not execute.
    Failure {
        /// The backend's error strings; never empty.
        errors: Vec<String>,
    },
}

/// Maps a raw backend response onto the discriminated execution result.
///
/// A non-empty error list short-circuits: the other facets are not decoded,
/// so a backend that omits them alongside its errors still yields a clean
/// error result. On an empty error list, the effects and transaction bytes
/// must decode and both optional facets must be present, else the response
/// violates the backend contract and an internal error is returned.
pub fn normalize(resp: RawExecutionResponse) -> (r: Result<ExecutionResult, Error>)
    ensures
        resp@.errors.len() > 0 ==> (r matches Ok(out) && out matches ExecutionResult::Failure {
            errors,
        } && errors@.map_values(|s: String| s@) == resp@.errors),
        resp@.errors.len() == 0 && !is_effects_encoding(resp@.raw_effects) ==> (r matches Err(e)
            && e.is_internal() && e.spec_message() == "malformed effects from backend"@),
        resp@.errors.len() == 0 && is_effects_encoding(resp@.raw_effects)
            && !is_signed_tx_encoding(resp@.raw_transaction) ==> (r matches Err(e)
            && e.is_internal() && e.spec_message() == "malformed transaction data from backend"@),
        resp@.errors.len() == 0 && is_effects_encoding(resp@.raw_effects) && is_signed_tx_encoding(
            resp@.raw_transaction,
        ) && resp@.events is None ==> (r matches Err(e) && e.is_internal() && e.spec_message()
            == "missing events facet"@),
        resp@.errors.len() == 0 && is_effects_encoding(resp@.raw_effects) && is_signed_tx_encoding(
            resp@.raw_transaction,
        ) && resp@.events is Some && resp@.balance_changes is None ==> (r matches Err(e)
            && e.is_internal() && e.spec_message() == "missing balance-changes facet"@),
        resp@.errors.len() == 0 && is_effects_encoding(resp@.raw_effects) && is_signed_tx_encoding(
            resp@.raw_transaction,
        ) && resp@.events is Some && resp@.balance_changes is Some ==> (r matches Ok(out)
            && out matches ExecutionResult::Success { effects: ex, raw_effects: rb } && {
            &&& rb@ == resp@.raw_effects
            &&& ex.effects@.wf()
            &&& effects_encoding(ex.effects@) == resp@.raw_effects
            &&& ex.sender_signed_data@.wf()
            &&& signed_tx_encoding(ex.sender_signed_data@) == resp@.raw_transaction
            &&& ex.events@.map_values(|e: Event| e@) == resp@.events->Some_0
            &&& ex.balance_changes@.map_values(|b: BalanceChange| b@)
                == resp@.balance_changes->Some_0
        }),
{
    let RawExecutionResponse { raw_effects, raw_transaction, events, balance_changes, errors } =
        resp;
    if errors.len() > 0 {
        return Ok(ExecutionResult::Failure { errors });
    }
    let effects = match decode_effects(&raw_effects) {
        Some(e) => e,
        None => {
            return Err(Error::internal("malformed effects from backend"));
        },
    };
    let sender_signed_data = match decode_signed_transaction(&raw_transaction) {
        Some(st) => st,
        None => {
            return Err(Error::internal("malformed transaction data from backend"));
        },
    };
    let raw_events = match events {
        Some(evs) => evs,
        None => {
            return Err(Error::internal("missing events facet"));
        },
    };
    let balance_changes = match balance_changes {
        Some(bcs_) => bcs_,
        None => {
            return Err(Error::internal("missing balance-changes facet"));
        },
    };
    let ghost raw_event_views = raw_events@.map_values(|e: RawEvent| e@);
    let mut out_events: Vec<Event> = Vec::new();
    let mut rest = raw_events;
    proof {
        assert(out_events@.map_values(|e: Event| e@) + rest@.map_values(|e: RawEvent| e@)
            =~= raw_event_views);
    }
    while rest.len() > 0
        invariant
            out_events@.map_values(|e: Event| e@) + rest@.map_values(|e: RawEvent| e@)
                == raw_event_views,
        decreases rest@.len(),
    {
        let e = rest.remove(0);
        let ghost prev_out = out_events@;
        let ghost prev_rest = rest@.insert(0, e);
        out_events.push(Event::from_raw(e));
        proof {
            assert(out_events@.map_values(|ev: Event| ev@) + rest@.map_values(|ev: RawEvent| ev@)
                =~= prev_out.map_values(|ev: Event| ev@) + prev_rest.map_values(
                |ev: RawEvent| ev@,
            ));
        }
    }
    proof {
        assert(out_events@.map_values(|e: Event| e@) =~= raw_event_views) by {
            assert(rest@.map_values(|e: RawEvent| e@).len() == 0);
            assert(out_events@.map_values(|e: Event| e@) + rest@.map_values(|e: RawEvent| e@)
                =~= out_events@.map_values(|e: Event| e@));
        }
    }
    Ok(
        ExecutionResult::Success {
            effects: ExecutedTransaction {
                sender_signed_data,
                effects,
                balance_changes,
                events: out_events,
            },
            raw_effects,
        },
    )
}

} // verus!
