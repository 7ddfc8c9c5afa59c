//! Payment records and the settlements that change them.

use vstd::prelude::*;
use vstd::string::StringExecFns;
use crate::error::PaymentError;
use crate::models::payment_model::PaymentResponse;
use crate::models::payment_model::PaymentResponseView;
use crate::text::copy_optional_bytes;
use crate::text::copy_optional_text;
use crate::text::optional_bytes;
use crate::text::text_eq;

verus! {

/// The status of a payment that the gateway has not settled yet.
pub open spec fn pending_status() -> Seq<char> {
    "pending"@
}

/// Which partition a record lives in.
#[derive(Debug, Clone, Copy, PartialEq, Eq, Structural)]
pub enum PayerKind {
    User,
    Driver,
}

impl PayerKind {
    /// The word by which listings name this kind of payer.
    pub open spec fn spec_label(self) -> Seq<char> {
        match self {
            PayerKind::User => "user"@,
            PayerKind::Driver => "driver"@,
        }
    }

    /// The word by which listings name this kind of payer.
    pub fn label(&self) -> (text: String)
        ensures
            text@ == self.spec_label(),
    {
        match self {
            PayerKind::User => String::from_str("user"),
            PayerKind::Driver => String::from_str("driver"),
        }
    }
}

/// One payment as the store keeps it. Times are microseconds since the Unix
/// epoch.
#[derive(Debug, Clone, PartialEq, Eq)]
pub struct PaymentRecord {
    pub id: String,
    pub payer_id: String,
    pub email: String,
    pub amount: String,
    pub currency: String,
    pub reference: String,
    pub status: String,
    pub authorization_url: Option<String>,
    pub access_code: Option<String>,
    pub gateway_response: Option<String>,
    pub raw_payload: Option<Vec<u8>>,
    pub created_at: i64,
    pub updated_at: i64,
}

/// A payment record as contracts see it.
pub struct PaymentRecordView {
    pub id: Seq<char>,
    pub payer_id: Seq<char>,
    pub email: Seq<char>,
    pub amount: Seq<char>,
    pub currency: Seq<char>,
    pub reference: Seq<char>,
    pub status: Seq<char>,
    pub authorization_url: Option<Seq<char>>,
    pub access_code: Option<Seq<char>>,
    pub gateway_response: Option<Seq<char>>,
    pub raw_payload: Option<Seq<u8>>,
    pub created_at: i64,
    pub updated_at: i64,
}

impl View for PaymentRecord {
    type V = PaymentRecordView;

    open spec fn view(&self) -> PaymentRecordView {
        PaymentRecordView {
            id: self.id@,
            payer_id: self.payer_id@,
            email: self.email@,
            amount: self.amount@,
            currency: self.currency@,
            reference: self.reference@,
            status: self.status@,
            authorization_url: self.authorization_url.deep_view(),
            access_code: self.access_code.deep_view(),
            gateway_response: self.gateway_response.deep_view(),
            raw_payload: optional_bytes(self.raw_payload),
            created_at: self.created_at,
            updated_at: self.updated_at,
        }
    }
}

/// A report that settles a payment: from a verification call or a webhook.
#[derive(Debug, Clone, PartialEq, Eq)]
pub struct Settlement {
    pub reference: String,
    pub status: String,
    pub gateway_response: Option<String>,
    pub raw_payload: Option<Vec<u8>>,
}

/// A settlement as contracts see it.
pub struct SettlementView {
    pub reference: Seq<char>,
    pub status: Seq<char>,
    pub gateway_response: Option<Seq<char>>,
    pub raw_payload: Option<Seq<u8>>,
}

impl View for Settlement {
    type V = SettlementView;

    open spec fn view(&self) -> SettlementView {
        SettlementView {
            reference: self.reference@,
            status: self.status@,
            gateway_response: self.gateway_response.deep_view(),
            raw_payload: optional_bytes(self.raw_payload),
        }
    }
}

/// What became of a settlement whose record was found.
#[derive(Debug, Clone, Copy, PartialEq, Eq, Structural)]
pub enum SettlementOutcome {
    /// The record now holds the settlement.
    Applied,
    /// The record was left as it was: it has left `pending`, and the
    /// settlement would take it back there or is older than its last change.
    Superseded,
}

/// How many rows of a partition an update addressed and how many it changed.
#[derive(Debug, Clone, Copy, PartialEq, Eq, Structural)]
pub struct RowsAffected {
    /// Rows that carry the reference.
    pub matched: u64,
    /// Rows among them that took the settlement.
    pub updated: u64,
}

impl PaymentRecordView {
    /// The record as it is first stored: pending, with nothing heard from the
    /// gateway yet, last touched when it was created.
    pub open spec fn as_pending(self) -> PaymentRecordView {
        PaymentRecordView {
            status: pending_status(),
            gateway_response: None,
            raw_payload: None,
            updated_at: self.created_at,
            ..self
        }
    }

    /// Whether a settlement reported at time `at` may overwrite this record.
    /// A record that is still `pending` takes any settlement. A record that
    /// has left `pending` never goes back to it, and is overwritten only by
    /// a settlement that is not older than its last change.
    pub open spec fn accepts(self, settlement: SettlementView, at: i64) -> bool {
        self.status == pending_status() || (settlement.status != pending_status()
            && self.updated_at <= at)
    }

    /// The record after it took a settlement at time `at`: status, gateway
    /// response, raw payload and time of change come from the settlement,
    /// everything else stays.
    pub open spec fn settled(self, settlement: SettlementView, at: i64) -> PaymentRecordView {
        PaymentRecordView {
            status: settlement.status,
            gateway_response: settlement.gateway_response,
            raw_payload: settlement.raw_payload,
            updated_at: at,
            ..self
        }
    }

    /// What one row becomes under an update by reference.
    pub open spec fn updated(self, settlement: SettlementView, at: i64) -> PaymentRecordView {
        if self.reference == settlement.reference && self.accepts(settlement, at) {
            self.settled(settlement, at)
        } else {
            self
        }
    }

    /// The record as a listing shows it.
    pub open spec fn response(self, kind: PayerKind) -> PaymentResponseView {
        PaymentResponseView {
            id: self.id,
            payer_type: kind.spec_label(),
            payer_id: self.payer_id,
            email: self.email,
            amount: self.amount,
            currency: self.currency,
            status: self.status,
            reference: self.reference,
            authorization_url: self.authorization_url,
            access_code: self.access_code,
            gateway_response: self.gateway_response,
            created_at: self.created_at,
            updated_at: self.updated_at,
        }
    }
}

/// What became of a settlement, told from the rows that the two probes
/// addressed: `ReferenceNotFound` where neither partition has a row that
/// carries the reference, `Applied` where a row took the settlement, and
/// `Superseded` where a row carries the reference but did not take it.
pub open spec fn spec_settlement_outcome(users: RowsAffected, drivers: RowsAffected) -> Result<
    SettlementOutcome,
    PaymentError,
> {
    if users.matched == 0 && drivers.matched == 0 {
        Err(PaymentError::ReferenceNotFound)
    } else if users.updated > 0 || drivers.updated > 0 {
        Ok(SettlementOutcome::Applied)
    } else {
        Ok(SettlementOutcome::Superseded)
    }
}

/// Tells what became of a settlement from the rows that the probe of the
/// user partition and the probe of the driver partition addressed.
pub fn settlement_outcome(users: RowsAffected, drivers: RowsAffected) -> (outcome: Result<
    SettlementOutcome,
    PaymentError,
>)
    ensures
        outcome == spec_settlement_outcome(users, drivers),
{
    if users.matched == 0 && drivers.matched == 0 {
        Err(PaymentError::ReferenceNotFound)
    } else if users.updated > 0 || drivers.updated > 0 {
        Ok(SettlementOutcome::Applied)
    } else {
        Ok(SettlementOutcome::Superseded)
    }
}

/// The rows of a partition as contracts see them.
pub open spec fn records_view(rows: Seq<PaymentRecord>) -> Seq<PaymentRecordView> {
    Seq::new(rows.len(), |i: int| rows[i]@)
}

impl PaymentRecord {
    /// A new record in status `pending`, last touched at its creation.
    pub fn pending(
        id: String,
        payer_id: String,
        email: String,
        amount: String,
        currency: String,
        reference: String,
        authorization_url: String,
        access_code: String,
        created_at: i64,
    ) -> (record: PaymentRecord)
        ensures
            record@ == (PaymentRecordView {
                id: id@,
                payer_id: payer_id@,
                email: email@,
                amount: amount@,
                currency: currency@,
                reference: reference@,
                status: pending_status(),
                authorization_url: Some(authorization_url@),
                access_code: Some(access_code@),
                gateway_response: None,
                raw_payload: None,
                created_at: created_at,
                updated_at: created_at,
            }),
            record@.as_pending() == record@,
    {
        PaymentRecord {
            id,
            payer_id,
            email,
            amount,
            currency,
            reference,
            status: String::from_str("pending"),
            authorization_url: Some(authorization_url),
            access_code: Some(access_code),
            gateway_response: None,
            raw_payload: None,
            created_at,
            updated_at: created_at,
        }
    }

    /// Whether a settlement reported at time `at` may overwrite this record.
    pub fn accepts(&self, settlement: &Settlement, at: i64) -> (yes: bool)
        ensures
            yes == self@.accepts(settlement@, at),
    {
        text_eq(self.status.as_str(), "pending") || (!text_eq(
            settlement.status.as_str(),
            "pending",
        ) && self.updated_at <= at)
    }

    /// The record as a listing shows it.
    pub fn to_response(&self, kind: PayerKind) -> (shown: PaymentResponse)
        ensures
            shown@ == self@.response(kind),
    {
        PaymentResponse {
            id: self.id.clone(),
            payer_type: kind.label(),
            payer_id: self.payer_id.clone(),
            email: self.email.clone(),
            amount: self.amount.clone(),
            currency: self.currency.clone(),
            status: self.status.clone(),
            reference: self.reference.clone(),
            authorization_url: copy_optional_text(&self.authorization_url),
            access_code: copy_optional_text(&self.access_code),
            gateway_response: copy_optional_text(&self.gateway_response),
            created_at: self.created_at,
            updated_at: self.updated_at,
        }
    }
}

/// A copy of a record.
pub fn copy_record(record: &PaymentRecord) -> (copy: PaymentRecord)
    ensures
        copy@ == record@,
{
    PaymentRecord {
        id: record.id.clone(),
        payer_id: record.payer_id.clone(),
        email: record.email.clone(),
        amount: record.amount.clone(),
        currency: record.currency.clone(),
        reference: record.reference.clone(),
        status: record.status.clone(),
        authorization_url: copy_optional_text(&record.authorization_url),
        access_code: copy_optional_text(&record.access_code),
        gateway_response: copy_optional_text(&record.gateway_response),
        raw_payload: copy_optional_bytes(&record.raw_payload),
        created_at: record.created_at,
        updated_at: record.updated_at,
    }
}

} // verus!
