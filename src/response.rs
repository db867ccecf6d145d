//! The data that the endpoints return, and the readers for the fields that
//! arrive as text.
use vstd::prelude::*;

use chrono::Datelike;

use crate::token::same_text;
use crate::Error;

verus! {

/// The envelope around every endpoint's data.
pub struct Response<T> {
    pub data: T,
    pub links: Links,
    pub meta: Meta,
}

/// Where a response came from.
pub struct Links {
    pub self_: String,
}

/// Paging information of a response.
pub struct Meta {
    pub total_pages: usize,
}

/// The accounts a client may see.
pub struct Accounts {
    pub accounts: Vec<Account>,
}

/// A bank account.
pub struct Account {
    pub account_id: String,
    pub account_number: String,
    pub account_name: String,
    pub reference_name: String,
    pub product_name: String,
    pub kyc_compliant: bool,
    pub profile_id: String,
    pub profile_name: String,
}

/// A profile that accounts belong to.
pub struct Profile {
    pub profile_id: String,
    pub profile_name: String,
    pub default_profile: bool,
}

/// A grouping of beneficiaries.
pub struct BeneficiaryCategory {
    pub category_id: String,
    pub default_category: bool,
    pub category_name: String,
}

/// The direction of a transaction.
#[derive(Clone, Copy, Debug, PartialEq, Eq, Structural)]
pub enum DtCt {
    Debit,
    Credit,
}

/// The settlement state of a transaction.
#[derive(Clone, Copy, Debug, PartialEq, Eq, Structural)]
pub enum TransactionStatus {
    Posted,
}

/// The kinds of transaction that a query may select.
#[derive(Clone, Copy, Debug, PartialEq, Eq, Structural)]
pub enum TransactionType {
    VASTransactions,
    ATMWithdrawals,
    CardPurchases,
    FeesAndInterest,
    Deposits,
    OnlineBankingPayments,
    DebitOrders,
    FasterPay,
}

/// A calendar date.
#[derive(Clone, Copy, Debug, PartialEq, Eq, Structural)]
pub struct Date {
    pub year: i32,
    pub month: u32,
    pub day: u32,
}

/// The date, as (year, month, day), that chrono reads from `s` in the layout
/// `%d/%m/%Y`, if it reads one.
pub uninterp spec fn dmy_date_of(s: Seq<char>) -> Option<(i32, u32, u32)>;

/// Relies on chrono::NaiveDate::parse_from_str with the layout "%d/%m/%Y":
/// it yields a valid calendar date or an error. chrono's Datelike gives the
/// date's year, its month in 1..=12 and its day in 1..=31.
#[verifier::external_body]
fn parse_dmy(s: &str) -> (r: Option<(i32, u32, u32)>)
    ensures
        r == dmy_date_of(s@),
        r matches Some((_, m, d)) ==> 1 <= m <= 12 && 1 <= d <= 31,
{
    match chrono::NaiveDate::parse_from_str(s, "%d/%m/%Y") {
        Ok(d) => Some((d.year(), d.month(), d.day())),
        Err(_) => None,
    }
}

impl Date {
    /// The date with the given (year, month, day).
    pub open spec fn of(p: (i32, u32, u32)) -> Date {
        Date { year: p.0, month: p.1, day: p.2 }
    }
}

/// Reads a required date written day/month/year.
pub fn from_custom_date(s: &str) -> (r: Result<Date, Error>)
    ensures
        dmy_date_of(s@) matches Some(p) ==> r == Ok::<Date, Error>(Date::of(p)),
        dmy_date_of(s@) is None ==> (r matches Err(Error::Decode { text }) && text@ == s@),
        r matches Ok(d) ==> 1 <= d.month <= 12 && 1 <= d.day <= 31,
{
    match parse_dmy(s) {
        Some((year, month, day)) => Ok(Date { year, month, day }),
        None => Err(Error::Decode { text: s.to_string() }),
    }
}

/// Reads an optional date written day/month/year; text that is not such a
/// date counts as no date.
pub fn from_custom_optional_date(s: Option<&str>) -> (r: Option<Date>)
    ensures
        s is None ==> r is None,
        s matches Some(t) ==> r == match dmy_date_of(t@) {
            Some(p) => Some(Date::of(p)),
            None => None::<Date>,
        },
{
    match s {
        Some(t) => match parse_dmy(t) {
            Some((year, month, day)) => Some(Date { year, month, day }),
            None => None,
        },
        None => None,
    }
}

/// Reads a flag written as `true` or `false`.
pub fn bool_from_string(s: &str) -> (r: Result<bool, Error>)
    ensures
        s@ == "true"@ ==> r == Ok::<bool, Error>(true),
        s@ == "false"@ ==> r == Ok::<bool, Error>(false),
        s@ != "true"@ && s@ != "false"@ ==> (r matches Err(Error::Decode { text }) && text@
            == s@),
{
    proof {
        reveal_strlit("true");
        reveal_strlit("false");
        assert("true"@.len() != "false"@.len());
    }
    if same_text(s, "true") {
        Ok(true)
    } else if same_text(s, "false") {
        Ok(false)
    } else {
        Err(Error::Decode { text: s.to_string() })
    }
}

/// The outcome of one payment.
pub struct PaymentResponse {
    pub authorisation_required: bool,
    pub beneficiary_account_id: String,
    pub beneficiary_name: String,
    pub payment_date: Date,
    pub payment_reference_number: String,
    pub status: String,
}

/// The outcome of a batch of payments.
pub struct MultiPaymentResonse {
    pub error_message: Option<String>,
    pub transfer_responses: Vec<PaymentResponse>,
}

/// The outcome of a single payment.
pub struct SinglePaymentResponse {
    pub error_message: Option<String>,
    pub transfer_response: PaymentResponse,
}

/// The outcome of one transfer.
pub struct TransferResponse {
    pub authorisation_required: bool,
    pub beneficiary_account_id: String,
    pub beneficiary_name: String,
    pub payment_date: Date,
    pub payment_reference_number: String,
    pub status: String,
}

/// The outcome of a batch of transfers.
pub struct MultiTransferResonse {
    pub error_message: Option<String>,
    pub transfer_responses: Vec<TransferResponse>,
}

/// The outcome of a single transfer.
pub struct SingleTransferResponse {
    pub error_message: Option<String>,
    pub transfer_response: TransferResponse,
}

impl MultiPaymentResonse {
    /// The outcome of a batch of one payment: its first outcome, if the
    /// batch reports any.
    pub fn into_single(self) -> (r: Option<SinglePaymentResponse>)
        ensures
            self.transfer_responses@.len() == 0 ==> r is None,
            self.transfer_responses@.len() > 0 ==> (r matches Some(s) && s.error_message
                == self.error_message && s.transfer_response == self.transfer_responses@[0]),
    {
        let mut responses = self.transfer_responses;
        if responses.len() == 0 {
            None
        } else {
            let first = responses.remove(0);
            Some(SinglePaymentResponse { error_message: self.error_message, transfer_response: first })
        }
    }
}

impl MultiTransferResonse {
    /// The outcome of a batch of one transfer: its first outcome, if the
    /// batch reports any.
    pub fn into_single(self) -> (r: Option<SingleTransferResponse>)
        ensures
            self.transfer_responses@.len() == 0 ==> r is None,
            self.transfer_responses@.len() > 0 ==> (r matches Some(s) && s.error_message
                == self.error_message && s.transfer_response == self.transfer_responses@[0]),
    {
        let mut responses = self.transfer_responses;
        if responses.len() == 0 {
            None
        } else {
            let first = responses.remove(0);
            Some(
                SingleTransferResponse { error_message: self.error_message, transfer_response: first },
            )
        }
    }
}

} // verus!
