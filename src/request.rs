//! Payment and transfer requests, assembled by builders that check the
//! required fields.
use vstd::prelude::*;

use crate::Error;

verus! {

/// A batch of payments to beneficiaries.
pub struct MutliPaymentRequest {
    pub payment_list: Vec<Payment>,
}

impl MutliPaymentRequest {
    /// A batch of the given payments, in order.
    pub fn new(payment_list: Vec<Payment>) -> (r: MutliPaymentRequest)
        ensures
            r.payment_list == payment_list,
    {
        MutliPaymentRequest { payment_list }
    }
}

/// A payment to a beneficiary.
pub struct Payment {
    pub beneficiary_id: String,
    /// The amount in decimal notation.
    pub amount: String,
    pub my_reference: String,
    pub their_reference: String,
    pub authoriser_a_id: Option<String>,
    pub authoriser_b_id: Option<String>,
    pub auth_period_id: Option<String>,
    pub faster_payment: Option<bool>,
}

/// Collects the fields of a [`Payment`].
pub struct PaymentBuilder {
    pub beneficiary_id: String,
    pub amount: Option<String>,
    pub my_reference: Option<String>,
    pub their_reference: Option<String>,
    pub authoriser_a_id: Option<String>,
    pub authoriser_b_id: Option<String>,
    pub auth_period_id: Option<String>,
    pub faster_payment: Option<bool>,
}

/// `t` holds the characters of `s`.
pub open spec fn holds(t: Option<String>, s: &str) -> bool {
    t matches Some(v) && v@ == s@
}

impl Payment {
    /// Starts a payment to the beneficiary `beneficiary_id`, with nothing
    /// else set.
    pub fn to(beneficiary_id: &str) -> (r: PaymentBuilder)
        ensures
            r.beneficiary_id@ == beneficiary_id@,
            r.amount is None,
            r.my_reference is None,
            r.their_reference is None,
            r.authoriser_a_id is None,
            r.authoriser_b_id is None,
            r.auth_period_id is None,
            r.faster_payment is None,
    {
        PaymentBuilder {
            beneficiary_id: beneficiary_id.to_string(),
            amount: None,
            my_reference: None,
            their_reference: None,
            authoriser_a_id: None,
            authoriser_b_id: None,
            auth_period_id: None,
            faster_payment: None,
        }
    }
}

impl PaymentBuilder {
    /// The first required field that was never given, by name.
    pub open spec fn missing_field(self) -> Option<Seq<char>> {
        if self.amount is None {
            Some("amount"@)
        } else if self.my_reference is None {
            Some("my_reference"@)
        } else if self.their_reference is None {
            Some("their_reference"@)
        } else {
            None
        }
    }

    /// Builds the payment, or names the first required field (`amount`,
    /// then `my_reference`, then `their_reference`) that was never given.
    pub fn build(self) -> (r: Result<Payment, Error>)
        ensures
            self.missing_field() matches Some(name) ==> (r matches Err(
                Error::PaymentFieldUndefined { field },
            ) && field@ == name),
            self.missing_field() is None ==> (r matches Ok(p) && p == (Payment {
                beneficiary_id: self.beneficiary_id,
                amount: self.amount->0,
                my_reference: self.my_reference->0,
                their_reference: self.their_reference->0,
                authoriser_a_id: self.authoriser_a_id,
                authoriser_b_id: self.authoriser_b_id,
                auth_period_id: self.auth_period_id,
                faster_payment: self.faster_payment,
            })),
    {
        let amount = match self.amount {
            Some(v) => v,
            None => {
                return Err(Error::PaymentFieldUndefined { field: "amount".to_string() });
            },
        };
        let my_reference = match self.my_reference {
            Some(v) => v,
            None => {
                return Err(Error::PaymentFieldUndefined { field: "my_reference".to_string() });
            },
        };
        let their_reference = match self.their_reference {
            Some(v) => v,
            None => {
                return Err(Error::PaymentFieldUndefined { field: "their_reference".to_string() });
            },
        };
        Ok(
            Payment {
                beneficiary_id: self.beneficiary_id,
                amount,
                my_reference,
                their_reference,
                authoriser_a_id: self.authoriser_a_id,
                authoriser_b_id: self.authoriser_b_id,
                auth_period_id: self.auth_period_id,
                faster_payment: self.faster_payment,
            },
        )
    }

    /// Sets the amount, written in decimal notation.
    pub fn amount_text(self, amount: &str) -> (r: PaymentBuilder)
        ensures
            holds(r.amount, amount),
            r == (PaymentBuilder { amount: r.amount, ..self }),
    {
        PaymentBuilder { amount: Some(amount.to_string()), ..self }
    }

    /// Sets the payer's own reference.
    pub fn my_reference(self, reference: &str) -> (r: PaymentBuilder)
        ensures
            holds(r.my_reference, reference),
            r == (PaymentBuilder { my_reference: r.my_reference, ..self }),
    {
        PaymentBuilder { my_reference: Some(reference.to_string()), ..self }
    }

    /// Sets the reference the beneficiary sees.
    pub fn their_reference(self, reference: &str) -> (r: PaymentBuilder)
        ensures
            holds(r.their_reference, reference),
            r == (PaymentBuilder { their_reference: r.their_reference, ..self }),
    {
        PaymentBuilder { their_reference: Some(reference.to_string()), ..self }
    }

    /// Sets the first authoriser.
    pub fn authoriser_a_id(self, id: &str) -> (r: PaymentBuilder)
        ensures
            holds(r.authoriser_a_id, id),
            r == (PaymentBuilder { authoriser_a_id: r.authoriser_a_id, ..self }),
    {
        PaymentBuilder { authoriser_a_id: Some(id.to_string()), ..self }
    }

    /// Sets the second authoriser.
    pub fn authoriser_b_id(self, id: &str) -> (r: PaymentBuilder)
        ensures
            holds(r.authoriser_b_id, id),
            r == (PaymentBuilder { authoriser_b_id: r.authoriser_b_id, ..self }),
    {
        PaymentBuilder { authoriser_b_id: Some(id.to_string()), ..self }
    }

    /// Sets the authorisation period.
    pub fn auth_period_id(self, id: &str) -> (r: PaymentBuilder)
        ensures
            holds(r.auth_period_id, id),
            r == (PaymentBuilder { auth_period_id: r.auth_period_id, ..self }),
    {
        PaymentBuilder { auth_period_id: Some(id.to_string()), ..self }
    }

    /// Asks for a faster payment.
    pub fn faster_payment(self) -> (r: PaymentBuilder)
        ensures
            r == (PaymentBuilder { faster_payment: Some(true), ..self }),
    {
        PaymentBuilder { faster_payment: Some(true), ..self }
    }
}

/// A batch of transfers between accounts of one profile.
pub struct MultiTransferRequest {
    pub transfer_list: Vec<TransferRequest>,
    pub profile_id: Option<String>,
}

impl MultiTransferRequest {
    /// A batch of the given transfers, in order, for `profile_id` if given.
    pub fn new(transfer_list: Vec<TransferRequest>, profile_id: Option<String>) -> (r:
        MultiTransferRequest)
        ensures
            r.transfer_list == transfer_list,
            r.profile_id == profile_id,
    {
        MultiTransferRequest { transfer_list, profile_id }
    }
}

/// A transfer to another account.
pub struct TransferRequest {
    pub beneficiary_account_id: String,
    /// The amount in decimal notation.
    pub amount: String,
    pub my_reference: String,
    pub their_reference: String,
}

/// Collects the fields of a [`TransferRequest`].
pub struct TransferBuilder {
    pub beneficiary_account_id: Option<String>,
    /// The amount in decimal notation.
    pub amount: Option<String>,
    pub my_reference: Option<String>,
    pub their_reference: Option<String>,
}

impl TransferBuilder {
    /// A builder with nothing set.
    pub fn new() -> (r: TransferBuilder)
        ensures
            r.beneficiary_account_id is None,
            r.amount is None,
            r.my_reference is None,
            r.their_reference is None,
    {
        TransferBuilder {
            beneficiary_account_id: None,
            amount: None,
            my_reference: None,
            their_reference: None,
        }
    }

    /// The first required field that was never given, by name.
    pub open spec fn missing_field(self) -> Option<Seq<char>> {
        if self.beneficiary_account_id is None {
            Some("beneficiary_account_id"@)
        } else if self.amount is None {
            Some("amount"@)
        } else if self.my_reference is None {
            Some("my_reference"@)
        } else if self.their_reference is None {
            Some("their_reference"@)
        } else {
            None
        }
    }

    /// Builds the transfer, or names the first required field
    /// (`beneficiary_account_id`, `amount`, `my_reference`,
    /// `their_reference`) that was never given.
    pub fn build(self) -> (r: Result<TransferRequest, Error>)
        ensures
            self.missing_field() matches Some(name) ==> (r matches Err(
                Error::TransferRequestFieldUndefined { field },
            ) && field@ == name),
            self.missing_field() is None ==> (r matches Ok(t) && t == (TransferRequest {
                beneficiary_account_id: self.beneficiary_account_id->0,
                amount: self.amount->0,
                my_reference: self.my_reference->0,
                their_reference: self.their_reference->0,
            })),
    {
        let beneficiary_account_id = match self.beneficiary_account_id {
            Some(v) => v,
            None => {
                return Err(
                    Error::TransferRequestFieldUndefined {
                        field: "beneficiary_account_id".to_string(),
                    },
                );
            },
        };
        let amount = match self.amount {
            Some(v) => v,
            None => {
                return Err(Error::TransferRequestFieldUndefined { field: "amount".to_string() });
            },
        };
        let my_reference = match self.my_reference {
            Some(v) => v,
            None => {
                return Err(
                    Error::TransferRequestFieldUndefined { field: "my_reference".to_string() },
                );
            },
        };
        let their_reference = match self.their_reference {
            Some(v) => v,
            None => {
                return Err(
                    Error::TransferRequestFieldUndefined { field: "their_reference".to_string() },
                );
            },
        };
        Ok(TransferRequest { beneficiary_account_id, amount, my_reference, their_reference })
    }

    /// Sets the receiving account.
    pub fn beneficiary_account_id(self, account_id: &str) -> (r: TransferBuilder)
        ensures
            holds(r.beneficiary_account_id, account_id),
            r == (TransferBuilder { beneficiary_account_id: r.beneficiary_account_id, ..self }),
    {
        TransferBuilder { beneficiary_account_id: Some(account_id.to_string()), ..self }
    }

    /// Sets the amount, written in decimal notation.
    pub fn amount_text(self, amount: &str) -> (r: TransferBuilder)
        ensures
            holds(r.amount, amount),
            r == (TransferBuilder { amount: r.amount, ..self }),
    {
        TransferBuilder { amount: Some(amount.to_string()), ..self }
    }

    /// Sets the sender's own reference.
    pub fn my_reference(self, reference: &str) -> (r: TransferBuilder)
        ensures
            holds(r.my_reference, reference),
            r == (TransferBuilder { my_reference: r.my_reference, ..self }),
    {
        TransferBuilder { my_reference: Some(reference.to_string()), ..self }
    }

    /// Sets the reference the receiving account sees.
    pub fn their_reference(self, reference: &str) -> (r: TransferBuilder)
        ensures
            holds(r.their_reference, reference),
            r == (TransferBuilder { their_reference: r.their_reference, ..self }),
    {
        TransferBuilder { their_reference: Some(reference.to_string()), ..self }
    }
}

} // verus!
