use investec::request::{MultiTransferRequest, MutliPaymentRequest, Payment, TransferBuilder};
use investec::Error;

const ACCOUNT: &str = "3353431574710163189587446";

#[test]
fn transfer_builds_with_all_fields() {
    let t = TransferBuilder::new()
        .beneficiary_account_id(ACCOUNT)
        .amount_text("10")
        .my_reference("test")
        .their_reference("test theirs")
        .build()
        .unwrap();
    assert_eq!(t.beneficiary_account_id, ACCOUNT);
    assert_eq!(t.amount, "10");
    assert_eq!(t.my_reference, "test");
    assert_eq!(t.their_reference, "test theirs");
}

#[test]
fn transfer_names_the_missing_field() {
    let r = TransferBuilder::new().amount_text("1").build();
    assert!(
        matches!(r, Err(Error::TransferRequestFieldUndefined { field }) if field == "beneficiary_account_id")
    );
    let r = TransferBuilder::new().beneficiary_account_id(ACCOUNT).build();
    assert!(matches!(r, Err(Error::TransferRequestFieldUndefined { field }) if field == "amount"));
    let r = TransferBuilder::new().beneficiary_account_id(ACCOUNT).amount_text("1").build();
    assert!(
        matches!(r, Err(Error::TransferRequestFieldUndefined { field }) if field == "my_reference")
    );
    let r = TransferBuilder::new()
        .beneficiary_account_id(ACCOUNT)
        .amount_text("1")
        .my_reference("m")
        .build();
    assert!(
        matches!(r, Err(Error::TransferRequestFieldUndefined { field }) if field == "their_reference")
    );
}

#[test]
fn multi_transfer_keeps_order() {
    let t1 = TransferBuilder::new()
        .beneficiary_account_id(ACCOUNT)
        .amount_text("10")
        .my_reference("test")
        .their_reference("test theirs")
        .build()
        .unwrap();
    let t2 = TransferBuilder::new()
        .beneficiary_account_id(ACCOUNT)
        .amount_text("1")
        .my_reference("test2")
        .their_reference("test2 theirs")
        .build()
        .unwrap();
    let req = MultiTransferRequest::new(vec![t1, t2], None);
    assert_eq!(req.transfer_list.len(), 2);
    assert_eq!(req.transfer_list[0].my_reference, "test");
    assert_eq!(req.transfer_list[1].my_reference, "test2");
    assert_eq!(req.profile_id, None);
    let req = MultiTransferRequest::new(vec![], Some("10163189587444".to_string()));
    assert_eq!(req.profile_id.as_deref(), Some("10163189587444"));
}

#[test]
fn payment_builds_with_optional_fields() {
    let p = Payment::to("beneficiary")
        .amount_text("12.5")
        .my_reference("mine")
        .their_reference("theirs")
        .authoriser_a_id("a")
        .authoriser_b_id("b")
        .auth_period_id("p")
        .faster_payment()
        .build()
        .unwrap();
    assert_eq!(p.beneficiary_id, "beneficiary");
    assert_eq!(p.amount, "12.5");
    assert_eq!(p.my_reference, "mine");
    assert_eq!(p.their_reference, "theirs");
    assert_eq!(p.authoriser_a_id.as_deref(), Some("a"));
    assert_eq!(p.authoriser_b_id.as_deref(), Some("b"));
    assert_eq!(p.auth_period_id.as_deref(), Some("p"));
    assert_eq!(p.faster_payment, Some(true));
    let batch = MutliPaymentRequest::new(vec![p]);
    assert_eq!(batch.payment_list.len(), 1);
}

#[test]
fn payment_optional_fields_default_to_absent() {
    let p = Payment::to("b").amount_text("1").my_reference("m").their_reference("t").build().unwrap();
    assert_eq!(p.authoriser_a_id, None);
    assert_eq!(p.authoriser_b_id, None);
    assert_eq!(p.auth_period_id, None);
    assert_eq!(p.faster_payment, None);
}

#[test]
fn payment_names_the_missing_field() {
    let r = Payment::to("b").build();
    assert!(matches!(r, Err(Error::PaymentFieldUndefined { field }) if field == "amount"));
    let r = Payment::to("b").amount_text("1").build();
    assert!(matches!(r, Err(Error::PaymentFieldUndefined { field }) if field == "my_reference"));
    let r = Payment::to("b").amount_text("1").my_reference("m").build();
    assert!(matches!(r, Err(Error::PaymentFieldUndefined { field }) if field == "their_reference"));
}
