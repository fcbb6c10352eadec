use producer::delivery::{LoggingProducerContext, ProducerDeliveryOpaque};

#[test]
fn delivery_reports_success() {
    let context = LoggingProducerContext;
    let report = context.delivery(Ok(()), ProducerDeliveryOpaque::new());
    assert_eq!(report.outcome, Ok(()));
    assert!(report.elapsed_ms < 20_000);
}

#[test]
fn delivery_reports_failure() {
    let context = LoggingProducerContext;
    let report = context.delivery(Err(String::from("MessageTimedOut")), ProducerDeliveryOpaque::new());
    assert_eq!(report.outcome, Err(String::from("MessageTimedOut")));
}
