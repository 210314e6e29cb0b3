use boca::{render, RenderResult, DELIVERY_CAPACITY};
use tokio::sync::mpsc::{channel, error::TrySendError};

#[test]
fn full_channel_holds_back_without_dropping() {
    assert_eq!(DELIVERY_CAPACITY, 30);
    let (tx, mut rx) = channel::<RenderResult>(DELIVERY_CAPACITY);
    for i in 0..DELIVERY_CAPACITY {
        let text = format!("# Update {}", i);
        assert!(tx.try_send(render(&text, false)).is_ok());
    }
    match tx.try_send(render("# Update 30", false)) {
        Err(TrySendError::Full(r)) => assert_eq!(r.body(), "<h1>Update 30</h1>"),
        _ => panic!("the push beyond capacity must wait"),
    }
    let first = rx.try_recv().expect("the first update is still there");
    assert_eq!(first.body(), "<h1>Update 0</h1>");
    assert!(tx.try_send(render("# Update 30", false)).is_ok());
}
