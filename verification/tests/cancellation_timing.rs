use std::time::Duration;
use std::time::Instant;

use prompt_enhancer::enhancer::{HttpPromptEnhancerClient, SendEvent};
use tokio_util::sync::CancellationToken;

/// A slow transport (200 ms) raced against a cancellation fired at 50 ms:
/// the cancellation outcome comes back well before the transport would
/// have resolved.
#[test]
fn cancellation_beats_slow_work() {
    let rt = tokio::runtime::Builder::new_current_thread()
        .enable_time()
        .build()
        .expect("runtime");
    rt.block_on(async {
        let cancel = CancellationToken::new();
        let trigger = cancel.clone();
        tokio::spawn(async move {
            tokio::time::sleep(Duration::from_millis(50)).await;
            trigger.cancel();
        });

        let started = Instant::now();
        // the transport needs 200 ms; whichever resolves first becomes the event
        let won = tokio::time::timeout(Duration::from_millis(200), cancel.cancelled()).await;
        let event = match won {
            Ok(()) => SendEvent::Cancelled,
            Err(_) => SendEvent::Response { status: 200 },
        };
        let err = HttpPromptEnhancerClient::after_send(event, cancel.is_cancelled())
            .expect_err("cancelled");
        assert_eq!(err.message, "cancelled");
        assert!(started.elapsed() < Duration::from_millis(200));
    });
}
