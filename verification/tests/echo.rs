//! The echoing backend.

use std::time::Duration;

use fungi_transport::echo::{echo_received, echo_sent, Echo, EchoBuilder};
use fungi_transport::error::{RecvError, SendError};

async fn send(echo: &mut Echo, message: Vec<u8>) -> Result<(), SendError> {
    let (sender, _) = echo.split();
    echo_sent(sender.sender.send(message).await.is_ok())
}

async fn recv(echo: &mut Echo) -> Result<Vec<u8>, RecvError> {
    let (_, receiver) = echo.split();
    echo_received(receiver.receiver.recv().await)
}

#[test]
fn echo_supports_owned_and_borrowed_operations_and_reports_closure() {
    let runtime = tokio::runtime::Builder::new_current_thread()
        .enable_all()
        .start_paused(true)
        .build()
        .unwrap();
    runtime.block_on(async {
        tokio::time::timeout(Duration::from_secs(5), async {
            let mut echo = EchoBuilder.build(&Vec::new()).unwrap();
            send(&mut echo, vec![42]).await.unwrap();
            assert_eq!(recv(&mut echo).await.unwrap(), vec![42]);
            {
                let (sender, receiver) = echo.split();
                echo_sent(sender.sender.send(Vec::new()).await.is_ok()).unwrap();
                let received = receiver.receiver.recv().await;
                assert!(echo_received(received).unwrap().is_empty());
                receiver.receiver.close();
            }
            assert!(matches!(send(&mut echo, vec![1]).await, Err(SendError::Closed)));
            assert!(matches!(recv(&mut echo).await, Err(RecvError::Closed)));
            let (sender, receiver) = echo.split();
            let sent = sender.sender.send(vec![1]).await.is_ok();
            assert!(matches!(echo_sent(sent), Err(SendError::Closed)));
            let received = receiver.receiver.recv().await;
            assert!(matches!(echo_received(received), Err(RecvError::Closed)));
        })
        .await
        .unwrap();
    });
}

#[test]
fn echo_holds_one_message_at_a_time() {
    let mut echo = EchoBuilder.build(&vec![1, 2, 3]).unwrap();
    let (sender, receiver) = echo.split();
    sender.sender.try_send(vec![7]).unwrap();
    assert!(sender.sender.try_send(vec![8]).is_err());
    assert_eq!(receiver.receiver.try_recv().unwrap(), vec![7]);
}
