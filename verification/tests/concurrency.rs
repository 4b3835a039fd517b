use edgehog_device_runtime::message::{InboundMessage, Payload};
use edgehog_device_runtime::router::{route, Dispatch, OTA_REQUEST_INTERFACE};
use edgehog_device_runtime::sequencer::QUEUE_CAPACITY;
use edgehog_device_runtime::TelemetryInterfaceConfig;
use std::sync::Arc;

fn update_request(producer: usize, number: u32) -> InboundMessage<(usize, u32), ()> {
    InboundMessage {
        interface: OTA_REQUEST_INTERFACE.to_string(),
        path: "/request".to_string(),
        payload: Payload::Object((producer, number)),
    }
}

#[test]
fn update_queue_keeps_the_arrival_order_of_each_producer() {
    let runtime = tokio::runtime::Builder::new_current_thread()
        .build()
        .unwrap();
    runtime.block_on(async {
        let (tx, mut rx) = tokio::sync::mpsc::channel::<(usize, u32)>(QUEUE_CAPACITY);
        for producer in 0..3usize {
            let tx = tx.clone();
            tokio::spawn(async move {
                for number in 0..100u32 {
                    match route(update_request(producer, number)) {
                        Dispatch::Update(data) => tx.send(data).await.unwrap(),
                        other => panic!("{:?}", other),
                    }
                    if number % 7 == 0 {
                        tokio::task::yield_now().await;
                    }
                }
            });
        }
        drop(tx);

        let mut next = [0u32; 3];
        let mut received = 0;
        while let Some((producer, number)) = rx.recv().await {
            assert_eq!(number, next[producer]);
            next[producer] += 1;
            received += 1;
        }
        assert_eq!(received, 300);
        assert_eq!(next, [100, 100, 100]);
    });
}

#[test]
fn full_update_queue_holds_the_producer_back() {
    let runtime = tokio::runtime::Builder::new_current_thread()
        .build()
        .unwrap();
    runtime.block_on(async {
        let (tx, mut rx) = tokio::sync::mpsc::channel::<u32>(QUEUE_CAPACITY);
        for number in 0..32u32 {
            tx.try_send(number).unwrap();
        }
        assert!(tx.try_send(32).is_err());
        assert_eq!(rx.recv().await, Some(0));
        tx.try_send(32).unwrap();
        for number in 1..33u32 {
            assert_eq!(rx.recv().await, Some(number));
        }
    });
}

#[test]
fn telemetry_configuration_is_never_seen_half_written() {
    let runtime = tokio::runtime::Builder::new_current_thread()
        .build()
        .unwrap();
    runtime.block_on(async {
        let shared = Arc::new(tokio::sync::RwLock::new(TelemetryInterfaceConfig {
            interface_name: "io.edgehog.devicemanager.SystemStatus".to_string(),
            enabled: Some(true),
            period: Some(0),
        }));
        let mut tasks = Vec::new();
        for writer in 0..4u64 {
            let shared = shared.clone();
            tasks.push(tokio::spawn(async move {
                for round in 0..50u64 {
                    let period = round * 4 + writer;
                    let mut config = shared.write().await;
                    config.period = Some(period);
                    tokio::task::yield_now().await;
                    config.enabled = Some(period % 2 == 0);
                }
            }));
        }
        for _ in 0..4 {
            let shared = shared.clone();
            tasks.push(tokio::spawn(async move {
                for _ in 0..50 {
                    let config = shared.read().await;
                    let period = config.period.unwrap();
                    assert_eq!(config.enabled, Some(period % 2 == 0));
                    drop(config);
                    tokio::task::yield_now().await;
                }
            }));
        }
        for task in tasks {
            task.await.unwrap();
        }
    });
}
