use std::sync::{Arc, Mutex};

use sockpuppet::error::ProxyError;
use sockpuppet::target::{control_reply, is_valid_target, update_target, TargetRegister};

#[test]
fn target_validation_examples() {
    assert!(is_valid_target("127.0.0.1:8080"));
    assert!(!is_valid_target("localhost:8080"));
    assert!(!is_valid_target("127.0.0.1:80800000"));
    assert!(!is_valid_target("127.0.0.1"));
}

#[test]
fn target_validation_edges() {
    assert!(is_valid_target("1.2.3.4:12345"));
    assert!(is_valid_target("999.999.999.999:9999"));
    assert!(!is_valid_target("127.0.0.1:80"));
    assert!(!is_valid_target("1234.0.0.1:8080"));
    assert!(!is_valid_target("127.0.0.1:8080\n"));
    assert!(!is_valid_target(" 127.0.0.1:8080"));
    assert!(!is_valid_target("127.0.0:8080"));
    assert!(!is_valid_target("\u{661}\u{662}\u{667}.0.0.1:8080"));
    assert!(!is_valid_target(""));
}

#[test]
fn register_update_and_read() {
    let mut reg = TargetRegister::new("127.0.0.1:6868".to_string());
    assert_eq!(reg.get(), "127.0.0.1:6868");
    assert_eq!(update_target(&mut reg, "127.0.0.1:9000".to_string()), Ok(()));
    assert_eq!(reg.get(), "127.0.0.1:9000");
    assert_eq!(
        update_target(&mut reg, "localhost:9000".to_string()),
        Err(ProxyError::InvalidTargetFormat)
    );
    assert_eq!(reg.get(), "127.0.0.1:9000");
}

#[test]
fn register_set_twice_and_last_writer() {
    let mut reg = TargetRegister::new("127.0.0.1:6868".to_string());
    assert_eq!(update_target(&mut reg, "10.0.0.1:8080".to_string()), Ok(()));
    assert_eq!(update_target(&mut reg, "10.0.0.1:8080".to_string()), Ok(()));
    assert_eq!(reg.get(), "10.0.0.1:8080");
    reg.set("10.0.0.2:8081".to_string());
    assert!(update_target(&mut reg, "10.0.0.3".to_string()).is_err());
    assert_eq!(reg.get(), "10.0.0.2:8081");
}

#[test]
fn control_replies() {
    assert_eq!(control_reply(Ok(())), (200, "Proxy updated".to_string()));
    assert_eq!(
        control_reply(Err(ProxyError::InvalidTargetFormat)),
        (400, "Invalid address".to_string())
    );
}

#[test]
fn register_reads_never_see_partial_writes() {
    let old = "127.0.0.1:6868".to_string();
    let new = "192.168.100.200:54321".to_string();
    let reg = Arc::new(Mutex::new(TargetRegister::new(old.clone())));
    let rt = tokio::runtime::Builder::new_multi_thread()
        .worker_threads(4)
        .build()
        .unwrap();
    rt.block_on(async {
        let mut tasks = Vec::new();
        for w in 0..2 {
            let reg = reg.clone();
            let (a, b) = (old.clone(), new.clone());
            tasks.push(tokio::spawn(async move {
                for i in 0..2000 {
                    let v = if (i + w) % 2 == 0 { a.clone() } else { b.clone() };
                    update_target(&mut reg.lock().unwrap(), v).unwrap();
                    tokio::task::yield_now().await;
                }
            }));
        }
        for _ in 0..4 {
            let reg = reg.clone();
            let (a, b) = (old.clone(), new.clone());
            tasks.push(tokio::spawn(async move {
                for _ in 0..2000 {
                    let v = reg.lock().unwrap().get();
                    assert!(v == a || v == b, "{}", v);
                    tokio::task::yield_now().await;
                }
            }));
        }
        for t in tasks {
            t.await.unwrap();
        }
    });
}
