use sockpuppet::handshake::parse_request;
use sockpuppet::target::{update_target, TargetRegister};
use sockpuppet::upstream::{plan_upstream, Mode};

#[test]
fn direct_mode_connects_to_destination() {
    let req = parse_request(&[5u8, 1, 0, 1, 93, 184, 216, 34, 0, 80]).unwrap();
    let plan = plan_upstream(Mode::Direct, &req, "127.0.0.1:9000".to_string());
    assert_eq!(plan.address, "93.184.216.34:80");
    assert_eq!(plan.forward, None);
    assert_eq!(plan.client_reply, Some(vec![5u8, 0, 0, 1, 0, 0, 0, 0, 0, 0]));
}

#[test]
fn redirect_mode_uses_register_target() {
    for buf in [
        vec![5u8, 1, 0, 1, 93, 184, 216, 34, 0, 80],
        vec![5u8, 1, 0, 3, 3, b'a', b'b', b'c', 1, 187],
    ] {
        let req = parse_request(&buf).unwrap();
        let plan = plan_upstream(Mode::RedirectForward, &req, "127.0.0.1:9000".to_string());
        assert_eq!(plan.address, "127.0.0.1:9000");
        assert_eq!(plan.forward, Some(buf.clone()));
        assert_eq!(plan.client_reply, None);
        let plan = plan_upstream(Mode::RedirectLocalReply, &req, "127.0.0.1:9000".to_string());
        assert_eq!(plan.address, "127.0.0.1:9000");
        assert_eq!(plan.forward, None);
        assert_eq!(plan.client_reply, Some(vec![5u8, 0, 0, 1, 127, 0, 0, 1, 0, 0]));
    }
}

#[test]
fn redirect_follows_register_update() {
    let mut reg = TargetRegister::new("127.0.0.1:6868".to_string());
    update_target(&mut reg, "127.0.0.1:9000".to_string()).unwrap();
    let req = parse_request(&[5u8, 1, 0, 1, 93, 184, 216, 34, 0, 80]).unwrap();
    let plan = plan_upstream(Mode::RedirectForward, &req, reg.get());
    assert_eq!(plan.address, "127.0.0.1:9000");
}
