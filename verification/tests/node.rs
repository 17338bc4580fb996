use efm::node::{candidate_info, CandidateInfo, NodeError, SERVICE_TXT_MAC_NAME};

fn some(text: &str) -> Option<String> {
    Some(text.to_string())
}

#[test]
fn hardware_address_record_key() {
    assert_eq!(SERVICE_TXT_MAC_NAME, "mac");
}

#[test]
fn announcement_with_address_and_mac_describes_a_device() {
    assert_eq!(
        candidate_info("esp-1.local.", some("192.168.1.7"), some("aa:bb:cc:dd:ee:ff")),
        Ok(CandidateInfo {
            hostname: "esp-1.local.".to_string(),
            address: "192.168.1.7".to_string(),
            mac_address: "aa:bb:cc:dd:ee:ff".to_string(),
        })
    );
}

#[test]
fn hostname_keeps_its_domain() {
    let info = candidate_info("esp-1.local.", some("10.0.0.1"), some("m")).unwrap();
    assert_eq!(info.hostname, "esp-1.local.");
    let bare = candidate_info("", some(""), some("")).unwrap();
    assert_eq!(bare, CandidateInfo::default());
}

#[test]
fn announcement_without_address_is_refused() {
    assert_eq!(candidate_info("esp-1.local.", None, some("aa:bb")), Err(NodeError::MissingAddress));
}

#[test]
fn announcement_without_mac_is_refused() {
    assert_eq!(candidate_info("esp-1.local.", some("10.0.0.1"), None), Err(NodeError::MissingMac));
}

#[test]
fn missing_address_is_told_first() {
    assert_eq!(candidate_info("esp-1.local.", None, None), Err(NodeError::MissingAddress));
}

#[test]
fn candidate_info_clone_is_equal() {
    let info = candidate_info("esp-1.local.", some("10.0.0.1"), some("m")).unwrap();
    assert_eq!(info.clone(), info);
}
