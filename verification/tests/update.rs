use squeak::update::{firmware_url, version_from_reply};

#[test]
fn url_carries_the_product_id() {
    // 0x3434 * 65536 + 0xD028 = 875876392
    assert_eq!(
        firmware_url(0x3434, 0xD028),
        "https://launcher.keychron.cn/api/merchandise/product/vpId/875876392"
    );
    assert_eq!(
        firmware_url(0, 0),
        "https://launcher.keychron.cn/api/merchandise/product/vpId/0"
    );
}

#[test]
fn reply_yields_the_latest_version() {
    let body = r#"{"code":0,"data":{"firmware":{"lasted":{"version":"0.1.7","size":1}}}}"#;
    assert_eq!(version_from_reply(body), Some("0.1.7".to_string()));
}

#[test]
fn reply_without_a_version_string_yields_none() {
    assert_eq!(version_from_reply(r#"{"data":{"firmware":{}}}"#), None);
    assert_eq!(version_from_reply(r#"{"data":{"firmware":{"lasted":{"version":7}}}}"#), None);
    assert_eq!(version_from_reply("not json"), None);
}
