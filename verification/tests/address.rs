use capi_wasm::address::Address;

const ZERO_ADDRESS: &str = "AAAAAAAAAAAAAAAAAAAAAAAAAAAAAAAAAAAAAAAAAAAAAAAAAAAAY5HFKQ";
const ONES_ADDRESS: &str = "AEAQCAIBAEAQCAIBAEAQCAIBAEAQCAIBAEAQCAIBAEAQCAIBAEA5RCDXMI";

#[test]
fn parses_address_texts() {
    assert_eq!(Address::parse(ZERO_ADDRESS), Ok(Address { bytes: [0u8; 32] }));
    assert_eq!(Address::parse(ONES_ADDRESS), Ok(Address { bytes: [1u8; 32] }));
}

#[test]
fn refuses_texts_that_are_no_address() {
    assert!(Address::parse("abc").is_err());
    assert!(Address::parse("").is_err());
    // the checksum of the zero key does not fit the key of ones
    let wrong = format!("{}Y5HFKQ", &ONES_ADDRESS[..52]);
    assert!(Address::parse(&wrong).is_err());
}

#[test]
fn writes_addresses_and_reads_them_back() {
    assert_eq!(Address { bytes: [0u8; 32] }.to_text(), ZERO_ADDRESS);
    let mut bytes = [0u8; 32];
    for (i, b) in bytes.iter_mut().enumerate() {
        *b = (i * 7) as u8;
    }
    let a = Address { bytes };
    let text = a.to_text();
    assert_eq!(text.len(), 58);
    assert_eq!(Address::parse(&text), Ok(a));
}
