use cursor_manager::mac::MacAddress;

#[test]
fn text_of_an_address_is_lower_case_hex_with_colons() {
    let address = MacAddress { octets: [0x02, 0x00, 0x0a, 0xff, 0x41, 0x7a] };
    assert_eq!(address.to_text(), "02:00:0a:ff:41:7a");
}
