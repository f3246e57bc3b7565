use actix_relay::envelope::HEADER_LEN;

#[test]
fn it_works() {
    assert_eq!(2 + 2, 4);
}

#[test]
fn header_is_sixteen_bytes() {
    assert_eq!(HEADER_LEN, 16);
}
