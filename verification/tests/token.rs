use coap::message::token::Token;

#[test]
fn token_keeps_first_eight_bytes() {
    let token = Token::new(&[1, 2, 3, 4, 5, 6, 7, 8, 9, 10]);
    assert_eq!(token.len(), 8);
    assert_eq!(token.to_bytes(), &[1, 2, 3, 4, 5, 6, 7, 8]);
}
