use socket_activation::port::{connection_url, port_in_range, PORT_MAX, PORT_MIN};

#[test]
fn ports_are_accepted() {
    assert_eq!(port_in_range("1"), Ok(1));
    assert_eq!(port_in_range("80"), Ok(80));
    assert_eq!(port_in_range("8080"), Ok(8080));
    assert_eq!(port_in_range("65535"), Ok(65535));
    assert_eq!(port_in_range("+443"), Ok(443));
    assert_eq!(port_in_range("00022"), Ok(22));
}

#[test]
fn numbers_that_are_no_ports_are_refused() {
    let message = Err(String::from("port not in range 1-65535"));
    assert_eq!(port_in_range("0"), message);
    assert_eq!(port_in_range("65536"), message);
    assert_eq!(port_in_range("131072"), message);
    assert_eq!(port_in_range(&usize::MAX.to_string()), message);
}

#[test]
fn texts_that_are_no_numbers_are_refused() {
    assert_eq!(port_in_range("http"), Err(String::from("`http` isn't a port number")));
    assert_eq!(port_in_range(""), Err(String::from("`` isn't a port number")));
    assert_eq!(port_in_range("-1"), Err(String::from("`-1` isn't a port number")));
    assert_eq!(port_in_range(" 80"), Err(String::from("` 80` isn't a port number")));
    assert_eq!(port_in_range("80.0"), Err(String::from("`80.0` isn't a port number")));
}

#[test]
fn numbers_that_do_not_fit_are_no_numbers() {
    let text = "18446744073709551616";
    let message = "`18446744073709551616` isn't a port number";
    assert_eq!(port_in_range(text), Err(String::from(message)));
}

#[test]
fn every_port_is_asked_for_by_its_decimal_text() {
    for port in PORT_MIN..=PORT_MAX {
        assert_eq!(port_in_range(&port.to_string()), Ok(port as u16));
    }
}

#[test]
fn an_accepted_port_is_never_zero() {
    for text in ["0", "+0", "00000", "65536"] {
        assert!(port_in_range(text).is_err());
    }
}

#[test]
fn addresses_join_host_and_port() {
    assert_eq!(connection_url("localhost", 8080), "localhost:8080");
    assert_eq!(connection_url("::1", 1), "::1:1");
    assert_eq!(connection_url("", 65535), ":65535");
}

#[test]
fn the_port_of_an_address_is_read_back() {
    for port in [1u16, 9, 10, 443, 65535] {
        let url = connection_url("example.org", port);
        assert!(url.starts_with("example.org"));
        assert_eq!(port_in_range(&url["example.org:".len()..]), Ok(port));
    }
}
