use wg_dark::client::JoinResponse;
use wg_dark::client::classify_response;
use wg_dark::client::join_url;
use wg_dark::client::status_url;
use wg_dark::errors::DarkError;

#[test]
fn a_403_join_response_yields_server_error_403() {
    let r = classify_response::<JoinResponse>(Some((403, None)));
    assert_eq!(r.unwrap_err(), DarkError::ServerError(403));
}

#[test]
fn a_transport_failure_yields_network_error() {
    let r = classify_response::<JoinResponse>(None);
    assert_eq!(r.unwrap_err(), DarkError::NetworkError);
}

#[test]
fn an_undecodable_2xx_body_yields_deserialization_error() {
    let r = classify_response::<JoinResponse>(Some((200, None)));
    assert_eq!(r.unwrap_err(), DarkError::DeserializationError);
}

#[test]
fn a_decoded_2xx_body_is_returned() {
    let resp = JoinResponse { address: "10.13.37.5/24".to_string(), pubkey: "PK".to_string() };
    let r = classify_response(Some((200, Some(resp)))).unwrap();
    assert_eq!(r.address, "10.13.37.5/24");
    assert_eq!(r.pubkey, "PK");
}

#[test]
fn every_2xx_status_is_a_success_and_nothing_else() {
    for status in [200u16, 201, 204, 299] {
        assert!(classify_response::<u8>(Some((status, Some(1)))).is_ok());
    }
    for status in [100u16, 199, 300, 301, 404, 500] {
        assert_eq!(
            classify_response::<u8>(Some((status, Some(1)))).unwrap_err(),
            DarkError::ServerError(status)
        );
    }
}

#[test]
fn the_join_url_names_the_invite_endpoint() {
    assert_eq!(join_url("10.0.0.1", "51820"), "https://10.0.0.1:51820/join");
}

#[test]
fn the_status_url_is_the_tunnel_loopback_listener() {
    assert_eq!(status_url(), "http://10.13.37.1:1337/status");
}
