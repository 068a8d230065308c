use local_stargate::client::classify_response;
use local_stargate::client::plan_send;
use local_stargate::client::status_is_success;
use local_stargate::client::u16_decimal;
use local_stargate::client::upload_url;
use local_stargate::client::ClientError;
use local_stargate::client::SendAction;
use local_stargate::listener::plan_upload;
use local_stargate::listener::ListenerSettings;

#[test]
fn failed_read_aborts_before_any_network_activity() {
    let path = b"/no/such/file".to_vec();
    let host = b"127.0.0.1".to_vec();
    match plan_send(&path, &host, 3033, None) {
        SendAction::Abort(e) => assert_eq!(e, ClientError::LocalRead),
        SendAction::Dispatch(_) => panic!("a failed read must dispatch nothing"),
    }
}

#[test]
fn successful_read_dispatches_one_request() {
    let path = b"/home/user/report.pdf".to_vec();
    let host = b"127.0.0.1".to_vec();
    let body = vec![7u8, 8, 9];
    match plan_send(&path, &host, 3033, Some(body.clone())) {
        SendAction::Dispatch(req) => {
            assert_eq!(req.url, b"http://127.0.0.1:3033/upload".to_vec());
            assert_eq!(req.file_name, b"report.pdf".to_vec());
            assert_eq!(req.body, body);
        }
        SendAction::Abort(_) => panic!("a successful read must dispatch"),
    }
}

#[test]
fn hint_never_leaks_the_local_directory() {
    let path = b"/home/user/secret/notes.txt".to_vec();
    let host = b"10.0.0.2".to_vec();
    match plan_send(&path, &host, 3033, Some(Vec::new())) {
        SendAction::Dispatch(req) => assert_eq!(req.file_name, b"notes.txt".to_vec()),
        SendAction::Abort(_) => panic!("a successful read must dispatch"),
    }
}

#[test]
fn pathless_name_falls_back_to_unknown() {
    let path = b"/home/user/".to_vec();
    let host = b"10.0.0.2".to_vec();
    match plan_send(&path, &host, 3033, Some(Vec::new())) {
        SendAction::Dispatch(req) => assert_eq!(req.file_name, b"unknown_file".to_vec()),
        SendAction::Abort(_) => panic!("a successful read must dispatch"),
    }
}

#[test]
fn round_trip_ten_megabytes() {
    // A 10 MB patterned payload goes through the client's plan and the
    // listener's plan: it lands under its own base name, byte-identical.
    let mut body = Vec::with_capacity(10 * 1024 * 1024);
    for i in 0..(10 * 1024 * 1024) {
        body.push((i % 251) as u8);
    }
    let path = b"/home/user/report.pdf".to_vec();
    let host = b"127.0.0.1".to_vec();
    let req = match plan_send(&path, &host, 3033, Some(body.clone())) {
        SendAction::Dispatch(req) => req,
        SendAction::Abort(_) => panic!("a successful read must dispatch"),
    };
    let settings = ListenerSettings::standard();
    let w = plan_upload(
        &settings,
        Some(b"/downloads".to_vec()),
        Some(req.file_name),
        req.body,
    )
    .unwrap();
    assert_eq!(w.path, b"/downloads/report.pdf".to_vec());
    assert_eq!(w.contents, body);
}

#[test]
fn port_digits() {
    assert_eq!(u16_decimal(3033), b"3033".to_vec());
    assert_eq!(u16_decimal(0), b"0".to_vec());
    assert_eq!(u16_decimal(80), b"80".to_vec());
    assert_eq!(u16_decimal(65535), b"65535".to_vec());
}

#[test]
fn url_of_host_and_port() {
    assert_eq!(
        upload_url(&b"10.0.0.2".to_vec(), 80),
        b"http://10.0.0.2:80/upload".to_vec()
    );
}

#[test]
fn success_statuses() {
    assert!(status_is_success(200));
    assert!(status_is_success(204));
    assert!(status_is_success(299));
    assert!(!status_is_success(199));
    assert!(!status_is_success(300));
    assert!(!status_is_success(404));
    assert!(!status_is_success(500));
}

#[test]
fn client_failures_are_described() {
    assert_eq!(ClientError::LocalRead.describe(), "the local file could not be read");
    assert_eq!(ClientError::Network.describe(), "the peer could not be reached");
    assert_eq!(ClientError::PeerRejected(404).describe(), "the peer refused the upload");
}

#[test]
fn responses_are_classified() {
    assert_eq!(classify_response(Some(200)), Ok(()));
    assert_eq!(classify_response(Some(204)), Ok(()));
    assert_eq!(classify_response(Some(404)), Err(ClientError::PeerRejected(404)));
    assert_eq!(classify_response(Some(500)), Err(ClientError::PeerRejected(500)));
    assert_eq!(classify_response(None), Err(ClientError::Network));
}
