//! The gateway's exchanges, driven by hand and against the real signer.

use aws_sdk_s3::config::BehaviorVersion;
use aws_sdk_s3::config::Credentials;
use aws_sdk_s3::config::Region;
use aws_sdk_s3::Client;
use s3_gateway::error::GatewayError;
use s3_gateway::exchange::Action;
use s3_gateway::exchange::Event;
use s3_gateway::exchange::Exchange;
use s3_gateway::exchange::Operation;
use s3_gateway::exchange::Phase;
use s3_gateway::exchange::Verb;
use s3_gateway::presigning::grant_terms;
use s3_gateway::presigning::GRANT_LIFETIME_SECS;
use s3_gateway::presigning::MAX_GRANT_LIFETIME_SECS;
use s3_gateway::s3::AwsS3Manager;
use std::time::Duration;

fn gateway() -> AwsS3Manager {
    AwsS3Manager::new("media-assets".to_string(), "us-east-1".to_string())
}

/// A session that signs with fixed credentials and never touches the network.
fn offline_session(region: String) -> Client {
    let config = aws_sdk_s3::Config::builder()
        .behavior_version(BehaviorVersion::latest())
        .region(Region::new(region))
        .credentials_provider(Credentials::new("test-key-id", "test-key", None, None, "fixed"))
        .build();
    Client::from_conf(config)
}

/// Does what the exchange asks for until it ends; a direct write is answered
/// with `stored`.
fn drive(begun: (Exchange, Action), stored: bool) -> Action {
    let runtime = tokio::runtime::Builder::new_current_thread()
        .enable_time()
        .build()
        .unwrap();
    let (mut exchange, mut action) = begun;
    let mut session: Option<Client> = None;
    loop {
        let event = match action {
            Action::OpenSession { region } => {
                session = Some(offline_session(region));
                Event::SessionOpened
            }
            Action::Sign { verb, bucket, key, terms } => {
                let client = session.as_ref().unwrap();
                let config = terms.config().clone();
                let signed = match verb {
                    Verb::Put => runtime
                        .block_on(client.put_object().bucket(bucket).key(key).presigned(config))
                        .map(|request| request.uri().to_string())
                        .ok(),
                    Verb::Get => runtime
                        .block_on(client.get_object().bucket(bucket).key(key).presigned(config))
                        .map(|request| request.uri().to_string())
                        .ok(),
                };
                match signed {
                    Some(url) => Event::Signed(url),
                    None => Event::SigningFailed,
                }
            }
            Action::Transfer { .. } => {
                if stored {
                    Event::Transferred
                } else {
                    Event::TransferFailed
                }
            }
            last => {
                assert_eq!(exchange.phase(), Phase::Finished);
                return last;
            }
        };
        action = exchange.step(event).unwrap();
    }
}

fn granted(last: Action) -> String {
    match last {
        Action::Grant(url) => url,
        other => panic!("no grant: {:?}", other),
    }
}

#[test]
fn new_keeps_bucket_and_region() {
    let gateway = gateway();
    assert_eq!(gateway.bucket(), "media-assets");
    assert_eq!(gateway.region(), "us-east-1");
}

#[test]
fn every_operation_begins_with_a_fresh_session() {
    let gateway = gateway();
    for begun in [
        gateway.create_upload_url("a".to_string()),
        gateway.get_object("a".to_string()),
        gateway.send("a".to_string()),
    ] {
        assert_eq!(begun.0.phase(), Phase::AwaitingSession);
        assert!(matches!(begun.1, Action::OpenSession { region } if region == "us-east-1"));
    }
    assert!(matches!(gateway.setup_client(), Action::OpenSession { region } if region == "us-east-1"));
}

#[test]
fn upload_grant_asks_for_a_put_signed_for_a_day() {
    let (mut exchange, _) = gateway().create_upload_url("avatars/42.png".to_string());
    assert_eq!(exchange.operation(), Operation::UploadGrant);
    match exchange.step(Event::SessionOpened) {
        Some(Action::Sign { verb, bucket, key, terms }) => {
            assert_eq!(verb, Verb::Put);
            assert_eq!(bucket, "media-assets");
            assert_eq!(key, "avatars/42.png");
            assert_eq!(terms.lifetime_secs(), 86_400);
            assert_eq!(terms.config().expires(), Duration::from_secs(86_400));
        }
        other => panic!("no signing request: {:?}", other),
    }
    assert_eq!(exchange.phase(), Phase::AwaitingSignature);
}

#[test]
fn download_grant_asks_for_a_get_signed_for_a_day() {
    let (mut exchange, _) = gateway().get_object("avatars/42.png".to_string());
    assert_eq!(exchange.operation(), Operation::DownloadGrant);
    match exchange.step(Event::SessionOpened) {
        Some(Action::Sign { verb, bucket, key, terms }) => {
            assert_eq!(verb, Verb::Get);
            assert_eq!(bucket, "media-assets");
            assert_eq!(key, "avatars/42.png");
            assert_eq!(terms.lifetime_secs(), 86_400);
            assert_eq!(terms.config().expires(), Duration::from_secs(86_400));
        }
        other => panic!("no signing request: {:?}", other),
    }
    assert_eq!(exchange.phase(), Phase::AwaitingSignature);
}

#[test]
fn direct_write_asks_for_the_transfer() {
    let (mut exchange, _) = gateway().send("teste.txt".to_string());
    assert_eq!(exchange.operation(), Operation::DirectWrite);
    match exchange.step(Event::SessionOpened) {
        Some(Action::Transfer { bucket, key }) => {
            assert_eq!(bucket, "media-assets");
            assert_eq!(key, "teste.txt");
        }
        other => panic!("no transfer: {:?}", other),
    }
    assert_eq!(exchange.phase(), Phase::AwaitingTransfer);
}

#[test]
fn grant_is_the_url_as_the_backend_made_it() {
    let (mut exchange, _) = gateway().create_upload_url("k".to_string());
    exchange.step(Event::SessionOpened).unwrap();
    let url = "https://media-assets.example/k?signature=1".to_string();
    match exchange.step(Event::Signed(url.clone())) {
        Some(Action::Grant(handed)) => assert_eq!(handed, url),
        other => panic!("no grant: {:?}", other),
    }
    assert_eq!(exchange.phase(), Phase::Finished);
}

#[test]
fn signing_failure_is_handed_on() {
    for begun in [gateway().create_upload_url("k".to_string()), gateway().get_object("k".to_string())] {
        let (mut exchange, _) = begun;
        exchange.step(Event::SessionOpened).unwrap();
        assert!(matches!(
            exchange.step(Event::SigningFailed),
            Some(Action::Fail(GatewayError::Signing))
        ));
        assert_eq!(exchange.phase(), Phase::Finished);
    }
}

#[test]
fn transfer_failure_is_handed_on() {
    assert!(matches!(
        drive(gateway().send("teste.txt".to_string()), false),
        Action::Fail(GatewayError::Transfer)
    ));
}

#[test]
fn events_out_of_turn_change_nothing() {
    let (mut exchange, _) = gateway().create_upload_url("k".to_string());
    assert!(exchange.step(Event::Signed("u".to_string())).is_none());
    assert!(exchange.step(Event::SigningFailed).is_none());
    assert!(exchange.step(Event::Transferred).is_none());
    assert!(exchange.step(Event::TransferFailed).is_none());
    assert_eq!(exchange.phase(), Phase::AwaitingSession);
    exchange.step(Event::SessionOpened).unwrap();
    assert!(exchange.step(Event::SessionOpened).is_none());
    assert!(exchange.step(Event::Transferred).is_none());
    assert_eq!(exchange.phase(), Phase::AwaitingSignature);

    let (mut write, _) = gateway().send("k".to_string());
    write.step(Event::SessionOpened).unwrap();
    assert!(write.step(Event::Signed("u".to_string())).is_none());
    assert!(write.step(Event::SigningFailed).is_none());
    assert_eq!(write.phase(), Phase::AwaitingTransfer);
}

#[test]
fn a_finished_exchange_takes_in_nothing() {
    let (mut exchange, _) = gateway().send("k".to_string());
    exchange.step(Event::SessionOpened).unwrap();
    assert!(matches!(exchange.step(Event::Transferred), Some(Action::Stored)));
    for event in [
        Event::SessionOpened,
        Event::Signed("u".to_string()),
        Event::SigningFailed,
        Event::Transferred,
        Event::TransferFailed,
    ] {
        assert!(exchange.step(event).is_none());
        assert_eq!(exchange.phase(), Phase::Finished);
    }
}

#[test]
fn an_exchange_begins_awaiting_its_session() {
    let exchange = Exchange::begin(Operation::DirectWrite, "b".to_string(), "k".to_string());
    assert_eq!(exchange.operation(), Operation::DirectWrite);
    assert_eq!(exchange.phase(), Phase::AwaitingSession);
}

#[test]
fn verbs_by_operation() {
    assert_eq!(Operation::UploadGrant.verb(), Some(Verb::Put));
    assert_eq!(Operation::DownloadGrant.verb(), Some(Verb::Get));
    assert_eq!(Operation::DirectWrite.verb(), None);
}

#[test]
fn grant_terms_up_to_a_week() {
    assert_eq!(GRANT_LIFETIME_SECS, 86_400);
    assert_eq!(MAX_GRANT_LIFETIME_SECS, 604_800);
    for secs in [0, 1, 86_400, 604_800] {
        let terms = grant_terms(secs).unwrap();
        assert_eq!(terms.lifetime_secs(), secs);
        assert_eq!(terms.config().expires(), Duration::from_secs(secs));
    }
}

#[test]
fn grant_terms_beyond_a_week_are_refused() {
    for secs in [604_801, 1_000_000, u64::MAX] {
        assert_eq!(grant_terms(secs).unwrap_err(), GatewayError::ExpiryConfiguration);
    }
}

#[test]
fn failures_say_what_failed() {
    assert_eq!(
        GatewayError::ExpiryConfiguration.message(),
        "Não conseguimos definir a duração da url"
    );
    assert_eq!(
        GatewayError::Signing.message(),
        "Não conseguimos gerar a uri do objeto requisitado"
    );
    assert_eq!(GatewayError::Transfer.message(), "Não conseguimos enviar o objeto requisitado");
}

#[test]
fn upload_url_names_bucket_key_verb_and_expiry() {
    let url = granted(drive(gateway().create_upload_url("avatars/42.png".to_string()), true));
    assert!(url.contains("media-assets"), "{}", url);
    assert!(url.contains("avatars/42.png"), "{}", url);
    assert!(url.contains("x-id=PutObject"), "{}", url);
    assert!(url.contains("X-Amz-Expires=86400"), "{}", url);
    assert!(url.contains("X-Amz-Signature="), "{}", url);
}

#[test]
fn download_url_names_bucket_key_verb_and_expiry() {
    let url = granted(drive(gateway().get_object("avatars/42.png".to_string()), true));
    assert!(url.contains("media-assets"), "{}", url);
    assert!(url.contains("avatars/42.png"), "{}", url);
    assert!(url.contains("x-id=GetObject"), "{}", url);
    assert!(url.contains("X-Amz-Expires=86400"), "{}", url);
    assert!(url.contains("X-Amz-Signature="), "{}", url);
}

#[test]
fn upload_and_download_urls_differ() {
    let upload = granted(drive(gateway().create_upload_url("avatars/42.png".to_string()), true));
    let download = granted(drive(gateway().get_object("avatars/42.png".to_string()), true));
    assert_ne!(upload, download);
}

#[test]
fn a_key_that_the_backend_refuses_fails_the_signing() {
    assert!(matches!(
        drive(gateway().create_upload_url(String::new()), true),
        Action::Fail(GatewayError::Signing)
    ));
}

#[test]
fn upload_using_url() {
    let url = granted(drive(gateway().create_upload_url("test.png".to_string()), true));
    assert!(url.contains("test.png"), "{}", url);
    assert!(url.contains("x-id=PutObject"), "{}", url);
}

#[test]
fn send_directly() {
    assert!(matches!(drive(gateway().send("teste.txt".to_string()), true), Action::Stored));
}
