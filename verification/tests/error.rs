use duners::error::{DuneError, DuneRequestError};

#[test]
fn error_parsing() {
    let err = reqwest::Client::new().get("invalid-url").build().unwrap_err();
    assert_eq!(
        DuneRequestError::from(err),
        DuneRequestError::Request("builder error".to_string())
    );
    assert_eq!(
        DuneRequestError::from(DuneError {
            error: "broken".to_string()
        }),
        DuneRequestError::Dune("broken".to_string())
    )
}

#[test]
fn error_derive_debug() {
    assert_eq!(
        format!(
            "{:?}",
            DuneError {
                error: "broken".to_string()
            }
        ),
        "DuneError { error: \"broken\" }"
    );
}

#[test]
fn service_failure_is_told_from_transport_failure() {
    let service = DuneRequestError::from(DuneError {
        error: "invalid API Key".to_string(),
    });
    assert_eq!(service, DuneRequestError::Dune("invalid API Key".to_string()));
    assert_ne!(service, DuneRequestError::Request("invalid API Key".to_string()));

    let refused = reqwest::Client::new().get("invalid-url").build().unwrap_err();
    assert!(matches!(
        DuneRequestError::from(refused),
        DuneRequestError::Request(_)
    ));
}

#[test]
fn transport_message_is_the_clients_description() {
    let refused = reqwest::Client::new().get("invalid-url").build().unwrap_err();
    let described = refused.to_string();
    assert_eq!(
        DuneRequestError::from(refused),
        DuneRequestError::Request(described)
    );
}

#[test]
fn failures_render_with_their_kind() {
    assert_eq!(
        DuneRequestError::Dune("Query not found".to_string()).to_string(),
        "Dune API error: Query not found"
    );
    assert_eq!(
        DuneRequestError::Request("builder error".to_string()).to_string(),
        "request error: builder error"
    );
    assert_eq!(
        DuneRequestError::Dune(String::new()).to_string(),
        "Dune API error: "
    );
}

#[test]
fn failures_compare_by_kind_and_message() {
    assert_eq!(
        DuneRequestError::Dune("a".to_string()),
        DuneRequestError::Dune("a".to_string())
    );
    assert_ne!(
        DuneRequestError::Dune("a".to_string()),
        DuneRequestError::Dune("b".to_string())
    );
    assert_ne!(
        DuneRequestError::Request("a".to_string()),
        DuneRequestError::Dune("a".to_string())
    );
    assert_eq!(
        format!("{:?}", DuneRequestError::Request("timeout".to_string())),
        "Request(\"timeout\")"
    );
}
