use qrmi::api_error::ApiError;
use qrmi::error::{QrmiError, QrmiErrorKind};
use qrmi::pasqal::{
    classify_cloud, classify_local, classify_status, PasqalError, ResourceKind, StatusClass,
};
use qrmi::status::HttpStatus;

fn api(status: u16, body: &str) -> ApiError {
    ApiError {
        status: HttpStatus::from_u16(status).unwrap(),
        body: body.to_string(),
    }
}

fn err(status: u16, body: &str) -> (anyhow::Error, Option<ApiError>) {
    let a = api(status, body);
    (anyhow::Error::msg(a.to_text()), Some(a))
}

fn cloud(status: u16, body: &str, kind: ResourceKind) -> QrmiError {
    let (e, a) = err(status, body);
    classify_cloud(e, a, kind)
}

#[test]
fn classify_cloud_maps_known_statuses() {
    assert_eq!(
        cloud(400, "bad", ResourceKind::Backend).kind(),
        QrmiErrorKind::InvalidInput
    );
    assert_eq!(
        cloud(422, "bad", ResourceKind::Backend).kind(),
        QrmiErrorKind::InvalidInput
    );
    assert_eq!(
        cloud(401, "no", ResourceKind::Backend).kind(),
        QrmiErrorKind::AuthenticationFailed
    );
    assert_eq!(
        cloud(404, "gone", ResourceKind::Backend).kind(),
        QrmiErrorKind::ResourceNotFound
    );
    assert_eq!(
        cloud(404, "gone", ResourceKind::Job).kind(),
        QrmiErrorKind::TaskNotFound
    );
    assert_eq!(
        cloud(403, "nope", ResourceKind::Backend).kind(),
        QrmiErrorKind::Other
    );
}

#[test]
fn classify_cloud_falls_back_to_other_for_non_api_errors() {
    let err = anyhow::Error::msg("connection reset");
    assert_eq!(
        classify_cloud(err, None, ResourceKind::Backend).kind(),
        QrmiErrorKind::Other
    );
}

#[test]
fn classify_local_maps_known_statuses() {
    let (e, a) = err(404, "job not found");
    assert_eq!(
        classify_local(e, a, ResourceKind::Job).kind(),
        QrmiErrorKind::TaskNotFound
    );
}

#[test]
fn classified_error_carries_the_body() {
    match cloud(400, "bad sequence", ResourceKind::Job) {
        QrmiError::InvalidInput(m) => assert_eq!(m, "bad sequence"),
        other => panic!("unexpected {:?}", other),
    }
    match cloud(401, "bad token", ResourceKind::Job) {
        QrmiError::AuthenticationFailed(m) => assert_eq!(m, "bad token"),
        other => panic!("unexpected {:?}", other),
    }
    match cloud(404, "no such device", ResourceKind::Backend) {
        QrmiError::ResourceNotFound(m) => assert_eq!(m, "no such device"),
        other => panic!("unexpected {:?}", other),
    }
    let (e, a) = err(404, "no such job");
    match classify_local(e, a, ResourceKind::Job) {
        QrmiError::TaskNotFound(m) => assert_eq!(m, "no such job"),
        other => panic!("unexpected {:?}", other),
    }
}

#[test]
fn unclassified_failure_keeps_its_source() {
    match cloud(403, "nope", ResourceKind::Backend) {
        QrmiError::Other(source) => {
            assert_eq!(source.to_string(), "status 403 Forbidden: nope")
        }
        other => panic!("unexpected {:?}", other),
    }
    let err = anyhow::Error::msg("connection reset");
    match classify_local(err, None, ResourceKind::Job) {
        QrmiError::Other(source) => assert_eq!(source.to_string(), "connection reset"),
        other => panic!("unexpected {:?}", other),
    }
    match cloud(500, "boom", ResourceKind::Job) {
        QrmiError::Other(source) => {
            assert_eq!(source.to_string(), "status 500 Internal Server Error: boom")
        }
        other => panic!("unexpected {:?}", other),
    }
}

#[test]
fn local_and_cloud_classify_alike() {
    for status in [200u16, 400, 401, 403, 404, 409, 422, 500, 503] {
        for kind in [ResourceKind::Backend, ResourceKind::Job] {
            let (e1, a1) = err(status, "x");
            let (e2, a2) = err(status, "x");
            assert_eq!(
                classify_cloud(e1, a1, kind).kind(),
                classify_local(e2, a2, kind).kind()
            );
        }
    }
}

#[test]
fn resource_kind_matters_only_for_not_found() {
    for status in [100u16, 200, 400, 401, 403, 422, 500, 999] {
        assert_eq!(
            classify_status(status, ResourceKind::Backend),
            classify_status(status, ResourceKind::Job)
        );
    }
    assert_eq!(
        classify_status(404, ResourceKind::Backend),
        Some(StatusClass::ResourceNotFound)
    );
    assert_eq!(
        classify_status(404, ResourceKind::Job),
        Some(StatusClass::TaskNotFound)
    );
    assert_eq!(classify_status(403, ResourceKind::Job), None);
}

#[test]
fn pasqal_errors_are_invalid_input() {
    let e = PasqalError::InvalidDeviceType("FOO".to_string());
    assert_eq!(e.kind(), QrmiErrorKind::InvalidInput);
    let q: QrmiError = e.into();
    assert_eq!(q.kind(), QrmiErrorKind::InvalidInput);
    let e = PasqalError::InvalidCudaqSequence("eof".to_string());
    assert_eq!(e.kind(), QrmiErrorKind::InvalidInput);
    let q = QrmiError::from(e);
    assert_eq!(q.kind(), QrmiErrorKind::InvalidInput);
    assert!(matches!(q, QrmiError::Pasqal(PasqalError::InvalidCudaqSequence(_))));
}

#[test]
fn pasqal_error_messages() {
    assert_eq!(
        PasqalError::InvalidDeviceType("unknown device type FOO".to_string()).to_text(),
        "unknown device type FOO"
    );
    assert_eq!(
        PasqalError::InvalidCudaqSequence("expected value at line 1".to_string()).to_text(),
        "failed to parse CUDA-Q sequence payload: expected value at line 1"
    );
}

#[test]
fn status_class_builds_matching_error() {
    let e = StatusClass::ResourceNotFound.into_error("gone".to_string());
    assert_eq!(e.kind(), QrmiErrorKind::ResourceNotFound);
    let e = StatusClass::TaskNotFound.into_error("gone".to_string());
    assert_eq!(e.kind(), QrmiErrorKind::TaskNotFound);
}
