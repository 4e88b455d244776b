use macro_kit::iac::{
    bucket_permission_request, create_infra, create_lambda_builder, Bucket, IacError, IacInput,
    InfraAction, InfraEvent, InfraState, Lambda,
};

fn input(bucket: Option<bool>, lambda: bool) -> IacInput {
    IacInput {
        bucket: bucket.map(|has_event| Bucket { name: "uniquename".to_string(), has_event }),
        lambda: if lambda {
            Some(Lambda { name: "my_name".to_string(), memory: Some(1024), timeout: Some(15) })
        } else {
            None
        },
    }
}

#[test]
fn full_run_creates_and_links_everything() {
    let plan = input(Some(true), true);
    assert!(plan.has_resources());
    let (s, a) = create_infra(&plan, InfraState::Start, InfraEvent::Started);
    assert!(matches!(a, InfraAction::CreateLambda));
    let (s, a) = create_infra(&plan, s, InfraEvent::LambdaCreated(Some("arn:l".to_string())));
    assert!(matches!(a, InfraAction::CreateBucket));
    let (s, a) = create_infra(&plan, s, InfraEvent::BucketCreated);
    assert!(matches!(a, InfraAction::AddBucketPermission));
    let (s, a) = create_infra(&plan, s, InfraEvent::PermissionAdded);
    match a {
        InfraAction::LinkBucketWithLambda(arn) => assert_eq!(arn, "arn:l"),
        other => panic!("unexpected {:?}", other),
    }
    let (s, a) = create_infra(&plan, s, InfraEvent::Linked);
    assert!(matches!(s, InfraState::Finished));
    assert!(matches!(a, InfraAction::Done(Ok(()))));
}

#[test]
fn failures_stop_the_run() {
    let plan = input(Some(false), true);
    let (s, _) = create_infra(&plan, InfraState::Start, InfraEvent::Started);
    let (s, a) = create_infra(&plan, s, InfraEvent::Failed("denied".to_string()));
    assert!(matches!(s, InfraState::Finished));
    match a {
        InfraAction::Done(Err(e)) => {
            assert_eq!(e.message(), "lambda could not be created: denied");
            assert_eq!(
                e.into_compile_error(),
                "::core::compile_error! { \"lambda could not be created: denied\" } "
            );
        },
        other => panic!("unexpected {:?}", other),
    }
    let bucket_only = input(Some(false), false);
    let (s, a) = create_infra(&bucket_only, InfraState::Start, InfraEvent::Started);
    assert!(matches!(a, InfraAction::CreateBucket));
    let (_, a) = create_infra(&bucket_only, s, InfraEvent::Failed("taken".to_string()));
    assert!(matches!(a, InfraAction::Done(Err(IacError::BucketError(_)))));
    let (_, a) = create_infra(&plan, InfraState::AwaitLink, InfraEvent::Failed("x".to_string()));
    assert!(matches!(a, InfraAction::Done(Err(IacError::EventError(_)))));
}

#[test]
fn nothing_to_do_without_resources() {
    let plan = input(None, false);
    assert!(!plan.has_resources());
    let (s, a) = create_infra(&plan, InfraState::Start, InfraEvent::Started);
    assert!(matches!(s, InfraState::Finished));
    assert!(matches!(a, InfraAction::Done(Ok(()))));
}

#[test]
fn requests_carry_the_fixed_settings() {
    let lambda = Lambda { name: "my_name".to_string(), memory: Some(1024), timeout: None };
    let req = create_lambda_builder(&lambda);
    assert_eq!(req.function_name, "my_name");
    assert_eq!(req.runtime, "nodejs18.x");
    assert_eq!(req.memory_size, Some(1024));
    assert_eq!(req.timeout, None);
    let perm = bucket_permission_request(&lambda, "uniquename");
    assert_eq!(perm.source_arn, "arn:aws:s3:::uniquename");
    assert_eq!(perm.action, "lambda:InvokeFunction");
    assert_eq!(IacError::EventError("x".to_string()).to_string(), "retrieval error");
    assert_eq!(
        IacError::BucketError("b".to_string()).message(),
        "bucket could not be created: b"
    );
}
