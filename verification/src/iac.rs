//! A function-like macro that provisions cloud infrastructure at compile
//! time: an optional lambda function, an optional bucket, and, when the
//! bucket asks for an event, the permission and the notification that link
//! the bucket to the lambda.
//!
//! The library decides what is requested and in which order; the macro's
//! front end performs each request and reports back.

use vstd::prelude::*;
use crate::error::{is_compile_error, MacroError, Site};
use crate::tokens::views;

verus! {

/// The bucket to create.
#[derive(Debug)]
pub struct Bucket {
    pub name: String,
    /// Whether the bucket notifies the lambda of new objects.
    pub has_event: bool,
}

/// The lambda function to create.
#[derive(Debug)]
pub struct Lambda {
    pub name: String,
    /// Memory in megabytes, when given.
    pub memory: Option<u16>,
    /// Timeout in seconds, when given.
    pub timeout: Option<u16>,
}

/// What the macro was asked to provision.
#[derive(Debug)]
pub struct IacInput {
    pub bucket: Option<Bucket>,
    pub lambda: Option<Lambda>,
}

impl IacInput {
    /// Something is to be provisioned.
    pub open spec fn spec_has_resources(self) -> bool {
        self.bucket is Some || self.lambda is Some
    }

    /// Whether anything is to be provisioned.
    pub fn has_resources(&self) -> (res: bool)
        ensures
            res == self.spec_has_resources(),
    {
        self.bucket.is_some() || self.lambda.is_some()
    }
}

/// Why provisioning failed, with the service's description of the failure.
#[derive(Debug)]
pub enum IacError {
    BucketError(String),
    LambdaError(String),
    EventError(String),
}

/// The message the compiler shows for an error.
pub open spec fn iac_error_message(e: IacError) -> Seq<char> {
    match e {
        IacError::BucketError(m) => "bucket could not be created: "@ + m@,
        IacError::LambdaError(m) => "lambda could not be created: "@ + m@,
        IacError::EventError(m) => "event to link bucket and lambda could not be created: "@ + m@,
    }
}

impl IacError {
    /// The error's message.
    pub fn message(&self) -> (res: String)
        ensures
            res@ == iac_error_message(*self),
    {
        let (prefix, m) = match self {
            IacError::BucketError(m) => ("bucket could not be created: ", m),
            IacError::LambdaError(m) => ("lambda could not be created: ", m),
            IacError::EventError(m) => ("event to link bucket and lambda could not be created: ", m),
        };
        let mut s = String::from_str(prefix);
        s.append(m.as_str());
        s
    }

    /// The error as code: a `compile_error!` with its message.
    pub fn into_compile_error(self) -> (res: String)
        ensures
            is_compile_error(res@, iac_error_message(self)),
    {
        let e = MacroError::new(Site::CallSite, self.message());
        let out = e.to_compile_error();
        proof {
            crate::error::lemma_one_message(out@, views(e.messages@));
        }
        out
    }

    /// The error's display text, the same for every error.
    pub fn to_string(&self) -> (res: String)
        ensures
            res@ == "retrieval error"@,
    {
        String::from_str("retrieval error")
    }
}

/// The request that creates the lambda function.
#[derive(Debug)]
pub struct LambdaRequest {
    pub function_name: String,
    pub role: String,
    pub s3_bucket: String,
    pub s3_key: String,
    /// The runtime's identifier.
    pub runtime: String,
    pub handler: String,
    pub timeout: Option<i32>,
    pub memory_size: Option<i32>,
}

/// The request that lets the bucket invoke the lambda.
#[derive(Debug)]
pub struct PermissionRequest {
    pub function_name: String,
    pub principal: String,
    pub statement_id: String,
    pub action: String,
    pub source_arn: String,
}

/// The request for a lambda: its name, the fixed role, code location,
/// runtime and handler, and its timeout and memory when given.
pub fn create_lambda_builder(lambda: &Lambda) -> (res: LambdaRequest)
    ensures
        res.function_name@ == lambda.name@,
        res.role@ == "arn:aws:iam:2624382231998:role/lambda-basic-permissions-role"@,
        res.s3_bucket@ == "lambda-sam-van-overmeire"@,
        res.s3_key@ == "example.zip"@,
        res.runtime@ == "nodejs18.x"@,
        res.handler@ == "handler.handler"@,
        res.timeout == (match lambda.timeout {
            Some(t) => Some(t as i32),
            None => None::<i32>,
        }),
        res.memory_size == (match lambda.memory {
            Some(m) => Some(m as i32),
            None => None::<i32>,
        }),
{
    let timeout = match lambda.timeout {
        Some(t) => Some(t as i32),
        None => None,
    };
    let memory_size = match lambda.memory {
        Some(m) => Some(m as i32),
        None => None,
    };
    LambdaRequest {
        function_name: lambda.name.clone(),
        role: String::from_str("arn:aws:iam:2624382231998:role/lambda-basic-permissions-role"),
        s3_bucket: String::from_str("lambda-sam-van-overmeire"),
        s3_key: String::from_str("example.zip"),
        runtime: String::from_str("nodejs18.x"),
        handler: String::from_str("handler.handler"),
        timeout,
        memory_size,
    }
}

/// The request that lets any principal invoke the lambda from the bucket.
pub fn bucket_permission_request(lambda: &Lambda, bucket_name: &str) -> (res: PermissionRequest)
    ensures
        res.function_name@ == lambda.name@,
        res.principal@ == "*"@,
        res.statement_id@ == "StatementId"@,
        res.action@ == "lambda:InvokeFunction"@,
        res.source_arn@ == "arn:aws:s3:::"@ + bucket_name@,
{
    let mut source_arn = String::from_str("arn:aws:s3:::");
    source_arn.append(bucket_name);
    PermissionRequest {
        function_name: lambda.name.clone(),
        principal: String::from_str("*"),
        statement_id: String::from_str("StatementId"),
        action: String::from_str("lambda:InvokeFunction"),
        source_arn,
    }
}

/// Where a provisioning run stands.
#[derive(Debug)]
pub enum InfraState {
    /// Nothing requested yet.
    Start,
    /// The lambda has been requested.
    AwaitLambda,
    /// The bucket has been requested; the lambda's ARN, when one was created.
    AwaitBucket { lambda_arn: Option<String> },
    /// The permission has been requested; the lambda's ARN.
    AwaitPermission { arn: String },
    /// The bucket's notification has been requested.
    AwaitLink,
    /// The run is over.
    Finished,
}

/// What the front end reports after performing the last action.
#[derive(Debug)]
pub enum InfraEvent {
    /// The run begins.
    Started,
    /// The lambda exists; its ARN, when the service returned one.
    LambdaCreated(Option<String>),
    BucketCreated,
    PermissionAdded,
    Linked,
    /// The last request failed, with the service's description.
    Failed(String),
}

/// What the front end is to do next.
#[derive(Debug)]
pub enum InfraAction {
    CreateLambda,
    CreateBucket,
    AddBucketPermission,
    /// Notify the lambda with this ARN of the bucket's new objects.
    LinkBucketWithLambda(String),
    /// Stop, with the run's outcome.
    Done(Result<(), IacError>),
}

/// The event answers the action the state stands for.
pub open spec fn event_expected(state: InfraState, event: InfraEvent) -> bool {
    match state {
        InfraState::Start => event is Started,
        InfraState::AwaitLambda => event is LambdaCreated || event is Failed,
        InfraState::AwaitBucket { .. } => event is BucketCreated || event is Failed,
        InfraState::AwaitPermission { .. } => event is PermissionAdded || event is Failed,
        InfraState::AwaitLink => event is Linked || event is Failed,
        InfraState::Finished => false,
    }
}

/// The bucket to create notifies the lambda.
pub open spec fn asks_event(input: IacInput) -> bool {
    input.bucket matches Some(b) && b.has_event
}

/// The run can go on from here: when the bucket is created and asks for an
/// event, a lambda was created and its ARN is known.
pub open spec fn step_defined(input: IacInput, state: InfraState, event: InfraEvent) -> bool {
    &&& event_expected(state, event)
    &&& (state is AwaitBucket && event is BucketCreated && asks_event(input)) ==> state->lambda_arn is Some
}

/// The step after the bucket question: create the bucket if one is asked
/// for, else finish.
pub open spec fn bucket_or_done(input: IacInput, arn: Option<String>) -> (InfraState, InfraAction) {
    if input.bucket is Some {
        (InfraState::AwaitBucket { lambda_arn: arn }, InfraAction::CreateBucket)
    } else {
        (InfraState::Finished, InfraAction::Done(Ok(())))
    }
}

/// The next state and action: the lambda first, then the bucket, then, for
/// a bucket with an event, the permission and the notification; the first
/// failure ends the run with the error of the step that failed.
pub open spec fn spec_step(input: IacInput, state: InfraState, event: InfraEvent) -> (InfraState, InfraAction) {
    match (state, event) {
        (InfraState::Start, _) => if input.lambda is Some {
            (InfraState::AwaitLambda, InfraAction::CreateLambda)
        } else {
            bucket_or_done(input, None)
        },
        (InfraState::AwaitLambda, InfraEvent::LambdaCreated(arn)) => bucket_or_done(input, arn),
        (InfraState::AwaitLambda, InfraEvent::Failed(m)) => (
            InfraState::Finished,
            InfraAction::Done(Err(IacError::LambdaError(m))),
        ),
        (InfraState::AwaitBucket { lambda_arn: arn }, InfraEvent::BucketCreated) => if asks_event(input) {
            (InfraState::AwaitPermission { arn: arn->Some_0 }, InfraAction::AddBucketPermission)
        } else {
            (InfraState::Finished, InfraAction::Done(Ok(())))
        },
        (InfraState::AwaitBucket { .. }, InfraEvent::Failed(m)) => (
            InfraState::Finished,
            InfraAction::Done(Err(IacError::BucketError(m))),
        ),
        (InfraState::AwaitPermission { arn }, InfraEvent::PermissionAdded) => (
            InfraState::AwaitLink,
            InfraAction::LinkBucketWithLambda(arn),
        ),
        (InfraState::AwaitPermission { .. }, InfraEvent::Failed(m)) => (
            InfraState::Finished,
            InfraAction::Done(Err(IacError::EventError(m))),
        ),
        (InfraState::AwaitLink, InfraEvent::Linked) => (InfraState::Finished, InfraAction::Done(Ok(()))),
        (InfraState::AwaitLink, InfraEvent::Failed(m)) => (
            InfraState::Finished,
            InfraAction::Done(Err(IacError::EventError(m))),
        ),
        _ => (InfraState::Finished, InfraAction::Done(Ok(()))),
    }
}

/// Each error's message names what could not be created and then gives the
/// service's description of the failure.
pub proof fn error_messages_name_the_failed_step(m: String)
    ensures
        iac_error_message(IacError::BucketError(m)) == "bucket could not be created: "@ + m@,
        iac_error_message(IacError::LambdaError(m)) == "lambda could not be created: "@ + m@,
        iac_error_message(IacError::EventError(m)) == "event to link bucket and lambda could not be created: "@ + m@,
{
}

/// A failed request ends the run with the error of the step that failed:
/// the lambda's, the bucket's, or, for the permission and the notification,
/// the event's.
pub proof fn failure_ends_the_run(input: IacInput, state: InfraState, message: String)
    requires
        event_expected(state, InfraEvent::Failed(message)),
    ensures
        spec_step(input, state, InfraEvent::Failed(message)).0 is Finished,
        spec_step(input, state, InfraEvent::Failed(message)).1 == InfraAction::Done(Err(match state {
            InfraState::AwaitLambda => IacError::LambdaError(message),
            InfraState::AwaitBucket { .. } => IacError::BucketError(message),
            _ => IacError::EventError(message),
        })),
{
}

/// With nothing to provision, the run ends at once, successfully.
pub proof fn nothing_to_provision_does_nothing(input: IacInput)
    requires
        !input.spec_has_resources(),
    ensures
        spec_step(input, InfraState::Start, InfraEvent::Started) == (InfraState::Finished, InfraAction::Done(Ok(()))),
{
}

/// Whenever a lambda is asked for, it is requested before anything else,
/// whether or not a bucket is asked for; once it exists, the bucket is
/// requested next when there is one, and otherwise the run ends
/// successfully. Without a lambda the run starts with the bucket.
pub proof fn lambda_comes_first(input: IacInput, arn: Option<String>)
    ensures
        input.lambda is Some ==> spec_step(input, InfraState::Start, InfraEvent::Started) == (
            InfraState::AwaitLambda,
            InfraAction::CreateLambda,
        ),
        input.bucket is Some ==> spec_step(input, InfraState::AwaitLambda, InfraEvent::LambdaCreated(arn))
            == (InfraState::AwaitBucket { lambda_arn: arn }, InfraAction::CreateBucket),
        input.bucket is None ==> spec_step(input, InfraState::AwaitLambda, InfraEvent::LambdaCreated(arn))
            == (InfraState::Finished, InfraAction::Done(Ok(()))),
        input.lambda is None && input.bucket is Some ==> spec_step(input, InfraState::Start, InfraEvent::Started)
            == (InfraState::AwaitBucket { lambda_arn: None }, InfraAction::CreateBucket),
{
}

/// A bucket without an event ends the run once it exists; with an event,
/// the permission is requested next, then the notification for the
/// lambda's ARN, and the run ends once both exist.
pub proof fn bucket_event_links_bucket_and_lambda(input: IacInput, arn: String)
    requires
        input.bucket is Some,
    ensures
        !asks_event(input) ==> spec_step(input, InfraState::AwaitBucket { lambda_arn: Some(arn) }, InfraEvent::BucketCreated)
            == (InfraState::Finished, InfraAction::Done(Ok(()))),
        asks_event(input) ==> spec_step(input, InfraState::AwaitBucket { lambda_arn: Some(arn) }, InfraEvent::BucketCreated)
            == (InfraState::AwaitPermission { arn }, InfraAction::AddBucketPermission),
        spec_step(input, InfraState::AwaitPermission { arn }, InfraEvent::PermissionAdded)
            == (InfraState::AwaitLink, InfraAction::LinkBucketWithLambda(arn)),
        spec_step(input, InfraState::AwaitLink, InfraEvent::Linked) == (InfraState::Finished, InfraAction::Done(Ok(()))),
{
}

/// The step after the bucket question.
fn bucket_or_done_exec(input: &IacInput, arn: Option<String>) -> (res: (InfraState, InfraAction))
    ensures
        res == bucket_or_done(*input, arn),
{
    if input.bucket.is_some() {
        (InfraState::AwaitBucket { lambda_arn: arn }, InfraAction::CreateBucket)
    } else {
        (InfraState::Finished, InfraAction::Done(Ok(())))
    }
}

/// Decides the next state and action of a provisioning run from the
/// current state and what the front end reports.
pub fn create_infra(input: &IacInput, state: InfraState, event: InfraEvent) -> (res: (InfraState, InfraAction))
    requires
        step_defined(*input, state, event),
    ensures
        res == spec_step(*input, state, event),
{
    match (state, event) {
        (InfraState::Start, _) => {
            if input.lambda.is_some() {
                (InfraState::AwaitLambda, InfraAction::CreateLambda)
            } else {
                bucket_or_done_exec(input, None)
            }
        },
        (InfraState::AwaitLambda, InfraEvent::LambdaCreated(arn)) => bucket_or_done_exec(input, arn),
        (InfraState::AwaitLambda, InfraEvent::Failed(m)) => (
            InfraState::Finished,
            InfraAction::Done(Err(IacError::LambdaError(m))),
        ),
        (InfraState::AwaitBucket { lambda_arn: arn }, InfraEvent::BucketCreated) => {
            let has_event = match &input.bucket {
                Some(b) => b.has_event,
                None => false,
            };
            if has_event {
                match arn {
                    Some(a) => (InfraState::AwaitPermission { arn: a }, InfraAction::AddBucketPermission),
                    None => vstd::pervasive::unreached(),
                }
            } else {
                (InfraState::Finished, InfraAction::Done(Ok(())))
            }
        },
        (InfraState::AwaitBucket { .. }, InfraEvent::Failed(m)) => (
            InfraState::Finished,
            InfraAction::Done(Err(IacError::BucketError(m))),
        ),
        (InfraState::AwaitPermission { arn }, InfraEvent::PermissionAdded) => (
            InfraState::AwaitLink,
            InfraAction::LinkBucketWithLambda(arn),
        ),
        (InfraState::AwaitPermission { .. }, InfraEvent::Failed(m)) => (
            InfraState::Finished,
            InfraAction::Done(Err(IacError::EventError(m))),
        ),
        (InfraState::AwaitLink, InfraEvent::Linked) => (InfraState::Finished, InfraAction::Done(Ok(()))),
        (InfraState::AwaitLink, InfraEvent::Failed(m)) => (
            InfraState::Finished,
            InfraAction::Done(Err(IacError::EventError(m))),
        ),
        _ => (InfraState::Finished, InfraAction::Done(Ok(()))),
    }
}

} // verus!
