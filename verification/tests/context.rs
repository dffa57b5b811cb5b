use rtlambda::data::context::{
    LambdaContext, RefLambdaContext, DEADLINE_PASSED, MISSING_DEADLINE, NANOS_PER_MILLI,
};
use rtlambda::data::env::LambdaRuntimeEnv;
use rtlambda::backends::ureq::UreqResponse;
use rtlambda::error::Error;

fn context_env() -> LambdaRuntimeEnv {
    let vars: Vec<(String, String)> = [
        ("AWS_LAMBDA_FUNCTION_NAME", "echo"),
        ("AWS_LAMBDA_FUNCTION_VERSION", "7"),
        ("AWS_LAMBDA_FUNCTION_MEMORY_SIZE", "512"),
        ("AWS_LAMBDA_LOG_GROUP_NAME", "group"),
        ("AWS_LAMBDA_LOG_STREAM_NAME", "stream"),
    ]
    .iter()
    .map(|(k, v)| (k.to_string(), v.to_string()))
    .collect();
    LambdaRuntimeEnv::from_env(&vars)
}

fn event_reply(deadline: Option<u64>) -> UreqResponse {
    UreqResponse::from_parts(
        200,
        Some("{}".to_string()),
        Some("req-7".to_string()),
        deadline,
        Some("arn:aws:lambda:function:echo".to_string()),
        None,
        Some("client".to_string()),
        Some("identity".to_string()),
    )
}

#[test]
fn context_reads_event_and_environment() {
    let env = context_env();
    let reply = event_reply(Some(1_700_000_000_000));
    let ctx = RefLambdaContext { env_vars: &env, invo_resp: &reply };
    assert_eq!(ctx.get_deadline(), Some(1_700_000_000_000));
    assert_eq!(ctx.invoked_function_arn(), Some("arn:aws:lambda:function:echo"));
    assert_eq!(ctx.aws_request_id(), Some("req-7"));
    assert_eq!(ctx.function_name(), Some("echo"));
    assert_eq!(ctx.function_version(), Some("7"));
    assert_eq!(ctx.memory_limit_in_mb(), Some(512));
    assert_eq!(ctx.log_group_name(), Some("group"));
    assert_eq!(ctx.log_stream_name(), Some("stream"));
    assert_eq!(ctx.cognito_identity(), Some("identity"));
    assert_eq!(ctx.client_context(), Some("client"));
}

#[test]
fn remaining_time_is_deadline_minus_now() {
    let env = context_env();
    let reply = event_reply(Some(1000));
    let ctx = RefLambdaContext { env_vars: &env, invo_resp: &reply };
    assert_eq!(NANOS_PER_MILLI, 1_000_000);
    assert_eq!(ctx.remaining_time_at(Ok(400_000_000)), Ok(600_000_000));
    assert_eq!(ctx.remaining_time_at(Ok(999_999_999)), Ok(1));
    assert_eq!(ctx.remaining_time_at(Ok(0)), Ok(1_000_000_000));
}

#[test]
fn remaining_time_at_the_deadline_is_zero() {
    let env = context_env();
    let reply = event_reply(Some(1000));
    let ctx = RefLambdaContext { env_vars: &env, invo_resp: &reply };
    assert_eq!(ctx.remaining_time_at(Ok(1_000_000_000)), Ok(0));
}

#[test]
fn remaining_time_fails_after_the_deadline() {
    let env = context_env();
    let reply = event_reply(Some(1000));
    let ctx = RefLambdaContext { env_vars: &env, invo_resp: &reply };
    assert_eq!(DEADLINE_PASSED, "Duration error");
    assert_eq!(
        ctx.remaining_time_at(Ok(1_000_000_001)),
        Err(Error::new("Duration error".to_string()))
    );
    assert_eq!(
        ctx.remaining_time_at(Ok(u128::MAX)),
        Err(Error::new("Duration error".to_string()))
    );
}

#[test]
fn remaining_time_of_the_largest_deadline() {
    let env = context_env();
    let reply = event_reply(Some(u64::MAX));
    let ctx = RefLambdaContext { env_vars: &env, invo_resp: &reply };
    assert_eq!(ctx.remaining_time_at(Ok(0)), Ok(18_446_744_073_709_551_615_000_000u128));
}

#[test]
fn remaining_time_fails_without_a_deadline() {
    let env = context_env();
    let reply = event_reply(None);
    let ctx = RefLambdaContext { env_vars: &env, invo_resp: &reply };
    assert_eq!(MISSING_DEADLINE, "Missing deadline info");
    let missing = Err(Error::new("Missing deadline info".to_string()));
    assert_eq!(ctx.remaining_time_at(Ok(0)), missing);
    assert_eq!(ctx.remaining_time_at(Ok(u128::MAX)), missing);
    assert_eq!(ctx.remaining_time_at(Err("clock went backwards".to_string())), missing);
    assert_eq!(ctx.get_remaining_time_ms(), missing);
}

#[test]
fn remaining_time_reports_a_failing_clock() {
    let env = context_env();
    let reply = event_reply(Some(1000));
    let ctx = RefLambdaContext { env_vars: &env, invo_resp: &reply };
    assert_eq!(
        ctx.remaining_time_at(Err("clock went backwards".to_string())),
        Err(Error::new("clock went backwards".to_string()))
    );
}

#[test]
fn remaining_time_by_the_clock() {
    let env = context_env();
    let past = event_reply(Some(1));
    let ctx = RefLambdaContext { env_vars: &env, invo_resp: &past };
    assert_eq!(ctx.get_remaining_time_ms(), Err(Error::new("Duration error".to_string())));
    let far = event_reply(Some(u64::MAX));
    let ctx = RefLambdaContext { env_vars: &env, invo_resp: &far };
    let left = ctx.get_remaining_time_ms().unwrap();
    assert!(left > 0);
    assert!(left < (u64::MAX as u128) * 1_000_000);
}
