use metagate_menu::dispatch::CommandRegistry;
use metagate_menu::dispatch::DispatchError;

type Handler = fn(Option<String>) -> Result<String, String>;

fn started(_arg: Option<String>) -> Result<String, String> {
    Ok("{\"status\":\"started\"}".to_string())
}

fn first(_arg: Option<String>) -> Result<String, String> {
    Ok("first".to_string())
}

fn second(_arg: Option<String>) -> Result<String, String> {
    Ok("second".to_string())
}

fn failing(_arg: Option<String>) -> Result<String, String> {
    Err("training backend unavailable".to_string())
}

fn echo(arg: Option<String>) -> Result<String, String> {
    Ok(arg.unwrap_or_else(|| "no payload".to_string()))
}

#[test]
fn register_then_invoke_returns_handler_result() {
    let mut reg: CommandRegistry<Handler> = CommandRegistry::new();
    reg.register("train_model", started);
    let r = reg.invoke("train_model", None);
    assert_eq!(r.unwrap(), "{\"status\":\"started\"}");
}

#[test]
fn last_registration_wins() {
    let mut reg: CommandRegistry<Handler> = CommandRegistry::new();
    reg.register("train_model", first);
    let r = reg.invoke("train_model", None);
    assert_eq!(r.unwrap(), "first");
    reg.register("train_model", second);
    let r = reg.invoke("train_model", None);
    assert_eq!(r.unwrap(), "second");
}

#[test]
fn unknown_identifier_is_command_not_found() {
    let mut reg: CommandRegistry<Handler> = CommandRegistry::new();
    reg.register("train_model", started);
    let r = reg.invoke("nonexistent_command", None);
    assert!(matches!(r, Err(DispatchError::CommandNotFound)));
}

#[test]
fn empty_registry_finds_nothing() {
    let reg: CommandRegistry<Handler> = CommandRegistry::new();
    let r = reg.invoke("train_model", None);
    assert!(matches!(r, Err(DispatchError::CommandNotFound)));
    assert!(reg.lookup("train_model").is_none());
}

#[test]
fn handler_failure_passes_through_unchanged() {
    let mut reg: CommandRegistry<Handler> = CommandRegistry::new();
    reg.register("train_model", failing);
    match reg.invoke("train_model", None) {
        Err(DispatchError::HandlerFailure(msg)) => {
            assert_eq!(msg, "training backend unavailable");
        }
        other => panic!("expected the handler's own failure, got {:?}", other),
    }
}

#[test]
fn argument_payload_reaches_the_handler() {
    let mut reg: CommandRegistry<Handler> = CommandRegistry::new();
    reg.register("run_pipeline", echo);
    let r = reg.invoke("run_pipeline", Some("pipeline-7".to_string()));
    assert_eq!(r.unwrap(), "pipeline-7");
    let r = reg.invoke("run_pipeline", None);
    assert_eq!(r.unwrap(), "no payload");
}

#[test]
fn lookup_returns_the_registered_handler() {
    let mut reg: CommandRegistry<Handler> = CommandRegistry::new();
    reg.register("deploy_model", started);
    let h = reg.lookup("deploy_model").expect("handler registered");
    assert_eq!(h(None).unwrap(), "{\"status\":\"started\"}");
    assert!(reg.lookup("deploy_model_v2").is_none());
}

#[test]
fn registrations_for_distinct_identifiers_are_independent() {
    let mut reg: CommandRegistry<Handler> = CommandRegistry::new();
    reg.register("train_model", started);
    reg.register("view_logs", failing);
    assert_eq!(reg.invoke("train_model", None).unwrap(), "{\"status\":\"started\"}");
    assert!(matches!(
        reg.invoke("view_logs", None),
        Err(DispatchError::HandlerFailure(_))
    ));
}
