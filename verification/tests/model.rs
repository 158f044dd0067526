use agnetd::api_error::ApiError;
use agnetd::model::{
    execute, list_models, push_model, remove_model, show_model, ModelCommands, ModelInfo, ModelRegistry,
    ModelsQuery, PushModelRequest,
};
use agnetd::output::Output;

fn push(reg: &mut ModelRegistry, name: &str) {
    execute(&ModelCommands::Push { path: "/tmp/m.gguf".to_string(), name: name.to_string() }, reg).unwrap();
}

#[test]
fn show_not_found() {
    let mut reg = ModelRegistry::new();
    assert!(execute(&ModelCommands::Show { model_id: "neunode/missing".to_string() }, &mut reg).is_err());
}

#[test]
fn list_empty_db() {
    let mut reg = ModelRegistry::new();
    let out = execute(&ModelCommands::List { provider: None }, &mut reg).unwrap();
    assert!(matches!(&out[0], Output::Status(m) if m == "No models registered — use `agnetd model push` to add one"));
}

#[test]
fn push_and_show() {
    let mut reg = ModelRegistry::new();
    push(&mut reg, "neunode/test-push");
    let out = execute(&ModelCommands::Show { model_id: "neunode/test-push".to_string() }, &mut reg).unwrap();
    match &out[0] {
        Output::Pairs(p) => {
            assert_eq!(p[0].1, "neunode/test-push");
            assert_eq!(p[1].1, "—");
            assert_eq!(p[2].1, "4096");
            assert_eq!(p[5].1, "300 nCompute");
            assert_eq!(p[6].1, "chat");
        }
        _ => panic!("expected pairs"),
    }
}

#[test]
fn push_list_and_rm() {
    let mut reg = ModelRegistry::new();
    push(&mut reg, "neunode/model-a");
    push(&mut reg, "neunode/model-b");
    assert_eq!(reg.models().len(), 2);
    execute(&ModelCommands::Rm { model_id: "neunode/model-a".to_string() }, &mut reg).unwrap();
    assert_eq!(reg.models().len(), 1);
    assert_eq!(reg.models()[0].id, "neunode/model-b");
}

#[test]
fn rm_not_found() {
    let mut reg = ModelRegistry::new();
    let e = execute(&ModelCommands::Rm { model_id: "neunode/nonexistent".to_string() }, &mut reg).unwrap_err();
    assert_eq!(e, "model not found: neunode/nonexistent");
}

#[test]
fn push_twice_replaces() {
    let mut reg = ModelRegistry::new();
    push(&mut reg, "m");
    push(&mut reg, "m");
    assert_eq!(reg.models().len(), 1);
}

#[test]
fn list_with_filter_no_match() {
    let mut reg = ModelRegistry::new();
    push(&mut reg, "neunode/a");
    let out = execute(&ModelCommands::List { provider: Some("nonexistent".to_string()) }, &mut reg).unwrap();
    assert!(matches!(&out[0], Output::Status(m) if m == "No models found matching filter"));
    let out = execute(&ModelCommands::List { provider: Some("neu".to_string()) }, &mut reg).unwrap();
    match &out[0] {
        Output::Table { rows, .. } => assert_eq!(rows[0][3], "100 nCompute"),
        _ => panic!("expected a table"),
    }
}

#[test]
fn registry_from_stored_models() {
    let m = |id: &str, ctx: u32| ModelInfo {
        id: id.to_string(),
        base_model: Some("meta-llama/Llama-3.2-3B".to_string()),
        context_length: ctx,
        input_price_per_million: 150,
        output_price_per_million: 300,
        capabilities: vec!["chat".to_string(), "streaming".to_string()],
    };
    let reg = ModelRegistry::from_models(&vec![m("x", 1), m("y", 2), m("x", 3)]);
    assert_eq!(reg.models().len(), 2);
    assert_eq!(reg.get("x").unwrap().context_length, 3);
    assert!(reg.get("z").is_none());
}

#[test]
fn api_push_show_remove() {
    let mut reg = ModelRegistry::new();
    assert!(matches!(push_model(&mut reg, &PushModelRequest { path: "p".to_string(), name: "".to_string() }), Err(ApiError::BadRequest(m)) if m == "model name cannot be empty"));
    assert!(matches!(push_model(&mut reg, &PushModelRequest { path: "".to_string(), name: "n".to_string() }), Err(ApiError::BadRequest(m)) if m == "model path cannot be empty"));
    let r = push_model(&mut reg, &PushModelRequest { path: "p".to_string(), name: "n".to_string() }).ok().unwrap();
    assert_eq!(r.status, "registered");
    let shown = show_model(&reg, "n").ok().unwrap();
    assert_eq!(shown.total_price_per_million, 300);
    assert_eq!(list_models(&reg, &ModelsQuery { provider: Some("zz".to_string()) }).len(), 0);
    assert_eq!(list_models(&reg, &ModelsQuery { provider: None }).len(), 1);
    assert_eq!(remove_model(&mut reg, "n").ok().unwrap().status, "removed");
    assert!(matches!(remove_model(&mut reg, "n"), Err(ApiError::NotFound(m)) if m == "model not found: n"));
}

#[test]
fn rm_missing_leaves_registry_as_is() {
    let mut reg = ModelRegistry::new();
    push(&mut reg, "neunode/model-a");
    let e = execute(&ModelCommands::Rm { model_id: "neunode/other".to_string() }, &mut reg).unwrap_err();
    assert_eq!(e, "model not found: neunode/other");
    assert_eq!(reg.models().len(), 1);
    assert_eq!(reg.models()[0].id, "neunode/model-a");
}
